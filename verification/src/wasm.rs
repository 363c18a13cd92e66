//! The surface for JavaScript: [`VaultCore`] and [`verify_chain`] with each error
//! turned into the text that is thrown.

use vstd::prelude::*;

use crate::capability::{head_from, is_checked, is_request, verify_chain, AuthorizeRequest};
use crate::error::{is_thrown, js_err, throw, VaultError};
use crate::json::{json_of, json_text, jsons, parsed_strings, reads_back, texts, Json};
use crate::records::{devices_json, meta_json, metas_json, Device, IssuedGrant, SecretMeta};
use crate::snapshot::{StoreEntry, StoreOp};
use crate::vault::{
    can_load, expiry_of, is_authenticated, is_exported, is_granted, is_loaded, option_text,
    VaultCore,
};

verus! {

/// A browser-side secrets vault: a [`VaultCore`] whose errors are texts.
pub struct WasmVault<V> {
    vault: VaultCore<V>,
}

/// Whether `result` is the JSON text of what the vault replied, which reads back as
/// it was written if it is readable, or the text of the vault's error.
pub open spec fn is_shown<T>(
    reply: Result<T, String>,
    json: spec_fn(T) -> Json,
    result: Result<String, String>,
) -> bool {
    match reply {
        Ok(value) => result matches Ok(text) && text@ == json_text(json(value)) && reads_back(
            json(value),
            text@,
        ),
        Err(text) => result == Err::<String, String>(text),
    }
}

impl<V> WasmVault<V> {
    /// The vault behind the surface.
    pub closed spec fn vault(&self) -> VaultCore<V> {
        self.vault
    }

    /// Opens a vault for the device key `device_json` in `ns`, which stamps its
    /// records with `now_iso`. It starts empty; seed it with
    /// [`load_snapshot`](Self::load_snapshot).
    pub fn new<F>(device_json: &str, ns: &str, now_iso: &str, open: F) -> (result: Result<
        Self,
        String,
    >) where F: FnOnce(&str, &str, &str) -> Result<V, String>
        requires
            open.requires((device_json, ns, now_iso)),
        ensures
            exists|reply: Result<V, String>| #[trigger]
                open.ensures((device_json, ns, now_iso), reply) && match reply {
                    Ok(inner) => result matches Ok(opened) && opened.vault().inner() == inner
                        && opened.vault().device_json() == device_json@ && opened.vault().ns() == ns@,
                    Err(text) => result == Err::<Self, String>(text),
                },
    {
        match VaultCore::new(device_json, ns, now_iso, open) {
            Ok(vault) => Ok(WasmVault { vault }),
            Err(error) => Err(js_err(error)),
        }
    }

    /// Generates a fresh device key, as JSON text. Persist it in the browser; it is
    /// this device's identity in the vault.
    pub fn generate_device_key<F>(generate: F) -> (result: Result<String, String>) where
        F: FnOnce() -> Result<String, String>,

        requires
            generate.requires(()),
        ensures
            generate.ensures((), result),
    {
        throw(VaultCore::<V>::generate_device_key(generate))
    }

    /// This vault's namespace.
    pub fn namespace(&self) -> (ns: String)
        ensures
            ns@ == self.vault().ns(),
    {
        self.vault.namespace()
    }

    /// This device's stable vault id.
    pub fn device_id<F>(&self, call: F) -> (id: String) where F: FnOnce(&V) -> String
        requires
            call.requires((&self.vault().inner(),)),
        ensures
            call.ensures((&self.vault().inner(),), id),
    {
        self.vault.device_id(call)
    }

    /// This device's public projection as JSON text, which `project` makes of the
    /// device key. It is safe to share.
    pub fn device_public<F>(&self, project: F) -> (result: Result<String, String>) where
        F: FnOnce(&str) -> Result<String, String>,

        requires
            forall|key: &str|
                key@ == self.vault().device_json() ==> #[trigger] project.requires((key,)),
        ensures
            exists|key: &str| #[trigger]
                project.ensures((key,), result) && key@ == self.vault().device_json(),
    {
        throw(self.vault.device_public(project))
    }

    /// Seeds the store from a snapshot, a JSON object from keys to records, which
    /// replaces any current contents.
    ///
    /// `list` gives a handle on the store, with all that the store lists. `perform`
    /// takes the handle, makes one change, and gives the handle for the next.
    pub fn load_snapshot<'a, S, L, P>(
        &'a self,
        snapshot_json: &str,
        list: L,
        perform: P,
    ) -> (result: Result<(), String>) where
        L: FnOnce(&'a V, &str) -> Result<(S, Vec<StoreEntry>), String>,
        P: Fn(S, &StoreOp) -> Result<S, String>,

        requires
            can_load(&self.vault().inner(), snapshot_json, list, perform),
        ensures
            exists|loaded: Result<(), VaultError>| #[trigger]
                is_loaded(&self.vault().inner(), snapshot_json, list, perform, loaded) && is_thrown(
                    loaded,
                    result,
                ),
    {
        throw(self.vault.load_snapshot(snapshot_json, list, perform))
    }

    /// Exports the store as a snapshot: the text of a JSON object from keys to records.
    pub fn snapshot<L>(&self, list: L) -> (result: Result<String, String>) where
        L: FnOnce(&V, &str) -> Result<Vec<StoreEntry>, String>,

        requires
            list.requires((&self.vault().inner(), "")),
        ensures
            exists|listed: Result<Vec<StoreEntry>, String>, exported: Result<String, VaultError>|
                #[trigger] list.ensures((&self.vault().inner(), ""), listed)
                    && #[trigger] is_exported(listed, exported) && is_thrown(exported, result),
    {
        throw(self.vault.snapshot(list))
    }

    /// Whether the vault has been initialised (a `meta` record exists in the snapshot).
    pub fn vault_exists<F>(&self, call: F) -> (result: Result<bool, String>) where
        F: FnOnce(&V) -> Result<bool, String>,

        requires
            call.requires((&self.vault().inner(),)),
        ensures
            call.ensures((&self.vault().inner(),), result),
    {
        throw(self.vault.vault_exists(call))
    }

    /// Whether this device is enrolled (can decrypt the master).
    pub fn is_enrolled<F>(&self, call: F) -> (result: Result<bool, String>) where
        F: FnOnce(&V) -> Result<bool, String>,

        requires
            call.requires((&self.vault().inner(),)),
        ensures
            call.ensures((&self.vault().inner(),), result),
    {
        throw(self.vault.is_enrolled(call))
    }

    /// Establishes the vault from this (owner) device. Gives `false` if one already exists.
    pub fn init<F>(&self, label: &str, call: F) -> (result: Result<bool, String>) where
        F: FnOnce(&V, &str) -> Result<bool, String>,

        requires
            call.requires((&self.vault().inner(), label)),
        ensures
            call.ensures((&self.vault().inner(), label), result),
    {
        throw(self.vault.init(label, call))
    }

    /// Re-establishes the vault from the owner's key alone: derives the master again and
    /// enrolls this device again. The vault makes this idempotent.
    pub fn recover<F>(&self, label: &str, call: F) -> (result: Result<(), String>) where
        F: FnOnce(&V, &str) -> Result<(), String>,

        requires
            call.requires((&self.vault().inner(), label)),
        ensures
            call.ensures((&self.vault().inner(), label), result),
    {
        throw(self.vault.recover(label, call))
    }

    /// Publishes a pairing request for this (unenrolled) device; gives the code that an
    /// enrolled device approves it with.
    pub fn request_pairing<F>(
        &self,
        label: &str,
        call: F,
    ) -> (result: Result<String, String>) where
        F: FnOnce(&V, &str) -> Result<String, String>,

        requires
            call.requires((&self.vault().inner(), label)),
        ensures
            call.ensures((&self.vault().inner(), label), result),
    {
        throw(self.vault.request_pairing(label, call))
    }

    /// Lists the pending pairing requests as a JSON array.
    pub fn list_pairing<F>(&self, call: F) -> (result: Result<String, String>) where
        F: FnOnce(&V) -> Result<Vec<serde_json::Value>, String>,

        requires
            call.requires((&self.vault().inner(),)),
        ensures
            exists|reply: Result<Vec<serde_json::Value>, String>| #[trigger]
                call.ensures((&self.vault().inner(),), reply) && is_shown(
                    reply,
                    |records: Vec<serde_json::Value>| Json::Array(jsons(records@)),
                    result,
                ),
    {
        throw(self.vault.list_pairing(call))
    }

    /// Approves a pairing request; gives the id of the enrolled device.
    pub fn approve_pairing<F>(
        &self,
        code: &str,
        call: F,
    ) -> (result: Result<String, String>) where
        F: FnOnce(&V, &str) -> Result<String, String>,

        requires
            call.requires((&self.vault().inner(), code)),
        ensures
            call.ensures((&self.vault().inner(), code), result),
    {
        throw(self.vault.approve_pairing(code, call))
    }

    /// Lists the enrolled devices as a JSON array of `{ id, label, addedAt, self }`.
    pub fn list_devices<F>(&self, call: F) -> (result: Result<String, String>) where
        F: FnOnce(&V) -> Result<Vec<Device>, String>,

        requires
            call.requires((&self.vault().inner(),)),
        ensures
            exists|reply: Result<Vec<Device>, String>| #[trigger]
                call.ensures((&self.vault().inner(),), reply) && is_shown(
                    reply,
                    |devices: Vec<Device>| devices_json(devices@),
                    result,
                ),
    {
        throw(self.vault.list_devices(call))
    }

    /// Removes a device's enrollment. The vault refuses to revoke the device in use.
    pub fn revoke_device<F>(&self, id: &str, call: F) -> (result: Result<(), String>) where
        F: FnOnce(&V, &str) -> Result<(), String>,

        requires
            call.requires((&self.vault().inner(), id)),
        ensures
            call.ensures((&self.vault().inner(), id), result),
    {
        throw(self.vault.revoke_device(id, call))
    }

    /// Stores secret bytes under `name`. Gives the public metadata as JSON text, never
    /// the bytes.
    pub fn put_secret<F>(
        &self,
        name: &str,
        bytes: &[u8],
        kind: &str,
        call: F,
    ) -> (result: Result<String, String>) where
        F: FnOnce(&V, &str, &[u8], &str) -> Result<SecretMeta, String>,

        requires
            call.requires((&self.vault().inner(), name, bytes, kind)),
        ensures
            exists|reply: Result<SecretMeta, String>| #[trigger]
                call.ensures((&self.vault().inner(), name, bytes, kind), reply) && is_shown(
                    reply,
                    |meta: SecretMeta| meta_json(meta),
                    result,
                ),
    {
        throw(self.vault.put_secret(name, bytes, kind, call))
    }

    /// Reveals the bytes of a secret, for use only. Never display these.
    pub fn get_secret<F>(&self, name: &str, call: F) -> (result: Result<Vec<u8>, String>) where
        F: FnOnce(&V, &str) -> Result<Vec<u8>, String>,

        requires
            call.requires((&self.vault().inner(), name)),
        ensures
            call.ensures((&self.vault().inner(), name), result),
    {
        throw(self.vault.get_secret(name, call))
    }

    /// Lists the metadata of the secrets (never bytes) as a JSON array, in the order in
    /// which the vault lists them: by name.
    pub fn list_secrets<F>(&self, call: F) -> (result: Result<String, String>) where
        F: FnOnce(&V) -> Result<Vec<SecretMeta>, String>,

        requires
            call.requires((&self.vault().inner(),)),
        ensures
            exists|reply: Result<Vec<SecretMeta>, String>| #[trigger]
                call.ensures((&self.vault().inner(),), reply) && is_shown(
                    reply,
                    |metas: Vec<SecretMeta>| metas_json(metas@),
                    result,
                ),
    {
        throw(self.vault.list_secrets(call))
    }

    /// The displayable fingerprint of a secret, if there is one of that name.
    pub fn fingerprint<F>(
        &self,
        name: &str,
        call: F,
    ) -> (result: Result<Option<String>, String>) where
        F: FnOnce(&V, &str) -> Result<Option<String>, String>,

        requires
            call.requires((&self.vault().inner(), name)),
        ensures
            call.ensures((&self.vault().inner(), name), result),
    {
        throw(self.vault.fingerprint(name, call))
    }

    /// Deletes a secret.
    pub fn delete_secret<F>(&self, name: &str, call: F) -> (result: Result<(), String>) where
        F: FnOnce(&V, &str) -> Result<(), String>,

        requires
            call.requires((&self.vault().inner(), name)),
        ensures
            call.ensures((&self.vault().inner(), name), result),
    {
        throw(self.vault.delete_secret(name, call))
    }

    /// Issues a signed read-grant to `audience` for the secrets that `names_json`
    /// lists, expiring at `expires`, or never if that is empty. Gives
    /// `{ id, token, record }` as JSON text.
    pub fn issue_grant<F>(
        &self,
        audience: &str,
        names_json: &str,
        expires: &str,
        call: F,
    ) -> (result: Result<String, String>) where
        F: FnOnce(&V, &str, &Vec<String>, Option<String>) -> Result<IssuedGrant, String>,

        requires
            forall|read: Vec<String>, expiry: Option<String>|
                parsed_strings(names_json@) == Some(texts(read@)) && option_text(expiry)
                    == expiry_of(expires@) ==> #[trigger] call.requires(
                    (&self.vault().inner(), audience, &read, expiry),
                ),
        ensures
            exists|granted: Result<String, VaultError>| #[trigger]
                is_granted(self.vault().inner(), audience, names_json, expires, call, granted)
                    && is_thrown(granted, result),
    {
        assert forall|read: Vec<String>, expiry: Option<String>|
            parsed_strings(names_json@) == Some(texts(read@)) && option_text(expiry) == expiry_of(
                expires@,
            ) implies #[trigger] call.requires(
            (&self.vault.inner(), audience, &read, expiry),
        ) by {
            assert(call.requires((&self.vault().inner(), audience, &read, expiry)));
        }
        throw(self.vault.issue_grant(audience, names_json, expires, call))
    }

    /// Lists the issued grants as a JSON array.
    pub fn list_grants<F>(&self, call: F) -> (result: Result<String, String>) where
        F: FnOnce(&V) -> Result<Vec<serde_json::Value>, String>,

        requires
            call.requires((&self.vault().inner(),)),
        ensures
            exists|reply: Result<Vec<serde_json::Value>, String>| #[trigger]
                call.ensures((&self.vault().inner(),), reply) && is_shown(
                    reply,
                    |records: Vec<serde_json::Value>| Json::Array(jsons(records@)),
                    result,
                ),
    {
        throw(self.vault.list_grants(call))
    }

    /// Revokes (deletes) an issued grant.
    pub fn revoke_grant<F>(&self, id: &str, call: F) -> (result: Result<(), String>) where
        F: FnOnce(&V, &str) -> Result<(), String>,

        requires
            call.requires((&self.vault().inner(), id)),
        ensures
            call.ensures((&self.vault().inner(), id), result),
    {
        throw(self.vault.revoke_grant(id, call))
    }

    /// Verifies that a presented grant `token` authorizes `action` on the secret `name`
    /// for `audience`, against this vault's enrolled devices and un-revoked grants.
    /// `now_ms` is the current Unix clock in milliseconds.
    pub fn verify_grant<F>(
        &self,
        token: &str,
        audience: &str,
        action: &str,
        name: &str,
        now_ms: i64,
        call: F,
    ) -> (result: Result<(), String>) where
        F: FnOnce(&V, &str, &str, &str, &str, i64) -> Result<(), String>,

        requires
            call.requires((&self.vault().inner(), token, audience, action, name, now_ms)),
        ensures
            call.ensures((&self.vault().inner(), token, audience, action, name, now_ms), result),
    {
        throw(self.vault.verify_grant(token, audience, action, name, now_ms, call))
    }

    /// This device signs a fresh challenge, proving that it is enrolled. Gives the proof
    /// as JSON text.
    pub fn sign_challenge<F>(
        &self,
        aud: &str,
        nonce: &str,
        ts: &str,
        call: F,
    ) -> (result: Result<String, String>) where
        F: FnOnce(&V, &str, &str, &str) -> Result<serde_json::Value, String>,

        requires
            call.requires((&self.vault().inner(), aud, nonce, ts)),
        ensures
            exists|reply: Result<serde_json::Value, String>| #[trigger]
                call.ensures((&self.vault().inner(), aud, nonce, ts), reply) && is_shown(
                    reply,
                    |proof: serde_json::Value| json_of(proof),
                    result,
                ),
    {
        throw(self.vault.sign_challenge(aud, nonce, ts, call))
    }

    /// Verifies an auth proof (JSON text). Gives the id of the proven device.
    pub fn verify_auth<F>(&self, aud: &str, nonce: &str, proof_json: &str, call: F) -> (result:
        Result<String, String>) where
        F: FnOnce(&V, &str, &str, &serde_json::Value) -> Result<String, String>,

        requires
            forall|proof: serde_json::Value| #[trigger]
                call.requires((&self.vault().inner(), aud, nonce, &proof)),
        ensures
            exists|proven: Result<String, VaultError>| #[trigger]
                is_authenticated(self.vault().inner(), aud, nonce, proof_json, call, proven)
                    && is_thrown(proven, result),
    {
        assert forall|proof: serde_json::Value| #[trigger]
            call.requires((&self.vault.inner(), aud, nonce, &proof)) by {
            assert(call.requires((&self.vault().inner(), aud, nonce, &proof)));
        }
        throw(self.vault.verify_auth(aud, nonce, proof_json, call))
    }
}

/// Whether `result` is a right outcome of [`verify`]: `true` where the check of the
/// chain succeeds, and otherwise the text of the error that it reports.
pub open spec fn is_verified<C, P, A>(
    self_id_hex: &str,
    accepted_roots_json: &str,
    self_tags_json: &str,
    now: u64,
    requester_hex: &str,
    action: &str,
    chain_json: &str,
    revoked_json: &str,
    parse_chain: P,
    authorize: A,
    result: Result<bool, String>,
) -> bool where
    P: FnOnce(&str) -> Result<Vec<C>, String>,
    A: FnOnce(&AuthorizeRequest, &Vec<C>) -> Result<(), String>,
 {
    exists|checked: Result<(), VaultError>| #[trigger]
        is_checked(
            self_id_hex,
            accepted_roots_json,
            self_tags_json,
            now,
            requester_hex,
            action,
            chain_json,
            revoked_json,
            parse_chain,
            authorize,
            checked,
        ) && match checked {
            Ok(()) => result == Ok::<bool, String>(true),
            Err(error) => result matches Err(text) && text@ == error.message_text(),
        }
}

/// Verifies that a presented capability chain authorizes `requester_hex` to perform
/// `action` on `self_id_hex`.
///
/// The inputs are those of [`verify_chain`]. Gives `true` if the request is
/// authorized, and otherwise the text to throw: why the inputs cannot be read, or
/// why the request is denied. It never gives `false`.
pub fn verify<C, P, A>(
    self_id_hex: &str,
    accepted_roots_json: &str,
    self_tags_json: &str,
    now: u64,
    requester_hex: &str,
    action: &str,
    chain_json: &str,
    revoked_json: &str,
    parse_chain: P,
    authorize: A,
) -> (result: Result<bool, String>) where
    P: FnOnce(&str) -> Result<Vec<C>, String>,
    A: FnOnce(&AuthorizeRequest, &Vec<C>) -> Result<(), String>,

    requires
        head_from(self_id_hex@, requester_hex@, accepted_roots_json@, self_tags_json@) is Ok
            ==> parse_chain.requires((chain_json,)),
        forall|request: AuthorizeRequest, links: Vec<C>|
            is_request(
                request@,
                self_id_hex@,
                accepted_roots_json@,
                self_tags_json@,
                now,
                requester_hex@,
                action@,
                revoked_json@,
            ) && parse_chain.ensures((chain_json,), Ok(links)) ==> #[trigger] authorize.requires(
                (&request, &links),
            ),
    ensures
        is_verified(
            self_id_hex,
            accepted_roots_json,
            self_tags_json,
            now,
            requester_hex,
            action,
            chain_json,
            revoked_json,
            parse_chain,
            authorize,
            result,
        ),
{
    match verify_chain(
        self_id_hex,
        accepted_roots_json,
        self_tags_json,
        now,
        requester_hex,
        action,
        chain_json,
        revoked_json,
        parse_chain,
        authorize,
    ) {
        Ok(()) => Ok(true),
        Err(error) => Err(js_err(error)),
    }
}

} // verus!
