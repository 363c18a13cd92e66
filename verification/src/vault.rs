//! The vault's string-in, string-out surface over an in-memory snapshot.
//!
//! [`VaultCore`] holds an opened vault of the secrets crate as a value of its own
//! type `V`, which it does not look into. Each operation of that vault comes in as
//! a function; the library reads the operation's inputs, hands them on, and writes
//! what comes back.

use vstd::prelude::*;

use crate::error::{is_json_fault, lift, lifted, JsonInput, VaultError};
use crate::json::{
    array_value, error_text, is_readable, json_error_text, json_of, json_text, jsons, object_error,
    parse_object, parse_strings, parse_value, parsed_json, parsed_object, parsed_strings,
    reads_back, render, strings_error, texts, value_error, Json,
};
use crate::records::{
    devices_json, devices_value, grant_json, grant_value, meta_json, metas_json, metas_value,
    secret_meta_json, Device, IssuedGrant, SecretMeta,
};
use crate::snapshot::{
    can_perform, collected, entry_views, is_performed, op_views, perform_all, replacement, replaces,
    snapshot_text, StoreEntry, StoreOp,
};

verus! {

/// A vault over an in-memory snapshot, bound to one device key and namespace.
pub struct VaultCore<V> {
    inner: V,
    device_json: String,
    ns: String,
}

/// The content of an optional text.
pub open spec fn option_text(text: Option<String>) -> Option<Seq<char>> {
    match text {
        Some(text) => Some(text@),
        None => None,
    }
}

/// When a grant expires: an empty text means never.
pub open spec fn expiry_of(expires: Seq<char>) -> Option<Seq<char>> {
    if expires.len() == 0 {
        None
    } else {
        Some(expires)
    }
}

/// When a grant expires: an empty text means never.
pub fn grant_expiry(expires: &str) -> (expiry: Option<String>)
    ensures
        option_text(expiry) == expiry_of(expires@),
{
    if expires.is_empty() {
        None
    } else {
        Some(expires.to_string())
    }
}

/// Whether `result` is the JSON text of what the vault replied, which reads back as
/// it was written if it is readable, or the vault's error.
pub open spec fn is_written<T>(
    reply: Result<T, String>,
    json: spec_fn(T) -> Json,
    result: Result<String, VaultError>,
) -> bool {
    match reply {
        Ok(value) => result matches Ok(text) && text@ == json_text(json(value)) && reads_back(
            json(value),
            text@,
        ),
        Err(text) => result == Err::<String, VaultError>(VaultError::Vault(text)),
    }
}

/// Whether `list` and `perform` can be called as loading a snapshot calls them: `list`
/// once, if the snapshot is a JSON object, and then `perform` on each change that
/// replaces what was listed, in turn. A snapshot that is no JSON object asks nothing of
/// them, and so leaves the store as it was.
pub open spec fn can_load<'a, V, S, L, P>(
    inner: &'a V,
    snapshot_json: &str,
    list: L,
    perform: P,
) -> bool where
    L: FnOnce(&'a V, &str) -> Result<(S, Vec<StoreEntry>), String>,
    P: Fn(S, &StoreOp) -> Result<S, String>,
 {
    parsed_object(snapshot_json@) matches Some(snapshot) ==> {
        &&& list.requires((inner, ""))
        &&& forall|store: S, current: Vec<StoreEntry>, ops: Seq<StoreOp>|
            #![trigger list.ensures((inner, ""), Ok((store, current))), can_perform(store, ops, perform)]
            list.ensures((inner, ""), Ok((store, current))) && replaces(
                op_views(ops),
                entry_views(current@),
                snapshot,
            ) ==> can_perform(store, ops, perform)
    }
}

/// Whether `result` is a right outcome of loading a snapshot into a store with
/// `list` and `perform`: a snapshot that is no JSON object is reported; otherwise the
/// snapshot replaces all that the store lists, up to the first change that fails.
pub open spec fn is_loaded<'a, V, S, L, P>(
    inner: &'a V,
    snapshot_json: &str,
    list: L,
    perform: P,
    result: Result<(), VaultError>,
) -> bool where
    L: FnOnce(&'a V, &str) -> Result<(S, Vec<StoreEntry>), String>,
    P: Fn(S, &StoreOp) -> Result<S, String>,
 {
    match parsed_object(snapshot_json@) {
        None => is_json_fault(
            result,
            JsonInput::Snapshot,
            json_error_text(object_error(snapshot_json@)),
        ),
        Some(snapshot) => exists|listed: Result<(S, Vec<StoreEntry>), String>| #[trigger]
            list.ensures((inner, ""), listed) && match listed {
                Err(text) => result == Err::<(), VaultError>(VaultError::Vault(text)),
                Ok((store, current)) => exists|ops: Seq<StoreOp>, performed: Result<S, String>|
                    replaces(op_views(ops), entry_views(current@), snapshot)
                        && #[trigger] is_performed(store, ops, perform, performed)
                        && match performed {
                        Ok(_) => result is Ok,
                        Err(text) => result == Err::<(), VaultError>(VaultError::Vault(text)),
                    },
            },
    }
}

/// Whether `result` is the snapshot of what the store listed, or its error. The
/// snapshot reads back as it was written if it is readable.
pub open spec fn is_exported(
    listed: Result<Vec<StoreEntry>, String>,
    result: Result<String, VaultError>,
) -> bool {
    match listed {
        Ok(entries) => {
            let stored = collected(entry_views(entries@));
            result matches Ok(text) && text@ == json_text(Json::Object(stored)) && (is_readable(
                Json::Object(stored),
            ) ==> parsed_object(text@) == Some(stored))
        },
        Err(text) => result == Err::<String, VaultError>(VaultError::Vault(text)),
    }
}

/// Whether `result` is a right outcome of issuing a grant with `call`: names that
/// are no JSON array of strings are reported; otherwise the vault is asked for a
/// grant to `audience` of these names, and what it issues is written as JSON.
pub open spec fn is_granted<V, F>(
    inner: V,
    audience: &str,
    names_json: &str,
    expires: &str,
    call: F,
    result: Result<String, VaultError>,
) -> bool where
    F: FnOnce(&V, &str, &Vec<String>, Option<String>) -> Result<IssuedGrant, String>,
 {
    match parsed_strings(names_json@) {
        None => is_json_fault(
            result,
            JsonInput::GrantNames,
            json_error_text(strings_error(names_json@)),
        ),
        Some(names) => exists|
            read: Vec<String>,
            expiry: Option<String>,
            reply: Result<IssuedGrant, String>,
        |
            #[trigger] call.ensures((&inner, audience, &read, expiry), reply) && texts(read@)
                == names && option_text(expiry) == expiry_of(expires@) && is_written(
                reply,
                |grant: IssuedGrant| grant_json(grant),
                result,
            ),
    }
}

/// Whether `result` is a right outcome of verifying an auth proof with `call`: a
/// proof that is no JSON is reported; otherwise the vault decides.
pub open spec fn is_authenticated<V, F>(
    inner: V,
    aud: &str,
    nonce: &str,
    proof_json: &str,
    call: F,
    result: Result<String, VaultError>,
) -> bool where F: FnOnce(&V, &str, &str, &serde_json::Value) -> Result<String, String> {
    match parsed_json(proof_json@) {
        None => is_json_fault(
            result,
            JsonInput::AuthProof,
            json_error_text(value_error(proof_json@)),
        ),
        Some(json) => exists|proof: serde_json::Value, reply: Result<String, String>| #[trigger]
            call.ensures((&inner, aud, nonce, &proof), reply) && json_of(proof) == json && result
                == lifted(reply),
    }
}

impl<V> VaultCore<V> {
    /// The opened vault.
    pub closed spec fn inner(&self) -> V {
        self.inner
    }

    /// The device key, as it was given.
    pub closed spec fn device_json(&self) -> Seq<char> {
        self.device_json@
    }

    /// The namespace.
    pub closed spec fn ns(&self) -> Seq<char> {
        self.ns@
    }

    /// Opens a vault for the device key `device_json` in `ns`, which stamps its
    /// records with `now_iso`. It starts empty.
    pub fn new<F>(device_json: &str, ns: &str, now_iso: &str, open: F) -> (result: Result<
        Self,
        VaultError,
    >) where F: FnOnce(&str, &str, &str) -> Result<V, String>
        requires
            open.requires((device_json, ns, now_iso)),
        ensures
            exists|reply: Result<V, String>| #[trigger]
                open.ensures((device_json, ns, now_iso), reply) && match reply {
                    Ok(inner) => result matches Ok(core) && core.inner() == inner
                        && core.device_json() == device_json@ && core.ns() == ns@,
                    Err(text) => result == Err::<Self, VaultError>(VaultError::Vault(text)),
                },
    {
        match open(device_json, ns, now_iso) {
            Ok(inner) => Ok(
                VaultCore { inner, device_json: device_json.to_string(), ns: ns.to_string() },
            ),
            Err(text) => Err(VaultError::Vault(text)),
        }
    }

    /// Generates a fresh device key, as JSON text.
    pub fn generate_device_key<F>(generate: F) -> (result: Result<String, VaultError>) where
        F: FnOnce() -> Result<String, String>,

        requires
            generate.requires(()),
        ensures
            exists|reply: Result<String, String>| #[trigger]
                generate.ensures((), reply) && result == lifted(reply),
    {
        lift(generate())
    }

    /// This vault's namespace.
    pub fn namespace(&self) -> (ns: String)
        ensures
            ns@ == self.ns(),
    {
        self.ns.clone()
    }

    /// This device's stable vault id.
    pub fn device_id<F>(&self, call: F) -> (id: String) where F: FnOnce(&V) -> String
        requires
            call.requires((&self.inner(),)),
        ensures
            call.ensures((&self.inner(),), id),
    {
        call(&self.inner)
    }

    /// This device's public projection as JSON text, which `project` makes of the
    /// device key. It is safe to share.
    pub fn device_public<F>(&self, project: F) -> (result: Result<String, VaultError>) where
        F: FnOnce(&str) -> Result<String, String>,

        requires
            forall|key: &str| key@ == self.device_json() ==> #[trigger] project.requires((key,)),
        ensures
            exists|key: &str, reply: Result<String, String>| #[trigger]
                project.ensures((key,), reply) && key@ == self.device_json() && result == lifted(
                    reply,
                ),
    {
        lift(project(self.device_json.as_str()))
    }

    /// Puts the records of a snapshot, a JSON object from keys to records, in the
    /// place of all that the store holds.
    ///
    /// `list` gives a handle on the store, with all that the store lists. `perform`
    /// takes the handle, makes one change, and gives the handle for the next.
    pub fn load_snapshot<'a, S, L, P>(
        &'a self,
        snapshot_json: &str,
        list: L,
        perform: P,
    ) -> (result: Result<(), VaultError>) where
        L: FnOnce(&'a V, &str) -> Result<(S, Vec<StoreEntry>), String>,
        P: Fn(S, &StoreOp) -> Result<S, String>,

        requires
            can_load(&self.inner(), snapshot_json, list, perform),
        ensures
            is_loaded(&self.inner(), snapshot_json, list, perform, result),
    {
        let snapshot = match parse_object(snapshot_json) {
            Ok(snapshot) => snapshot,
            Err(error) => {
                return Err(
                    VaultError::Json { input: JsonInput::Snapshot, cause: error_text(&error) },
                );
            },
        };
        let (store, current) = match list(&self.inner, "") {
            Ok(listed) => listed,
            Err(text) => {
                return Err(VaultError::Vault(text));
            },
        };
        let ops = replacement(&current, snapshot);
        match perform_all(store, &ops, perform) {
            Ok(_) => Ok(()),
            Err(text) => Err(VaultError::Vault(text)),
        }
    }

    /// The snapshot of all that the store holds: the text of a JSON object from
    /// keys to records.
    pub fn snapshot<L>(&self, list: L) -> (result: Result<String, VaultError>) where
        L: FnOnce(&V, &str) -> Result<Vec<StoreEntry>, String>,

        requires
            list.requires((&self.inner(), "")),
        ensures
            exists|listed: Result<Vec<StoreEntry>, String>| #[trigger]
                list.ensures((&self.inner(), ""), listed) && is_exported(listed, result),
    {
        match list(&self.inner, "") {
            Ok(entries) => Ok(snapshot_text(&entries)),
            Err(text) => Err(VaultError::Vault(text)),
        }
    }

    /// Whether the vault has been initialised (a `meta` record exists in the snapshot).
    pub fn vault_exists<F>(&self, call: F) -> (result: Result<bool, VaultError>) where
        F: FnOnce(&V) -> Result<bool, String>,

        requires
            call.requires((&self.inner(),)),
        ensures
            exists|reply: Result<bool, String>| #[trigger]
                call.ensures((&self.inner(),), reply) && result == lifted(reply),
    {
        lift(call(&self.inner))
    }

    /// Whether this device is enrolled (can decrypt the master).
    pub fn is_enrolled<F>(&self, call: F) -> (result: Result<bool, VaultError>) where
        F: FnOnce(&V) -> Result<bool, String>,

        requires
            call.requires((&self.inner(),)),
        ensures
            exists|reply: Result<bool, String>| #[trigger]
                call.ensures((&self.inner(),), reply) && result == lifted(reply),
    {
        lift(call(&self.inner))
    }

    /// Establishes the vault from this (owner) device. Gives `false` if one already exists.
    pub fn init<F>(&self, label: &str, call: F) -> (result: Result<bool, VaultError>) where
        F: FnOnce(&V, &str) -> Result<bool, String>,

        requires
            call.requires((&self.inner(), label)),
        ensures
            exists|reply: Result<bool, String>| #[trigger]
                call.ensures((&self.inner(), label), reply) && result == lifted(reply),
    {
        lift(call(&self.inner, label))
    }

    /// Re-establishes the vault from the owner's key alone: derives the master again and
    /// enrolls this device again. The vault makes this idempotent.
    pub fn recover<F>(&self, label: &str, call: F) -> (result: Result<(), VaultError>) where
        F: FnOnce(&V, &str) -> Result<(), String>,

        requires
            call.requires((&self.inner(), label)),
        ensures
            exists|reply: Result<(), String>| #[trigger]
                call.ensures((&self.inner(), label), reply) && result == lifted(reply),
    {
        lift(call(&self.inner, label))
    }

    /// Publishes a pairing request for this (unenrolled) device; gives the code that an
    /// enrolled device approves it with.
    pub fn request_pairing<F>(
        &self,
        label: &str,
        call: F,
    ) -> (result: Result<String, VaultError>) where
        F: FnOnce(&V, &str) -> Result<String, String>,

        requires
            call.requires((&self.inner(), label)),
        ensures
            exists|reply: Result<String, String>| #[trigger]
                call.ensures((&self.inner(), label), reply) && result == lifted(reply),
    {
        lift(call(&self.inner, label))
    }

    /// Lists the pending pairing requests as a JSON array.
    pub fn list_pairing<F>(&self, call: F) -> (result: Result<String, VaultError>) where
        F: FnOnce(&V) -> Result<Vec<serde_json::Value>, String>,

        requires
            call.requires((&self.inner(),)),
        ensures
            exists|reply: Result<Vec<serde_json::Value>, String>| #[trigger]
                call.ensures((&self.inner(),), reply) && is_written(
                    reply,
                    |records: Vec<serde_json::Value>| Json::Array(jsons(records@)),
                    result,
                ),
    {
        match call(&self.inner) {
            Ok(records) => Ok(render(&array_value(records))),
            Err(text) => Err(VaultError::Vault(text)),
        }
    }

    /// Approves a pairing request; gives the id of the enrolled device.
    pub fn approve_pairing<F>(
        &self,
        code: &str,
        call: F,
    ) -> (result: Result<String, VaultError>) where
        F: FnOnce(&V, &str) -> Result<String, String>,

        requires
            call.requires((&self.inner(), code)),
        ensures
            exists|reply: Result<String, String>| #[trigger]
                call.ensures((&self.inner(), code), reply) && result == lifted(reply),
    {
        lift(call(&self.inner, code))
    }

    /// Lists the enrolled devices as a JSON array of `{ id, label, addedAt, self }`.
    pub fn list_devices<F>(&self, call: F) -> (result: Result<String, VaultError>) where
        F: FnOnce(&V) -> Result<Vec<Device>, String>,

        requires
            call.requires((&self.inner(),)),
        ensures
            exists|reply: Result<Vec<Device>, String>| #[trigger]
                call.ensures((&self.inner(),), reply) && is_written(
                    reply,
                    |devices: Vec<Device>| devices_json(devices@),
                    result,
                ),
    {
        match call(&self.inner) {
            Ok(devices) => Ok(render(&devices_value(&devices))),
            Err(text) => Err(VaultError::Vault(text)),
        }
    }

    /// Removes a device's enrollment. The vault refuses to revoke the device in use.
    pub fn revoke_device<F>(&self, id: &str, call: F) -> (result: Result<(), VaultError>) where
        F: FnOnce(&V, &str) -> Result<(), String>,

        requires
            call.requires((&self.inner(), id)),
        ensures
            exists|reply: Result<(), String>| #[trigger]
                call.ensures((&self.inner(), id), reply) && result == lifted(reply),
    {
        lift(call(&self.inner, id))
    }

    /// Stores secret bytes under `name`. Gives the public metadata as JSON text,
    /// never the bytes.
    pub fn put_secret<F>(&self, name: &str, bytes: &[u8], kind: &str, call: F) -> (result: Result<
        String,
        VaultError,
    >) where F: FnOnce(&V, &str, &[u8], &str) -> Result<SecretMeta, String>
        requires
            call.requires((&self.inner(), name, bytes, kind)),
        ensures
            exists|reply: Result<SecretMeta, String>| #[trigger]
                call.ensures((&self.inner(), name, bytes, kind), reply) && is_written(
                    reply,
                    |meta: SecretMeta| meta_json(meta),
                    result,
                ),
    {
        match call(&self.inner, name, bytes, kind) {
            Ok(meta) => Ok(secret_meta_json(&meta)),
            Err(text) => Err(VaultError::Vault(text)),
        }
    }

    /// Reveals the bytes of a secret, for use only. Never display these.
    pub fn get_secret<F>(
        &self,
        name: &str,
        call: F,
    ) -> (result: Result<Vec<u8>, VaultError>) where
        F: FnOnce(&V, &str) -> Result<Vec<u8>, String>,

        requires
            call.requires((&self.inner(), name)),
        ensures
            exists|reply: Result<Vec<u8>, String>| #[trigger]
                call.ensures((&self.inner(), name), reply) && result == lifted(reply),
    {
        lift(call(&self.inner, name))
    }

    /// Lists the metadata of the secrets (never bytes) as a JSON array, in the order
    /// in which the vault lists them: by name.
    pub fn list_secrets<F>(&self, call: F) -> (result: Result<String, VaultError>) where
        F: FnOnce(&V) -> Result<Vec<SecretMeta>, String>,

        requires
            call.requires((&self.inner(),)),
        ensures
            exists|reply: Result<Vec<SecretMeta>, String>| #[trigger]
                call.ensures((&self.inner(),), reply) && is_written(
                    reply,
                    |metas: Vec<SecretMeta>| metas_json(metas@),
                    result,
                ),
    {
        match call(&self.inner) {
            Ok(metas) => Ok(render(&metas_value(&metas))),
            Err(text) => Err(VaultError::Vault(text)),
        }
    }

    /// The displayable fingerprint of a secret, if there is one of that name.
    pub fn fingerprint<F>(
        &self,
        name: &str,
        call: F,
    ) -> (result: Result<Option<String>, VaultError>) where
        F: FnOnce(&V, &str) -> Result<Option<String>, String>,

        requires
            call.requires((&self.inner(), name)),
        ensures
            exists|reply: Result<Option<String>, String>| #[trigger]
                call.ensures((&self.inner(), name), reply) && result == lifted(reply),
    {
        lift(call(&self.inner, name))
    }

    /// Deletes a secret.
    pub fn delete_secret<F>(&self, name: &str, call: F) -> (result: Result<(), VaultError>) where
        F: FnOnce(&V, &str) -> Result<(), String>,

        requires
            call.requires((&self.inner(), name)),
        ensures
            exists|reply: Result<(), String>| #[trigger]
                call.ensures((&self.inner(), name), reply) && result == lifted(reply),
    {
        lift(call(&self.inner, name))
    }

    /// Issues a signed read-grant to `audience` for the secrets that `names_json`
    /// lists, expiring at `expires`, or never if that is empty. Gives
    /// `{ id, token, record }` as JSON text.
    pub fn issue_grant<F>(
        &self,
        audience: &str,
        names_json: &str,
        expires: &str,
        call: F,
    ) -> (result: Result<String, VaultError>) where
        F: FnOnce(&V, &str, &Vec<String>, Option<String>) -> Result<IssuedGrant, String>,

        requires
            forall|read: Vec<String>, expiry: Option<String>|
                parsed_strings(names_json@) == Some(texts(read@)) && option_text(expiry)
                    == expiry_of(expires@) ==> #[trigger] call.requires(
                    (&self.inner(), audience, &read, expiry),
                ),
        ensures
            is_granted(self.inner(), audience, names_json, expires, call, result),
    {
        let read = match parse_strings(names_json) {
            Ok(read) => read,
            Err(error) => {
                return Err(
                    VaultError::Json { input: JsonInput::GrantNames, cause: error_text(&error) },
                );
            },
        };
        let expiry = grant_expiry(expires);
        assert(call.requires((&self.inner(), audience, &read, expiry)));
        match call(&self.inner, audience, &read, expiry) {
            Ok(grant) => Ok(render(&grant_value(&grant))),
            Err(text) => Err(VaultError::Vault(text)),
        }
    }

    /// Lists the issued grants as a JSON array.
    pub fn list_grants<F>(&self, call: F) -> (result: Result<String, VaultError>) where
        F: FnOnce(&V) -> Result<Vec<serde_json::Value>, String>,

        requires
            call.requires((&self.inner(),)),
        ensures
            exists|reply: Result<Vec<serde_json::Value>, String>| #[trigger]
                call.ensures((&self.inner(),), reply) && is_written(
                    reply,
                    |records: Vec<serde_json::Value>| Json::Array(jsons(records@)),
                    result,
                ),
    {
        match call(&self.inner) {
            Ok(records) => Ok(render(&array_value(records))),
            Err(text) => Err(VaultError::Vault(text)),
        }
    }

    /// Revokes (deletes) an issued grant.
    pub fn revoke_grant<F>(&self, id: &str, call: F) -> (result: Result<(), VaultError>) where
        F: FnOnce(&V, &str) -> Result<(), String>,

        requires
            call.requires((&self.inner(), id)),
        ensures
            exists|reply: Result<(), String>| #[trigger]
                call.ensures((&self.inner(), id), reply) && result == lifted(reply),
    {
        lift(call(&self.inner, id))
    }

    /// Verifies that a presented grant `token` authorizes `action` on the secret `name`
    /// for `audience`, against this vault's enrolled devices and un-revoked grants.
    /// `now_ms` is the current Unix clock in milliseconds.
    pub fn verify_grant<F>(
        &self,
        token: &str,
        audience: &str,
        action: &str,
        name: &str,
        now_ms: i64,
        call: F,
    ) -> (result: Result<(), VaultError>) where
        F: FnOnce(&V, &str, &str, &str, &str, i64) -> Result<(), String>,

        requires
            call.requires((&self.inner(), token, audience, action, name, now_ms)),
        ensures
            exists|reply: Result<(), String>| #[trigger]
                call.ensures((&self.inner(), token, audience, action, name, now_ms), reply)
                    && result == lifted(reply),
    {
        lift(call(&self.inner, token, audience, action, name, now_ms))
    }

    /// This device signs a fresh challenge, proving that it is enrolled. Gives the
    /// proof as JSON text.
    pub fn sign_challenge<F>(&self, aud: &str, nonce: &str, ts: &str, call: F) -> (result: Result<
        String,
        VaultError,
    >) where F: FnOnce(&V, &str, &str, &str) -> Result<serde_json::Value, String>
        requires
            call.requires((&self.inner(), aud, nonce, ts)),
        ensures
            exists|reply: Result<serde_json::Value, String>| #[trigger]
                call.ensures((&self.inner(), aud, nonce, ts), reply) && is_written(
                    reply,
                    |proof: serde_json::Value| json_of(proof),
                    result,
                ),
    {
        match call(&self.inner, aud, nonce, ts) {
            Ok(proof) => Ok(render(&proof)),
            Err(text) => Err(VaultError::Vault(text)),
        }
    }

    /// Verifies an auth proof (JSON text): the vault checks the signature, that the
    /// signer is enrolled, and that `aud` and `nonce` match. Gives the id of the
    /// proven device.
    pub fn verify_auth<F>(&self, aud: &str, nonce: &str, proof_json: &str, call: F) -> (result:
        Result<String, VaultError>) where
        F: FnOnce(&V, &str, &str, &serde_json::Value) -> Result<String, String>,

        requires
            forall|proof: serde_json::Value|
                parsed_json(proof_json@) == Some(json_of(proof)) ==> #[trigger] call.requires(
                    (&self.inner(), aud, nonce, &proof),
                ),
        ensures
            is_authenticated(self.inner(), aud, nonce, proof_json, call, result),
    {
        let proof = match parse_value(proof_json) {
            Ok(proof) => proof,
            Err(error) => {
                return Err(
                    VaultError::Json { input: JsonInput::AuthProof, cause: error_text(&error) },
                );
            },
        };
        assert(call.requires((&self.inner(), aud, nonce, &proof)));
        lift(call(&self.inner, aud, nonce, &proof))
    }
}

} // verus!
