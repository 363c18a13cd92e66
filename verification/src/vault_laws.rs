//! What each operation hands to the vault and makes of its reply, on both surfaces.

use vstd::prelude::*;

use crate::error::{JsonInput, VaultError};
use crate::error_laws::says;
use crate::json::{
    is_readable_within, json_error_text, json_of, json_text, parsed_json, parsed_strings,
    strings_error, texts, value_error,
};
use crate::record_laws::{lemma_tells_grant, tells_grant};
use crate::records::{grant_json, IssuedGrant};
use crate::request_laws::reports_json;
use crate::vault::{
    expiry_of, grant_expiry, is_authenticated, is_granted, is_written, option_text, VaultCore,
};
use crate::wasm::{is_shown, WasmVault};

verus! {

/// Whether `result` is what the vault replied: the same value, or its own words.
pub open spec fn hands_on<T>(reply: Result<T, String>, result: Result<T, VaultError>) -> bool {
    match reply {
        Ok(value) => result matches Ok(same) && same == value,
        Err(words) => result matches Err(VaultError::Vault(same)) && same == words,
    }
}

/// A vault is opened for the device key, the namespace and the clock that were given, and
/// keeps the first two: its namespace is the one that was given, its id is asked of the
/// vault that was opened, and its public projection is made of the key that was given.
/// The only error is that of opening.
pub proof fn an_opened_vault_keeps_what_it_was_given<V, F, G, H>(
    device_json: &str,
    ns: &str,
    now_iso: &str,
    open: F,
    opened: Result<VaultCore<V>, VaultError>,
    namespace: String,
    identify: G,
    id: String,
    project: H,
    public: Result<String, VaultError>,
) where
    F: FnOnce(&str, &str, &str) -> Result<V, String>,
    G: FnOnce(&V) -> String,
    H: FnOnce(&str) -> Result<String, String>,

    requires
        call_ensures(VaultCore::<V>::new::<F>, (device_json, ns, now_iso, open), opened),
        opened matches Ok(vault) ==> call_ensures(VaultCore::<V>::namespace, (&vault,), namespace)
            && call_ensures(VaultCore::<V>::device_id::<G>, (&vault, identify), id)
            && call_ensures(VaultCore::<V>::device_public::<H>, (&vault, project), public),
    ensures
        exists|reply: Result<V, String>| #[trigger]
            open.ensures((device_json, ns, now_iso), reply) && match reply {
                Ok(inner) => opened is Ok && namespace@ == ns@ && identify.ensures((&inner,), id)
                    && exists|key: &str, projected: Result<String, String>| #[trigger]
                    project.ensures((key,), projected) && key@ == device_json@ && hands_on(
                        projected,
                        public,
                    ),
                Err(words) => opened matches Err(VaultError::Vault(same)) && same == words,
            },
{
}

/// The same for JavaScript.
pub proof fn a_shown_vault_keeps_what_it_was_given<V, F, G, H>(
    device_json: &str,
    ns: &str,
    now_iso: &str,
    open: F,
    opened: Result<WasmVault<V>, String>,
    namespace: String,
    identify: G,
    id: String,
    project: H,
    public: Result<String, String>,
) where
    F: FnOnce(&str, &str, &str) -> Result<V, String>,
    G: FnOnce(&V) -> String,
    H: FnOnce(&str) -> Result<String, String>,

    requires
        call_ensures(WasmVault::<V>::new::<F>, (device_json, ns, now_iso, open), opened),
        opened matches Ok(vault) ==> call_ensures(WasmVault::<V>::namespace, (&vault,), namespace)
            && call_ensures(WasmVault::<V>::device_id::<G>, (&vault, identify), id)
            && call_ensures(WasmVault::<V>::device_public::<H>, (&vault, project), public),
    ensures
        exists|reply: Result<V, String>| #[trigger]
            open.ensures((device_json, ns, now_iso), reply) && match reply {
                Ok(inner) => opened is Ok && namespace@ == ns@ && identify.ensures((&inner,), id)
                    && exists|key: &str| #[trigger]
                    project.ensures((key,), public) && key@ == device_json@,
                Err(words) => opened matches Err(same) && same == words,
            },
{
}

/// A vault that was opened is the one that operations work on, and both surfaces work on
/// it alike.
pub proof fn operations_work_on_the_opened_vault<V, F>(
    device_json: &str,
    ns: &str,
    now_iso: &str,
    open: F,
    vault: VaultCore<V>,
    shown: WasmVault<V>,
) where F: FnOnce(&str, &str, &str) -> Result<V, String>
    requires
        call_ensures(VaultCore::<V>::new::<F>, (device_json, ns, now_iso, open), Ok(vault)),
        call_ensures(WasmVault::<V>::new::<F>, (device_json, ns, now_iso, open), Ok(shown)),
    ensures
        open.ensures((device_json, ns, now_iso), Ok(vault.inner())),
        open.ensures((device_json, ns, now_iso), Ok(shown.vault().inner())),
{
}

/// A device key is the one that was generated, or the error of generating it.
pub proof fn a_device_key_is_the_generated_one<V, F>(
    generate: F,
    result: Result<String, VaultError>,
    shown: Result<String, String>,
) where F: FnOnce() -> Result<String, String>
    requires
        call_ensures(VaultCore::<V>::generate_device_key::<F>, (generate,), result),
        call_ensures(WasmVault::<V>::generate_device_key::<F>, (generate,), shown),
    ensures
        exists|reply: Result<String, String>| #[trigger]
            generate.ensures((), reply) && hands_on(reply, result),
        generate.ensures((), shown),
{
}

/// Whether the vault exists is what the vault says.
/// On both surfaces the reply is handed on: the same value, or the vault's own words.
pub proof fn what_vault_exists_hands_on<V, F>(
    vault: VaultCore<V>,
    shown_vault: WasmVault<V>,
    call: F,
    result: Result<bool, VaultError>,
    shown: Result<bool, String>,
) where F: FnOnce(&V) -> Result<bool, String>
    requires
        call_ensures(VaultCore::<V>::vault_exists::<F>, (&vault, call), result),
        call_ensures(WasmVault::<V>::vault_exists::<F>, (&shown_vault, call), shown),
    ensures
        exists|reply: Result<bool, String>| #[trigger]
            call.ensures((&vault.inner(),), reply) && hands_on(reply, result),
        call.ensures((&shown_vault.vault().inner(),), shown),
{
}

/// Whether this device is enrolled is what the vault says.
/// On both surfaces the reply is handed on: the same value, or the vault's own words.
pub proof fn what_is_enrolled_hands_on<V, F>(
    vault: VaultCore<V>,
    shown_vault: WasmVault<V>,
    call: F,
    result: Result<bool, VaultError>,
    shown: Result<bool, String>,
) where F: FnOnce(&V) -> Result<bool, String>
    requires
        call_ensures(VaultCore::<V>::is_enrolled::<F>, (&vault, call), result),
        call_ensures(WasmVault::<V>::is_enrolled::<F>, (&shown_vault, call), shown),
    ensures
        exists|reply: Result<bool, String>| #[trigger]
            call.ensures((&vault.inner(),), reply) && hands_on(reply, result),
        call.ensures((&shown_vault.vault().inner(),), shown),
{
}

/// The vault is established with the label that was given.
/// On both surfaces the reply is handed on: the same value, or the vault's own words.
pub proof fn what_init_hands_on<V, F>(
    vault: VaultCore<V>,
    shown_vault: WasmVault<V>,
    label: &str,
    call: F,
    result: Result<bool, VaultError>,
    shown: Result<bool, String>,
) where F: FnOnce(&V, &str) -> Result<bool, String>
    requires
        call_ensures(VaultCore::<V>::init::<F>, (&vault, label, call), result),
        call_ensures(WasmVault::<V>::init::<F>, (&shown_vault, label, call), shown),
    ensures
        exists|reply: Result<bool, String>| #[trigger]
            call.ensures((&vault.inner(), label), reply) && hands_on(reply, result),
        call.ensures((&shown_vault.vault().inner(), label), shown),
{
}

/// The vault is recovered with the label that was given.
/// On both surfaces the reply is handed on: the same value, or the vault's own words.
pub proof fn what_recover_hands_on<V, F>(
    vault: VaultCore<V>,
    shown_vault: WasmVault<V>,
    label: &str,
    call: F,
    result: Result<(), VaultError>,
    shown: Result<(), String>,
) where F: FnOnce(&V, &str) -> Result<(), String>
    requires
        call_ensures(VaultCore::<V>::recover::<F>, (&vault, label, call), result),
        call_ensures(WasmVault::<V>::recover::<F>, (&shown_vault, label, call), shown),
    ensures
        exists|reply: Result<(), String>| #[trigger]
            call.ensures((&vault.inner(), label), reply) && hands_on(reply, result),
        call.ensures((&shown_vault.vault().inner(), label), shown),
{
}

/// A pairing request is made with the label that was given, and its code is the vault's.
/// On both surfaces the reply is handed on: the same value, or the vault's own words.
pub proof fn what_request_pairing_hands_on<V, F>(
    vault: VaultCore<V>,
    shown_vault: WasmVault<V>,
    label: &str,
    call: F,
    result: Result<String, VaultError>,
    shown: Result<String, String>,
) where F: FnOnce(&V, &str) -> Result<String, String>
    requires
        call_ensures(VaultCore::<V>::request_pairing::<F>, (&vault, label, call), result),
        call_ensures(WasmVault::<V>::request_pairing::<F>, (&shown_vault, label, call), shown),
    ensures
        exists|reply: Result<String, String>| #[trigger]
            call.ensures((&vault.inner(), label), reply) && hands_on(reply, result),
        call.ensures((&shown_vault.vault().inner(), label), shown),
{
}

/// A pairing request is approved by the code that was given, and the id is the vault's.
/// On both surfaces the reply is handed on: the same value, or the vault's own words.
pub proof fn what_approve_pairing_hands_on<V, F>(
    vault: VaultCore<V>,
    shown_vault: WasmVault<V>,
    code: &str,
    call: F,
    result: Result<String, VaultError>,
    shown: Result<String, String>,
) where F: FnOnce(&V, &str) -> Result<String, String>
    requires
        call_ensures(VaultCore::<V>::approve_pairing::<F>, (&vault, code, call), result),
        call_ensures(WasmVault::<V>::approve_pairing::<F>, (&shown_vault, code, call), shown),
    ensures
        exists|reply: Result<String, String>| #[trigger]
            call.ensures((&vault.inner(), code), reply) && hands_on(reply, result),
        call.ensures((&shown_vault.vault().inner(), code), shown),
{
}

/// The device of the id that was given is revoked.
/// On both surfaces the reply is handed on: the same value, or the vault's own words.
pub proof fn what_revoke_device_hands_on<V, F>(
    vault: VaultCore<V>,
    shown_vault: WasmVault<V>,
    id: &str,
    call: F,
    result: Result<(), VaultError>,
    shown: Result<(), String>,
) where F: FnOnce(&V, &str) -> Result<(), String>
    requires
        call_ensures(VaultCore::<V>::revoke_device::<F>, (&vault, id, call), result),
        call_ensures(WasmVault::<V>::revoke_device::<F>, (&shown_vault, id, call), shown),
    ensures
        exists|reply: Result<(), String>| #[trigger]
            call.ensures((&vault.inner(), id), reply) && hands_on(reply, result),
        call.ensures((&shown_vault.vault().inner(), id), shown),
{
}

/// The bytes of a secret are those that the vault has under the name that was given.
/// On both surfaces the reply is handed on: the same value, or the vault's own words.
pub proof fn what_get_secret_hands_on<V, F>(
    vault: VaultCore<V>,
    shown_vault: WasmVault<V>,
    name: &str,
    call: F,
    result: Result<Vec<u8>, VaultError>,
    shown: Result<Vec<u8>, String>,
) where F: FnOnce(&V, &str) -> Result<Vec<u8>, String>
    requires
        call_ensures(VaultCore::<V>::get_secret::<F>, (&vault, name, call), result),
        call_ensures(WasmVault::<V>::get_secret::<F>, (&shown_vault, name, call), shown),
    ensures
        exists|reply: Result<Vec<u8>, String>| #[trigger]
            call.ensures((&vault.inner(), name), reply) && hands_on(reply, result),
        call.ensures((&shown_vault.vault().inner(), name), shown),
{
}

/// The fingerprint of a secret is the one that the vault has under the name that was given.
/// On both surfaces the reply is handed on: the same value, or the vault's own words.
pub proof fn what_fingerprint_hands_on<V, F>(
    vault: VaultCore<V>,
    shown_vault: WasmVault<V>,
    name: &str,
    call: F,
    result: Result<Option<String>, VaultError>,
    shown: Result<Option<String>, String>,
) where F: FnOnce(&V, &str) -> Result<Option<String>, String>
    requires
        call_ensures(VaultCore::<V>::fingerprint::<F>, (&vault, name, call), result),
        call_ensures(WasmVault::<V>::fingerprint::<F>, (&shown_vault, name, call), shown),
    ensures
        exists|reply: Result<Option<String>, String>| #[trigger]
            call.ensures((&vault.inner(), name), reply) && hands_on(reply, result),
        call.ensures((&shown_vault.vault().inner(), name), shown),
{
}

/// The secret of the name that was given is deleted.
/// On both surfaces the reply is handed on: the same value, or the vault's own words.
pub proof fn what_delete_secret_hands_on<V, F>(
    vault: VaultCore<V>,
    shown_vault: WasmVault<V>,
    name: &str,
    call: F,
    result: Result<(), VaultError>,
    shown: Result<(), String>,
) where F: FnOnce(&V, &str) -> Result<(), String>
    requires
        call_ensures(VaultCore::<V>::delete_secret::<F>, (&vault, name, call), result),
        call_ensures(WasmVault::<V>::delete_secret::<F>, (&shown_vault, name, call), shown),
    ensures
        exists|reply: Result<(), String>| #[trigger]
            call.ensures((&vault.inner(), name), reply) && hands_on(reply, result),
        call.ensures((&shown_vault.vault().inner(), name), shown),
{
}

/// The grant of the id that was given is revoked.
/// On both surfaces the reply is handed on: the same value, or the vault's own words.
pub proof fn what_revoke_grant_hands_on<V, F>(
    vault: VaultCore<V>,
    shown_vault: WasmVault<V>,
    id: &str,
    call: F,
    result: Result<(), VaultError>,
    shown: Result<(), String>,
) where F: FnOnce(&V, &str) -> Result<(), String>
    requires
        call_ensures(VaultCore::<V>::revoke_grant::<F>, (&vault, id, call), result),
        call_ensures(WasmVault::<V>::revoke_grant::<F>, (&shown_vault, id, call), shown),
    ensures
        exists|reply: Result<(), String>| #[trigger]
            call.ensures((&vault.inner(), id), reply) && hands_on(reply, result),
        call.ensures((&shown_vault.vault().inner(), id), shown),
{
}

/// A grant is verified for the token, the audience, the action, the secret and the time
/// that were given.
/// On both surfaces the reply is handed on: the same value, or the vault's own words.
pub proof fn what_verify_grant_hands_on<V, F>(
    vault: VaultCore<V>,
    shown_vault: WasmVault<V>,
    token: &str,
    audience: &str,
    action: &str,
    name: &str,
    now_ms: i64,
    call: F,
    result: Result<(), VaultError>,
    shown: Result<(), String>,
) where F: FnOnce(&V, &str, &str, &str, &str, i64) -> Result<(), String>
    requires
        call_ensures(
            VaultCore::<V>::verify_grant::<F>,
            (&vault, token, audience, action, name, now_ms, call),
            result,
        ),
        call_ensures(
            WasmVault::<V>::verify_grant::<F>,
            (&shown_vault, token, audience, action, name, now_ms, call),
            shown,
        ),
    ensures
        exists|reply: Result<(), String>| #[trigger]
            call.ensures((&vault.inner(), token, audience, action, name, now_ms), reply)
                && hands_on(reply, result),
        call.ensures((&shown_vault.vault().inner(), token, audience, action, name, now_ms), shown),
{
}

/// An empty text means that a grant never expires; any other text is when it expires,
/// character for character.
pub proof fn only_an_empty_expiry_is_none(expires: &str, expiry: Option<String>)
    requires
        call_ensures(grant_expiry, (expires,), expiry),
    ensures
        expiry is None <==> expires@.len() == 0,
        expiry matches Some(text) ==> text@ == expires@,
{
}

/// Whether `result` is what issuing a grant must give. Names that are no JSON array of
/// strings are reported. Otherwise the vault is asked once, for the audience that was
/// given, for each listed name at its place, and with an expiry exactly if one was given,
/// character for character; what it issues is told, and its error is its own.
pub open spec fn grants_right<V, F>(
    inner: V,
    audience: &str,
    names_json: Seq<char>,
    expires: Seq<char>,
    call: F,
    result: Result<String, VaultError>,
) -> bool where
    F: FnOnce(&V, &str, &Vec<String>, Option<String>) -> Result<IssuedGrant, String>,
 {
    match parsed_strings(names_json) {
        None => reports_json(
            result,
            JsonInput::GrantNames,
            json_error_text(strings_error(names_json)),
        ),
        Some(names) => exists|
            read: Vec<String>,
            expiry: Option<String>,
            reply: Result<IssuedGrant, String>,
        |
            #[trigger] call.ensures((&inner, audience, &read, expiry), reply) && read@.len()
                == names.len() && (forall|i: int|
                0 <= i < names.len() ==> #[trigger] names[i] == read@[i]@) && (expiry is None
                <==> expires.len() == 0) && (expiry matches Some(text) ==> text@ == expires)
                && match reply {
                Ok(grant) => result matches Ok(text) && tells_grant(grant, text@),
                Err(words) => result == Err::<String, VaultError>(VaultError::Vault(words)),
            },
    }
}

/// `VaultCore::issue_grant` asks for what was given and tells what was issued.
pub proof fn a_grant_comes_out_right<V, F>(
    vault: VaultCore<V>,
    audience: &str,
    names_json: &str,
    expires: &str,
    call: F,
    result: Result<String, VaultError>,
) where F: FnOnce(&V, &str, &Vec<String>, Option<String>) -> Result<IssuedGrant, String>
    requires
        call_ensures(
            VaultCore::<V>::issue_grant::<F>,
            (&vault, audience, names_json, expires, call),
            result,
        ),
    ensures
        grants_right(vault.inner(), audience, names_json@, expires@, call, result),
{
    lemma_grants(vault.inner(), audience, names_json, expires, call, result);
}

/// `WasmVault::issue_grant` does the same, and throws what the error says.
pub proof fn a_shown_grant_comes_out_right<V, F>(
    vault: WasmVault<V>,
    audience: &str,
    names_json: &str,
    expires: &str,
    call: F,
    result: Result<String, String>,
) where F: FnOnce(&V, &str, &Vec<String>, Option<String>) -> Result<IssuedGrant, String>
    requires
        call_ensures(
            WasmVault::<V>::issue_grant::<F>,
            (&vault, audience, names_json, expires, call),
            result,
        ),
    ensures
        exists|granted: Result<String, VaultError>| #[trigger]
            grants_right(
                vault.vault().inner(),
                audience,
                names_json@,
                expires@,
                call,
                granted,
            ) && match granted {
                Ok(text) => result == Ok::<String, String>(text),
                Err(error) => result matches Err(text) && says(error, text@),
            },
{
    let granted = choose|granted: Result<String, VaultError>| #[trigger]
        is_granted(vault.vault().inner(), audience, names_json, expires, call, granted)
            && match granted {
            Ok(text) => result == Ok::<String, String>(text),
            Err(error) => result matches Err(text) && says(error, text@),
        };
    lemma_grants(vault.vault().inner(), audience, names_json, expires, call, granted);
}

/// A grant whose names can be read is issued if the vault can only issue it.
pub proof fn only_the_vault_refuses_a_grant<V, F>(
    vault: VaultCore<V>,
    audience: &str,
    names_json: &str,
    expires: &str,
    call: F,
    result: Result<String, VaultError>,
) where F: FnOnce(&V, &str, &Vec<String>, Option<String>) -> Result<IssuedGrant, String>
    requires
        call_ensures(
            VaultCore::<V>::issue_grant::<F>,
            (&vault, audience, names_json, expires, call),
            result,
        ),
        parsed_strings(names_json@) is Some,
        forall|read: Vec<String>, expiry: Option<String>, reply: Result<IssuedGrant, String>|
            #[trigger] call.ensures((&vault.inner(), audience, &read, expiry), reply)
                ==> reply is Ok,
    ensures
        result is Ok,
{
    a_grant_comes_out_right(vault, audience, names_json, expires, call, result);
}

/// A grant that follows its inputs comes out right.
proof fn lemma_grants<V, F>(
    inner: V,
    audience: &str,
    names_json: &str,
    expires: &str,
    call: F,
    result: Result<String, VaultError>,
) where F: FnOnce(&V, &str, &Vec<String>, Option<String>) -> Result<IssuedGrant, String>
    requires
        is_granted(inner, audience, names_json, expires, call, result),
    ensures
        grants_right(inner, audience, names_json@, expires@, call, result),
{
    if parsed_strings(names_json@) is Some {
        let names = parsed_strings(names_json@)->0;
        let (read, expiry, reply) = choose|
            read: Vec<String>,
            expiry: Option<String>,
            reply: Result<IssuedGrant, String>,
        |
            #[trigger] call.ensures((&inner, audience, &read, expiry), reply) && texts(read@)
                == names && option_text(expiry) == expiry_of(expires@) && is_written(
                reply,
                |grant: IssuedGrant| grant_json(grant),
                result,
            );
        assert forall|i: int| 0 <= i < names.len() implies #[trigger] names[i] == read@[i]@ by {
            assert(texts(read@)[i] == read@[i]@);
        }
        assert(read@.len() == names.len());
        if reply is Ok {
            lemma_tells_grant(reply->Ok_0, result->Ok_0@);
        }
    }
}

/// Whether `text` is the text of a proof, and reads back as that if it is readable.
pub open spec fn tells_proof(proof: serde_json::Value, text: Seq<char>) -> bool {
    &&& text == json_text(json_of(proof))
    &&& is_readable_within(json_of(proof), 127) ==> parsed_json(text) == Some(json_of(proof))
}

/// A challenge is signed for the audience, the nonce and the time that were given, and
/// what is told is the proof that the vault gives. The only error is the vault's own.
pub proof fn a_challenge_comes_out_right<V, F>(
    vault: VaultCore<V>,
    shown_vault: WasmVault<V>,
    aud: &str,
    nonce: &str,
    ts: &str,
    call: F,
    result: Result<String, VaultError>,
    shown: Result<String, String>,
) where F: FnOnce(&V, &str, &str, &str) -> Result<serde_json::Value, String>
    requires
        call_ensures(
            VaultCore::<V>::sign_challenge::<F>,
            (&vault, aud, nonce, ts, call),
            result,
        ),
        call_ensures(
            WasmVault::<V>::sign_challenge::<F>,
            (&shown_vault, aud, nonce, ts, call),
            shown,
        ),
    ensures
        exists|reply: Result<serde_json::Value, String>| #[trigger]
            call.ensures((&vault.inner(), aud, nonce, ts), reply) && match reply {
                Ok(proof) => result matches Ok(text) && tells_proof(proof, text@),
                Err(words) => result == Err::<String, VaultError>(VaultError::Vault(words)),
            },
        exists|reply: Result<serde_json::Value, String>| #[trigger]
            call.ensures((&shown_vault.vault().inner(), aud, nonce, ts), reply) && match reply {
                Ok(proof) => shown matches Ok(text) && tells_proof(proof, text@),
                Err(words) => shown == Err::<String, String>(words),
            },
{
    let reply = choose|reply: Result<serde_json::Value, String>| #[trigger]
        call.ensures((&vault.inner(), aud, nonce, ts), reply) && is_written(
            reply,
            |proof: serde_json::Value| json_of(proof),
            result,
        );
    let other = choose|reply: Result<serde_json::Value, String>| #[trigger]
        call.ensures((&shown_vault.vault().inner(), aud, nonce, ts), reply) && is_shown(
            reply,
            |proof: serde_json::Value| json_of(proof),
            shown,
        );
}

/// Whether `result` is what verifying a proof must give: a text that is no JSON is
/// reported, and otherwise the vault decides on the proof that was read, for the audience
/// and the nonce that were given.
pub open spec fn authenticates_right<V, F>(
    inner: V,
    aud: &str,
    nonce: &str,
    proof_json: Seq<char>,
    call: F,
    result: Result<String, VaultError>,
) -> bool where F: FnOnce(&V, &str, &str, &serde_json::Value) -> Result<String, String> {
    match parsed_json(proof_json) {
        None => reports_json(
            result,
            JsonInput::AuthProof,
            json_error_text(value_error(proof_json)),
        ),
        Some(json) => exists|proof: serde_json::Value, reply: Result<String, String>| #[trigger]
            call.ensures((&inner, aud, nonce, &proof), reply) && json_of(proof) == json
                && hands_on(reply, result),
    }
}

/// `VaultCore::verify_auth` and `WasmVault::verify_auth` put the proof that was read before
/// the vault and hand its word on; the second throws what the error says.
pub proof fn an_authentication_comes_out_right<V, F>(
    vault: VaultCore<V>,
    shown_vault: WasmVault<V>,
    aud: &str,
    nonce: &str,
    proof_json: &str,
    call: F,
    result: Result<String, VaultError>,
    shown: Result<String, String>,
) where F: FnOnce(&V, &str, &str, &serde_json::Value) -> Result<String, String>
    requires
        call_ensures(
            VaultCore::<V>::verify_auth::<F>,
            (&vault, aud, nonce, proof_json, call),
            result,
        ),
        call_ensures(
            WasmVault::<V>::verify_auth::<F>,
            (&shown_vault, aud, nonce, proof_json, call),
            shown,
        ),
    ensures
        authenticates_right(vault.inner(), aud, nonce, proof_json@, call, result),
        exists|proven: Result<String, VaultError>| #[trigger]
            authenticates_right(
                shown_vault.vault().inner(),
                aud,
                nonce,
                proof_json@,
                call,
                proven,
            ) && match proven {
                Ok(id) => shown == Ok::<String, String>(id),
                Err(error) => shown matches Err(text) && says(error, text@),
            },
{
    let proven = choose|proven: Result<String, VaultError>| #[trigger]
        is_authenticated(shown_vault.vault().inner(), aud, nonce, proof_json, call, proven)
            && match proven {
            Ok(id) => shown == Ok::<String, String>(id),
            Err(error) => shown matches Err(text) && says(error, text@),
        };
    assert(authenticates_right(
        shown_vault.vault().inner(),
        aud,
        nonce,
        proof_json@,
        call,
        proven,
    ));
}

/// Grants can be asked for and proofs verified with functions that accept whatever they
/// are given, whatever the inputs are.
pub proof fn every_request_can_be_made<V, F, G>(
    vault: VaultCore<V>,
    shown_vault: WasmVault<V>,
    first: &str,
    second: &str,
    third: &str,
    grant: F,
    verify: G,
) where
    F: FnOnce(&V, &str, &Vec<String>, Option<String>) -> Result<IssuedGrant, String>,
    G: FnOnce(&V, &str, &str, &serde_json::Value) -> Result<String, String>,

    requires
        forall|inner: V, audience: &str, read: Vec<String>, expiry: Option<String>| #[trigger]
            grant.requires((&inner, audience, &read, expiry)),
        forall|inner: V, aud: &str, nonce: &str, proof: serde_json::Value| #[trigger]
            verify.requires((&inner, aud, nonce, &proof)),
    ensures
        call_requires(VaultCore::<V>::issue_grant::<F>, (&vault, first, second, third, grant)),
        call_requires(
            WasmVault::<V>::issue_grant::<F>,
            (&shown_vault, first, second, third, grant),
        ),
        call_requires(VaultCore::<V>::verify_auth::<G>, (&vault, first, second, third, verify)),
        call_requires(
            WasmVault::<V>::verify_auth::<G>,
            (&shown_vault, first, second, third, verify),
        ),
{
}

} // verus!
