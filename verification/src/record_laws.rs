//! What devices, secrets and grants are written as, field by field.

use vstd::prelude::*;

use crate::error::VaultError;
use crate::json::{
    is_readable_within, json_of, json_text, jsons, parsed_json, reads_back, Json,
};
use crate::laws::meta_parts_readable;
use crate::records::{
    device_json, device_value, devices_json, devices_value, grant_json, grant_value, meta_json,
    metas_json, metas_value, secret_meta_json, secret_meta_value, Device, IssuedGrant, SecretMeta,
};
use crate::vault::{is_written, VaultCore};
use crate::wasm::{is_shown, WasmVault};

verus! {

/// Whether a value is the object of a device: its id, its label, when it was enrolled and
/// whether it is the device in use, each under its own key, and no other field.
pub open spec fn is_device_object(json: Json, device: Device) -> bool {
    &&& json matches Json::Object(fields)
    &&& fields.dom() == set!["id"@, "label"@, "addedAt"@, "self"@]
    &&& fields["id"@] == Json::Text(device.id@)
    &&& fields["label"@] == json_of(device.label)
    &&& fields["addedAt"@] == json_of(device.added_at)
    &&& fields["self"@] == Json::Bool(device.is_self)
}

/// Whether a value is the object of a secret's metadata: each part under its own key, and
/// no other field.
pub open spec fn is_meta_object(json: Json, meta: SecretMeta) -> bool {
    &&& json matches Json::Object(fields)
    &&& fields.dom() == set![
        "name"@,
        "kind"@,
        "version"@,
        "fp"@,
        "public"@,
        "createdAt"@,
        "rotatedAt"@,
    ]
    &&& fields["name"@] == Json::Text(meta.name@)
    &&& fields["kind"@] == Json::Text(meta.kind@)
    &&& fields["version"@] == json_of(meta.version)
    &&& fields["fp"@] == json_of(meta.fp)
    &&& fields["public"@] == json_of(meta.public)
    &&& fields["createdAt"@] == json_of(meta.created_at)
    &&& fields["rotatedAt"@] == json_of(meta.rotated_at)
}

/// Whether a value is the object of an issued grant: its id, its token and its record,
/// each under its own key, and no other field.
pub open spec fn is_grant_object(json: Json, grant: IssuedGrant) -> bool {
    &&& json matches Json::Object(fields)
    &&& fields.dom() == set!["id"@, "token"@, "record"@]
    &&& fields["id"@] == Json::Text(grant.id@)
    &&& fields["token"@] == Json::Text(grant.token@)
    &&& fields["record"@] == json_of(grant.record)
}

/// Whether `items` are the objects of `devices`, one for one.
pub open spec fn are_device_objects(items: Seq<Json>, devices: Seq<Device>) -> bool {
    &&& items.len() == devices.len()
    &&& forall|k: int| 0 <= k < devices.len() ==> is_device_object(items[k], #[trigger] devices[k])
}

/// Whether `items` are the objects of `metas`, one for one.
pub open spec fn are_meta_objects(items: Seq<Json>, metas: Seq<SecretMeta>) -> bool {
    &&& items.len() == metas.len()
    &&& forall|k: int| 0 <= k < metas.len() ==> is_meta_object(items[k], #[trigger] metas[k])
}

/// Whether the parts of a device that it does not look into are readable within `depth`.
pub open spec fn device_parts_readable(device: Device, depth: nat) -> bool {
    &&& is_readable_within(json_of(device.label), depth)
    &&& is_readable_within(json_of(device.added_at), depth)
}

/// Whether `text` is the array of the objects of `devices`, and reads back as that if the
/// parts are readable.
pub open spec fn tells_devices(devices: Seq<Device>, text: Seq<char>) -> bool {
    exists|items: Seq<Json>| #[trigger]
        are_device_objects(items, devices) && text == json_text(Json::Array(items)) && ((forall|
            k: int,
        |
            0 <= k < devices.len() ==> device_parts_readable(#[trigger] devices[k], 125))
            ==> parsed_json(text) == Some(Json::Array(items)))
}

/// Whether `text` is the array of the objects of `metas`, and reads back as that if the
/// parts are readable.
pub open spec fn tells_metas(metas: Seq<SecretMeta>, text: Seq<char>) -> bool {
    exists|items: Seq<Json>| #[trigger]
        are_meta_objects(items, metas) && text == json_text(Json::Array(items)) && ((forall|
            k: int,
        |
            0 <= k < metas.len() ==> meta_parts_readable(#[trigger] metas[k], 125))
            ==> parsed_json(text) == Some(Json::Array(items)))
}

/// Whether `text` is the object of a secret's metadata, and reads back as that if the
/// parts are readable.
pub open spec fn tells_meta(meta: SecretMeta, text: Seq<char>) -> bool {
    exists|object: Json| #[trigger]
        is_meta_object(object, meta) && text == json_text(object) && (meta_parts_readable(meta, 126)
            ==> parsed_json(text) == Some(object))
}

/// Whether `text` is the object of a grant, and reads back as that if its record is
/// readable.
pub open spec fn tells_grant(grant: IssuedGrant, text: Seq<char>) -> bool {
    exists|object: Json| #[trigger]
        is_grant_object(object, grant) && text == json_text(object) && (is_readable_within(
            json_of(grant.record),
            126,
        ) ==> parsed_json(text) == Some(object))
}

/// Whether `text` is the array of some records, in their order, and reads back as that if
/// the records are readable.
pub open spec fn tells_records(records: Seq<serde_json::Value>, text: Seq<char>) -> bool {
    exists|items: Seq<Json>| #[trigger]
        are_records(items, records) && text == json_text(Json::Array(items)) && ((forall|k: int|
            0 <= k < records.len() ==> is_readable_within(json_of(#[trigger] records[k]), 126))
            ==> parsed_json(text) == Some(Json::Array(items)))
}

/// Whether `items` are what `records` hold, one for one.
pub open spec fn are_records(items: Seq<Json>, records: Seq<serde_json::Value>) -> bool {
    &&& items.len() == records.len()
    &&& forall|k: int| 0 <= k < records.len() ==> items[k] == json_of(#[trigger] records[k])
}

/// A device is written as an object with each of its fields under its own key.
pub proof fn a_device_keeps_its_fields(device: Device, value: serde_json::Value)
    requires
        call_ensures(device_value, (&device,), value),
    ensures
        is_device_object(json_of(value), device),
{
    lemma_device(device);
}

/// Metadata is written as an object with each of its parts under its own key.
pub proof fn metadata_keeps_its_fields(
    meta: SecretMeta,
    value: serde_json::Value,
    text: String,
)
    requires
        call_ensures(secret_meta_value, (&meta,), value),
        call_ensures(secret_meta_json, (&meta,), text),
    ensures
        is_meta_object(json_of(value), meta),
        tells_meta(meta, text@),
{
    lemma_meta(meta);
    lemma_tells_meta(meta, text@);
}

/// A grant is written as an object with its id, its token and its record under their keys.
pub proof fn a_grant_keeps_its_fields(grant: IssuedGrant, value: serde_json::Value)
    requires
        call_ensures(grant_value, (&grant,), value),
    ensures
        is_grant_object(json_of(value), grant),
{
    lemma_grant(grant);
}

/// Devices are written as an array with one object for each, in their order.
pub proof fn devices_keep_their_places(devices: Vec<Device>, value: serde_json::Value)
    requires
        call_ensures(devices_value, (&devices,), value),
    ensures
        json_of(value) matches Json::Array(items) && are_device_objects(items, devices@),
{
    assert forall|k: int| 0 <= k < devices@.len() implies is_device_object(
        json_of(value)->Array_0[k],
        #[trigger] devices@[k],
    ) by {
        lemma_device(devices@[k]);
    }
}

/// Metadata of secrets is written as an array with one object for each, in their order.
pub proof fn metas_keep_their_places(metas: Vec<SecretMeta>, value: serde_json::Value)
    requires
        call_ensures(metas_value, (&metas,), value),
    ensures
        json_of(value) matches Json::Array(items) && are_meta_objects(items, metas@),
{
    assert forall|k: int| 0 <= k < metas@.len() implies is_meta_object(
        json_of(value)->Array_0[k],
        #[trigger] metas@[k],
    ) by {
        lemma_meta(metas@[k]);
    }
}

/// The device list tells of every device that the vault lists, field by field, in its order.
/// The only error is the vault's own.
pub proof fn what_list_devices_tells<V, F>(
    vault: VaultCore<V>,
    call: F,
    result: Result<String, VaultError>,
) where F: FnOnce(&V) -> Result<Vec<Device>, String>
    requires
        call_ensures(VaultCore::<V>::list_devices::<F>, (&vault, call), result),
    ensures
        exists|reply: Result<Vec<Device>, String>| #[trigger]
            call.ensures((&vault.inner(),), reply) && match reply {
                Ok(reply) => result matches Ok(text) && tells_devices(reply@, text@),
                Err(words) => result == Err::<String, VaultError>(VaultError::Vault(words)),
            },
{
    let reply = choose|reply: Result<Vec<Device>, String>| #[trigger]
        call.ensures((&vault.inner(),), reply) && is_written(
            reply,
            |devices: Vec<Device>| devices_json(devices@),
            result,
        );
    if reply is Ok {
        lemma_tells_devices(reply->Ok_0@, result->Ok_0@);
    }
}

/// The device list tells of every device that the vault lists, field by field, in its order; the same
/// for JavaScript.
/// The only error is the vault's own.
pub proof fn what_list_devices_shows<V, F>(
    vault: WasmVault<V>,
    call: F,
    result: Result<String, String>,
) where F: FnOnce(&V) -> Result<Vec<Device>, String>
    requires
        call_ensures(WasmVault::<V>::list_devices::<F>, (&vault, call), result),
    ensures
        exists|reply: Result<Vec<Device>, String>| #[trigger]
            call.ensures((&vault.vault().inner(),), reply) && match reply {
                Ok(reply) => result matches Ok(text) && tells_devices(reply@, text@),
                Err(words) => result == Err::<String, String>(words),
            },
{
    let reply = choose|reply: Result<Vec<Device>, String>| #[trigger]
        call.ensures((&vault.vault().inner(),), reply) && is_shown(
            reply,
            |devices: Vec<Device>| devices_json(devices@),
            result,
        );
    if reply is Ok {
        lemma_tells_devices(reply->Ok_0@, result->Ok_0@);
    }
}

/// The list of secrets tells the metadata of every secret that the vault lists, field by
/// field, in its order.
/// The only error is the vault's own.
pub proof fn what_list_secrets_tells<V, F>(
    vault: VaultCore<V>,
    call: F,
    result: Result<String, VaultError>,
) where F: FnOnce(&V) -> Result<Vec<SecretMeta>, String>
    requires
        call_ensures(VaultCore::<V>::list_secrets::<F>, (&vault, call), result),
    ensures
        exists|reply: Result<Vec<SecretMeta>, String>| #[trigger]
            call.ensures((&vault.inner(),), reply) && match reply {
                Ok(reply) => result matches Ok(text) && tells_metas(reply@, text@),
                Err(words) => result == Err::<String, VaultError>(VaultError::Vault(words)),
            },
{
    let reply = choose|reply: Result<Vec<SecretMeta>, String>| #[trigger]
        call.ensures((&vault.inner(),), reply) && is_written(
            reply,
            |metas: Vec<SecretMeta>| metas_json(metas@),
            result,
        );
    if reply is Ok {
        lemma_tells_metas(reply->Ok_0@, result->Ok_0@);
    }
}

/// The list of secrets tells the metadata of every secret that the vault lists, field by
/// field, in its order; the same
/// for JavaScript.
/// The only error is the vault's own.
pub proof fn what_list_secrets_shows<V, F>(
    vault: WasmVault<V>,
    call: F,
    result: Result<String, String>,
) where F: FnOnce(&V) -> Result<Vec<SecretMeta>, String>
    requires
        call_ensures(WasmVault::<V>::list_secrets::<F>, (&vault, call), result),
    ensures
        exists|reply: Result<Vec<SecretMeta>, String>| #[trigger]
            call.ensures((&vault.vault().inner(),), reply) && match reply {
                Ok(reply) => result matches Ok(text) && tells_metas(reply@, text@),
                Err(words) => result == Err::<String, String>(words),
            },
{
    let reply = choose|reply: Result<Vec<SecretMeta>, String>| #[trigger]
        call.ensures((&vault.vault().inner(),), reply) && is_shown(
            reply,
            |metas: Vec<SecretMeta>| metas_json(metas@),
            result,
        );
    if reply is Ok {
        lemma_tells_metas(reply->Ok_0@, result->Ok_0@);
    }
}

/// The list of pairing requests holds every request that the vault lists, in its order.
/// The only error is the vault's own.
pub proof fn what_list_pairing_tells<V, F>(
    vault: VaultCore<V>,
    call: F,
    result: Result<String, VaultError>,
) where F: FnOnce(&V) -> Result<Vec<serde_json::Value>, String>
    requires
        call_ensures(VaultCore::<V>::list_pairing::<F>, (&vault, call), result),
    ensures
        exists|reply: Result<Vec<serde_json::Value>, String>| #[trigger]
            call.ensures((&vault.inner(),), reply) && match reply {
                Ok(reply) => result matches Ok(text) && tells_records(reply@, text@),
                Err(words) => result == Err::<String, VaultError>(VaultError::Vault(words)),
            },
{
    let reply = choose|reply: Result<Vec<serde_json::Value>, String>| #[trigger]
        call.ensures((&vault.inner(),), reply) && is_written(
            reply,
            |records: Vec<serde_json::Value>| Json::Array(jsons(records@)),
            result,
        );
    if reply is Ok {
        lemma_tells_records(reply->Ok_0@, result->Ok_0@);
    }
}

/// The list of pairing requests holds every request that the vault lists, in its order; the same
/// for JavaScript.
/// The only error is the vault's own.
pub proof fn what_list_pairing_shows<V, F>(
    vault: WasmVault<V>,
    call: F,
    result: Result<String, String>,
) where F: FnOnce(&V) -> Result<Vec<serde_json::Value>, String>
    requires
        call_ensures(WasmVault::<V>::list_pairing::<F>, (&vault, call), result),
    ensures
        exists|reply: Result<Vec<serde_json::Value>, String>| #[trigger]
            call.ensures((&vault.vault().inner(),), reply) && match reply {
                Ok(reply) => result matches Ok(text) && tells_records(reply@, text@),
                Err(words) => result == Err::<String, String>(words),
            },
{
    let reply = choose|reply: Result<Vec<serde_json::Value>, String>| #[trigger]
        call.ensures((&vault.vault().inner(),), reply) && is_shown(
            reply,
            |records: Vec<serde_json::Value>| Json::Array(jsons(records@)),
            result,
        );
    if reply is Ok {
        lemma_tells_records(reply->Ok_0@, result->Ok_0@);
    }
}

/// The list of grants holds every grant that the vault lists, in its order.
/// The only error is the vault's own.
pub proof fn what_list_grants_tells<V, F>(
    vault: VaultCore<V>,
    call: F,
    result: Result<String, VaultError>,
) where F: FnOnce(&V) -> Result<Vec<serde_json::Value>, String>
    requires
        call_ensures(VaultCore::<V>::list_grants::<F>, (&vault, call), result),
    ensures
        exists|reply: Result<Vec<serde_json::Value>, String>| #[trigger]
            call.ensures((&vault.inner(),), reply) && match reply {
                Ok(reply) => result matches Ok(text) && tells_records(reply@, text@),
                Err(words) => result == Err::<String, VaultError>(VaultError::Vault(words)),
            },
{
    let reply = choose|reply: Result<Vec<serde_json::Value>, String>| #[trigger]
        call.ensures((&vault.inner(),), reply) && is_written(
            reply,
            |records: Vec<serde_json::Value>| Json::Array(jsons(records@)),
            result,
        );
    if reply is Ok {
        lemma_tells_records(reply->Ok_0@, result->Ok_0@);
    }
}

/// The list of grants holds every grant that the vault lists, in its order; the same
/// for JavaScript.
/// The only error is the vault's own.
pub proof fn what_list_grants_shows<V, F>(
    vault: WasmVault<V>,
    call: F,
    result: Result<String, String>,
) where F: FnOnce(&V) -> Result<Vec<serde_json::Value>, String>
    requires
        call_ensures(WasmVault::<V>::list_grants::<F>, (&vault, call), result),
    ensures
        exists|reply: Result<Vec<serde_json::Value>, String>| #[trigger]
            call.ensures((&vault.vault().inner(),), reply) && match reply {
                Ok(reply) => result matches Ok(text) && tells_records(reply@, text@),
                Err(words) => result == Err::<String, String>(words),
            },
{
    let reply = choose|reply: Result<Vec<serde_json::Value>, String>| #[trigger]
        call.ensures((&vault.vault().inner(),), reply) && is_shown(
            reply,
            |records: Vec<serde_json::Value>| Json::Array(jsons(records@)),
            result,
        );
    if reply is Ok {
        lemma_tells_records(reply->Ok_0@, result->Ok_0@);
    }
}

/// A secret is put as it was given, and what is told of it is the metadata that the vault
/// gives, field by field.
/// The only error is the vault's own.
pub proof fn what_put_secret_tells<V, F>(
    vault: VaultCore<V>,
    name: &str,
    bytes: &[u8],
    kind: &str,
    call: F,
    result: Result<String, VaultError>,
) where F: FnOnce(&V, &str, &[u8], &str) -> Result<SecretMeta, String>
    requires
        call_ensures(VaultCore::<V>::put_secret::<F>, (&vault, name, bytes, kind, call), result),
    ensures
        exists|reply: Result<SecretMeta, String>| #[trigger]
            call.ensures((&vault.inner(), name, bytes, kind), reply) && match reply {
                Ok(reply) => result matches Ok(text) && tells_meta(reply, text@),
                Err(words) => result == Err::<String, VaultError>(VaultError::Vault(words)),
            },
{
    let reply = choose|reply: Result<SecretMeta, String>| #[trigger]
        call.ensures((&vault.inner(), name, bytes, kind), reply) && is_written(
            reply,
            |meta: SecretMeta| meta_json(meta),
            result,
        );
    if reply is Ok {
        lemma_tells_meta(reply->Ok_0, result->Ok_0@);
    }
}

/// A secret is put as it was given, and what is told of it is the metadata that the vault
/// gives, field by field; the same
/// for JavaScript.
/// The only error is the vault's own.
pub proof fn what_put_secret_shows<V, F>(
    vault: WasmVault<V>,
    name: &str,
    bytes: &[u8],
    kind: &str,
    call: F,
    result: Result<String, String>,
) where F: FnOnce(&V, &str, &[u8], &str) -> Result<SecretMeta, String>
    requires
        call_ensures(WasmVault::<V>::put_secret::<F>, (&vault, name, bytes, kind, call), result),
    ensures
        exists|reply: Result<SecretMeta, String>| #[trigger]
            call.ensures((&vault.vault().inner(), name, bytes, kind), reply) && match reply {
                Ok(reply) => result matches Ok(text) && tells_meta(reply, text@),
                Err(words) => result == Err::<String, String>(words),
            },
{
    let reply = choose|reply: Result<SecretMeta, String>| #[trigger]
        call.ensures((&vault.vault().inner(), name, bytes, kind), reply) && is_shown(
            reply,
            |meta: SecretMeta| meta_json(meta),
            result,
        );
    if reply is Ok {
        lemma_tells_meta(reply->Ok_0, result->Ok_0@);
    }
}

/// What a device is written as.
proof fn lemma_device(device: Device)
    ensures
        is_device_object(device_json(device), device),
{
    reveal_strlit("id");
    reveal_strlit("label");
    reveal_strlit("addedAt");
    reveal_strlit("self");
    assert("id"@.len() == 2 && "label"@.len() == 5 && "addedAt"@.len() == 7 && "self"@.len() == 4);
    assert(device_json(device)->Object_0.dom() == set!["id"@, "label"@, "addedAt"@, "self"@]);
}

/// What metadata is written as.
proof fn lemma_meta(meta: SecretMeta)
    ensures
        is_meta_object(meta_json(meta), meta),
{
    reveal_strlit("name");
    reveal_strlit("kind");
    reveal_strlit("version");
    reveal_strlit("fp");
    reveal_strlit("public");
    reveal_strlit("createdAt");
    reveal_strlit("rotatedAt");
    assert("name"@.len() == 4 && "kind"@.len() == 4 && "version"@.len() == 7 && "fp"@.len() == 2);
    assert("public"@.len() == 6 && "createdAt"@.len() == 9 && "rotatedAt"@.len() == 9);
    assert("name"@[0] != "kind"@[0] && "createdAt"@[0] != "rotatedAt"@[0]);
    assert(meta_json(meta)->Object_0.dom() == set![
        "name"@,
        "kind"@,
        "version"@,
        "fp"@,
        "public"@,
        "createdAt"@,
        "rotatedAt"@,
    ]);
}

/// What a grant is written as.
pub(crate) proof fn lemma_grant(grant: IssuedGrant)
    ensures
        is_grant_object(grant_json(grant), grant),
{
    reveal_strlit("id");
    reveal_strlit("token");
    reveal_strlit("record");
    assert("id"@.len() == 2 && "token"@.len() == 5 && "record"@.len() == 6);
    assert(grant_json(grant)->Object_0.dom() == set!["id"@, "token"@, "record"@]);
}

/// The object of a device is readable one level above its parts.
proof fn lemma_device_readable(device: Device, depth: nat)
    requires
        device_parts_readable(device, depth),
    ensures
        is_readable_within(device_json(device), depth + 1),
{
    let fields = device_json(device)->Object_0;
    assert forall|key: Seq<char>| #[trigger] fields.contains_key(key) implies is_readable_within(
        fields[key],
        depth,
    ) by {
        assert(is_readable_within(Json::Text(device.id@), depth));
        assert(is_readable_within(Json::Bool(device.is_self), depth));
    }
}

/// The object of metadata is readable one level above its parts.
proof fn lemma_parts_readable(meta: SecretMeta, depth: nat)
    requires
        meta_parts_readable(meta, depth),
    ensures
        is_readable_within(meta_json(meta), depth + 1),
{
    let fields = meta_json(meta)->Object_0;
    assert forall|key: Seq<char>| #[trigger] fields.contains_key(key) implies is_readable_within(
        fields[key],
        depth,
    ) by {
        assert(is_readable_within(Json::Text(meta.name@), depth));
        assert(is_readable_within(Json::Text(meta.kind@), depth));
    }
}

/// The text of some devices tells them.
proof fn lemma_tells_devices(devices: Seq<Device>, text: Seq<char>)
    requires
        text == json_text(devices_json(devices)),
        reads_back(devices_json(devices), text),
    ensures
        tells_devices(devices, text),
{
    let items = devices.map_values(|device: Device| device_json(device));
    assert(devices_json(devices) == Json::Array(items));
    assert forall|k: int| 0 <= k < devices.len() implies is_device_object(
        items[k],
        #[trigger] devices[k],
    ) by {
        lemma_device(devices[k]);
    }
    assert(are_device_objects(items, devices));
    if forall|k: int| 0 <= k < devices.len() ==> device_parts_readable(#[trigger] devices[k], 125) {
        assert forall|k: int| 0 <= k < items.len() implies is_readable_within(
            #[trigger] items[k],
            126,
        ) by {
            assert(device_parts_readable(devices[k], 125));
            lemma_device_readable(devices[k], 125);
        }
        assert(is_readable_within(Json::Array(items), 127));
    }
}

/// The text of the metadata of some secrets tells it.
proof fn lemma_tells_metas(metas: Seq<SecretMeta>, text: Seq<char>)
    requires
        text == json_text(metas_json(metas)),
        reads_back(metas_json(metas), text),
    ensures
        tells_metas(metas, text),
{
    let items = metas.map_values(|meta: SecretMeta| meta_json(meta));
    assert(metas_json(metas) == Json::Array(items));
    assert forall|k: int| 0 <= k < metas.len() implies is_meta_object(
        items[k],
        #[trigger] metas[k],
    ) by {
        lemma_meta(metas[k]);
    }
    assert(are_meta_objects(items, metas));
    if forall|k: int| 0 <= k < metas.len() ==> meta_parts_readable(#[trigger] metas[k], 125) {
        assert forall|k: int| 0 <= k < items.len() implies is_readable_within(
            #[trigger] items[k],
            126,
        ) by {
            assert(meta_parts_readable(metas[k], 125));
            lemma_parts_readable(metas[k], 125);
        }
        assert(is_readable_within(Json::Array(items), 127));
    }
}

/// The text of metadata tells it.
proof fn lemma_tells_meta(meta: SecretMeta, text: Seq<char>)
    requires
        text == json_text(meta_json(meta)),
        reads_back(meta_json(meta), text),
    ensures
        tells_meta(meta, text),
{
    lemma_meta(meta);
    if meta_parts_readable(meta, 126) {
        lemma_parts_readable(meta, 126);
    }
    assert(is_meta_object(meta_json(meta), meta));
}

/// The text of a grant tells it.
pub(crate) proof fn lemma_tells_grant(grant: IssuedGrant, text: Seq<char>)
    requires
        text == json_text(grant_json(grant)),
        reads_back(grant_json(grant), text),
    ensures
        tells_grant(grant, text),
{
    lemma_grant(grant);
    let fields = grant_json(grant)->Object_0;
    if is_readable_within(json_of(grant.record), 126) {
        assert forall|key: Seq<char>| #[trigger]
            fields.contains_key(key) implies is_readable_within(fields[key], 126) by {
            assert(is_readable_within(Json::Text(grant.id@), 126));
            assert(is_readable_within(Json::Text(grant.token@), 126));
        }
        assert(is_readable_within(grant_json(grant), 127));
    }
    assert(is_grant_object(grant_json(grant), grant));
}

/// The text of some records holds them.
proof fn lemma_tells_records(records: Seq<serde_json::Value>, text: Seq<char>)
    requires
        text == json_text(Json::Array(jsons(records))),
        reads_back(Json::Array(jsons(records)), text),
    ensures
        tells_records(records, text),
{
    let items = jsons(records);
    assert(are_records(items, records));
    if forall|k: int|
        0 <= k < records.len() ==> is_readable_within(json_of(#[trigger] records[k]), 126) {
        assert forall|k: int| 0 <= k < items.len() implies is_readable_within(
            #[trigger] items[k],
            126,
        ) by {
            assert(items[k] == json_of(records[k]));
        }
        assert(is_readable_within(Json::Array(items), 127));
    }
}

} // verus!
