//! What the vault tells of its devices, secrets and grants, and how it is written
//! as JSON.

use vstd::prelude::*;

use crate::json::{
    array_value, bool_value, insert_field, json_of, json_text, jsons, new_object, object_value,
    reads_back, render, string_value, Json,
};

verus! {

/// An enrolled device.
#[derive(Debug)]
pub struct Device {
    pub id: String,
    /// The label it was enrolled under.
    pub label: serde_json::Value,
    /// When it was enrolled.
    pub added_at: serde_json::Value,
    /// Whether it is the device in use.
    pub is_self: bool,
}

/// The public metadata of a secret; never its bytes.
#[derive(Debug)]
pub struct SecretMeta {
    pub name: String,
    pub kind: String,
    pub version: serde_json::Value,
    /// The displayable fingerprint.
    pub fp: serde_json::Value,
    /// The public part, where the secret has one.
    pub public: serde_json::Value,
    pub created_at: serde_json::Value,
    pub rotated_at: serde_json::Value,
}

/// A grant as it was issued.
#[derive(Debug)]
pub struct IssuedGrant {
    pub id: String,
    /// The signed token to present.
    pub token: String,
    /// The record that the vault keeps.
    pub record: serde_json::Value,
}

/// The JSON of a device: `{ id, label, addedAt, self }`.
pub open spec fn device_json(device: Device) -> Json {
    Json::Object(
        map![
            "id"@ => Json::Text(device.id@),
            "label"@ => json_of(device.label),
            "addedAt"@ => json_of(device.added_at),
            "self"@ => Json::Bool(device.is_self),
        ],
    )
}

/// The JSON of a secret's metadata:
/// `{ name, kind, version, fp, public, createdAt, rotatedAt }`.
pub open spec fn meta_json(meta: SecretMeta) -> Json {
    Json::Object(
        map![
            "name"@ => Json::Text(meta.name@),
            "kind"@ => Json::Text(meta.kind@),
            "version"@ => json_of(meta.version),
            "fp"@ => json_of(meta.fp),
            "public"@ => json_of(meta.public),
            "createdAt"@ => json_of(meta.created_at),
            "rotatedAt"@ => json_of(meta.rotated_at),
        ],
    )
}

/// The JSON of an issued grant: `{ id, token, record }`.
pub open spec fn grant_json(grant: IssuedGrant) -> Json {
    Json::Object(
        map![
            "id"@ => Json::Text(grant.id@),
            "token"@ => Json::Text(grant.token@),
            "record"@ => json_of(grant.record),
        ],
    )
}

/// The JSON of some devices, in their order.
pub open spec fn devices_json(devices: Seq<Device>) -> Json {
    Json::Array(devices.map_values(|device: Device| device_json(device)))
}

/// The JSON of the metadata of some secrets, in their order.
pub open spec fn metas_json(metas: Seq<SecretMeta>) -> Json {
    Json::Array(metas.map_values(|meta: SecretMeta| meta_json(meta)))
}

/// A device as a JSON value.
pub fn device_value(device: &Device) -> (value: serde_json::Value)
    ensures
        json_of(value) == device_json(*device),
{
    let mut object = new_object();
    insert_field(&mut object, "id".to_string(), string_value(device.id.as_str()));
    insert_field(&mut object, "label".to_string(), device.label.clone());
    insert_field(&mut object, "addedAt".to_string(), device.added_at.clone());
    insert_field(&mut object, "self".to_string(), bool_value(device.is_self));
    object_value(object)
}

/// The metadata of a secret as a JSON value.
pub fn secret_meta_value(meta: &SecretMeta) -> (value: serde_json::Value)
    ensures
        json_of(value) == meta_json(*meta),
{
    let mut object = new_object();
    insert_field(&mut object, "name".to_string(), string_value(meta.name.as_str()));
    insert_field(&mut object, "kind".to_string(), string_value(meta.kind.as_str()));
    insert_field(&mut object, "version".to_string(), meta.version.clone());
    insert_field(&mut object, "fp".to_string(), meta.fp.clone());
    insert_field(&mut object, "public".to_string(), meta.public.clone());
    insert_field(&mut object, "createdAt".to_string(), meta.created_at.clone());
    insert_field(&mut object, "rotatedAt".to_string(), meta.rotated_at.clone());
    object_value(object)
}

/// The metadata of a secret as JSON text.
pub fn secret_meta_json(meta: &SecretMeta) -> (text: String)
    ensures
        text@ == json_text(meta_json(*meta)),
        reads_back(meta_json(*meta), text@),
{
    render(&secret_meta_value(meta))
}

/// An issued grant as a JSON value.
pub fn grant_value(grant: &IssuedGrant) -> (value: serde_json::Value)
    ensures
        json_of(value) == grant_json(*grant),
{
    let mut object = new_object();
    insert_field(&mut object, "id".to_string(), string_value(grant.id.as_str()));
    insert_field(&mut object, "token".to_string(), string_value(grant.token.as_str()));
    insert_field(&mut object, "record".to_string(), grant.record.clone());
    object_value(object)
}

/// Some devices as a JSON array.
pub fn devices_value(devices: &Vec<Device>) -> (value: serde_json::Value)
    ensures
        json_of(value) == devices_json(devices@),
{
    let mut items: Vec<serde_json::Value> = Vec::new();
    let mut i: usize = 0;
    while i < devices.len()
        invariant
            i <= devices@.len(),
            items@.len() == i,
            forall|j: int| 0 <= j < i ==> json_of(#[trigger] items@[j]) == device_json(devices@[j]),
        decreases devices@.len() - i,
    {
        items.push(device_value(&devices[i]));
        i = i + 1;
    }
    assert(jsons(items@) == devices@.map_values(|device: Device| device_json(device)));
    array_value(items)
}

/// The metadata of some secrets as a JSON array.
pub fn metas_value(metas: &Vec<SecretMeta>) -> (value: serde_json::Value)
    ensures
        json_of(value) == metas_json(metas@),
{
    let mut items: Vec<serde_json::Value> = Vec::new();
    let mut i: usize = 0;
    while i < metas.len()
        invariant
            i <= metas@.len(),
            items@.len() == i,
            forall|j: int| 0 <= j < i ==> json_of(#[trigger] items@[j]) == meta_json(metas@[j]),
        decreases metas@.len() - i,
    {
        items.push(secret_meta_value(&metas[i]));
        i = i + 1;
    }
    assert(jsons(items@) == metas@.map_values(|meta: SecretMeta| meta_json(meta)));
    array_value(items)
}

} // verus!
