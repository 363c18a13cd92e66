use ce_iam_core_wasm::records::{
    device_value, devices_value, grant_value, metas_value, secret_meta_json, secret_meta_value,
};
use ce_iam_core_wasm::json::render;
use ce_iam_core_wasm::{Device, IssuedGrant, SecretMeta};
use serde_json::Value;

fn device(id: &str, is_self: bool) -> Device {
    Device {
        id: id.to_string(),
        label: Value::from("laptop"),
        added_at: Value::from("2026-06-26T00:00:00.000Z"),
        is_self,
    }
}

fn meta(name: &str) -> SecretMeta {
    SecretMeta {
        name: name.to_string(),
        kind: "opaque".to_string(),
        version: Value::from(1u64),
        fp: Value::from("ab12"),
        public: Value::Null,
        created_at: Value::from("2026-06-26T00:00:00.000Z"),
        rotated_at: Value::Null,
    }
}

#[test]
fn a_device_has_four_fields() {
    assert_eq!(
        render(&device_value(&device("d1", true))),
        "{\"addedAt\":\"2026-06-26T00:00:00.000Z\",\"id\":\"d1\",\"label\":\"laptop\",\"self\":true}"
    );
}

#[test]
fn devices_keep_their_order() {
    let value = devices_value(&vec![device("b", false), device("a", true)]);
    assert_eq!(value[0]["id"], Value::from("b"));
    assert_eq!(value[0]["self"], Value::from(false));
    assert_eq!(value[1]["id"], Value::from("a"));
    assert_eq!(value[1]["self"], Value::from(true));
    assert_eq!(render(&devices_value(&vec![])), "[]");
}

#[test]
fn metadata_has_seven_fields() {
    assert_eq!(
        secret_meta_json(&meta("api")),
        "{\"createdAt\":\"2026-06-26T00:00:00.000Z\",\"fp\":\"ab12\",\"kind\":\"opaque\",\"name\":\"api\",\"public\":null,\"rotatedAt\":null,\"version\":1}"
    );
}

#[test]
fn metadata_reads_back_as_written() {
    let text = secret_meta_json(&meta("api"));
    assert_eq!(
        serde_json::from_str::<Value>(&text).unwrap(),
        secret_meta_value(&meta("api"))
    );
}

#[test]
fn metadata_keeps_its_order() {
    let value = metas_value(&vec![meta("a"), meta("b")]);
    assert_eq!(value[0]["name"], Value::from("a"));
    assert_eq!(value[1]["name"], Value::from("b"));
}

#[test]
fn a_grant_has_three_fields() {
    let grant = IssuedGrant {
        id: "g1".to_string(),
        token: "t.\"1\"".to_string(),
        record: Value::from(vec![Value::from(1u64)]),
    };
    assert_eq!(
        render(&grant_value(&grant)),
        "{\"id\":\"g1\",\"record\":[1],\"token\":\"t.\\\"1\\\"\"}"
    );
}

#[test]
fn listed_records_read_back_with_their_floats() {
    let mut dated = device("d1", false);
    dated.added_at = Value::from(1750896000.5);
    dated.label = Value::from(vec![Value::from(-0.25), Value::from(1e300)]);
    let devices = devices_value(&vec![dated, device("d2", true)]);
    assert_eq!(serde_json::from_str::<Value>(&render(&devices)).unwrap(), devices);

    let mut priced = meta("a");
    priced.version = Value::from(1.5);
    let metas = metas_value(&vec![priced, meta("b")]);
    assert_eq!(serde_json::from_str::<Value>(&render(&metas)).unwrap(), metas);
}
