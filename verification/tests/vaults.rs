use std::cell::RefCell;
use std::collections::BTreeMap;

use ce_iam_core_wasm::vault::grant_expiry;
use ce_iam_core_wasm::{
    Device, IssuedGrant, SecretMeta, StoreEntry, StoreOp, VaultCore, VaultError, WasmVault,
};
use serde_json::Value;

/// A vault that keeps its records in the clear, in an in-memory store.
struct PlainVault {
    store: RefCell<BTreeMap<String, Value>>,
    device: String,
    now: String,
}

fn object(fields: Vec<(&str, Value)>) -> Value {
    let mut map = serde_json::Map::new();
    for (key, value) in fields {
        map.insert(key.to_string(), value);
    }
    Value::Object(map)
}

impl PlainVault {
    fn open(device_json: &str, _ns: &str, now_iso: &str) -> Result<PlainVault, String> {
        let key: Value = serde_json::from_str(device_json).map_err(|error| error.to_string())?;
        match key["id"].as_str() {
            Some(id) => Ok(PlainVault {
                store: RefCell::new(BTreeMap::new()),
                device: id.to_string(),
                now: now_iso.to_string(),
            }),
            None => Err("device key has no id".to_string()),
        }
    }

    fn get(&self, key: &str) -> Option<Value> {
        self.store.borrow().get(key).cloned()
    }

    fn put(&self, key: String, value: Value) {
        self.store.borrow_mut().insert(key, value);
    }

    fn has(&self, key: &str) -> bool {
        self.store.borrow().contains_key(key)
    }

    fn list(&self, prefix: &str) -> Result<Vec<StoreEntry>, String> {
        Ok(self
            .store
            .borrow()
            .iter()
            .filter(|(key, _)| key.starts_with(prefix))
            .map(|(key, value)| StoreEntry { key: key.clone(), value: value.clone() })
            .collect())
    }

    fn open_list<'a>(
        &'a self,
        prefix: &str,
    ) -> Result<(&'a PlainVault, Vec<StoreEntry>), String> {
        self.list(prefix).map(|entries| (self, entries))
    }

    fn change<'a>(&'a self, op: &StoreOp) -> Result<&'a PlainVault, String> {
        match op {
            StoreOp::Del { key } => {
                self.store.borrow_mut().remove(key);
            }
            StoreOp::Put { key, value } => self.put(key.clone(), value.clone()),
        }
        Ok(self)
    }

    fn is_established(&self) -> Result<bool, String> {
        Ok(self.has("meta"))
    }

    fn is_enrolled(&self) -> Result<bool, String> {
        Ok(self.has(&format!("d.{}", self.device)))
    }

    fn init(&self, label: &str) -> Result<bool, String> {
        if self.has("meta") {
            return Ok(false);
        }
        self.put("meta".to_string(), Value::from(1u64));
        self.put(format!("d.{}", self.device), Value::from(label));
        Ok(true)
    }

    fn recover(&self, label: &str) -> Result<(), String> {
        self.put("meta".to_string(), Value::from(1u64));
        self.put(format!("d.{}", self.device), Value::from(label));
        Ok(())
    }

    fn devices(&self) -> Result<Vec<Device>, String> {
        Ok(self
            .list("d.")?
            .into_iter()
            .map(|entry| Device {
                id: entry.key[2..].to_string(),
                label: entry.value,
                added_at: Value::from(self.now.clone()),
                is_self: entry.key[2..] == self.device,
            })
            .collect())
    }

    fn revoke_device(&self, id: &str) -> Result<(), String> {
        if id == self.device {
            return Err("cannot revoke the device you are using".to_string());
        }
        self.store.borrow_mut().remove(&format!("d.{}", id));
        Ok(())
    }

    fn meta_of(&self, name: &str, kind: &str) -> SecretMeta {
        SecretMeta {
            name: name.to_string(),
            kind: kind.to_string(),
            version: Value::from(1u64),
            fp: Value::from("fp"),
            public: Value::Null,
            created_at: Value::from(self.now.clone()),
            rotated_at: Value::Null,
        }
    }

    fn put_secret(&self, name: &str, bytes: &[u8], kind: &str) -> Result<SecretMeta, String> {
        if !self.is_enrolled()? {
            return Err("this device is not enrolled".to_string());
        }
        let record = object(vec![("kind", Value::from(kind)), ("bytes", Value::from(bytes.to_vec()))]);
        self.put(format!("s.{}", name), record);
        Ok(self.meta_of(name, kind))
    }

    fn get_secret(&self, name: &str) -> Result<Vec<u8>, String> {
        match self.get(&format!("s.{}", name)) {
            Some(record) => serde_json::from_value(record["bytes"].clone()).map_err(|e| e.to_string()),
            None => Err(format!("no secret {}", name)),
        }
    }

    fn secrets(&self) -> Result<Vec<SecretMeta>, String> {
        Ok(self
            .list("s.")?
            .into_iter()
            .map(|entry| self.meta_of(&entry.key[2..], entry.value["kind"].as_str().unwrap()))
            .collect())
    }

    fn fingerprint(&self, name: &str) -> Result<Option<String>, String> {
        Ok(self.get(&format!("s.{}", name)).map(|_| "fp".to_string()))
    }

    fn delete(&self, key: String) -> Result<(), String> {
        self.store.borrow_mut().remove(&key);
        Ok(())
    }

    fn issue_grant(
        &self,
        audience: &str,
        read: &Vec<String>,
        expires: Option<String>,
    ) -> Result<IssuedGrant, String> {
        let record = object(vec![
            ("aud", Value::from(audience)),
            ("read", Value::from(read.clone())),
            ("exp", Value::from(expires)),
        ]);
        self.put("g.g1".to_string(), record.clone());
        Ok(IssuedGrant { id: "g1".to_string(), token: "token-of-g1".to_string(), record })
    }

    fn verify_grant(&self, token: &str, audience: &str, action: &str, name: &str, now_ms: i64) -> Result<(), String> {
        let record = self.get("g.g1").ok_or("grant revoked".to_string())?;
        let read: Vec<String> = serde_json::from_value(record["read"].clone()).unwrap();
        if token != "token-of-g1" {
            Err("bad token".to_string())
        } else if record["aud"] != Value::from(audience) {
            Err("wrong audience".to_string())
        } else if action != "read" || !read.contains(&name.to_string()) {
            Err("not granted".to_string())
        } else if now_ms < 0 {
            Err("bad clock".to_string())
        } else {
            Ok(())
        }
    }

    fn sign(&self, aud: &str, nonce: &str, ts: &str) -> Result<Value, String> {
        Ok(object(vec![
            ("id", Value::from(self.device.clone())),
            ("aud", Value::from(aud)),
            ("nonce", Value::from(nonce)),
            ("ts", Value::from(ts)),
        ]))
    }

    fn verify_auth(&self, aud: &str, nonce: &str, proof: &Value) -> Result<String, String> {
        if proof["aud"] == Value::from(aud) && proof["nonce"] == Value::from(nonce) {
            Ok(proof["id"].as_str().unwrap().to_string())
        } else {
            Err("challenge mismatch".to_string())
        }
    }
}

const NOW: &str = "2026-06-26T00:00:00.000Z";

fn generate() -> Result<String, String> {
    Ok("{\"id\":\"dev-1\"}".to_string())
}

fn native(key: &str) -> VaultCore<PlainVault> {
    VaultCore::new(key, "wasm-ns", NOW, PlainVault::open).unwrap()
}

fn wasm(key: &str) -> WasmVault<PlainVault> {
    WasmVault::new(key, "wasm-ns", NOW, PlainVault::open).unwrap()
}

#[test]
fn vault_roundtrip_native() {
    let dk = VaultCore::<PlainVault>::generate_device_key(generate).unwrap();
    let v = VaultCore::new(&dk, "wasm-ns", "2026-06-26T00:00:00.000Z", PlainVault::open).unwrap();
    assert!(v.init("owner", PlainVault::init).unwrap());
    assert!(v.is_enrolled(PlainVault::is_enrolled).unwrap());

    let meta = v.put_secret("api", b"s3cr3t", "opaque", PlainVault::put_secret).unwrap();
    assert!(meta.contains("\"name\":\"api\""));
    assert_eq!(v.get_secret("api", PlainVault::get_secret).unwrap(), b"s3cr3t");

    let snap = v.snapshot(PlainVault::list).unwrap();
    let v2 = VaultCore::new(&dk, "wasm-ns", "2026-06-26T00:00:00.000Z", PlainVault::open).unwrap();
    v2.load_snapshot(&snap, PlainVault::open_list, PlainVault::change).unwrap();
    assert!(v2.is_enrolled(PlainVault::is_enrolled).unwrap());
    assert_eq!(v2.get_secret("api", PlainVault::get_secret).unwrap(), b"s3cr3t");

    let g = v.issue_grant("ce-cast", "[\"api\"]", "", PlainVault::issue_grant).unwrap();
    let token = serde_json::from_str::<Value>(&g).unwrap()["token"].as_str().unwrap().to_string();
    v.verify_grant(&token, "ce-cast", "read", "api", 0, PlainVault::verify_grant).unwrap();
    assert!(v.verify_grant(&token, "other", "read", "api", 0, PlainVault::verify_grant).is_err());
}

#[test]
fn vault_roundtrip_through_wasm_struct() {
    let dk = WasmVault::<PlainVault>::generate_device_key(generate).unwrap();
    let v = WasmVault::new(&dk, "wasm-ns", "2026-06-26T00:00:00.000Z", PlainVault::open).unwrap();
    assert!(v.init("owner", PlainVault::init).unwrap());
    assert!(v.is_enrolled(PlainVault::is_enrolled).unwrap());

    let meta = v.put_secret("api", b"s3cr3t", "opaque", PlainVault::put_secret).unwrap();
    assert!(meta.contains("\"name\":\"api\""));
    assert_eq!(v.get_secret("api", PlainVault::get_secret).unwrap(), b"s3cr3t");

    let snap = v.snapshot(PlainVault::list).unwrap();
    let v2 = WasmVault::new(&dk, "wasm-ns", "2026-06-26T00:00:00.000Z", PlainVault::open).unwrap();
    v2.load_snapshot(&snap, PlainVault::open_list, PlainVault::change).unwrap();
    assert!(v2.is_enrolled(PlainVault::is_enrolled).unwrap());
    assert_eq!(v2.get_secret("api", PlainVault::get_secret).unwrap(), b"s3cr3t");

    let g = v.issue_grant("ce-cast", "[\"api\"]", "", PlainVault::issue_grant).unwrap();
    let token = serde_json::from_str::<Value>(&g).unwrap()["token"].as_str().unwrap().to_string();
    v.verify_grant(&token, "ce-cast", "read", "api", 0.0 as i64, PlainVault::verify_grant).unwrap();
    assert!(v
        .verify_grant(&token, "other", "read", "api", 0.0 as i64, PlainVault::verify_grant)
        .is_err());
}

#[test]
fn opening_keeps_the_key_and_the_namespace() {
    let key = generate().unwrap();
    let v = native(&key);
    assert_eq!(v.namespace(), "wasm-ns");
    assert_eq!(v.device_id(|vault: &PlainVault| vault.device.clone()), "dev-1");
    assert_eq!(v.device_public(|json: &str| Ok(json.to_string())).unwrap(), key);
    let w = wasm(&key);
    assert_eq!(w.namespace(), "wasm-ns");
    assert_eq!(w.device_id(|vault: &PlainVault| vault.device.clone()), "dev-1");
    assert_eq!(w.device_public(|json: &str| Ok(json.to_string())), Ok(key));
}

#[test]
fn a_bad_device_key_is_reported() {
    match VaultCore::new("{}", "ns", NOW, PlainVault::open) {
        Err(VaultError::Vault(text)) => assert_eq!(text, "device key has no id"),
        _ => panic!("opened"),
    }
    match WasmVault::new("{}", "ns", NOW, PlainVault::open) {
        Err(text) => assert_eq!(text, "device key has no id"),
        Ok(_) => panic!("opened"),
    }
}

#[test]
fn a_vault_is_established_once() {
    let v = wasm(&generate().unwrap());
    assert_eq!(v.vault_exists(PlainVault::is_established), Ok(false));
    assert_eq!(v.is_enrolled(PlainVault::is_enrolled), Ok(false));
    assert_eq!(v.recover("owner", PlainVault::recover), Ok(()));
    assert_eq!(v.vault_exists(PlainVault::is_established), Ok(true));
    assert_eq!(v.init("owner", PlainVault::init), Ok(false));
    let c = native(&generate().unwrap());
    assert!(!c.vault_exists(PlainVault::is_established).unwrap());
    c.recover("owner", PlainVault::recover).unwrap();
    assert!(c.vault_exists(PlainVault::is_established).unwrap());
}

#[test]
fn pairing_is_handed_on() {
    let v = wasm(&generate().unwrap());
    let request = |_: &PlainVault, label: &str| Ok(format!("code-for-{}", label));
    let approve = |_: &PlainVault, code: &str| -> Result<String, String> {
        Err(format!("unknown code {}", code))
    };
    let pending = |_: &PlainVault| Ok(vec![Value::from("p1"), Value::from(2u64)]);
    assert_eq!(v.request_pairing("phone", request), Ok("code-for-phone".to_string()));
    assert_eq!(v.approve_pairing("x1", approve), Err("unknown code x1".to_string()));
    assert_eq!(v.list_pairing(pending), Ok("[\"p1\",2]".to_string()));
    let c = native(&generate().unwrap());
    assert_eq!(c.request_pairing("phone", request).unwrap(), "code-for-phone");
    assert_eq!(c.approve_pairing("x1", approve).unwrap_err().message(), "unknown code x1");
    assert_eq!(c.list_pairing(pending).unwrap(), "[\"p1\",2]");
}

#[test]
fn listed_requests_read_back() {
    let pending = vec![Value::from(0.5), object(vec![("at", Value::from(2.25))]), Value::Null];
    let text = native(&generate().unwrap())
        .list_pairing(|_: &PlainVault| Ok(pending.clone()))
        .unwrap();
    assert_eq!(text, "[0.5,{\"at\":2.25},null]");
    assert_eq!(serde_json::from_str::<Vec<Value>>(&text).unwrap(), pending);
}

#[test]
fn devices_are_listed_and_revoked() {
    let v = native(&generate().unwrap());
    v.init("owner", PlainVault::init).unwrap();
    assert_eq!(
        v.list_devices(PlainVault::devices).unwrap(),
        "[{\"addedAt\":\"2026-06-26T00:00:00.000Z\",\"id\":\"dev-1\",\"label\":\"owner\",\"self\":true}]"
    );
    assert_eq!(
        v.revoke_device("dev-1", PlainVault::revoke_device).unwrap_err().message(),
        "cannot revoke the device you are using"
    );
    v.revoke_device("dev-2", PlainVault::revoke_device).unwrap();
    let w = wasm(&generate().unwrap());
    assert_eq!(w.list_devices(PlainVault::devices), Ok("[]".to_string()));
    assert_eq!(
        w.list_devices(|_: &PlainVault| -> Result<Vec<Device>, String> { Err("offline".to_string()) }),
        Err("offline".to_string())
    );
    assert_eq!(
        w.revoke_device("dev-1", PlainVault::revoke_device),
        Err("cannot revoke the device you are using".to_string())
    );
}

#[test]
fn secrets_are_put_listed_and_deleted() {
    let v = wasm(&generate().unwrap());
    assert_eq!(
        v.put_secret("api", b"x", "opaque", PlainVault::put_secret),
        Err("this device is not enrolled".to_string())
    );
    v.init("owner", PlainVault::init).unwrap();
    let b = v.put_secret("b", b"x", "opaque", PlainVault::put_secret).unwrap();
    let a = v.put_secret("a", b"y", "ssh", PlainVault::put_secret).unwrap();
    assert_eq!(v.list_secrets(PlainVault::secrets), Ok(format!("[{},{}]", a, b)));
    assert_eq!(v.fingerprint("a", PlainVault::fingerprint), Ok(Some("fp".to_string())));
    let delete = |vault: &PlainVault, name: &str| vault.delete(format!("s.{}", name));
    assert_eq!(v.delete_secret("a", delete), Ok(()));
    assert_eq!(v.fingerprint("a", PlainVault::fingerprint), Ok(None));
    assert_eq!(v.list_secrets(PlainVault::secrets), Ok(format!("[{}]", b)));
    assert_eq!(v.get_secret("a", PlainVault::get_secret), Err("no secret a".to_string()));
    let c = native(&generate().unwrap());
    assert_eq!(c.list_secrets(PlainVault::secrets).unwrap(), "[]");
    assert_eq!(c.fingerprint("a", PlainVault::fingerprint).unwrap(), None);
    c.delete_secret("a", delete).unwrap();
}

#[test]
fn an_empty_expiry_means_never() {
    assert_eq!(grant_expiry(""), None);
    assert_eq!(grant_expiry(" "), Some(" ".to_string()));
    let v = native(&generate().unwrap());
    let seen = |expires: &str| {
        v.issue_grant(
            "aud",
            "[\"b\",\"a\"]",
            expires,
            |_: &PlainVault, audience: &str, read: &Vec<String>, expiry: Option<String>| {
                assert_eq!(audience, "aud");
                assert_eq!(read, &vec!["b".to_string(), "a".to_string()]);
                Ok(IssuedGrant {
                    id: "g".to_string(),
                    token: "t".to_string(),
                    record: Value::from(expiry),
                })
            },
        )
        .unwrap()
    };
    assert_eq!(seen(""), "{\"id\":\"g\",\"record\":null,\"token\":\"t\"}");
    assert_eq!(
        seen("2027-01-01T00:00:00Z"),
        "{\"id\":\"g\",\"record\":\"2027-01-01T00:00:00Z\",\"token\":\"t\"}"
    );
}

#[test]
fn grant_names_are_an_array_of_strings() {
    let v = native(&generate().unwrap());
    for bad in ["", "{}", "[1]", "[\"a\",null]", "\"api\""] {
        let error = v.issue_grant("aud", bad, "", PlainVault::issue_grant).unwrap_err();
        assert!(error.cause().is_some());
        assert_eq!(
            error.message(),
            "parse grant secret-names JSON (expected an array of strings)"
        );
    }
    let recorded = |vault: &PlainVault| {
        vault.list("g.").map(|entries| entries.into_iter().map(|entry| entry.value).collect())
    };
    assert_eq!(v.list_grants(recorded).unwrap(), "[]");
    let w = wasm(&generate().unwrap());
    assert_eq!(
        w.issue_grant("aud", "[", "", PlainVault::issue_grant),
        Err("parse grant secret-names JSON (expected an array of strings)".to_string())
    );
}

#[test]
fn grants_are_listed_and_revoked() {
    let v = wasm(&generate().unwrap());
    v.issue_grant("aud", "[]", "", PlainVault::issue_grant).unwrap();
    let grants = |vault: &PlainVault| {
        vault.list("g.").map(|entries| entries.into_iter().map(|entry| entry.value).collect())
    };
    assert_eq!(
        v.list_grants(grants),
        Ok("[{\"aud\":\"aud\",\"exp\":null,\"read\":[]}]".to_string())
    );
    let revoke = |vault: &PlainVault, id: &str| vault.delete(format!("g.{}", id));
    assert_eq!(v.revoke_grant("g1", revoke), Ok(()));
    assert_eq!(v.list_grants(grants), Ok("[]".to_string()));
    assert_eq!(
        v.verify_grant("token-of-g1", "aud", "read", "x", 0, PlainVault::verify_grant),
        Err("grant revoked".to_string())
    );
    let c = native(&generate().unwrap());
    c.revoke_grant("g1", revoke).unwrap();
    assert_eq!(c.list_grants(grants).unwrap(), "[]");
}

#[test]
fn a_signed_challenge_verifies() {
    let v = native(&generate().unwrap());
    let proof = v.sign_challenge("site", "n1", NOW, PlainVault::sign).unwrap();
    assert_eq!(
        v.verify_auth("site", "n1", &proof, PlainVault::verify_auth).unwrap(),
        "dev-1"
    );
    assert_eq!(
        v.verify_auth("site", "wrong-nonce", &proof, PlainVault::verify_auth).unwrap_err().message(),
        "challenge mismatch"
    );
    assert_eq!(
        v.verify_auth("site", "n1", "{", PlainVault::verify_auth).unwrap_err().message(),
        "parse auth proof JSON"
    );
    let w = wasm(&generate().unwrap());
    let same = w.sign_challenge("site", "n1", NOW, PlainVault::sign).unwrap();
    assert_eq!(same, proof);
    assert_eq!(
        w.verify_auth("site", "n1", &proof, PlainVault::verify_auth),
        Ok("dev-1".to_string())
    );
    assert_eq!(
        w.verify_auth("site", "n1", "{", PlainVault::verify_auth),
        Err("parse auth proof JSON".to_string())
    );
}
