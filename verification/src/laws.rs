//! What holds of the library as a whole.

use vstd::prelude::*;

use crate::error::{lifted, VaultError};
use crate::json::{
    is_listing, is_readable, is_readable_within, json_of, json_text, jsons, parsed_json,
    parsed_object, Json,
};
use crate::records::{
    device_json, devices_json, grant_json, meta_json, metas_json, Device, IssuedGrant, SecretMeta,
};
use crate::snapshot::{
    collected, entry_views, is_performed, is_reached, op_views, removals, replaces, settings,
    store_after, StoreEntry, StoreOp, StoreOpView,
};
use crate::vault::{is_authenticated, is_exported, is_loaded, is_written};

verus! {

/// Whether `entries` list what `store` holds: each key once, with its record.
pub open spec fn lists(entries: Seq<(Seq<char>, Json)>, store: Map<Seq<char>, Json>) -> bool {
    &&& forall|i: int, j: int|
        #![trigger entries[i], entries[j]]
        0 <= i < j < entries.len() ==> entries[i].0 != entries[j].0
    &&& forall|i: int|
        0 <= i < entries.len() ==> store.contains_key((#[trigger] entries[i]).0)
            && store[entries[i].0] == entries[i].1
    &&& forall|key: Seq<char>| #[trigger]
        store.contains_key(key) ==> exists|i: int|
            0 <= i < entries.len() && (#[trigger] entries[i]).0 == key
}

/// Loading a snapshot replaces all that the store held: afterwards the store holds
/// the snapshot and nothing else, whatever it held before.
pub proof fn load_replaces_the_store(
    store: Map<Seq<char>, Json>,
    current: Seq<(Seq<char>, Json)>,
    snapshot: Map<Seq<char>, Json>,
    ops: Seq<StoreOpView>,
)
    requires
        lists(current, store),
        replaces(ops, current, snapshot),
    ensures
        store_after(store, ops) == snapshot,
{
    let listing = choose|listing: Seq<(Seq<char>, Json)>|
        is_listing(listing, snapshot) && ops == removals(current) + #[trigger] settings(listing);
    lemma_after_both(store, removals(current), settings(listing));
    lemma_after_removals(store, current);
    let emptied = store_after(store, removals(current));
    assert forall|key: Seq<char>| !emptied.contains_key(key) by {
        if store.contains_key(key) {
            let i = choose|i: int| 0 <= i < current.len() && (#[trigger] current[i]).0 == key;
            assert(current[i].0 == key);
        }
    }
    assert(emptied == Map::<Seq<char>, Json>::empty());
    lemma_after_settings(listing, snapshot);
    assert(store_after(emptied, settings(listing)) == snapshot);
}

/// A snapshot of a store is the text of the object that the store is, whatever the
/// order in which the store lists its entries.
pub proof fn snapshot_is_the_store(
    store: Map<Seq<char>, Json>,
    entries: Vec<StoreEntry>,
    text: String,
)
    requires
        lists(entry_views(entries@), store),
        is_exported(Ok(entries), Ok(text)),
    ensures
        text@ == json_text(Json::Object(store)),
{
    lemma_collected(entry_views(entries@), store);
}

/// A snapshot of one store, loaded into any other, makes the other hold what the
/// first held, if the first is readable: no record is nested too deep, and each float in
/// it comes back from its own text.
pub proof fn reload_restores_the_store(
    store: Map<Seq<char>, Json>,
    entries: Vec<StoreEntry>,
    text: String,
    other: Map<Seq<char>, Json>,
    current: Seq<(Seq<char>, Json)>,
    ops: Seq<StoreOpView>,
)
    requires
        lists(entry_views(entries@), store),
        is_exported(Ok(entries), Ok(text)),
        is_readable(Json::Object(store)),
        lists(current, other),
        parsed_object(text@) matches Some(snapshot) ==> replaces(ops, current, snapshot),
    ensures
        store_after(other, ops) == store,
{
    lemma_collected(entry_views(entries@), store);
    load_replaces_the_store(other, current, store, ops);
}

/// A store that was loaded from a snapshot exports the text of the same object.
pub proof fn export_after_load(
    store: Map<Seq<char>, Json>,
    current: Seq<(Seq<char>, Json)>,
    snapshot: Map<Seq<char>, Json>,
    ops: Seq<StoreOpView>,
    entries: Vec<StoreEntry>,
    text: String,
)
    requires
        lists(current, store),
        replaces(ops, current, snapshot),
        lists(entry_views(entries@), store_after(store, ops)),
        is_exported(Ok(entries), Ok(text)),
    ensures
        text@ == json_text(Json::Object(snapshot)),
{
    load_replaces_the_store(store, current, snapshot, ops);
    snapshot_is_the_store(snapshot, entries, text);
}

/// Whether `perform` changes a store as its changes say, where `contents` is what a
/// state of the store holds.
pub open spec fn changes_as_said<S, P>(
    contents: spec_fn(S) -> Map<Seq<char>, Json>,
    perform: P,
) -> bool where P: Fn(S, &StoreOp) -> Result<S, String> {
    forall|before: S, op: StoreOp, after: S| #[trigger]
        perform.ensures((before, &op), Ok(after)) ==> contents(after) == store_after(
            contents(before),
            seq![op@],
        )
}

/// Making the changes of a replacement to a store that does as it is told leaves it
/// with the snapshot and nothing else, if no change fails.
pub proof fn a_replaced_store_holds_the_snapshot<S, P>(
    contents: spec_fn(S) -> Map<Seq<char>, Json>,
    start: S,
    current: Seq<(Seq<char>, Json)>,
    snapshot: Map<Seq<char>, Json>,
    ops: Seq<StoreOp>,
    perform: P,
    end: S,
) where P: Fn(S, &StoreOp) -> Result<S, String>
    requires
        lists(current, contents(start)),
        replaces(op_views(ops), current, snapshot),
        changes_as_said(contents, perform),
        is_performed(start, ops, perform, Ok(end)),
    ensures
        contents(end) == snapshot,
{
    let states = choose|states: Seq<S>| #[trigger]
        is_reached(start, ops, perform, states) && states.len() == ops.len() + 1 && states.last()
            == end;
    lemma_after_some_changes(contents, states, ops, perform, ops.len() as int);
    assert(op_views(ops).take(ops.len() as int) == op_views(ops));
    load_replaces_the_store(contents(start), current, snapshot, op_views(ops));
}

/// Whether `list` lists all that a store holds, where `contents` is what a state of the
/// store holds.
pub open spec fn lists_all<'a, V, S, L>(
    contents: spec_fn(S) -> Map<Seq<char>, Json>,
    inner: &'a V,
    list: L,
) -> bool where L: FnOnce(&'a V, &str) -> Result<(S, Vec<StoreEntry>), String> {
    forall|store: S, entries: Vec<StoreEntry>| #[trigger]
        list.ensures((inner, ""), Ok((store, entries))) ==> lists(
            entry_views(entries@),
            contents(store),
        )
}

/// After a snapshot is loaded into a store that lists all that it holds and does as it
/// is told, the store holds the snapshot and nothing else.
pub proof fn a_loaded_store_holds_the_snapshot<'a, V, S, L, P>(
    contents: spec_fn(S) -> Map<Seq<char>, Json>,
    inner: &'a V,
    snapshot_json: &str,
    list: L,
    perform: P,
) where
    L: FnOnce(&'a V, &str) -> Result<(S, Vec<StoreEntry>), String>,
    P: Fn(S, &StoreOp) -> Result<S, String>,

    requires
        is_loaded(inner, snapshot_json, list, perform, Ok(())),
        lists_all(contents, inner, list),
        changes_as_said(contents, perform),
    ensures
        parsed_object(snapshot_json@) is Some,
        exists|start: S, current: Vec<StoreEntry>, ops: Seq<StoreOp>, end: S|
            list.ensures((inner, ""), Ok((start, current))) && #[trigger] replaces(
                op_views(ops),
                entry_views(current@),
                parsed_object(snapshot_json@)->0,
            ) && #[trigger] is_performed(start, ops, perform, Ok(end)) && contents(end)
                == parsed_object(snapshot_json@)->0,
{
    let snapshot = parsed_object(snapshot_json@)->0;
    let listed = choose|listed: Result<(S, Vec<StoreEntry>), String>| #[trigger]
        list.ensures((inner, ""), listed) && listed is Ok && exists|ops: Seq<StoreOp>, end: S|
            replaces(op_views(ops), entry_views(listed->Ok_0.1@), snapshot)
                && #[trigger] is_performed(listed->Ok_0.0, ops, perform, Ok(end));
    let (start, current) = listed->Ok_0;
    let (ops, end) = choose|ops: Seq<StoreOp>, end: S|
        replaces(op_views(ops), entry_views(current@), snapshot) && #[trigger] is_performed(
            start,
            ops,
            perform,
            Ok(end),
        );
    a_replaced_store_holds_the_snapshot(
        contents,
        start,
        entry_views(current@),
        snapshot,
        ops,
        perform,
        end,
    );
}

/// What a store holds after the first changes.
proof fn lemma_after_some_changes<S, P>(
    contents: spec_fn(S) -> Map<Seq<char>, Json>,
    states: Seq<S>,
    ops: Seq<StoreOp>,
    perform: P,
    count: int,
) where P: Fn(S, &StoreOp) -> Result<S, String>
    requires
        0 <= count <= ops.len(),
        states.len() == ops.len() + 1,
        changes_as_said(contents, perform),
        is_reached(states[0], ops, perform, states),
    ensures
        contents(states[count]) == store_after(contents(states[0]), op_views(ops).take(count)),
    decreases count,
{
    if count == 0 {
        assert(op_views(ops).take(0) == Seq::<StoreOpView>::empty());
    } else {
        lemma_after_some_changes(contents, states, ops, perform, count - 1);
        assert(perform.ensures((states[count - 1], &ops[count - 1]), Ok(states[count])));
        let last = seq![ops[count - 1]@];
        lemma_after_both(contents(states[0]), op_views(ops).take(count - 1), last);
        assert(op_views(ops).take(count) == op_views(ops).take(count - 1) + last);
    }
}

/// Changes made one after the other add up.
proof fn lemma_after_both(
    store: Map<Seq<char>, Json>,
    first: Seq<StoreOpView>,
    second: Seq<StoreOpView>,
)
    ensures
        store_after(store, first + second) == store_after(store_after(store, first), second),
    decreases second.len(),
{
    if second.len() == 0 {
        assert(first + second == first);
    } else {
        assert((first + second).drop_last() == first + second.drop_last());
        lemma_after_both(store, first, second.drop_last());
    }
}

/// What is left after the records of some entries are removed.
proof fn lemma_after_removals(store: Map<Seq<char>, Json>, entries: Seq<(Seq<char>, Json)>)
    ensures
        forall|key: Seq<char>| #[trigger]
            store_after(store, removals(entries)).contains_key(key) ==> store.contains_key(key)
                && forall|i: int| 0 <= i < entries.len() ==> (#[trigger] entries[i]).0 != key,
    decreases entries.len(),
{
    if entries.len() > 0 {
        let shorter = entries.drop_last();
        assert(removals(entries).drop_last() == removals(shorter));
        lemma_after_removals(store, shorter);
        assert forall|key: Seq<char>| #[trigger]
            store_after(store, removals(entries)).contains_key(key) implies store.contains_key(key)
            && forall|i: int| 0 <= i < entries.len() ==> (#[trigger] entries[i]).0 != key by {
            assert(store_after(store, removals(shorter)).contains_key(key));
            assert forall|i: int| 0 <= i < entries.len() implies (#[trigger] entries[i]).0 != key by {
                if i < shorter.len() {
                    assert(shorter[i].0 != key);
                }
            }
        }
    }
}

/// What is there after the records of some entries are set in an empty store.
proof fn lemma_after_settings(entries: Seq<(Seq<char>, Json)>, fields: Map<Seq<char>, Json>)
    requires
        is_listing(entries, fields),
    ensures
        store_after(Map::empty(), settings(entries)) == fields,
{
    lemma_after_some_settings(entries, fields, entries.len() as int);
    assert(entries.take(entries.len() as int) == entries);
    let after = store_after(Map::empty(), settings(entries));
    assert forall|key: Seq<char>| #[trigger] fields.contains_key(key) implies after.contains_key(
        key,
    ) by {
        let i = choose|i: int| 0 <= i < entries.len() && (#[trigger] entries[i]).0 == key;
        assert(entries[i].0 == key);
    }
    assert(after =~= fields);
}

/// What is there after the records of the first entries are set in an empty store.
proof fn lemma_after_some_settings(
    entries: Seq<(Seq<char>, Json)>,
    fields: Map<Seq<char>, Json>,
    count: int,
)
    requires
        0 <= count <= entries.len(),
        forall|i: int|
            0 <= i < entries.len() ==> fields.contains_key((#[trigger] entries[i]).0)
                && fields[entries[i].0] == entries[i].1,
    ensures
        ({
            let after = store_after(Map::empty(), settings(entries.take(count)));
            &&& forall|key: Seq<char>| #[trigger]
                after.contains_key(key) ==> fields.contains_key(key) && after[key] == fields[key]
            &&& forall|i: int| 0 <= i < count ==> after.contains_key((#[trigger] entries[i]).0)
        }),
    decreases count,
{
    if count > 0 {
        let shorter = entries.take(count - 1);
        assert(entries.take(count).drop_last() == shorter);
        assert(settings(entries.take(count)).drop_last() == settings(shorter));
        assert(entries.take(count).last() == entries[count - 1]);
        lemma_after_some_settings(entries, fields, count - 1);
        let before = store_after(Map::empty(), settings(shorter));
        let after = store_after(Map::empty(), settings(entries.take(count)));
        assert(after == before.insert(entries[count - 1].0, entries[count - 1].1));
        assert forall|key: Seq<char>| #[trigger] after.contains_key(
            key,
        ) implies fields.contains_key(key) && after[key] == fields[key] by {
            if key != entries[count - 1].0 {
                assert(before.contains_key(key));
            }
        }
        assert forall|i: int| 0 <= i < count implies after.contains_key(
            (#[trigger] entries[i]).0,
        ) by {
            if i < count - 1 {
                assert(before.contains_key(entries[i].0));
            }
        }
    }
}

/// The records that a listing collects are what it lists.
proof fn lemma_collected(entries: Seq<(Seq<char>, Json)>, store: Map<Seq<char>, Json>)
    requires
        lists(entries, store),
    ensures
        collected(entries) == store,
{
    lemma_collected_some(entries, store, entries.len() as int);
    assert(entries.take(entries.len() as int) == entries);
    assert forall|key: Seq<char>| #[trigger] store.contains_key(key) implies collected(
        entries,
    ).contains_key(key) by {
        let i = choose|i: int| 0 <= i < entries.len() && (#[trigger] entries[i]).0 == key;
        assert(entries[i].0 == key);
    }
    assert(collected(entries) =~= store);
}

/// The records that the first entries of a listing collect.
proof fn lemma_collected_some(
    entries: Seq<(Seq<char>, Json)>,
    store: Map<Seq<char>, Json>,
    count: int,
)
    requires
        0 <= count <= entries.len(),
        forall|i: int|
            0 <= i < entries.len() ==> store.contains_key((#[trigger] entries[i]).0)
                && store[entries[i].0] == entries[i].1,
    ensures
        forall|key: Seq<char>| #[trigger]
            collected(entries.take(count)).contains_key(key) ==> store.contains_key(key)
                && collected(entries.take(count))[key] == store[key],
        forall|i: int|
            0 <= i < count ==> collected(entries.take(count)).contains_key(
                (#[trigger] entries[i]).0,
            ),
    decreases count,
{
    if count > 0 {
        assert(entries.take(count).drop_last() == entries.take(count - 1));
        assert(entries.take(count).last() == entries[count - 1]);
        lemma_collected_some(entries, store, count - 1);
        let before = collected(entries.take(count - 1));
        let after = collected(entries.take(count));
        assert(after == before.insert(entries[count - 1].0, entries[count - 1].1));
        assert forall|key: Seq<char>| #[trigger] after.contains_key(key) implies store.contains_key(
            key,
        ) && after[key] == store[key] by {
            if key != entries[count - 1].0 {
                assert(before.contains_key(key));
            }
        }
        assert forall|i: int| 0 <= i < count implies after.contains_key(
            (#[trigger] entries[i]).0,
        ) by {
            if i < count - 1 {
                assert(before.contains_key(entries[i].0));
            }
        }
    }
}

/// The text that `issue_grant` gives reads back as an object with the grant's id, its
/// token and its record, if the record is readable inside an object.
pub proof fn a_grant_reads_back(grant: IssuedGrant, text: String)
    requires
        is_written(Ok(grant), |grant: IssuedGrant| grant_json(grant), Ok(text)),
        is_readable_within(json_of(grant.record), 126),
    ensures
        parsed_object(text@) is Some,
        parsed_object(text@)->0.dom() == set!["id"@, "token"@, "record"@],
        parsed_object(text@)->0["id"@] == Json::Text(grant.id@),
        parsed_object(text@)->0["token"@] == Json::Text(grant.token@),
        parsed_object(text@)->0["record"@] == json_of(grant.record),
{
    reveal_strlit("id");
    reveal_strlit("token");
    reveal_strlit("record");
    assert("id"@.len() == 2 && "token"@.len() == 5 && "record"@.len() == 6);
    let fields = grant_json(grant)->Object_0;
    assert forall|key: Seq<char>| #[trigger] fields.contains_key(key) implies is_readable_within(
        fields[key],
        126,
    ) by {}
    assert(is_readable(grant_json(grant)));
    assert(fields.dom() == set!["id"@, "token"@, "record"@]);
}

/// Whether each part of a secret's metadata is readable within `depth` levels.
pub open spec fn meta_parts_readable(meta: SecretMeta, depth: nat) -> bool {
    &&& is_readable_within(json_of(meta.version), depth)
    &&& is_readable_within(json_of(meta.fp), depth)
    &&& is_readable_within(json_of(meta.public), depth)
    &&& is_readable_within(json_of(meta.created_at), depth)
    &&& is_readable_within(json_of(meta.rotated_at), depth)
}

/// Metadata is readable one level above its parts.
proof fn lemma_meta_readable(meta: SecretMeta, depth: nat)
    requires
        meta_parts_readable(meta, depth),
    ensures
        is_readable_within(meta_json(meta), depth + 1),
{
    let fields = meta_json(meta)->Object_0;
    assert forall|key: Seq<char>| #[trigger] fields.contains_key(key) implies is_readable_within(
        fields[key],
        depth,
    ) by {
        assert(is_readable_within(Json::Text(meta.name@), depth));
        assert(is_readable_within(Json::Text(meta.kind@), depth));
    }
}

/// The text that `put_secret` gives reads back as the secret's metadata, if each of its
/// parts is readable inside an object.
pub proof fn metadata_reads_back(meta: SecretMeta, text: String)
    requires
        is_written(Ok(meta), |meta: SecretMeta| meta_json(meta), Ok(text)),
        meta_parts_readable(meta, 126),
    ensures
        parsed_json(text@) == Some(meta_json(meta)),
{
    lemma_meta_readable(meta, 126);
}

/// The text that `list_secrets` gives reads back as the metadata of all the secrets, if
/// each part of it is readable inside an object in an array.
pub proof fn listed_metadata_reads_back(metas: Vec<SecretMeta>, text: String)
    requires
        is_written(Ok(metas), |metas: Vec<SecretMeta>| metas_json(metas@), Ok(text)),
        forall|i: int| 0 <= i < metas@.len() ==> meta_parts_readable(#[trigger] metas@[i], 125),
    ensures
        parsed_json(text@) == Some(metas_json(metas@)),
{
    let items = metas@.map_values(|meta: SecretMeta| meta_json(meta));
    assert forall|i: int| 0 <= i < items.len() implies is_readable_within(
        #[trigger] items[i],
        126,
    ) by {
        lemma_meta_readable(metas@[i], 125);
    }
    assert(is_readable(metas_json(metas@)));
}

/// The text that `list_devices` gives reads back as all the devices, if each label and
/// each time is readable inside an object in an array.
pub proof fn listed_devices_read_back(devices: Vec<Device>, text: String)
    requires
        is_written(Ok(devices), |devices: Vec<Device>| devices_json(devices@), Ok(text)),
        forall|i: int|
            0 <= i < devices@.len() ==> is_readable_within(
                json_of((#[trigger] devices@[i]).label),
                125,
            ) && is_readable_within(json_of(devices@[i].added_at), 125),
    ensures
        parsed_json(text@) == Some(devices_json(devices@)),
{
    let items = devices@.map_values(|device: Device| device_json(device));
    assert forall|i: int| 0 <= i < items.len() implies is_readable_within(
        #[trigger] items[i],
        126,
    ) by {
        let device = devices@[i];
        let fields = device_json(device)->Object_0;
        assert forall|key: Seq<char>| #[trigger]
            fields.contains_key(key) implies is_readable_within(fields[key], 125) by {
            assert(is_readable_within(Json::Text(device.id@), 125));
            assert(is_readable_within(Json::Bool(device.is_self), 125));
        }
    }
    assert(is_readable(devices_json(devices@)));
}

/// The texts that `list_pairing` and `list_grants` give read back as all the records, if
/// each record is readable inside an array.
pub proof fn listed_records_read_back(records: Vec<serde_json::Value>, text: String)
    requires
        is_written(
            Ok(records),
            |records: Vec<serde_json::Value>| Json::Array(jsons(records@)),
            Ok(text),
        ),
        forall|i: int|
            0 <= i < records@.len() ==> is_readable_within(json_of(#[trigger] records@[i]), 126),
    ensures
        parsed_json(text@) == Some(Json::Array(jsons(records@))),
{
    let items = jsons(records@);
    assert forall|i: int| 0 <= i < items.len() implies is_readable_within(
        #[trigger] items[i],
        126,
    ) by {
        assert(items[i] == json_of(records@[i]));
    }
    assert(is_readable(Json::Array(items)));
}

/// The proof that `sign_challenge` writes reaches the vault that verifies it as it was
/// signed, if it is readable, and that vault decides.
pub proof fn a_signed_proof_is_verified_as_signed<V, F>(
    proof: serde_json::Value,
    text: String,
    inner: V,
    aud: &str,
    nonce: &str,
    proof_json: &str,
    call: F,
    result: Result<String, VaultError>,
) where F: FnOnce(&V, &str, &str, &serde_json::Value) -> Result<String, String>
    requires
        is_written(Ok(proof), |proof: serde_json::Value| json_of(proof), Ok(text)),
        is_readable(json_of(proof)),
        proof_json@ == text@,
        is_authenticated(inner, aud, nonce, proof_json, call, result),
    ensures
        exists|seen: serde_json::Value, reply: Result<String, String>| #[trigger]
            call.ensures((&inner, aud, nonce, &seen), reply) && json_of(seen) == json_of(proof)
                && result == lifted(reply),
{
}

/// Whether a vault accepts a proof that it signed exactly for the audience and the nonce
/// that it signed, as the proof of the device `id`.
pub open spec fn accepts_what_it_signs<V, F, G>(
    inner: V,
    id: Seq<char>,
    sign: F,
    verify: G,
) -> bool where
    F: FnOnce(&V, &str, &str, &str) -> Result<serde_json::Value, String>,
    G: FnOnce(&V, &str, &str, &serde_json::Value) -> Result<String, String>,
 {
    forall|
        aud: &str,
        nonce: &str,
        ts: &str,
        proof: serde_json::Value,
        asked_aud: &str,
        asked_nonce: &str,
        seen: serde_json::Value,
        reply: Result<String, String>,
    |
        #[trigger] sign.ensures((&inner, aud, nonce, ts), Ok(proof)) && #[trigger] verify.ensures(
            (&inner, asked_aud, asked_nonce, &seen),
            reply,
        ) && json_of(seen) == json_of(proof) ==> if asked_aud@ == aud@ && asked_nonce@ == nonce@ {
            reply matches Ok(who) && who@ == id
        } else {
            reply is Err
        }
}

/// With a vault that accepts what it signs, the text that `sign_challenge` gives for an
/// audience and a nonce makes `verify_auth` give the device's id for these two, and an
/// error for any others, if the proof is readable.
pub proof fn a_signed_challenge_verifies<V, F, G>(
    inner: V,
    id: Seq<char>,
    aud: &str,
    nonce: &str,
    ts: &str,
    sign: F,
    proof: serde_json::Value,
    text: String,
    asked_aud: &str,
    asked_nonce: &str,
    proof_json: &str,
    verify: G,
    result: Result<String, VaultError>,
) where
    F: FnOnce(&V, &str, &str, &str) -> Result<serde_json::Value, String>,
    G: FnOnce(&V, &str, &str, &serde_json::Value) -> Result<String, String>,

    requires
        accepts_what_it_signs(inner, id, sign, verify),
        sign.ensures((&inner, aud, nonce, ts), Ok(proof)),
        is_written(Ok(proof), |proof: serde_json::Value| json_of(proof), Ok(text)),
        is_readable(json_of(proof)),
        proof_json@ == text@,
        is_authenticated(inner, asked_aud, asked_nonce, proof_json, verify, result),
    ensures
        asked_aud@ == aud@ && asked_nonce@ == nonce@ ==> (result matches Ok(who) && who@ == id),
        asked_aud@ != aud@ || asked_nonce@ != nonce@ ==> result is Err,
{
    a_signed_proof_is_verified_as_signed(
        proof,
        text,
        inner,
        asked_aud,
        asked_nonce,
        proof_json,
        verify,
        result,
    );
}

} // verus!
