//! What loading and exporting a snapshot do, change by change and record by record.

use vstd::prelude::*;

use crate::error::{JsonInput, VaultError};
use crate::error_laws::says;
use crate::json::{
    fields_of, is_listing, is_readable, is_readable_within, json_error_text, json_of, json_text,
    object_error, parsed_json, parsed_object, render, text_before, Json,
};
use crate::request_laws::reports_json;
use crate::snapshot::{
    collected, entry_views, is_performed, is_reached, op_views, perform_all, removals,
    replacement, replaces, settings, snapshot_text, StoreEntry, StoreOp, StoreOpView,
};
use crate::vault::{is_exported, is_loaded, VaultCore};
use crate::wasm::WasmVault;

verus! {

/// Whether `ops` first remove the record of each current entry, in their order, and then
/// set each record of the snapshot once, in the order of keys, and do nothing else.
pub open spec fn puts_in_place(
    ops: Seq<StoreOp>,
    current: Seq<StoreEntry>,
    snapshot: Map<Seq<char>, Json>,
) -> bool {
    &&& current.len() <= ops.len()
    &&& forall|i: int|
        0 <= i < current.len() ==> ((#[trigger] ops[i]) matches StoreOp::Del { key } && key@
            == current[i].key@)
    &&& forall|i: int|
        current.len() <= i < ops.len() ==> ((#[trigger] ops[i]) matches StoreOp::Put { key, value }
            && snapshot.contains_key(key@) && snapshot[key@] == json_of(value))
    &&& forall|i: int, j: int|
        #![trigger ops[i], ops[j]]
        current.len() <= i < j < ops.len() ==> text_before(
            ops[i]->Put_key@,
            ops[j]->Put_key@,
        )
    &&& forall|key: Seq<char>| #[trigger]
        snapshot.contains_key(key) ==> exists|i: int|
            current.len() <= i < ops.len() && (#[trigger] ops[i])->Put_key@ == key
}

/// The changes of a replacement remove all that is there and set all that the snapshot
/// holds, and do nothing else.
pub proof fn a_replacement_puts_the_snapshot_in_place(
    current: Vec<StoreEntry>,
    snapshot: serde_json::Map<String, serde_json::Value>,
    ops: Vec<StoreOp>,
)
    requires
        call_ensures(replacement, (&current, snapshot), ops),
    ensures
        puts_in_place(ops@, current@, fields_of(snapshot)),
{
    lemma_in_place(ops@, current@, fields_of(snapshot));
}

/// Whether a store goes from `start` through `states` while the first of `ops` are made.
pub open spec fn goes_through<S, P>(
    start: S,
    ops: Seq<StoreOp>,
    perform: P,
    states: Seq<S>,
) -> bool where P: Fn(S, &StoreOp) -> Result<S, String> {
    &&& states.len() > 0
    &&& states[0] == start
    &&& states.len() <= ops.len() + 1
    &&& forall|i: int|
        #![trigger states[i], ops[i]]
        0 <= i && i + 1 < states.len() ==> perform.ensures((states[i], &ops[i]), Ok(states[i + 1]))
}

/// Changes are made in turn, each to what the one before it left: all of them, or up to
/// the first that fails, whose error is the result.
pub proof fn changes_are_made_in_turn<S, P>(
    start: S,
    ops: Vec<StoreOp>,
    perform: P,
    result: Result<S, String>,
) where P: Fn(S, &StoreOp) -> Result<S, String>
    requires
        call_ensures(perform_all::<S, P>, (start, &ops, perform), result),
    ensures
        exists|states: Seq<S>| #[trigger]
            goes_through(start, ops@, perform, states) && match result {
                Ok(end) => states.len() == ops@.len() + 1 && states.last() == end,
                Err(text) => states.len() <= ops@.len() && perform.ensures(
                    (states.last(), &ops@[states.len() - 1]),
                    Err(text),
                ),
            },
{
    let states = choose|states: Seq<S>| #[trigger]
        is_reached(start, ops@, perform, states) && match result {
            Ok(end) => states.len() == ops@.len() + 1 && states.last() == end,
            Err(text) => states.len() <= ops@.len() && perform.ensures(
                (states.last(), &ops@[states.len() - 1]),
                Err(text),
            ),
        };
    assert(goes_through(start, ops@, perform, states));
}

/// A store that notes each change it makes has noted all of them in the end; and where a
/// change fails, exactly those before it.
pub proof fn no_change_is_left_out<S, P>(
    noted: spec_fn(S) -> Seq<StoreOp>,
    start: S,
    ops: Vec<StoreOp>,
    perform: P,
    result: Result<S, String>,
) where P: Fn(S, &StoreOp) -> Result<S, String>
    requires
        call_ensures(perform_all::<S, P>, (start, &ops, perform), result),
        forall|before: S, op: StoreOp, after: S| #[trigger]
            perform.ensures((before, &op), Ok(after)) ==> noted(after) == noted(before).push(op),
    ensures
        result matches Ok(end) ==> noted(end) == noted(start) + ops@,
        result matches Err(text) ==> exists|k: int, state: S|
            0 <= k < ops@.len() && #[trigger] perform.ensures((state, &ops@[k]), Err(text))
                && noted(state) == noted(start) + ops@.take(k),
{
    changes_are_made_in_turn(start, ops, perform, result);
    let states = choose|states: Seq<S>| #[trigger]
        goes_through(start, ops@, perform, states) && match result {
            Ok(end) => states.len() == ops@.len() + 1 && states.last() == end,
            Err(text) => states.len() <= ops@.len() && perform.ensures(
                (states.last(), &ops@[states.len() - 1]),
                Err(text),
            ),
        };
    lemma_noted(noted, start, ops@, perform, states, states.len() - 1);
    assert(ops@.take(ops@.len() as int) == ops@);
}

/// What a store has noted after the first changes.
proof fn lemma_noted<S, P>(
    noted: spec_fn(S) -> Seq<StoreOp>,
    start: S,
    ops: Seq<StoreOp>,
    perform: P,
    states: Seq<S>,
    count: int,
) where P: Fn(S, &StoreOp) -> Result<S, String>
    requires
        goes_through(start, ops, perform, states),
        0 <= count < states.len(),
        forall|before: S, op: StoreOp, after: S| #[trigger]
            perform.ensures((before, &op), Ok(after)) ==> noted(after) == noted(before).push(op),
    ensures
        noted(states[count]) == noted(start) + ops.take(count),
    decreases count,
{
    if count == 0 {
        assert(noted(start) + ops.take(0) == noted(start));
    } else {
        lemma_noted(noted, start, ops, perform, states, count - 1);
        assert(perform.ensures((states[count - 1], &ops[count - 1]), Ok(states[count])));
        assert(noted(start) + ops.take(count) == (noted(start) + ops.take(count - 1)).push(
            ops[count - 1],
        ));
    }
}

/// Whether `result` is what loading a snapshot must give. A text that is no JSON object is
/// reported. Otherwise the store is listed once, with an empty prefix; the changes that
/// put the snapshot in place are made in turn; and the only errors are those that the
/// store gives.
pub open spec fn loads_right<'a, V, S, L, P>(
    inner: &'a V,
    snapshot_json: Seq<char>,
    list: L,
    perform: P,
    result: Result<(), VaultError>,
) -> bool where
    L: FnOnce(&'a V, &str) -> Result<(S, Vec<StoreEntry>), String>,
    P: Fn(S, &StoreOp) -> Result<S, String>,
 {
    match parsed_json(snapshot_json) {
        Some(Json::Object(snapshot)) => exists|listed: Result<(S, Vec<StoreEntry>), String>|
            #[trigger] list.ensures((inner, ""), listed) && match listed {
                Err(text) => result == Err::<(), VaultError>(VaultError::Vault(text)),
                Ok((store, current)) => exists|ops: Seq<StoreOp>, states: Seq<S>|
                    #[trigger] goes_through(store, ops, perform, states) && puts_in_place(
                        ops,
                        current@,
                        snapshot,
                    ) && if states.len() == ops.len() + 1 {
                        result is Ok
                    } else {
                        result matches Err(VaultError::Vault(text)) && perform.ensures(
                            (states.last(), &ops[states.len() - 1]),
                            Err(text),
                        )
                    },
            },
        _ => reports_json(
            result,
            JsonInput::Snapshot,
            json_error_text(object_error(snapshot_json)),
        ),
    }
}

/// `VaultCore::load_snapshot` puts the snapshot in the place of all that the store lists.
pub proof fn a_load_comes_out_right<'a, V, S, L, P>(
    vault: &'a VaultCore<V>,
    snapshot_json: &str,
    list: L,
    perform: P,
    result: Result<(), VaultError>,
) where
    L: FnOnce(&'a V, &str) -> Result<(S, Vec<StoreEntry>), String>,
    P: Fn(S, &StoreOp) -> Result<S, String>,

    requires
        call_ensures(
            VaultCore::<V>::load_snapshot::<S, L, P>,
            (vault, snapshot_json, list, perform),
            result,
        ),
    ensures
        loads_right(&vault.inner(), snapshot_json@, list, perform, result),
{
    lemma_loads(&vault.inner(), snapshot_json, list, perform, result);
}

/// `WasmVault::load_snapshot` does the same, and throws what the error says.
pub proof fn a_thrown_load_comes_out_right<'a, V, S, L, P>(
    vault: &'a WasmVault<V>,
    snapshot_json: &str,
    list: L,
    perform: P,
    result: Result<(), String>,
) where
    L: FnOnce(&'a V, &str) -> Result<(S, Vec<StoreEntry>), String>,
    P: Fn(S, &StoreOp) -> Result<S, String>,

    requires
        call_ensures(
            WasmVault::<V>::load_snapshot::<S, L, P>,
            (vault, snapshot_json, list, perform),
            result,
        ),
    ensures
        exists|loaded: Result<(), VaultError>| #[trigger]
            loads_right(&vault.vault().inner(), snapshot_json@, list, perform, loaded)
                && match loaded {
                Ok(_) => result is Ok,
                Err(error) => result matches Err(text) && says(error, text@),
            },
{
    let loaded = choose|loaded: Result<(), VaultError>| #[trigger]
        is_loaded(&vault.vault().inner(), snapshot_json, list, perform, loaded) && match loaded {
            Ok(_) => result is Ok,
            Err(error) => result matches Err(text) && says(error, text@),
        };
    lemma_loads(&vault.vault().inner(), snapshot_json, list, perform, loaded);
}

/// Only the store can fail the load of a JSON object: whatever its size, it succeeds if
/// listing can only succeed and each change that it needs can only succeed; and an error
/// is one that listing or a change gave.
pub proof fn only_the_store_fails_a_load<'a, V, S, L, P>(
    vault: &'a VaultCore<V>,
    snapshot_json: &str,
    list: L,
    perform: P,
    result: Result<(), VaultError>,
) where
    L: FnOnce(&'a V, &str) -> Result<(S, Vec<StoreEntry>), String>,
    P: Fn(S, &StoreOp) -> Result<S, String>,

    requires
        call_ensures(
            VaultCore::<V>::load_snapshot::<S, L, P>,
            (vault, snapshot_json, list, perform),
            result,
        ),
        parsed_json(snapshot_json@) matches Some(Json::Object(_)),
    ensures
        (forall|listed: Result<(S, Vec<StoreEntry>), String>| #[trigger]
            list.ensures((&vault.inner(), ""), listed) ==> listed is Ok) && (forall|
            state: S,
            op: StoreOp,
            reply: Result<S, String>,
        | #[trigger]
            perform.ensures((state, &op), reply) ==> reply is Ok) ==> result is Ok,
        result matches Err(error) ==> error matches VaultError::Vault(text) && (list.ensures(
            (&vault.inner(), ""),
            Err(text),
        ) || exists|state: S, op: StoreOp| #[trigger] perform.ensures((state, &op), Err(text))),
{
    a_load_comes_out_right(vault, snapshot_json, list, perform, result);
}

/// The same holds of what JavaScript sees: only the store's own words are thrown.
pub proof fn only_the_store_throws_on_a_load<'a, V, S, L, P>(
    vault: &'a WasmVault<V>,
    snapshot_json: &str,
    list: L,
    perform: P,
    result: Result<(), String>,
) where
    L: FnOnce(&'a V, &str) -> Result<(S, Vec<StoreEntry>), String>,
    P: Fn(S, &StoreOp) -> Result<S, String>,

    requires
        call_ensures(
            WasmVault::<V>::load_snapshot::<S, L, P>,
            (vault, snapshot_json, list, perform),
            result,
        ),
        parsed_json(snapshot_json@) matches Some(Json::Object(_)),
    ensures
        (forall|listed: Result<(S, Vec<StoreEntry>), String>| #[trigger]
            list.ensures((&vault.vault().inner(), ""), listed) ==> listed is Ok) && (forall|
            state: S,
            op: StoreOp,
            reply: Result<S, String>,
        | #[trigger]
            perform.ensures((state, &op), reply) ==> reply is Ok) ==> result is Ok,
{
    a_thrown_load_comes_out_right(vault, snapshot_json, list, perform, result);
}

/// Any snapshot can be loaded with functions that accept whatever they are given.
pub proof fn every_load_can_be_made<'a, V, S, L, P>(
    vault: &'a VaultCore<V>,
    thrower: &'a WasmVault<V>,
    snapshot_json: &str,
    list: L,
    perform: P,
) where
    L: FnOnce(&'a V, &str) -> Result<(S, Vec<StoreEntry>), String>,
    P: Fn(S, &StoreOp) -> Result<S, String>,

    requires
        forall|inner: &'a V, prefix: &str| #[trigger] list.requires((inner, prefix)),
        forall|state: S, op: StoreOp| #[trigger] perform.requires((state, &op)),
    ensures
        call_requires(
            VaultCore::<V>::load_snapshot::<S, L, P>,
            (vault, snapshot_json, list, perform),
        ),
        call_requires(
            WasmVault::<V>::load_snapshot::<S, L, P>,
            (thrower, snapshot_json, list, perform),
        ),
{
}

/// Whether `stored` holds the record of each key that an entry has, and nothing else; of
/// entries with one key, that of the last.
pub open spec fn holds_last(stored: Map<Seq<char>, Json>, entries: Seq<StoreEntry>) -> bool {
    &&& forall|key: Seq<char>| #[trigger]
        stored.contains_key(key) <==> exists|i: int|
            0 <= i < entries.len() && (#[trigger] entries[i]).key@ == key
    &&& forall|i: int|
        0 <= i < entries.len() && (forall|j: int|
            i < j < entries.len() ==> (#[trigger] entries[j]).key@ != entries[i].key@)
            ==> stored[(#[trigger] entries[i]).key@] == json_of(entries[i].value)
}

/// Whether `text` is the snapshot of what some entries hold, and reads back as that if it
/// is readable.
pub open spec fn exports(entries: Seq<StoreEntry>, text: Seq<char>) -> bool {
    exists|stored: Map<Seq<char>, Json>| #[trigger]
        holds_last(stored, entries) && text == json_text(Json::Object(stored)) && (
        is_readable_within(Json::Object(stored), 127) ==> parsed_json(text) == Some(
            Json::Object(stored),
        ))
}

/// A snapshot holds every listed record, and nothing else.
pub proof fn a_snapshot_holds_what_is_listed(entries: Vec<StoreEntry>, text: String)
    requires
        call_ensures(snapshot_text, (&entries,), text),
    ensures
        exports(entries@, text@),
{
    lemma_holds_last(entries@);
}

/// `VaultCore::snapshot` lists the store once, with an empty prefix, and exports all that
/// is listed; the only error is that of listing.
pub proof fn an_export_comes_out_right<V, L>(
    vault: VaultCore<V>,
    list: L,
    result: Result<String, VaultError>,
) where L: FnOnce(&V, &str) -> Result<Vec<StoreEntry>, String>
    requires
        call_ensures(VaultCore::<V>::snapshot::<L>, (&vault, list), result),
    ensures
        exists|listed: Result<Vec<StoreEntry>, String>| #[trigger]
            list.ensures((&vault.inner(), ""), listed) && match listed {
                Ok(entries) => result matches Ok(text) && exports(entries@, text@),
                Err(text) => result == Err::<String, VaultError>(VaultError::Vault(text)),
            },
{
    let listed = choose|listed: Result<Vec<StoreEntry>, String>| #[trigger]
        list.ensures((&vault.inner(), ""), listed) && is_exported(listed, result);
    if listed is Ok {
        lemma_holds_last(listed->Ok_0@);
    }
}

/// `WasmVault::snapshot` does the same, and throws the store's own words.
pub proof fn a_thrown_export_comes_out_right<V, L>(
    vault: WasmVault<V>,
    list: L,
    result: Result<String, String>,
) where L: FnOnce(&V, &str) -> Result<Vec<StoreEntry>, String>
    requires
        call_ensures(WasmVault::<V>::snapshot::<L>, (&vault, list), result),
    ensures
        exists|listed: Result<Vec<StoreEntry>, String>| #[trigger]
            list.ensures((&vault.vault().inner(), ""), listed) && match listed {
                Ok(entries) => result matches Ok(text) && exports(entries@, text@),
                Err(words) => result matches Err(text) && text@ == words@,
            },
{
    let listed = choose|listed: Result<Vec<StoreEntry>, String>| #[trigger]
        list.ensures((&vault.vault().inner(), ""), listed) && exists|
            exported: Result<String, VaultError>,
        |
            #[trigger] is_exported(listed, exported) && match exported {
                Ok(text) => result == Ok::<String, String>(text),
                Err(error) => result matches Err(text) && says(error, text@),
            };
    if listed is Ok {
        lemma_holds_last(listed->Ok_0@);
    }
}

/// A value is written as the text of what it holds, which reads back if it is readable.
pub proof fn a_value_is_written(value: serde_json::Value, text: String)
    requires
        call_ensures(render, (&value,), text),
    ensures
        text@ == json_text(json_of(value)),
        is_readable_within(json_of(value), 127) ==> parsed_json(text@) == Some(json_of(value)),
{
}

/// What is readable: whatever holds no array, object or float; a float that comes back
/// from its own text; and an array or an object of what is readable one level deeper, as
/// long as a level is left.
pub proof fn what_is_readable(json: Json, depth: nat)
    ensures
        json is Null || json is Bool || json is Int || json is Text ==> is_readable_within(
            json,
            depth,
        ),
        json is Float ==> (is_readable_within(json, depth) <==> parsed_json(json_text(json))
            == Some(json)),
        json matches Json::Array(items) ==> (is_readable_within(json, depth + 1) <==> forall|i: int|
            0 <= i < items.len() ==> is_readable_within(#[trigger] items[i], depth)),
        json matches Json::Object(fields) ==> (is_readable_within(json, depth + 1) <==> forall|
            key: Seq<char>,
        | #[trigger]
            fields.contains_key(key) ==> is_readable_within(fields[key], depth)),
        is_readable(json) <==> is_readable_within(json, 127),
{
}

/// The changes that put a snapshot in place, one by one.
proof fn lemma_in_place(
    ops: Seq<StoreOp>,
    current: Seq<StoreEntry>,
    snapshot: Map<Seq<char>, Json>,
)
    requires
        replaces(op_views(ops), entry_views(current), snapshot),
    ensures
        puts_in_place(ops, current, snapshot),
{
    let views = op_views(ops);
    let entries = entry_views(current);
    let listing = choose|listing: Seq<(Seq<char>, Json)>|
        is_listing(listing, snapshot) && views == removals(entries) + #[trigger] settings(listing);
    let n = current.len() as int;
    assert(removals(entries).len() == n);
    assert(views.len() == ops.len());
    assert forall|i: int| 0 <= i < ops.len() implies views[i] == (#[trigger] ops[i])@ by {}
    assert forall|i: int| 0 <= i < n implies ((#[trigger] ops[i]) matches StoreOp::Del { key }
        && key@ == current[i].key@) by {
        assert(views[i] == ops[i]@);
        assert(views[i] == StoreOpView::Del(entries[i].0));
    }
    assert forall|i: int| n <= i < ops.len() implies ((#[trigger] ops[i]) matches StoreOp::Put {
        key,
        value,
    } && key@ == listing[i - n].0 && json_of(value) == listing[i - n].1) by {
        assert(views[i] == ops[i]@);
        assert(views[i] == settings(listing)[i - n]);
        assert(views[i] == StoreOpView::Put(listing[i - n].0, listing[i - n].1));
    }
    assert forall|i: int, j: int|
        #![trigger ops[i], ops[j]]
        n <= i < j < ops.len() implies text_before(ops[i]->Put_key@, ops[j]->Put_key@) by {
        assert(text_before(listing[i - n].0, listing[j - n].0));
    }
    assert forall|key: Seq<char>| #[trigger] snapshot.contains_key(key) implies exists|i: int|
        n <= i < ops.len() && (#[trigger] ops[i])->Put_key@ == key by {
        let k = choose|k: int| 0 <= k < listing.len() && (#[trigger] listing[k]).0 == key;
        assert(ops[k + n]->Put_key@ == key);
    }
}

/// A load that follows its inputs comes out right.
proof fn lemma_loads<'a, V, S, L, P>(
    inner: &'a V,
    snapshot_json: &str,
    list: L,
    perform: P,
    result: Result<(), VaultError>,
) where
    L: FnOnce(&'a V, &str) -> Result<(S, Vec<StoreEntry>), String>,
    P: Fn(S, &StoreOp) -> Result<S, String>,

    requires
        is_loaded(inner, snapshot_json, list, perform, result),
    ensures
        loads_right(inner, snapshot_json@, list, perform, result),
{
    if parsed_object(snapshot_json@) is Some {
        let snapshot = parsed_object(snapshot_json@)->0;
        let listed = choose|listed: Result<(S, Vec<StoreEntry>), String>| #[trigger]
            list.ensures((inner, ""), listed) && match listed {
                Err(text) => result == Err::<(), VaultError>(VaultError::Vault(text)),
                Ok((store, current)) => exists|ops: Seq<StoreOp>, performed: Result<S, String>|
                    replaces(op_views(ops), entry_views(current@), snapshot)
                        && #[trigger] is_performed(store, ops, perform, performed)
                        && match performed {
                        Ok(_) => result is Ok,
                        Err(text) => result == Err::<(), VaultError>(VaultError::Vault(text)),
                    },
            };
        if listed is Ok {
            let (store, current) = listed->Ok_0;
            let (ops, performed) = choose|ops: Seq<StoreOp>, performed: Result<S, String>|
                replaces(op_views(ops), entry_views(current@), snapshot)
                    && #[trigger] is_performed(store, ops, perform, performed) && match performed {
                    Ok(_) => result is Ok,
                    Err(text) => result == Err::<(), VaultError>(VaultError::Vault(text)),
                };
            lemma_in_place(ops, current@, snapshot);
            let states = choose|states: Seq<S>| #[trigger]
                is_reached(store, ops, perform, states) && match performed {
                    Ok(end) => states.len() == ops.len() + 1 && states.last() == end,
                    Err(text) => states.len() <= ops.len() && perform.ensures(
                        (states.last(), &ops[states.len() - 1]),
                        Err(text),
                    ),
                };
            assert(goes_through(store, ops, perform, states));
        }
    }
}

/// What entries collect is what the last of each key holds.
proof fn lemma_holds_last(entries: Seq<StoreEntry>)
    ensures
        holds_last(collected(entry_views(entries)), entries),
    decreases entries.len(),
{
    let views = entry_views(entries);
    let stored = collected(views);
    if entries.len() > 0 {
        let n = entries.len() - 1;
        let shorter = entries.drop_last();
        let before = collected(entry_views(shorter));
        assert(views.drop_last() == entry_views(shorter));
        assert(views.last() == (entries[n].key@, json_of(entries[n].value)));
        lemma_holds_last(shorter);
        assert forall|key: Seq<char>| #[trigger] stored.contains_key(key) <==> exists|i: int|
            0 <= i < entries.len() && (#[trigger] entries[i]).key@ == key by {
            if stored.contains_key(key) {
                if key == entries[n].key@ {
                } else {
                    assert(before.contains_key(key));
                    let i = choose|i: int|
                        0 <= i < shorter.len() && (#[trigger] shorter[i]).key@ == key;
                    assert(entries[i].key@ == key);
                }
            }
            if exists|i: int| 0 <= i < entries.len() && (#[trigger] entries[i]).key@ == key {
                let i = choose|i: int|
                    0 <= i < entries.len() && (#[trigger] entries[i]).key@ == key;
                if i < n {
                    assert(shorter[i].key@ == key);
                    assert(before.contains_key(key));
                }
            }
        }
        assert forall|i: int|
            0 <= i < entries.len() && (forall|j: int|
                i < j < entries.len() ==> (#[trigger] entries[j]).key@
                    != entries[i].key@) implies stored[(#[trigger] entries[i]).key@] == json_of(
            entries[i].value,
        ) by {
            if i < n {
                assert(entries[n].key@ != entries[i].key@);
                assert(shorter[i] == entries[i]);
                assert forall|j: int| i < j < shorter.len() implies (#[trigger] shorter[j]).key@
                    != shorter[i].key@ by {
                    assert(shorter[j] == entries[j]);
                }
            }
        }
    }
}

} // verus!
