//! Snapshots of the vault's store: a JSON object from keys to records.

use vstd::prelude::*;

use crate::json::{
    fields_of, insert_field, is_listing, is_readable, json_of, json_text, new_object,
    object_fields, object_value, parsed_json, render, Json,
};

verus! {

/// An entry of the store: a key and its record.
#[derive(Debug)]
pub struct StoreEntry {
    pub key: String,
    pub value: serde_json::Value,
}

/// A change to the store.
#[derive(Debug)]
pub enum StoreOp {
    /// Removes the record under `key`.
    Del { key: String },
    /// Sets the record under `key`.
    Put { key: String, value: serde_json::Value },
}

/// The content of a [`StoreOp`].
pub enum StoreOpView {
    Del(Seq<char>),
    Put(Seq<char>, Json),
}

impl View for StoreEntry {
    type V = (Seq<char>, Json);

    open spec fn view(&self) -> (Seq<char>, Json) {
        (self.key@, json_of(self.value))
    }
}

impl View for StoreOp {
    type V = StoreOpView;

    open spec fn view(&self) -> StoreOpView {
        match self {
            StoreOp::Del { key } => StoreOpView::Del(key@),
            StoreOp::Put { key, value } => StoreOpView::Put(key@, json_of(*value)),
        }
    }
}

/// The contents of some changes.
pub open spec fn op_views(ops: Seq<StoreOp>) -> Seq<StoreOpView> {
    ops.map_values(|op: StoreOp| op@)
}

/// The contents of some entries.
pub open spec fn entry_views(entries: Seq<StoreEntry>) -> Seq<(Seq<char>, Json)> {
    entries.map_values(|entry: StoreEntry| entry@)
}

/// What a store holds after `ops` are made to it, one after the other.
pub open spec fn store_after(
    store: Map<Seq<char>, Json>,
    ops: Seq<StoreOpView>,
) -> Map<Seq<char>, Json>
    decreases ops.len(),
{
    if ops.len() == 0 {
        store
    } else {
        let before = store_after(store, ops.drop_last());
        match ops.last() {
            StoreOpView::Del(key) => before.remove(key),
            StoreOpView::Put(key, value) => before.insert(key, value),
        }
    }
}

/// The changes that remove the records of some entries, one after the other.
pub open spec fn removals(entries: Seq<(Seq<char>, Json)>) -> Seq<StoreOpView> {
    entries.map_values(|entry: (Seq<char>, Json)| StoreOpView::Del(entry.0))
}

/// The changes that set the records of some entries, one after the other.
pub open spec fn settings(entries: Seq<(Seq<char>, Json)>) -> Seq<StoreOpView> {
    entries.map_values(|entry: (Seq<char>, Json)| StoreOpView::Put(entry.0, entry.1))
}

/// Whether `ops` are the changes that put `snapshot` in the place of `current`:
/// first every current record is removed, then every record of the snapshot is
/// set, in the order of keys.
pub open spec fn replaces(
    ops: Seq<StoreOpView>,
    current: Seq<(Seq<char>, Json)>,
    snapshot: Map<Seq<char>, Json>,
) -> bool {
    exists|listing: Seq<(Seq<char>, Json)>|
        is_listing(listing, snapshot) && ops == removals(current) + #[trigger] settings(listing)
}

/// The changes that put the records of `snapshot` in the place of the current entries.
pub fn replacement(
    current: &Vec<StoreEntry>,
    snapshot: serde_json::Map<String, serde_json::Value>,
) -> (ops: Vec<StoreOp>)
    ensures
        replaces(op_views(ops@), entry_views(current@), fields_of(snapshot)),
{
    let ghost listed = entry_views(current@);
    let mut ops: Vec<StoreOp> = Vec::new();
    let mut i: usize = 0;
    while i < current.len()
        invariant
            i <= current@.len(),
            ops@.len() == i,
            listed == entry_views(current@),
            forall|j: int| 0 <= j < i ==> (#[trigger] ops@[j])@ == removals(listed)[j],
        decreases current@.len() - i,
    {
        ops.push(StoreOp::Del { key: current[i].key.clone() });
        i = i + 1;
    }
    let fields = object_fields(snapshot);
    let ghost listing = fields@.map_values(
        |field: (String, serde_json::Value)| (field.0@, json_of(field.1)),
    );
    let mut k: usize = 0;
    while k < fields.len()
        invariant
            k <= fields@.len(),
            ops@.len() == current@.len() + k,
            listed == entry_views(current@),
            listing == fields@.map_values(
                |field: (String, serde_json::Value)| (field.0@, json_of(field.1)),
            ),
            forall|j: int|
                0 <= j < ops@.len() ==> (#[trigger] ops@[j])@ == (removals(listed) + settings(
                    listing,
                ))[j],
        decreases fields@.len() - k,
    {
        ops.push(StoreOp::Put { key: fields[k].0.clone(), value: fields[k].1.clone() });
        k = k + 1;
    }
    assert(op_views(ops@) == removals(listed) + settings(listing));
    ops
}

/// Whether a store goes through `states` while the first of the changes `ops` are made
/// to it, one after the other: it is at first in the state `start`, and each change is
/// made to the state that the one before it left.
pub open spec fn is_reached<S, P>(
    start: S,
    ops: Seq<StoreOp>,
    perform: P,
    states: Seq<S>,
) -> bool where P: Fn(S, &StoreOp) -> Result<S, String> {
    &&& 0 < states.len() <= ops.len() + 1
    &&& states[0] == start
    &&& forall|i: int|
        #![trigger states[i], ops[i]]
        0 <= i < states.len() - 1 ==> perform.ensures((states[i], &ops[i]), Ok(states[i + 1]))
}

/// Whether `result` is a right outcome of making the changes `ops`, one after the
/// other, to a store that is at first in the state `start`: they are made until the
/// first that fails, whose error is reported. If none fails, the last state is given.
pub open spec fn is_performed<S, P>(
    start: S,
    ops: Seq<StoreOp>,
    perform: P,
    result: Result<S, String>,
) -> bool where P: Fn(S, &StoreOp) -> Result<S, String> {
    exists|states: Seq<S>| #[trigger]
        is_reached(start, ops, perform, states) && match result {
            Ok(end) => states.len() == ops.len() + 1 && states.last() == end,
            Err(text) => states.len() <= ops.len() && perform.ensures(
                (states.last(), &ops[states.len() - 1]),
                Err(text),
            ),
        }
}

/// Whether `perform` can make each of the changes `ops` when its turn comes, to the
/// state that the changes before it left. Of other changes nothing is asked.
pub open spec fn can_perform<S, P>(start: S, ops: Seq<StoreOp>, perform: P) -> bool where
    P: Fn(S, &StoreOp) -> Result<S, String>,
 {
    forall|states: Seq<S>| #[trigger]
        is_reached(start, ops, perform, states) && states.len() <= ops.len()
            ==> perform.requires((states.last(), &ops[states.len() - 1]))
}

/// Makes some changes to a store, one after the other, until one fails.
pub fn perform_all<S, P>(start: S, ops: &Vec<StoreOp>, perform: P) -> (result: Result<
    S,
    String,
>) where P: Fn(S, &StoreOp) -> Result<S, String>
    requires
        can_perform(start, ops@, perform),
    ensures
        is_performed(start, ops@, perform, result),
{
    let ghost mut states: Seq<S> = seq![start];
    let mut state: S = start;
    let mut i: usize = 0;
    while i < ops.len()
        invariant
            i <= ops@.len(),
            states.len() == i + 1,
            states.last() == state,
            is_reached(start, ops@, perform, states),
            can_perform(start, ops@, perform),
        decreases ops@.len() - i,
    {
        match perform(state, &ops[i]) {
            Ok(next) => {
                proof {
                    let before = states;
                    states = before.push(next);
                    assert forall|j: int|
                        #![trigger states[j], ops@[j]]
                        0 <= j < states.len() - 1 implies perform.ensures(
                        (states[j], &ops@[j]),
                        Ok(states[j + 1]),
                    ) by {
                        assert(states[j] == before[j]);
                    }
                }
                state = next;
            },
            Err(text) => {
                return Err(text);
            },
        }
        i = i + 1;
    }
    Ok(state)
}

/// The records of some entries by key; of entries with one key, the last counts.
pub open spec fn collected(entries: Seq<(Seq<char>, Json)>) -> Map<Seq<char>, Json>
    decreases entries.len(),
{
    if entries.len() == 0 {
        Map::empty()
    } else {
        collected(entries.drop_last()).insert(entries.last().0, entries.last().1)
    }
}

/// The snapshot of some entries: the text of a JSON object from each key to its record.
pub fn snapshot_text(entries: &Vec<StoreEntry>) -> (text: String)
    ensures
        text@ == json_text(Json::Object(collected(entry_views(entries@)))),
        is_readable(Json::Object(collected(entry_views(entries@)))) ==> parsed_json(text@) == Some(
            Json::Object(collected(entry_views(entries@))),
        ),
{
    let ghost views = entry_views(entries@);
    let mut object = new_object();
    let mut i: usize = 0;
    assert(views.take(0) == Seq::<(Seq<char>, Json)>::empty());
    while i < entries.len()
        invariant
            i <= entries@.len(),
            views == entry_views(entries@),
            fields_of(object) == collected(views.take(i as int)),
        decreases entries@.len() - i,
    {
        assert(views.take(i + 1).drop_last() == views.take(i as int));
        insert_field(&mut object, entries[i].key.clone(), entries[i].value.clone());
        i = i + 1;
    }
    assert(views.take(entries@.len() as int) == views);
    render(&object_value(object))
}

} // verus!
