//! Calls for the attention of the operator who started a run.
use crate::rows::TablesModel;
use crate::store::Store;
use crate::table::Row;
use crate::time::Timestamp;
use vstd::prelude::*;

pub mod laws;
pub mod origin;
pub mod terminal;
pub mod types;

use types::{EventNote, EventNoteModel};

verus! {

pub const ATTENTION_PAYLOAD_SCHEMA_VERSION: u64 = 1;

/// The tables once events were noted, as far as there is room for them.
pub open spec fn noted(
    tables: TablesModel,
    run_id: Seq<char>,
    notes: Seq<EventNoteModel>,
    now: Timestamp,
) -> TablesModel
    decreases notes.len(),
{
    if notes.len() == 0 {
        tables
    } else {
        let before = noted(tables, run_id, notes.drop_last(), now);
        if before.room(1) {
            before.with_event(run_id, notes.last().typ, notes.last().payload, now)
        } else {
            before
        }
    }
}

/// Records events; an event for which there is no room is passed over.
pub fn record_notes(store: &mut Store, run_id: &str, notes: &Vec<EventNote>, now: Timestamp)
    requires
        old(store)@.valid(),
        now.writable(),
    ensures
        final(store)@.valid(),
        old(store)@.one_active_run() ==> final(store)@.one_active_run(),
        final(store)@ == noted(old(store)@, run_id@, notes.deep_view(), now),
{
    let ghost before = store@;
    let mut i: usize = 0;
    assert(notes.deep_view().take(0) =~= Seq::empty());
    while i < notes.len()
        invariant
            i <= notes.len(),
            now.writable(),
            store@.valid(),
            before.one_active_run() ==> store@.one_active_run(),
            store@ == noted(before, run_id@, notes.deep_view().take(i as int), now),
        decreases notes.len() - i,
    {
        proof {
            let part = notes.deep_view().take(i + 1);
            assert(part.drop_last() =~= notes.deep_view().take(i as int));
            assert(part.last() == notes@[i as int]@);
        }
        let payload = notes[i].payload.dup();
        match store.record_event(run_id, notes[i].typ.as_str(), payload, now) {
            Ok(()) => {},
            Err(_) => {},
        }
        i = i + 1;
    }
    assert(notes.deep_view().take(i as int) =~= notes.deep_view());
}

} // verus!
