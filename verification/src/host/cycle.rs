//! The invocation cycle: a copy of the caller's note goes into the table, the
//! guest hook runs on its handle, and what the table then holds comes back to
//! the caller. The hook itself runs outside this library, between `begin` and
//! `finish`: `begin` takes a cycle from unregistered to the point where the
//! guest executes, and `finish` takes it from there to its end, which is
//! reconciled and retired after a return, and failed after a trap.
use vstd::prelude::*;
use crate::error::AddonError;
use crate::host::HostState;
use crate::model::TableModel;
use crate::note::{canonical, Note};

verus! {

/// How a run of the guest hook ended.
#[derive(Clone, Copy, Debug, PartialEq, Eq, Structural)]
pub enum GuestOutcome {
    /// The hook returned to the host.
    Returned,
    /// The hook faulted, or the sandbox reported an error.
    Trapped,
}

/// What a cycle reports after the hook ended with `outcome` on `handle`:
/// success when the hook returned and the handle still names an entry.
pub open spec fn verdict(table: TableModel, handle: u32, outcome: GuestOutcome) -> Result<
    (),
    AddonError,
> {
    match outcome {
        GuestOutcome::Trapped => Err(AddonError::GuestTrap),
        GuestOutcome::Returned => table.written(handle),
    }
}

/// The caller's text after a cycle: the text that the table holds for
/// `handle` when the cycle succeeds, the caller's own text when it fails.
pub open spec fn reconciled(
    table: TableModel,
    handle: u32,
    outcome: GuestOutcome,
    own: Seq<char>,
) -> Seq<char> {
    if verdict(table, handle, outcome) is Ok {
        table.notes[handle]
    } else {
        own
    }
}

/// A cycle whose hook trapped reports the trap and leaves the caller's text
/// as it was, whatever the table holds.
pub proof fn lemma_trap_isolated(table: TableModel, handle: u32, own: Seq<char>)
    ensures
        verdict(table, handle, GuestOutcome::Trapped) == Err::<(), AddonError>(AddonError::GuestTrap),
        reconciled(table, handle, GuestOutcome::Trapped, own) == own,
{
}

/// A whole cycle on a table with room, in which the hook sets the text once
/// and returns: the cycle succeeds, the caller's text becomes the canonical
/// form of what the hook wrote, and the table holds what it held before.
pub proof fn lemma_cycle_round_trip(table: TableModel, own: Seq<char>, raw: Seq<char>)
    requires
        table.wf(),
        table.registered() is Ok,
    ensures
        ({
            let handle = table.fresh();
            let opened = table.register(own);
            let edited = opened.set_text(handle, raw);
            &&& opened.read(handle) == Ok::<Seq<char>, AddonError>(own)
            &&& edited.read(handle) == Ok::<Seq<char>, AddonError>(canonical(raw))
            &&& verdict(edited, handle, GuestOutcome::Returned) is Ok
            &&& reconciled(edited, handle, GuestOutcome::Returned, own) == canonical(raw)
            &&& edited.retire(handle).notes == table.notes
        }),
{
    let handle = table.fresh();
    let edited = table.register(own).set_text(handle, raw);
    assert(edited.retire(handle).notes =~= table.notes);
}

impl HostState {
    /// Opens a cycle: registers a copy of the caller's note and returns the
    /// handle to run the guest hook with. The caller's note is not touched.
    pub fn begin(&mut self, note: &Note) -> (result: Result<u32, AddonError>)
        requires
            old(self).wf(),
        ensures
            final(self).wf(),
            final(self)@ == old(self)@.register(note@),
            result == old(self)@.registered(),
    {
        self.resource_table.register(note.clone())
    }

    /// Closes a cycle: retires `handle`, and, if the hook returned, puts the
    /// note that the table held for it in place of the caller's note. After a
    /// trap the caller's note stays as it was and the entry is dropped.
    pub fn finish(&mut self, handle: u32, outcome: GuestOutcome, note: &mut Note) -> (result: Result<
        (),
        AddonError,
    >)
        requires
            old(self).wf(),
        ensures
            final(self).wf(),
            final(self)@ == old(self)@.retire(handle),
            result == verdict(old(self)@, handle, outcome),
            final(note)@ == reconciled(old(self)@, handle, outcome, old(note)@),
            result is Err ==> *final(note) == *old(note),
    {
        let retired = self.resource_table.retire(handle);
        match outcome {
            GuestOutcome::Trapped => Err(AddonError::GuestTrap),
            GuestOutcome::Returned => match retired {
                Ok(stored) => {
                    *note = stored;
                    Ok(())
                },
                Err(error) => Err(error),
            },
        }
    }
}

} // verus!
