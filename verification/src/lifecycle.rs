//! What holds of handles along every sequence of operations on a table.
use vstd::prelude::*;
use crate::error::AddonError;
use crate::model::TableModel;
use crate::note::canonical;

verus! {

/// One operation that changes a table.
pub enum TableOp {
    /// Registering a note with this text.
    Register(Seq<char>),
    /// Overwriting the entry of a handle with this text.
    Write(u32, Seq<char>),
    /// Retiring a handle.
    Retire(u32),
}

impl TableModel {
    /// The table after one operation.
    pub open spec fn apply(self, op: TableOp) -> TableModel {
        match op {
            TableOp::Register(text) => self.register(text),
            TableOp::Write(handle, text) => self.store(handle, text),
            TableOp::Retire(handle) => self.retire(handle),
        }
    }

    /// The table after a sequence of operations, first to last.
    pub open spec fn run(self, ops: Seq<TableOp>) -> TableModel
        decreases ops.len(),
    {
        if ops.len() == 0 {
            self
        } else {
            self.run(ops.drop_last()).apply(ops.last())
        }
    }

    /// Whether `handle` was given out once and names nothing any more.
    pub open spec fn retired(self, handle: u32) -> bool {
        handle < self.issued && !self.live(handle)
    }
}

/// Every operation keeps a table well formed and never takes back a handle
/// that was given out.
pub proof fn lemma_apply_keeps(table: TableModel, op: TableOp)
    requires
        table.wf(),
    ensures
        table.apply(op).wf(),
        table.apply(op).issued >= table.issued,
        table.apply(op).limit == table.limit,
{
    match op {
        TableOp::Register(text) => {},
        TableOp::Write(handle, text) => {
            if table.live(handle) {
                assert(table.notes.insert(handle, text).dom() =~= table.notes.dom());
            }
        },
        TableOp::Retire(handle) => {},
    }
}

/// Every sequence of operations keeps a table well formed and never takes
/// back a handle that was given out.
pub proof fn lemma_run_keeps(table: TableModel, ops: Seq<TableOp>)
    requires
        table.wf(),
    ensures
        table.run(ops).wf(),
        table.run(ops).issued >= table.issued,
        table.run(ops).limit == table.limit,
    decreases ops.len(),
{
    if ops.len() > 0 {
        lemma_run_keeps(table, ops.drop_last());
        lemma_apply_keeps(table.run(ops.drop_last()), ops.last());
    }
}

/// The handle that a registration gives out names no entry before it, and
/// names the registered text after it; every other handle reads as before.
pub proof fn lemma_fresh_handle_unused(table: TableModel, text: Seq<char>, other: u32)
    requires
        table.wf(),
        table.registered() is Ok,
        other != table.fresh(),
    ensures
        !table.live(table.fresh()),
        table.register(text).read(table.fresh()) == Ok::<Seq<char>, AddonError>(text),
        table.register(text).read(other) == table.read(other),
{
}

/// Two registrations never give out the same handle, whatever happens to the
/// table between them.
pub proof fn lemma_handles_distinct(table: TableModel, text: Seq<char>, between: Seq<TableOp>)
    requires
        table.wf(),
        table.registered() is Ok,
        table.register(text).run(between).registered() is Ok,
    ensures
        table.register(text).run(between).registered() != table.registered(),
{
    lemma_apply_keeps(table, TableOp::Register(text));
    lemma_run_keeps(table.register(text), between);
}

/// A handle that was never given out is rejected by every lookup, and
/// retiring it changes nothing.
pub proof fn lemma_unissued_handle_rejected(table: TableModel, handle: u32)
    requires
        table.wf(),
        handle >= table.issued,
    ensures
        table.read(handle) == Err::<Seq<char>, AddonError>(AddonError::InvalidHandle),
        table.written(handle) == Err::<(), AddonError>(AddonError::InvalidHandle),
        table.retire(handle) == table,
{
    assert(table.notes.remove(handle) =~= table.notes);
}

/// A retired handle is rejected by every lookup, and retiring it again
/// changes nothing.
pub proof fn lemma_retired_handle_rejected(table: TableModel, handle: u32)
    requires
        table.retired(handle),
    ensures
        table.read(handle) == Err::<Seq<char>, AddonError>(AddonError::InvalidHandle),
        table.written(handle) == Err::<(), AddonError>(AddonError::InvalidHandle),
        table.retire(handle) == table,
{
    assert(table.notes.remove(handle) =~= table.notes);
}

/// Retiring a live handle makes it a retired one.
pub proof fn lemma_retire_retires(table: TableModel, handle: u32)
    requires
        table.wf(),
        table.live(handle),
    ensures
        table.retire(handle).wf(),
        table.retire(handle).retired(handle),
{
}

/// A retired handle stays retired through every sequence of operations, and
/// no registration after it gives the handle out again.
pub proof fn lemma_retired_for_good(table: TableModel, handle: u32, later: Seq<TableOp>)
    requires
        table.wf(),
        table.retired(handle),
    ensures
        table.run(later).retired(handle),
        table.run(later).registered() != Ok::<u32, AddonError>(handle),
    decreases later.len(),
{
    lemma_run_keeps(table, later);
    if later.len() > 0 {
        lemma_retired_for_good(table, handle, later.drop_last());
        lemma_run_keeps(table, later.drop_last());
    }
}

/// After the text mutator ran on a live handle, reading the handle gives the
/// canonical form of the raw text, and every other handle reads as before.
pub proof fn lemma_set_text_visible(table: TableModel, handle: u32, raw: Seq<char>, other: u32)
    requires
        table.live(handle),
        other != handle,
    ensures
        table.set_text(handle, raw).read(handle) == Ok::<Seq<char>, AddonError>(canonical(raw)),
        table.set_text(handle, raw).read(other) == table.read(other),
{
}

} // verus!
