//! The capability surface: what guest code may ask of the host about a note
//! that it holds a handle to.
pub mod cycle;

use vstd::prelude::*;
use crate::error::AddonError;
use crate::model::TableModel;
use crate::table::NoteTable;

verus! {

/// The host's side of the boundary: the note table, reached by guest code
/// through `text` and `set_text` only.
pub struct HostState {
    resource_table: NoteTable,
}

impl View for HostState {
    type V = TableModel;

    closed spec fn view(&self) -> TableModel {
        self.resource_table@
    }
}

impl HostState {
    /// The invariant of the note table inside.
    pub closed spec fn wf(&self) -> bool {
        self.resource_table.wf()
    }

    /// A well-formed host state has a well-formed model.
    pub proof fn lemma_model_wf(&self)
        requires
            self.wf(),
        ensures
            self@.wf(),
    {
        self.resource_table.lemma_model_wf();
    }

    /// A host state with an empty table that admits as many live handles as
    /// there are handles.
    pub fn new() -> (state: Self)
        ensures
            state.wf(),
            state@ == TableModel::empty(usize::MAX as nat),
    {
        HostState { resource_table: NoteTable::new() }
    }

    /// A host state with an empty table that admits `limit` live handles at
    /// once.
    pub fn with_limit(limit: usize) -> (state: Self)
        ensures
            state.wf(),
            state@ == TableModel::empty(limit as nat),
    {
        HostState { resource_table: NoteTable::with_limit(limit) }
    }

    /// A copy of the text that the note behind `handle` holds now.
    pub fn text(&self, handle: u32) -> (result: Result<String, AddonError>)
        requires
            self.wf(),
        ensures
            match result {
                Ok(text) => self@.read(handle) == Ok::<Seq<char>, AddonError>(text@),
                Err(error) => self@.read(handle) == Err::<Seq<char>, AddonError>(error),
            },
    {
        match self.resource_table.get(handle) {
            Ok(note) => Ok(note.text().to_owned()),
            Err(error) => Err(error),
        }
    }

    /// Runs the text mutator on the note behind `handle`, in place.
    pub fn set_text(&mut self, handle: u32, new_text: &str) -> (result: Result<(), AddonError>)
        requires
            old(self).wf(),
        ensures
            final(self).wf(),
            final(self)@ == old(self)@.set_text(handle, new_text@),
            result == old(self)@.written(handle),
    {
        match self.resource_table.get_mut(handle) {
            Ok(note) => {
                note.set_text(new_text);
                Ok(())
            },
            Err(error) => Err(error),
        }
    }
}

} // verus!
