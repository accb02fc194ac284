//! The note table: the one place where handles are made, resolved and retired.
use vstd::prelude::*;
use crate::error::AddonError;
use crate::model::TableModel;
use crate::note::Note;
use crate::slots::{
    slot_count, slot_notes, slots_childless, slots_delete, slots_get, slots_get_mut, slots_new,
    slots_push,
};
use wasmtime::component::ResourceTable;

verus! {

/// A registry of notes by handle. The notes lie in the slots of a resource
/// table, which uses a freed slot again; `slot_of` therefore keeps, for every
/// handle ever given out, the slot of its note while the handle is live, so
/// that a handle is its position in `slot_of` and is never given out twice.
pub struct NoteTable {
    slots: ResourceTable,
    slot_of: Vec<Option<u32>>,
    live: usize,
    limit: usize,
}

impl View for NoteTable {
    type V = TableModel;

    closed spec fn view(&self) -> TableModel {
        TableModel {
            notes: Map::new(
                |handle: u32| self.holds(handle),
                |handle: u32| slot_notes(self.slots)[self.slot(handle)],
            ),
            issued: self.slot_of@.len(),
            limit: self.limit as nat,
        }
    }
}

impl NoteTable {
    /// Whether `handle` was given out and not retired since.
    spec fn holds(&self, handle: u32) -> bool {
        handle < self.slot_of@.len() && self.slot_of@[handle as int] is Some
    }

    /// The slot in which the note of a live handle lies.
    spec fn slot(&self, handle: u32) -> u32 {
        self.slot_of@[handle as int]->Some_0
    }

    /// The invariant of the table: every live handle has a slot with a note in
    /// it, no two of them share a slot, `live` counts them, and the slots
    /// underneath can always take one note more than the handles given out.
    pub closed spec fn wf(&self) -> bool {
        &&& self.slot_of@.len() <= u32::MAX
        &&& slot_count(self.slots) <= self.slot_of@.len()
        &&& slots_childless(self.slots)
        &&& forall|handle: u32| #[trigger]
            self.holds(handle) ==> slot_notes(self.slots).contains_key(self.slot(handle))
        &&& forall|first: u32, second: u32|
            #[trigger] self.holds(first) && #[trigger] self.holds(second) && first != second
                ==> self.slot(first) != self.slot(second)
        &&& Set::new(|handle: u32| self.holds(handle)).finite()
        &&& Set::new(|handle: u32| self.holds(handle)).len() == self.live
        &&& self.live <= self.limit
    }

    /// A well-formed table has a well-formed model.
    pub proof fn lemma_model_wf(&self)
        requires
            self.wf(),
        ensures
            self@.wf(),
    {
        assert(self@.notes.dom() =~= Set::new(|handle: u32| self.holds(handle)));
    }

    /// An empty table that admits `limit` live handles at once.
    pub fn with_limit(limit: usize) -> (table: Self)
        ensures
            table.wf(),
            table@ == TableModel::empty(limit as nat),
    {
        let table = NoteTable { slots: slots_new(), slot_of: Vec::new(), live: 0, limit };
        proof {
            assert(Set::new(|handle: u32| table.holds(handle)) =~= Set::<u32>::empty());
            assert(table@.notes =~= Map::<u32, Seq<char>>::empty());
        }
        table
    }

    /// An empty table that admits as many live handles as there are handles.
    pub fn new() -> (table: Self)
        ensures
            table.wf(),
            table@ == TableModel::empty(usize::MAX as nat),
    {
        NoteTable::with_limit(usize::MAX)
    }

    /// Takes the note in and gives out a fresh handle for it: the number of
    /// handles given out before. Fails, and changes nothing, when the table
    /// has no room.
    pub fn register(&mut self, note: Note) -> (result: Result<u32, AddonError>)
        requires
            old(self).wf(),
        ensures
            final(self).wf(),
            final(self)@ == old(self)@.register(note@),
            result == old(self)@.registered(),
    {
        proof {
            assert(self@.notes.dom() =~= Set::new(|handle: u32| self.holds(handle)));
        }
        if self.live >= self.limit || self.slot_of.len() >= u32::MAX as usize {
            return Err(AddonError::CapacityExceeded);
        }
        let handle: u32 = self.slot_of.len() as u32;
        let ghost before = *self;
        match slots_push(&mut self.slots, note) {
            Ok(index) => {
                self.slot_of.push(Some(index));
                self.live = self.live + 1;
                proof {
                    assert forall|other: u32| #[trigger] self.holds(other) implies slot_notes(
                        self.slots,
                    ).contains_key(self.slot(other)) by {
                        if other != handle {
                            assert(before.holds(other));
                        }
                    }
                    assert forall|first: u32, second: u32|
                        #[trigger] self.holds(first) && #[trigger] self.holds(second) && first
                            != second implies self.slot(first) != self.slot(second) by {
                        if first != handle {
                            assert(before.holds(first));
                        }
                        if second != handle {
                            assert(before.holds(second));
                        }
                    }
                    assert(Set::new(|other: u32| self.holds(other)) =~= Set::new(
                        |other: u32| before.holds(other),
                    ).insert(handle));
                    assert(self@.notes =~= before@.notes.insert(handle, note@)) by {
                        assert forall|other: u32| #[trigger]
                            self@.notes.contains_key(other) && other != handle implies self@.notes[other]
                            == before@.notes[other] by {
                            assert(before.holds(other));
                        }
                    }
                }
                Ok(handle)
            },
            Err(_) => {
                proof {
                    assert(false);
                }
                Err(AddonError::CapacityExceeded)
            },
        }
    }

    /// The slot of a live handle; `None` for any other handle.
    fn resolve(&self, handle: u32) -> (slot: Option<u32>)
        ensures
            slot is Some <==> self.holds(handle),
            slot is Some ==> slot->Some_0 == self.slot(handle),
    {
        let position: usize = handle as usize;
        if position < self.slot_of.len() {
            self.slot_of[position]
        } else {
            None
        }
    }

    /// Whether `after` is this table with the note of the live handle
    /// `handle` overwritten in its slot, and nothing else changed.
    spec fn overwritten(&self, after: NoteTable, handle: u32) -> bool {
        &&& self.holds(handle)
        &&& after.slot_of == self.slot_of
        &&& after.live == self.live
        &&& after.limit == self.limit
        &&& slot_notes(after.slots) == slot_notes(self.slots).insert(
            self.slot(handle),
            slot_notes(after.slots)[self.slot(handle)],
        )
        &&& slot_count(after.slots) == slot_count(self.slots)
        &&& slots_childless(after.slots) == slots_childless(self.slots)
    }

    /// Overwriting the note of a live handle keeps the table well formed and
    /// changes the text of that handle alone.
    proof fn lemma_overwritten(&self, after: NoteTable, handle: u32)
        requires
            self.wf(),
            self.overwritten(after, handle),
        ensures
            after.wf(),
            after@ == self@.store(handle, slot_notes(after.slots)[self.slot(handle)]),
    {
        assert forall|other: u32| after.holds(other) == self.holds(other) by {}
        assert(Set::new(|other: u32| after.holds(other)) =~= Set::new(
            |other: u32| self.holds(other),
        ));
        assert(after@.notes =~= self@.notes.insert(
            handle,
            slot_notes(after.slots)[self.slot(handle)],
        )) by {
            assert forall|other: u32| #[trigger]
                after@.notes.contains_key(other) && other != handle implies after@.notes[other]
                == self@.notes[other] by {
                assert(self.holds(other));
                assert(self.holds(handle));
            }
        }
    }

    /// The note behind a live handle.
    pub fn get(&self, handle: u32) -> (result: Result<&Note, AddonError>)
        requires
            self.wf(),
        ensures
            match result {
                Ok(note) => self@.read(handle) == Ok::<Seq<char>, AddonError>(note@),
                Err(error) => self@.read(handle) == Err::<Seq<char>, AddonError>(error),
            },
    {
        match self.resolve(handle) {
            Some(index) => match slots_get(&self.slots, index) {
                Ok(note) => Ok(note),
                Err(_) => {
                    proof {
                        assert(false);
                    }
                    Err(AddonError::InvalidHandle)
                },
            },
            None => Err(AddonError::InvalidHandle),
        }
    }

    /// Exclusive access to the note behind a live handle. What the caller
    /// leaves in the note is what the handle names afterwards.
    pub fn get_mut(&mut self, handle: u32) -> (result: Result<&mut Note, AddonError>)
        requires
            old(self).wf(),
        ensures
            final(self).wf(),
            match result {
                Ok(note) => old(self)@.read(handle) == Ok::<Seq<char>, AddonError>(note@)
                    && final(self)@ == old(self)@.store(handle, final(note)@),
                Err(error) => old(self)@.read(handle) == Err::<Seq<char>, AddonError>(error)
                    && final(self)@ == old(self)@,
            },
    {
        proof {
            let before = *self;
            assert forall|after: NoteTable|
                #![trigger after.wf()]
                #![trigger after@]
                before.overwritten(after, handle) implies after.wf() && after@ == before@.store(
                handle,
                slot_notes(after.slots)[before.slot(handle)],
            ) by {
                before.lemma_overwritten(after, handle);
            }
        }
        match self.resolve(handle) {
            Some(index) => match slots_get_mut(&mut self.slots, index) {
                Ok(note) => Ok(note),
                Err(_) => {
                    proof {
                        assert(false);
                    }
                    Err(AddonError::InvalidHandle)
                },
            },
            None => Err(AddonError::InvalidHandle),
        }
    }

    /// Removes the entry of a live handle and hands its note out. The handle
    /// names nothing from then on.
    pub fn retire(&mut self, handle: u32) -> (result: Result<Note, AddonError>)
        requires
            old(self).wf(),
        ensures
            final(self).wf(),
            final(self)@ == old(self)@.retire(handle),
            match result {
                Ok(note) => old(self)@.read(handle) == Ok::<Seq<char>, AddonError>(note@),
                Err(error) => old(self)@.read(handle) == Err::<Seq<char>, AddonError>(error),
            },
    {
        let ghost before = *self;
        match self.resolve(handle) {
            Some(index) => match slots_delete(&mut self.slots, index) {
                Ok(note) => {
                    self.slot_of.set(handle as usize, None);
                    self.live = self.live - 1;
                    proof {
                        assert(before.holds(handle));
                        assert forall|other: u32| #[trigger] self.holds(other) implies before.holds(
                            other,
                        ) && other != handle by {}
                        assert(Set::new(|other: u32| self.holds(other)) =~= Set::new(
                            |other: u32| before.holds(other),
                        ).remove(handle));
                        assert(self@.notes =~= before@.notes.remove(handle));
                    }
                    Ok(note)
                },
                Err(_) => {
                    proof {
                        assert(false);
                    }
                    Err(AddonError::InvalidHandle)
                },
            },
            None => {
                proof {
                    assert(self@.notes =~= before@.notes.remove(handle));
                }
                Err(AddonError::InvalidHandle)
            },
        }
    }
}

} // verus!
