//! The note table as a mathematical value, and what each operation does to it.
use vstd::prelude::*;
use crate::error::AddonError;
use crate::note::canonical;

verus! {

/// What a note table is, seen from outside: the live handles with the text
/// that each one names, how many handles were ever given out, and how many may
/// be live at once.
pub struct TableModel {
    pub notes: Map<u32, Seq<char>>,
    pub issued: nat,
    pub limit: nat,
}

impl TableModel {
    /// A model that a table can have: finitely many live handles, no more
    /// than the limit, each of them given out before, and every handle ever
    /// given out a `u32`.
    pub open spec fn wf(self) -> bool {
        &&& self.notes.dom().finite()
        &&& self.notes.dom().len() <= self.limit
        &&& self.issued <= u32::MAX
        &&& forall|handle: u32| #[trigger] self.notes.contains_key(handle) ==> handle < self.issued
    }

    /// The table without entries that admits `limit` live handles.
    pub open spec fn empty(limit: nat) -> TableModel {
        TableModel { notes: Map::empty(), issued: 0, limit }
    }

    /// Whether `handle` names an entry.
    pub open spec fn live(self, handle: u32) -> bool {
        self.notes.contains_key(handle)
    }

    /// Whether one more note can be registered: the limit is not reached and
    /// a fresh handle is left.
    pub open spec fn has_room(self) -> bool {
        self.notes.dom().len() < self.limit && self.issued < u32::MAX
    }

    /// The handle that the next registration gives out.
    pub open spec fn fresh(self) -> u32 {
        self.issued as u32
    }

    /// The table after registering a note with this text.
    pub open spec fn register(self, text: Seq<char>) -> TableModel {
        if self.has_room() {
            TableModel {
                notes: self.notes.insert(self.fresh(), text),
                issued: self.issued + 1,
                limit: self.limit,
            }
        } else {
            self
        }
    }

    /// What registering returns.
    pub open spec fn registered(self) -> Result<u32, AddonError> {
        if self.has_room() {
            Ok(self.fresh())
        } else {
            Err(AddonError::CapacityExceeded)
        }
    }

    /// What reading the text behind `handle` returns.
    pub open spec fn read(self, handle: u32) -> Result<Seq<char>, AddonError> {
        if self.live(handle) {
            Ok(self.notes[handle])
        } else {
            Err(AddonError::InvalidHandle)
        }
    }

    /// The table after the entry of `handle` was overwritten with `text` as it
    /// stands. A handle that is not live changes nothing.
    pub open spec fn store(self, handle: u32, text: Seq<char>) -> TableModel {
        if self.live(handle) {
            TableModel { notes: self.notes.insert(handle, text), issued: self.issued, limit: self.limit }
        } else {
            self
        }
    }

    /// The table after the text mutator ran on the entry of `handle` with the
    /// raw text `raw`.
    pub open spec fn set_text(self, handle: u32, raw: Seq<char>) -> TableModel {
        self.store(handle, canonical(raw))
    }

    /// What a write through `handle` returns.
    pub open spec fn written(self, handle: u32) -> Result<(), AddonError> {
        if self.live(handle) {
            Ok(())
        } else {
            Err(AddonError::InvalidHandle)
        }
    }

    /// The table after `handle` was retired. A handle that is not live
    /// changes nothing.
    pub open spec fn retire(self, handle: u32) -> TableModel {
        TableModel { notes: self.notes.remove(handle), issued: self.issued, limit: self.limit }
    }
}

} // verus!
