//! The storage under the note table: `wasmtime`'s resource table, which keeps
//! each note in a slot of its own and names the slot by an index. Nothing in
//! this file is proved; every contract restates what the table's source shows.
use vstd::prelude::*;
use crate::note::Note;
use wasmtime::component::{Resource, ResourceTable, ResourceTableError};

verus! {

/// `wasmtime::component::ResourceTable`, taken as a value that only the
/// functions below look into.
#[verifier::external_type_specification]
#[verifier::external_body]
pub struct ExResourceTable(ResourceTable);

/// `wasmtime::component::ResourceTableError`, of which nothing is read but
/// that it is an error.
#[verifier::external_type_specification]
#[verifier::external_body]
pub struct ExResourceTableError(ResourceTableError);

/// The notes that a resource table holds: each occupied slot whose value is a
/// `Note`, by the slot's index, as the note's text.
pub uninterp spec fn slot_notes(table: ResourceTable) -> Map<u32, Seq<char>>;

/// How many slots a resource table has laid out so far, occupied or free: the
/// length of its list of slots, not the room that was set aside for it.
pub uninterp spec fn slot_count(table: ResourceTable) -> nat;

/// Whether no slot of a resource table has a child slot.
pub uninterp spec fn slots_childless(table: ResourceTable) -> bool;

/// `wasmtime::component::ResourceTable::new`: a table without slots, hence
/// without notes and without children.
#[verifier::external_body]
pub(crate) fn slots_new() -> (fresh: ResourceTable)
    ensures
        slot_notes(fresh) == (Map::<u32, Seq<char>>::empty()),
        slot_count(fresh) == 0,
        slots_childless(fresh),
{
    ResourceTable::new()
}

/// `wasmtime::component::ResourceTable::push`: puts the note into a free
/// slot, or into a new slot at the end, and returns that slot's index. The
/// slot held nothing before and gets no parent. The call fails only when no
/// slot is free and the number of slots no longer fits an index; the table is
/// then as it was.
#[verifier::external_body]
pub(crate) fn slots_push(table: &mut ResourceTable, note: Note) -> (pushed: Result<
    u32,
    ResourceTableError,
>)
    ensures
        match pushed {
            Ok(index) => !slot_notes(*old(table)).contains_key(index)
                && slot_notes(*final(table)) == slot_notes(*old(table)).insert(index, note@),
            Err(_) => slot_notes(*final(table)) == slot_notes(*old(table)),
        },
        slot_count(*old(table)) <= u32::MAX ==> pushed is Ok,
        slot_count(*final(table)) <= slot_count(*old(table)) + 1,
        slots_childless(*old(table)) ==> slots_childless(*final(table)),
{
    match table.push(note) {
        Ok(resource) => Ok(resource.rep()),
        Err(error) => Err(error),
    }
}

/// `wasmtime::component::ResourceTable::get`: the note in the slot, exactly
/// when the slot holds one.
#[verifier::external_body]
pub(crate) fn slots_get(table: &ResourceTable, index: u32) -> (found: Result<
    &Note,
    ResourceTableError,
>)
    ensures
        found is Ok <==> slot_notes(*table).contains_key(index),
        found is Ok ==> found->Ok_0@ == slot_notes(*table)[index],
{
    table.get(&Resource::<Note>::new_own(index))
}

/// `wasmtime::component::ResourceTable::get_mut`: exclusive access to the
/// note in the slot, exactly when the slot holds one. Whatever the caller
/// writes through the reference is what the slot holds afterwards; nothing
/// else changes.
#[verifier::external_body]
pub(crate) fn slots_get_mut(table: &mut ResourceTable, index: u32) -> (found: Result<
    &mut Note,
    ResourceTableError,
>)
    ensures
        found is Ok <==> slot_notes(*old(table)).contains_key(index),
        match found {
            Ok(note) => note@ == slot_notes(*old(table))[index]
                && slot_notes(*final(table)) == slot_notes(*old(table)).insert(index, final(note)@),
            Err(_) => slot_notes(*final(table)) == slot_notes(*old(table)),
        },
        slot_count(*final(table)) == slot_count(*old(table)),
        slots_childless(*final(table)) == slots_childless(*old(table)),
{
    table.get_mut(&Resource::<Note>::new_own(index))
}

/// `wasmtime::component::ResourceTable::delete`: frees the slot and hands its
/// note out. It does so whenever the slot holds a note and no slot of the
/// table has a child; when it fails, the notes are as they were. The number of
/// slots stays, and no slot gains a child.
#[verifier::external_body]
pub(crate) fn slots_delete(table: &mut ResourceTable, index: u32) -> (deleted: Result<
    Note,
    ResourceTableError,
>)
    ensures
        match deleted {
            Ok(note) => slot_notes(*old(table)).contains_key(index)
                && note@ == slot_notes(*old(table))[index]
                && slot_notes(*final(table)) == slot_notes(*old(table)).remove(index),
            Err(_) => slot_notes(*final(table)) == slot_notes(*old(table)),
        },
        slot_notes(*old(table)).contains_key(index) && slots_childless(*old(table)) ==> deleted is Ok,
        slot_count(*final(table)) == slot_count(*old(table)),
        slots_childless(*old(table)) ==> slots_childless(*final(table)),
{
    table.delete(Resource::<Note>::new_own(index))
}

} // verus!
