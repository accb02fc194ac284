use addon_host::error::AddonError;
use addon_host::note::Note;
use addon_host::table::NoteTable;

fn note_with(text: &str) -> Note {
    let mut note = Note::new();
    note.set_text(text);
    note
}

#[test]
fn register_counts_handles_from_zero() {
    let mut table = NoteTable::new();
    assert_eq!(table.register(Note::new()), Ok(0));
    assert_eq!(table.register(Note::new()), Ok(1));
    assert_eq!(table.register(Note::new()), Ok(2));
}

#[test]
fn registered_handles_are_pairwise_distinct() {
    let mut table = NoteTable::new();
    let mut seen: Vec<u32> = Vec::new();
    for round in 0..50u32 {
        let handle = table.register(Note::new()).unwrap();
        assert!(!seen.contains(&handle));
        seen.push(handle);
        if round % 3 == 0 {
            table.retire(handle).unwrap();
        }
    }
}

#[test]
fn get_reads_what_was_registered() {
    let mut table = NoteTable::new();
    let first = table.register(note_with("one")).unwrap();
    let second = table.register(note_with("two")).unwrap();
    assert_eq!(table.get(first).unwrap().text(), "NOTE: one");
    assert_eq!(table.get(second).unwrap().text(), "NOTE: two");
}

#[test]
fn get_mut_writes_in_place() {
    let mut table = NoteTable::new();
    let first = table.register(note_with("one")).unwrap();
    let second = table.register(note_with("two")).unwrap();
    table.get_mut(first).unwrap().set_text("uno");
    assert_eq!(table.get(first).unwrap().text(), "NOTE: uno");
    assert_eq!(table.get(second).unwrap().text(), "NOTE: two");
}

#[test]
fn retire_hands_the_note_out() {
    let mut table = NoteTable::new();
    let first = table.register(note_with("one")).unwrap();
    let second = table.register(note_with("two")).unwrap();
    let out = table.retire(first).unwrap();
    assert_eq!(out.text(), "NOTE: one");
    assert_eq!(table.get(second).unwrap().text(), "NOTE: two");
}

#[test]
fn never_registered_handle_is_invalid() {
    let mut table = NoteTable::new();
    assert_eq!(table.get(0).err(), Some(AddonError::InvalidHandle));
    assert_eq!(table.get_mut(0).err(), Some(AddonError::InvalidHandle));
    assert_eq!(table.retire(0).err(), Some(AddonError::InvalidHandle));
    let only = table.register(Note::new()).unwrap();
    assert_eq!(table.get(only + 1).err(), Some(AddonError::InvalidHandle));
    assert_eq!(table.get_mut(only + 1).err(), Some(AddonError::InvalidHandle));
    assert_eq!(table.retire(only + 1).err(), Some(AddonError::InvalidHandle));
    assert_eq!(table.get(u32::MAX).err(), Some(AddonError::InvalidHandle));
    assert_eq!(table.get(only).unwrap().text(), "EMPTY_NOTE");
}

#[test]
fn retired_handle_is_invalid() {
    let mut table = NoteTable::new();
    let handle = table.register(Note::new()).unwrap();
    table.retire(handle).unwrap();
    assert_eq!(table.get(handle).err(), Some(AddonError::InvalidHandle));
    assert_eq!(table.get_mut(handle).err(), Some(AddonError::InvalidHandle));
    assert_eq!(table.retire(handle).err(), Some(AddonError::InvalidHandle));
}

#[test]
fn retired_handle_is_never_given_out_again() {
    let mut table = NoteTable::new();
    let first = table.register(note_with("one")).unwrap();
    let second = table.register(note_with("two")).unwrap();
    table.retire(first).unwrap();
    let third = table.register(note_with("three")).unwrap();
    assert_eq!(third, 2);
    assert_eq!(table.get(first).err(), Some(AddonError::InvalidHandle));
    assert_eq!(table.get(second).unwrap().text(), "NOTE: two");
    assert_eq!(table.get(third).unwrap().text(), "NOTE: three");
    table.retire(third).unwrap();
    table.retire(second).unwrap();
    let fourth = table.register(note_with("four")).unwrap();
    let fifth = table.register(note_with("five")).unwrap();
    assert_eq!((fourth, fifth), (3, 4));
    assert_eq!(table.get(fourth).unwrap().text(), "NOTE: four");
    assert_eq!(table.get(fifth).unwrap().text(), "NOTE: five");
    assert_eq!(table.get(second).err(), Some(AddonError::InvalidHandle));
    assert_eq!(table.get(third).err(), Some(AddonError::InvalidHandle));
}

#[test]
fn register_beyond_the_limit_is_refused() {
    let mut table = NoteTable::with_limit(2);
    let first = table.register(note_with("one")).unwrap();
    let second = table.register(note_with("two")).unwrap();
    assert_eq!(table.register(note_with("three")), Err(AddonError::CapacityExceeded));
    assert_eq!(table.get(first).unwrap().text(), "NOTE: one");
    assert_eq!(table.get(second).unwrap().text(), "NOTE: two");
    assert_eq!(table.get(2).err(), Some(AddonError::InvalidHandle));
}

#[test]
fn limit_counts_live_handles_only() {
    let mut table = NoteTable::with_limit(1);
    let first = table.register(Note::new()).unwrap();
    assert_eq!(table.register(Note::new()), Err(AddonError::CapacityExceeded));
    table.retire(first).unwrap();
    assert_eq!(table.register(Note::new()), Ok(1));
    assert_eq!(table.register(Note::new()), Err(AddonError::CapacityExceeded));
}

#[test]
fn table_without_room_refuses_every_note() {
    let mut table = NoteTable::with_limit(0);
    assert_eq!(table.register(Note::new()), Err(AddonError::CapacityExceeded));
    assert_eq!(table.get(0).err(), Some(AddonError::InvalidHandle));
}

#[test]
fn a_refused_registration_uses_no_handle() {
    let mut table = NoteTable::with_limit(1);
    let first = table.register(Note::new()).unwrap();
    assert_eq!(table.register(Note::new()), Err(AddonError::CapacityExceeded));
    table.retire(first).unwrap();
    assert_eq!(table.register(Note::new()), Ok(first + 1));
}
