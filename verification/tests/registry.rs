use process_triggers::commands::{
    add_process_entry, delete_process_entry, get_process_entrys, update_process_entry,
    CommandError,
};
use process_triggers::process_entry::ProcessEntry;
use process_triggers::storage::{FileRead, Storage, PROCESS_ENTRYS_PATH};

fn trigger(name: &str, topic: &str, on: &str, off: &str, is_running: bool) -> ProcessEntry {
    ProcessEntry {
        is_running,
        name: name.to_string(),
        topic: topic.to_string(),
        value: on.to_string(),
        off_value: off.to_string(),
    }
}

fn storage_at(path: &str) -> Storage {
    let mut storage = Storage::new();
    storage.set_path(path.to_string());
    storage
}

fn three() -> Vec<ProcessEntry> {
    vec![
        trigger("a", "t/a", "1", "0", true),
        trigger("b", "t/b", "yes", "no", false),
        trigger("c", "t/c", "up", "down", true),
    ]
}

#[test]
fn blank_entry_is_empty_and_not_running() {
    assert_eq!(ProcessEntry::blank(), trigger("", "", "", "", false));
    let entry = trigger("a", "t", "1", "0", true);
    assert_eq!(entry.duplicate(), entry);
}

#[test]
fn add_appends_a_blank_entry_and_saves_the_list() {
    let storage = storage_at("/data");
    let mut entries = three();
    let write = add_process_entry(&mut entries, &storage).expect("a directory is set");
    let mut expected = three();
    expected.push(trigger("", "", "", "", false));
    assert_eq!(entries, expected);
    assert_eq!(write.file_name, PROCESS_ENTRYS_PATH);
    assert_eq!(storage.get_saved_process_entrys(&FileRead::Content(write.data)), expected);
}

#[test]
fn add_without_a_directory_still_appends() {
    let storage = Storage::new();
    let mut entries: Vec<ProcessEntry> = Vec::new();
    assert_eq!(add_process_entry(&mut entries, &storage), None);
    assert_eq!(entries, vec![trigger("", "", "", "", false)]);
}

#[test]
fn delete_removes_the_entry_at_the_index() {
    let storage = storage_at("/data");
    let mut entries = three();
    let write = delete_process_entry(&mut entries, &storage, 1)
        .expect("index in range")
        .expect("a directory is set");
    let expected = vec![trigger("a", "t/a", "1", "0", true), trigger("c", "t/c", "up", "down", true)];
    assert_eq!(entries, expected);
    assert_eq!(storage.get_saved_process_entrys(&FileRead::Content(write.data)), expected);
}

#[test]
fn delete_out_of_range_is_refused() {
    let storage = storage_at("/data");
    let mut entries = three();
    assert_eq!(delete_process_entry(&mut entries, &storage, 3), Err(CommandError::IndexOutOfRange));
    assert_eq!(
        delete_process_entry(&mut entries, &storage, usize::MAX),
        Err(CommandError::IndexOutOfRange)
    );
    assert_eq!(entries, three());
    let mut none: Vec<ProcessEntry> = Vec::new();
    assert_eq!(delete_process_entry(&mut none, &storage, 0), Err(CommandError::IndexOutOfRange));
    assert!(none.is_empty());
}

#[test]
fn update_replaces_the_four_fields_and_keeps_the_state() {
    let storage = storage_at("/data");
    let mut entries = three();
    let write = update_process_entry(
        &mut entries,
        &storage,
        2,
        "game.exe".to_string(),
        "t/1".to_string(),
        "1".to_string(),
        "0".to_string(),
    )
    .expect("index in range")
    .expect("a directory is set");
    let expected = vec![
        trigger("a", "t/a", "1", "0", true),
        trigger("b", "t/b", "yes", "no", false),
        trigger("game.exe", "t/1", "1", "0", true),
    ];
    assert_eq!(entries, expected);
    assert_eq!(storage.get_saved_process_entrys(&FileRead::Content(write.data)), expected);
}

#[test]
fn update_out_of_range_changes_nothing() {
    let storage = storage_at("/data");
    let mut entries = three();
    let refused = update_process_entry(
        &mut entries,
        &storage,
        3,
        "x".to_string(),
        "y".to_string(),
        "1".to_string(),
        "0".to_string(),
    );
    assert_eq!(refused, Err(CommandError::IndexOutOfRange));
    assert_eq!(entries, three());
}

#[test]
fn list_is_a_copy_in_order() {
    let entries = three();
    let mut copy = get_process_entrys(&entries);
    assert_eq!(copy, entries);
    copy[0].name = "changed".to_string();
    assert_eq!(entries, three());
    assert!(get_process_entrys(&Vec::new()).is_empty());
}
