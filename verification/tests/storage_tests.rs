use std::path::PathBuf;
use tli::clock::Timestamp;
use tli::storage::{blank, StorageError, TaskStorage};
use tli::task::{Priority, Task};

fn sample(id: u128, title: &str) -> Task {
    Task {
        id,
        title: title.to_string(),
        description: None,
        completed: false,
        created_at: Timestamp { secs: 1_700_000_000, nanos: 0 },
        completed_at: None,
        priority: Priority::Medium,
    }
}

fn storage_of(tasks: Vec<Task>) -> TaskStorage {
    TaskStorage { file_path: PathBuf::from("/tmp/none/tasks.json"), tasks, dirty: false }
}

fn ids(storage: &TaskStorage) -> Vec<u128> {
    storage.tasks.iter().map(|t| t.id).collect()
}

#[test]
fn storage_without_home_fails() {
    match TaskStorage::below(None) {
        Err(StorageError::IoFailure(m)) => assert_eq!(m, "Could not find home directory"),
        _ => panic!("expected an I/O failure"),
    }
}

#[test]
fn storage_lives_below_home() {
    let s = TaskStorage::below(Some(PathBuf::from("/home/user"))).unwrap();
    assert_eq!(s.file_path, PathBuf::from("/home/user/.tli/tasks.json"));
    assert!(s.tasks.is_empty());
    assert!(!s.dirty);
}

#[test]
fn storage_of_current_user() {
    match TaskStorage::new() {
        Ok(s) => {
            assert!(s.file_path.ends_with(".tli/tasks.json"));
            assert!(s.tasks.is_empty());
            assert!(!s.dirty);
        }
        Err(e) => assert!(matches!(e, StorageError::IoFailure(_))),
    }
}

#[test]
fn blank_texts() {
    assert!(blank(""));
    assert!(blank(" \t\r\n"));
    assert!(blank("\u{0b}\u{0c}\u{85}\u{a0}\u{1680}\u{2000}\u{200a}\u{2028}\u{2029}\u{202f}\u{205f}\u{3000}"));
    assert!(!blank("[]"));
    assert!(!blank("  x  "));
    assert!(!blank("\u{200b}"));
    assert!(!blank("\u{1c}"));
}

#[test]
fn blank_agrees_with_trim() {
    for code in 0u32..0x11_0000 {
        if let Some(c) = char::from_u32(code) {
            let s = c.to_string();
            assert_eq!(blank(&s), s.trim().is_empty(), "U+{:04X}", code);
        }
    }
}

#[test]
fn load_missing_document_is_empty() {
    let mut s = storage_of(vec![sample(1, "stale")]);
    s.dirty = true;
    assert!(s.load_tasks(None, Err("unused".to_string())).is_ok());
    assert!(s.tasks.is_empty());
    assert!(!s.dirty);
}

#[test]
fn load_blank_document_is_empty() {
    let mut s = storage_of(vec![sample(1, "stale")]);
    assert!(s.load_tasks(Some("  \n\t "), Err("EOF while parsing".to_string())).is_ok());
    assert!(s.tasks.is_empty());
    let mut e = storage_of(vec![]);
    assert!(e.load_tasks(Some(""), Ok(vec![sample(2, "ignored")])).is_ok());
    assert!(e.tasks.is_empty());
}

#[test]
fn load_parsed_document() {
    let mut s = storage_of(vec![]);
    assert!(s.load_tasks(Some("[...]"), Ok(vec![sample(1, "a"), sample(2, "b")])).is_ok());
    assert_eq!(ids(&s), vec![1, 2]);
    assert_eq!(s.tasks[1].title, "b");
    assert!(!s.dirty);
}

#[test]
fn load_corrupt_document_fails() {
    let mut s = storage_of(vec![sample(9, "kept")]);
    match s.load_tasks(Some("{oops"), Err("key must be a string".to_string())) {
        Err(StorageError::CorruptData(m)) => assert_eq!(m, "key must be a string"),
        _ => panic!("expected corrupt data"),
    }
    assert_eq!(ids(&s), vec![9]);
}

#[test]
fn save_outcomes() {
    let mut s = storage_of(vec![sample(1, "a")]);
    s.dirty = true;
    match s.save_tasks(Err("disk full".to_string())) {
        Err(StorageError::IoFailure(m)) => assert_eq!(m, "disk full"),
        _ => panic!("expected an I/O failure"),
    }
    assert!(s.dirty);
    assert!(s.save_tasks(Ok(())).is_ok());
    assert!(!s.dirty);
    assert_eq!(ids(&s), vec![1]);
}

#[test]
fn add_appends_in_order() {
    let mut s = storage_of(vec![]);
    s.add_task(sample(3, "c"));
    s.add_task(sample(1, "a"));
    s.add_task(sample(2, "b"));
    assert_eq!(ids(&s), vec![3, 1, 2]);
    assert!(s.dirty);
}

#[test]
fn remove_present_shrinks_by_one() {
    let mut s = storage_of(vec![sample(1, "a"), sample(2, "b"), sample(3, "c")]);
    assert!(s.remove_task(2));
    assert_eq!(ids(&s), vec![1, 3]);
    assert_eq!(s.tasks[0].title, "a");
    assert_eq!(s.tasks[1].title, "c");
    assert!(s.dirty);
}

#[test]
fn remove_absent_changes_nothing() {
    let mut s = storage_of(vec![sample(1, "a"), sample(2, "b")]);
    assert!(!s.remove_task(7));
    assert_eq!(ids(&s), vec![1, 2]);
    assert!(!s.dirty);
    let mut e = storage_of(vec![]);
    assert!(!e.remove_task(7));
    assert!(e.tasks.is_empty());
}

#[test]
fn remove_takes_every_task_of_the_identity() {
    let mut s = storage_of(vec![sample(5, "a"), sample(2, "b"), sample(5, "c"), sample(5, "d")]);
    assert!(s.remove_task(5));
    assert_eq!(ids(&s), vec![2]);
}

#[test]
fn update_runs_once_on_first_match() {
    let mut s = storage_of(vec![sample(1, "a"), sample(2, "b"), sample(2, "c")]);
    let mut calls = 0;
    let found = s.update_task(2, |t: &mut Task| {
        calls += 1;
        t.title.push('!');
    });
    assert!(found);
    assert_eq!(calls, 1);
    assert_eq!(ids(&s), vec![1, 2, 2]);
    assert_eq!(s.tasks[0].title, "a");
    assert_eq!(s.tasks[1].title, "b!");
    assert_eq!(s.tasks[2].title, "c");
    assert!(s.dirty);
}

#[test]
fn update_absent_does_not_run() {
    let mut s = storage_of(vec![sample(1, "a")]);
    let mut calls = 0;
    let found = s.update_task(4, |_t: &mut Task| {
        calls += 1;
    });
    assert!(!found);
    assert_eq!(calls, 0);
    assert_eq!(ids(&s), vec![1]);
    assert!(!s.dirty);
}

#[test]
fn update_can_complete_and_uncomplete() {
    let mut s = storage_of(vec![sample(1, "a"), sample(2, "b")]);
    assert!(s.update_task(2, |t: &mut Task| t.complete()));
    assert!(s.tasks[1].completed && s.tasks[1].completed_at.is_some());
    assert!(!s.tasks[0].completed);
    assert!(s.update_task(2, |t: &mut Task| t.uncomplete()));
    assert!(!s.tasks[1].completed && s.tasks[1].completed_at.is_none());
}

#[test]
fn last_writer_wins() {
    let document = vec![sample(1, "a")];
    let mut first = storage_of(vec![]);
    let mut second = storage_of(vec![]);
    assert!(first.load_tasks(Some("[...]"), Ok(document.clone())).is_ok());
    assert!(second.load_tasks(Some("[...]"), Ok(document.clone())).is_ok());
    first.add_task(sample(2, "from the first"));
    assert!(second.remove_task(1));
    second.add_task(sample(3, "from the second"));
    // Both write the whole collection; the second write replaces the first.
    assert!(first.save_tasks(Ok(())).is_ok());
    let after_first = first.tasks.clone();
    assert!(second.save_tasks(Ok(())).is_ok());
    let after_second = second.tasks.clone();
    assert_eq!(after_first.iter().map(|t| t.id).collect::<Vec<_>>(), vec![1, 2]);
    assert_eq!(after_second.iter().map(|t| t.id).collect::<Vec<_>>(), vec![3]);
}

#[test]
fn storage_path_joins_as_paths_do() {
    let s = TaskStorage::below(Some(PathBuf::from("/home/user/"))).unwrap();
    assert_eq!(s.file_path, PathBuf::from("/home/user").join(".tli").join("tasks.json"));
    let r = TaskStorage::below(Some(PathBuf::from("rel"))).unwrap();
    assert_eq!(r.file_path, PathBuf::from("rel/.tli/tasks.json"));
}
