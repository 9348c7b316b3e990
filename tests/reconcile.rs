use album_sync::sync::{contains_name, missing_files, needs_sync, plan_sync, SyncPlan};

fn names(v: &[&str]) -> Vec<String> {
    v.iter().map(|s| s.to_string()).collect()
}

#[test]
fn staleness_follows_counts_and_artwork() {
    assert!(needs_sync(true, 1, 5));
    assert!(needs_sync(false, 6, 5));
    assert!(!needs_sync(false, 5, 5));
    assert!(!needs_sync(false, 4, 5));
}

#[test]
fn absent_mirror_is_copied_whole() {
    let src = names(&["01.flac", "02.flac"]);
    assert!(matches!(plan_sync(false, &src, None), SyncPlan::CopyDirectory));
}

#[test]
fn empty_source_without_mirror_needs_nothing() {
    let src: Vec<String> = Vec::new();
    assert!(matches!(plan_sync(false, &src, None), SyncPlan::NothingToDo));
}

#[test]
fn equal_counts_need_nothing_even_with_other_files() {
    let src = names(&["01.flac", "02.flac", "cover.jpg"]);
    let tgt = names(&["a.flac", "b.flac", "c.flac"]);
    assert!(matches!(plan_sync(false, &src, Some(&tgt)), SyncPlan::NothingToDo));
}

#[test]
fn new_artwork_copies_missing_files() {
    let src = names(&["01.flac", "cover.jpg", "02.flac"]);
    let tgt = names(&["01.flac", "02.flac", "x.txt"]);
    match plan_sync(true, &src, Some(&tgt)) {
        SyncPlan::CopyFiles(v) => assert_eq!(v, names(&["cover.jpg"])),
        _ => panic!("expected a file copy"),
    }
}

#[test]
fn more_source_files_copy_those_missing_in_order() {
    let src = names(&["03.mp3", "01.mp3", "02.mp3", "04.mp3"]);
    let tgt = names(&["01.mp3", "02.mp3"]);
    match plan_sync(false, &src, Some(&tgt)) {
        SyncPlan::CopyFiles(v) => assert_eq!(v, names(&["03.mp3", "04.mp3"])),
        _ => panic!("expected a file copy"),
    }
}

#[test]
fn second_run_after_sync_needs_nothing() {
    let src = names(&["01.mp3", "02.mp3", "03.mp3"]);
    let mut tgt = names(&["01.mp3"]);
    match plan_sync(false, &src, Some(&tgt)) {
        SyncPlan::CopyFiles(v) => tgt.extend(v),
        _ => panic!("expected a file copy"),
    }
    assert!(matches!(plan_sync(false, &src, Some(&tgt)), SyncPlan::NothingToDo));
}

#[test]
fn matching_is_by_name_only() {
    let tgt = names(&["a", "b"]);
    assert!(contains_name(&tgt, &"b".to_string()));
    assert!(!contains_name(&tgt, &"B".to_string()));
    assert_eq!(missing_files(&names(&["a", "c", "b", "d"]), &tgt), names(&["c", "d"]));
}
