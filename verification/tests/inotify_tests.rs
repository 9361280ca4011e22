use kanshi::events::{FileSystemEventType, FileSystemTargetKind};
use kanshi::inotify::{
    EngineAction, InotifyRecord, InotifyState, IN_CREATE, IN_DELETE, IN_IGNORED, IN_ISDIR,
    IN_MODIFY, IN_MOVED_FROM, IN_MOVED_TO,
};

fn rec(wd: i32, mask: u32, cookie: u32, name: Option<&str>) -> InotifyRecord {
    InotifyRecord { wd, mask, cookie, name: name.map(|n| n.as_bytes().to_vec()) }
}

#[test]
fn tree_of_create_write_delete_in_order() {
    // mkdir /t/a; create /t/a/b.txt; write /t/a/b.txt; rm /t/a/b.txt, watched at /t
    let mut st = InotifyState::new();
    st.record_watch(1, b"/t".to_vec());

    let (evs, acts) = st.handle_record(rec(1, IN_CREATE | IN_ISDIR, 0, Some("a")));
    assert_eq!(evs.len(), 1);
    assert!(matches!(evs[0].event_type, FileSystemEventType::Create));
    let t = evs[0].target.as_ref().unwrap();
    assert_eq!(t.path, b"/t/a".to_vec());
    assert!(matches!(t.kind, FileSystemTargetKind::Directory));
    assert_eq!(acts.len(), 1);
    match &acts[0] {
        EngineAction::AddWatch(p) => assert_eq!(p, &b"/t/a".to_vec()),
        other => panic!("unexpected action {:?}", other),
    }
    st.record_watch(2, b"/t/a".to_vec());

    let (evs, acts) = st.handle_record(rec(2, IN_CREATE, 0, Some("b.txt")));
    assert_eq!(evs.len(), 1);
    assert!(matches!(evs[0].event_type, FileSystemEventType::Create));
    let t = evs[0].target.as_ref().unwrap();
    assert_eq!(t.path, b"/t/a/b.txt".to_vec());
    assert!(matches!(t.kind, FileSystemTargetKind::File));
    assert!(acts.is_empty());

    let (evs, _) = st.handle_record(rec(2, IN_MODIFY, 0, Some("b.txt")));
    assert!(matches!(evs[0].event_type, FileSystemEventType::Modify));
    assert_eq!(evs[0].target.as_ref().unwrap().path, b"/t/a/b.txt".to_vec());

    let (evs, _) = st.handle_record(rec(2, IN_DELETE, 0, Some("b.txt")));
    assert!(matches!(evs[0].event_type, FileSystemEventType::Delete));
    assert_eq!(evs[0].target.as_ref().unwrap().path, b"/t/a/b.txt".to_vec());
}

#[test]
fn intra_tree_rename_pairs_and_rewrites() {
    // mv /t/a /t/c, then touch /t/c/x
    let mut st = InotifyState::new();
    st.record_watch(1, b"/t".to_vec());
    st.record_watch(2, b"/t/a".to_vec());

    let (evs, _) = st.handle_record(rec(1, IN_MOVED_FROM | IN_ISDIR, 42, Some("a")));
    assert!(evs.is_empty());

    let (evs, acts) = st.handle_record(rec(1, IN_MOVED_TO | IN_ISDIR, 42, Some("c")));
    assert!(acts.is_empty());
    assert_eq!(evs.len(), 2);
    match &evs[0].event_type {
        FileSystemEventType::MovedTo(dest) => assert_eq!(dest, &b"/t/c".to_vec()),
        other => panic!("unexpected type {:?}", other),
    }
    let t0 = evs[0].target.as_ref().unwrap();
    assert_eq!(t0.path, b"/t/a".to_vec());
    assert!(matches!(t0.kind, FileSystemTargetKind::Directory));
    match &evs[1].event_type {
        FileSystemEventType::MovedFrom(src) => assert_eq!(src, &b"/t/a".to_vec()),
        other => panic!("unexpected type {:?}", other),
    }
    let t1 = evs[1].target.as_ref().unwrap();
    assert_eq!(t1.path, b"/t/c".to_vec());
    assert!(matches!(t1.kind, FileSystemTargetKind::Directory));

    // the watch that pointed at /t/a now resolves under /t/c
    let (evs, _) = st.handle_record(rec(2, IN_CREATE, 0, Some("x")));
    assert!(matches!(evs[0].event_type, FileSystemEventType::Create));
    assert_eq!(evs[0].target.as_ref().unwrap().path, b"/t/c/x".to_vec());
    assert!(matches!(evs[0].target.as_ref().unwrap().kind, FileSystemTargetKind::File));
}

#[test]
fn move_out_of_tree_downgrades_to_single_move() {
    // mv /t/a /outside/ : the cookie never pairs
    let mut st = InotifyState::new();
    st.record_watch(1, b"/t".to_vec());
    st.record_watch(2, b"/t/a".to_vec());

    let (evs, _) = st.handle_record(rec(1, IN_MOVED_FROM | IN_ISDIR, 7, Some("a")));
    assert!(evs.is_empty());

    let (evs, acts) = st.flush_pending();
    assert_eq!(evs.len(), 1);
    assert!(matches!(evs[0].event_type, FileSystemEventType::Move));
    let t = evs[0].target.as_ref().unwrap();
    assert_eq!(t.path, b"/t/a".to_vec());
    assert!(matches!(t.kind, FileSystemTargetKind::Directory));
    // the watch under /t/a is released
    assert_eq!(acts.len(), 1);
    match &acts[0] {
        EngineAction::RemoveWatch(wd) => assert_eq!(*wd, 2),
        other => panic!("unexpected action {:?}", other),
    }
    // a second flush finds nothing pending
    let (evs, acts) = st.flush_pending();
    assert!(evs.is_empty());
    assert!(acts.is_empty());
}

#[test]
fn move_into_tree_rewatches_subtree() {
    // mv /outside/y /t/y, then a write to /t/y/z
    let mut st = InotifyState::new();
    st.record_watch(1, b"/t".to_vec());

    let (evs, _) = st.handle_record(rec(1, IN_MOVED_TO | IN_ISDIR, 9, Some("y")));
    assert!(evs.is_empty());

    let (evs, acts) = st.flush_pending();
    assert_eq!(evs.len(), 1);
    assert!(matches!(evs[0].event_type, FileSystemEventType::Move));
    assert_eq!(evs[0].target.as_ref().unwrap().path, b"/t/y".to_vec());
    assert_eq!(acts.len(), 1);
    match &acts[0] {
        EngineAction::Rewatch(p) => assert_eq!(p, &b"/t/y".to_vec()),
        other => panic!("unexpected action {:?}", other),
    }

    // the runtime re-crawled and registered the moved-in directory
    st.record_watch(3, b"/t/y".to_vec());
    let (evs, _) = st.handle_record(rec(3, IN_CREATE, 0, Some("z")));
    assert!(matches!(evs[0].event_type, FileSystemEventType::Create));
    assert_eq!(evs[0].target.as_ref().unwrap().path, b"/t/y/z".to_vec());
}

#[test]
fn ignored_records_are_dropped() {
    let mut st = InotifyState::new();
    st.record_watch(1, b"/t".to_vec());
    let (evs, acts) = st.handle_record(rec(1, IN_IGNORED, 0, None));
    assert!(evs.is_empty());
    assert!(acts.is_empty());
}

#[test]
fn unknown_mask_is_reported_unknown() {
    let mut st = InotifyState::new();
    st.record_watch(1, b"/t".to_vec());
    let (evs, _) = st.handle_record(rec(1, 0x20, 0, Some("q")));
    assert_eq!(evs.len(), 1);
    assert!(matches!(evs[0].event_type, FileSystemEventType::Unknown));
}

#[test]
fn file_rename_does_not_rewrite_watches() {
    let mut st = InotifyState::new();
    st.record_watch(1, b"/t".to_vec());
    st.record_watch(2, b"/t/a".to_vec());

    let (evs, _) = st.handle_record(rec(1, IN_MOVED_FROM, 5, Some("a")));
    assert!(evs.is_empty());
    let (evs, _) = st.handle_record(rec(1, IN_MOVED_TO, 5, Some("b")));
    assert_eq!(evs.len(), 2);
    assert!(matches!(evs[0].target.as_ref().unwrap().kind, FileSystemTargetKind::File));

    // the directory watch map is untouched by a file rename
    let (evs, _) = st.handle_record(rec(2, IN_MODIFY, 0, Some("k")));
    assert_eq!(evs[0].target.as_ref().unwrap().path, b"/t/a/k".to_vec());
}
