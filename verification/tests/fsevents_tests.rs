use kanshi::errors::KanshiError;
use kanshi::events::{FileSystemEventType, FileSystemTargetKind};
use kanshi::fsevents::{
    build_fsevents_event, fse_event_type_for_flags, fse_kind_for_flags, FsEventsState,
    FSE_ITEM_CREATED, FSE_ITEM_IS_DIR, FSE_ITEM_MODIFIED, FSE_ITEM_REMOVED, FSE_ITEM_RENAMED,
};

#[test]
fn coalesced_create_delete_is_delete() {
    // rapid create + delete of the same file within the latency window
    let ev = build_fsevents_event(FSE_ITEM_CREATED | FSE_ITEM_REMOVED, b"/t/x".to_vec());
    assert!(matches!(ev.event_type, FileSystemEventType::Delete));
    let t = ev.target.as_ref().unwrap();
    assert_eq!(t.path, b"/t/x".to_vec());
    assert!(matches!(t.kind, FileSystemTargetKind::File));
}

#[test]
fn flag_translation_priority() {
    assert!(matches!(
        fse_event_type_for_flags(FSE_ITEM_CREATED | FSE_ITEM_RENAMED),
        FileSystemEventType::Move
    ));
    assert!(matches!(fse_event_type_for_flags(FSE_ITEM_CREATED), FileSystemEventType::Create));
    assert!(matches!(fse_event_type_for_flags(FSE_ITEM_REMOVED), FileSystemEventType::Delete));
    assert!(matches!(
        fse_event_type_for_flags(FSE_ITEM_MODIFIED),
        FileSystemEventType::Modify
    ));
    assert!(matches!(fse_event_type_for_flags(FSE_ITEM_RENAMED), FileSystemEventType::Move));
    assert!(matches!(fse_event_type_for_flags(0x40), FileSystemEventType::Unknown));
}

#[test]
fn kind_follows_is_dir_flag() {
    assert!(matches!(
        fse_kind_for_flags(FSE_ITEM_CREATED | FSE_ITEM_IS_DIR),
        FileSystemTargetKind::Directory
    ));
    assert!(matches!(fse_kind_for_flags(FSE_ITEM_CREATED), FileSystemTargetKind::File));
}

#[test]
fn paths_accumulate_until_start_then_freeze() {
    let mut st = FsEventsState::new();
    assert!(st.watch(b"/one".to_vec(), true).is_ok());
    assert!(st.watch(b"/two".to_vec(), true).is_ok());
    match st.watch(b"/missing".to_vec(), false) {
        Err(KanshiError::FileSystemError(m)) => {
            assert_eq!(m, "ENOENT Directory does not exist");
        },
        other => panic!("unexpected {:?}", other),
    }
    let ps = st.start().unwrap();
    assert_eq!(ps.len(), 2);
    assert_eq!(ps[0], b"/one".to_vec());
    assert_eq!(ps[1], b"/two".to_vec());
    assert!(matches!(
        st.watch(b"/three".to_vec(), true),
        Err(KanshiError::ListenerStartedError)
    ));
    assert!(matches!(st.start(), Err(KanshiError::ListenerStartedError)));
    assert!(st.close(true));
    assert!(st.close(false));
    assert!(matches!(st.watch(b"/x".to_vec(), true), Err(KanshiError::StreamClosedError)));
}
