use kanshi::events::{FileSystemEventType, FileSystemTargetKind};
use kanshi::fanotify::{
    build_fanotify_event, fan_event_type_for_mask, fan_kind_for_mask, parse_events,
    FanotifyInfoRecord, FAN_CREATE, FAN_DELETE, FAN_DELETE_SELF, FAN_EVENT_INFO_TYPE_DFID_NAME,
    FAN_MODIFY, FAN_MOVE, FAN_MOVE_SELF, FAN_ONDIR,
};

fn push_u16(b: &mut Vec<u8>, v: u16) {
    b.push((v & 0xff) as u8);
    b.push((v >> 8) as u8);
}

fn push_u32(b: &mut Vec<u8>, v: u32) {
    push_u16(b, (v & 0xffff) as u16);
    push_u16(b, (v >> 16) as u16);
}

fn push_u64(b: &mut Vec<u8>, v: u64) {
    push_u32(b, (v & 0xffff_ffff) as u32);
    push_u32(b, (v >> 32) as u32);
}

fn push_meta(b: &mut Vec<u8>, event_len: u32, mask: u64, fd: u32, pid: u32) {
    push_u32(b, event_len);
    b.push(3); // vers
    b.push(0); // reserved
    push_u16(b, 24); // metadata_len
    push_u64(b, mask);
    push_u32(b, fd);
    push_u32(b, pid);
}

#[test]
fn parse_metadata_only_event() {
    let mut b: Vec<u8> = Vec::new();
    push_meta(&mut b, 24, FAN_CREATE, 0xffff_ffff, 1234);
    let evs = parse_events(&b);
    assert_eq!(evs.len(), 1);
    assert_eq!(evs[0].meta.event_len, 24);
    assert_eq!(evs[0].meta.vers, 3);
    assert_eq!(evs[0].meta.metadata_len, 24);
    assert_eq!(evs[0].meta.mask, FAN_CREATE);
    assert_eq!(evs[0].meta.fd, -1);
    assert!(evs[0].fd_opt().is_none());
    assert_eq!(evs[0].meta.pid, 1234);
    assert!(evs[0].infos.is_empty());
    assert!(evs[0].meta.check_version());
}

#[test]
fn parse_dfid_name_record() {
    // one event with a dir-fid + name info record: fsid, a 4-byte handle,
    // and the entry name "b.txt"
    let mut b: Vec<u8> = Vec::new();
    let info_len: u16 = 4 + 8 + 4 + 4 + 4 + 6;
    push_meta(&mut b, 24 + info_len as u32, FAN_CREATE, 7, 1);
    b.push(FAN_EVENT_INFO_TYPE_DFID_NAME);
    b.push(0);
    push_u16(&mut b, info_len);
    push_u64(&mut b, 0x1122_3344_5566_7788);
    push_u32(&mut b, 4); // handle_bytes
    push_u32(&mut b, 1); // handle_type
    b.extend_from_slice(&[9, 9, 9, 9]);
    b.extend_from_slice(b"b.txt\0");

    let evs = parse_events(&b);
    assert_eq!(evs.len(), 1);
    assert_eq!(evs[0].infos.len(), 1);
    match &evs[0].infos[0] {
        FanotifyInfoRecord::Fid { info_type, fsid, handle, name } => {
            assert_eq!(*info_type, FAN_EVENT_INFO_TYPE_DFID_NAME);
            assert_eq!(*fsid, 0x1122_3344_5566_7788);
            assert_eq!(handle.handle_bytes, 4);
            assert_eq!(handle.handle_type, 1);
            assert_eq!(handle.f_handle, vec![9, 9, 9, 9]);
            assert_eq!(name.as_ref().unwrap(), &b"b.txt".to_vec());
        },
        other => panic!("unexpected record {:?}", other),
    }
}

#[test]
fn parse_two_events_and_unknown_info() {
    let mut b: Vec<u8> = Vec::new();
    // first event: an unknown info record type, kept raw
    push_meta(&mut b, 24 + 8, FAN_MODIFY, 5, 1);
    b.push(99);
    b.push(0);
    push_u16(&mut b, 8);
    push_u32(&mut b, 0xdead_beef);
    // second event: plain
    push_meta(&mut b, 24, FAN_DELETE, 6, 1);

    let evs = parse_events(&b);
    assert_eq!(evs.len(), 2);
    match &evs[0].infos[0] {
        FanotifyInfoRecord::Unimplemented(raw) => assert_eq!(raw.len(), 8),
        other => panic!("unexpected record {:?}", other),
    }
    assert_eq!(evs[1].meta.mask, FAN_DELETE);
}

#[test]
fn parse_stops_on_truncated_event() {
    let mut b: Vec<u8> = Vec::new();
    push_meta(&mut b, 100, FAN_CREATE, 5, 1); // claims more than the buffer holds
    let evs = parse_events(&b);
    assert!(evs.is_empty());
}

#[test]
fn fan_mask_priority() {
    assert!(matches!(fan_event_type_for_mask(FAN_CREATE), FileSystemEventType::Create));
    assert!(matches!(
        fan_event_type_for_mask(FAN_DELETE_SELF | FAN_MODIFY),
        FileSystemEventType::Delete
    ));
    assert!(matches!(fan_event_type_for_mask(FAN_DELETE), FileSystemEventType::Delete));
    assert!(matches!(fan_event_type_for_mask(FAN_MODIFY), FileSystemEventType::Modify));
    assert!(matches!(fan_event_type_for_mask(FAN_MOVE), FileSystemEventType::Move));
    assert!(matches!(fan_event_type_for_mask(FAN_MOVE_SELF), FileSystemEventType::Move));
    assert!(matches!(fan_event_type_for_mask(0x20), FileSystemEventType::Unknown));
}

#[test]
fn fan_kind_follows_ondir() {
    assert!(matches!(
        fan_kind_for_mask(FAN_CREATE | FAN_ONDIR),
        FileSystemTargetKind::Directory
    ));
    assert!(matches!(fan_kind_for_mask(FAN_CREATE), FileSystemTargetKind::File));
}

#[test]
fn fanotify_event_paths() {
    let ev = build_fanotify_event(FAN_CREATE, Some(b"/t".to_vec()), Some(b"b.txt".to_vec()));
    let t = ev.target.as_ref().unwrap();
    assert_eq!(t.path, b"/t/b.txt".to_vec());
    assert!(matches!(t.kind, FileSystemTargetKind::File));

    // the "." self-reference is not appended
    let ev = build_fanotify_event(FAN_MODIFY | FAN_ONDIR, Some(b"/t".to_vec()),
        Some(b".".to_vec()));
    let t = ev.target.as_ref().unwrap();
    assert_eq!(t.path, b"/t".to_vec());
    assert!(matches!(t.kind, FileSystemTargetKind::Directory));

    // resolution failure with no name leaves the target unresolved
    let ev = build_fanotify_event(FAN_DELETE, None, None);
    assert!(ev.target.is_none());
    assert!(matches!(ev.event_type, FileSystemEventType::Delete));

    // a name alone still yields a rooted component
    let ev = build_fanotify_event(FAN_CREATE, None, Some(b"x".to_vec()));
    assert_eq!(ev.target.as_ref().unwrap().path, b"/x".to_vec());
}
