use kanshi::codec::{decode_event, encode_event, EncodedEvent, EncodedTarget};
use kanshi::events::{FileSystemEvent, FileSystemEventType, FileSystemTarget,
    FileSystemTargetKind};

fn target(kind: FileSystemTargetKind, path: &str) -> FileSystemTarget {
    FileSystemTarget { kind, path: path.as_bytes().to_vec() }
}

#[test]
fn type_names() {
    assert_eq!(FileSystemEventType::Create.to_string(), "create");
    assert_eq!(FileSystemEventType::Delete.to_string(), "delete");
    assert_eq!(FileSystemEventType::Modify.to_string(), "modify");
    assert_eq!(FileSystemEventType::Move.to_string(), "move");
    assert_eq!(FileSystemEventType::MovedTo(vec![]).to_string(), "moved_to");
    assert_eq!(FileSystemEventType::MovedFrom(vec![]).to_string(), "moved_from");
    assert_eq!(FileSystemEventType::Unknown.to_string(), "unknown");
    assert_eq!(FileSystemTargetKind::Directory.to_string(), "directory");
    assert_eq!(FileSystemTargetKind::File.to_string(), "file");
}

#[test]
fn encode_moved_from_carries_previous_path() {
    let ev = FileSystemEvent {
        event_type: FileSystemEventType::MovedFrom(b"/t/a".to_vec()),
        target: Some(target(FileSystemTargetKind::Directory, "/t/c")),
    };
    let enc = encode_event(&ev);
    assert_eq!(enc.event_type, "moved_from");
    let t = enc.target.as_ref().unwrap();
    assert_eq!(t.path, b"/t/c".to_vec());
    assert_eq!(t.kind, "directory");
    assert_eq!(t.previous_path.as_ref().unwrap(), &b"/t/a".to_vec());
    assert!(t.next_path.is_none());
}

#[test]
fn encode_moved_to_carries_next_path() {
    let ev = FileSystemEvent {
        event_type: FileSystemEventType::MovedTo(b"/t/c".to_vec()),
        target: Some(target(FileSystemTargetKind::Directory, "/t/a")),
    };
    let enc = encode_event(&ev);
    assert_eq!(enc.event_type, "moved_to");
    let t = enc.target.as_ref().unwrap();
    assert!(t.previous_path.is_none());
    assert_eq!(t.next_path.as_ref().unwrap(), &b"/t/c".to_vec());
}

#[test]
fn round_trip_preserves_every_field() {
    let cases = vec![
        FileSystemEvent {
            event_type: FileSystemEventType::Create,
            target: Some(target(FileSystemTargetKind::File, "/t/a/b.txt")),
        },
        FileSystemEvent {
            event_type: FileSystemEventType::Delete,
            target: Some(target(FileSystemTargetKind::Directory, "/t/a")),
        },
        FileSystemEvent { event_type: FileSystemEventType::Modify, target: None },
        FileSystemEvent {
            event_type: FileSystemEventType::Move,
            target: Some(target(FileSystemTargetKind::Directory, "/t/a")),
        },
        FileSystemEvent {
            event_type: FileSystemEventType::MovedTo(b"/t/c".to_vec()),
            target: Some(target(FileSystemTargetKind::Directory, "/t/a")),
        },
        FileSystemEvent {
            event_type: FileSystemEventType::MovedFrom(b"/t/a".to_vec()),
            target: Some(target(FileSystemTargetKind::Directory, "/t/c")),
        },
        FileSystemEvent { event_type: FileSystemEventType::Unknown, target: None },
    ];
    for ev in &cases {
        let back = decode_event(&encode_event(ev)).unwrap();
        match (&ev.event_type, &back.event_type) {
            (FileSystemEventType::Create, FileSystemEventType::Create) => {},
            (FileSystemEventType::Delete, FileSystemEventType::Delete) => {},
            (FileSystemEventType::Modify, FileSystemEventType::Modify) => {},
            (FileSystemEventType::Move, FileSystemEventType::Move) => {},
            (FileSystemEventType::Unknown, FileSystemEventType::Unknown) => {},
            (FileSystemEventType::MovedTo(a), FileSystemEventType::MovedTo(b)) => {
                assert_eq!(a, b);
            },
            (FileSystemEventType::MovedFrom(a), FileSystemEventType::MovedFrom(b)) => {
                assert_eq!(a, b);
            },
            (a, b) => panic!("type changed: {:?} vs {:?}", a, b),
        }
        match (&ev.target, &back.target) {
            (None, None) => {},
            (Some(x), Some(y)) => {
                assert_eq!(x.path, y.path);
                assert_eq!(x.kind, y.kind);
            },
            _ => panic!("target presence changed"),
        }
    }
}

#[test]
fn decode_rejects_unknown_names() {
    let enc = EncodedEvent { event_type: String::from("explode"), target: None };
    assert!(decode_event(&enc).is_none());
    let enc = EncodedEvent {
        event_type: String::from("create"),
        target: Some(EncodedTarget {
            path: b"/t".to_vec(),
            kind: String::from("socket"),
            previous_path: None,
            next_path: None,
        }),
    };
    assert!(decode_event(&enc).is_none());
}

#[test]
fn decode_rename_without_endpoint_is_rejected() {
    let enc = EncodedEvent {
        event_type: String::from("moved_to"),
        target: Some(EncodedTarget {
            path: b"/t/a".to_vec(),
            kind: String::from("directory"),
            previous_path: None,
            next_path: None,
        }),
    };
    assert!(decode_event(&enc).is_none());
}
