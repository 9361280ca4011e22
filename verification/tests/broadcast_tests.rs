use kanshi::broadcast::{BroadcastChannel, RecvOutcome};
use kanshi::events::{FileSystemEvent, FileSystemEventType, FileSystemTarget,
    FileSystemTargetKind};

fn ev(path: &str) -> FileSystemEvent {
    FileSystemEvent {
        event_type: FileSystemEventType::Create,
        target: Some(FileSystemTarget {
            kind: FileSystemTargetKind::File,
            path: path.as_bytes().to_vec(),
        }),
    }
}

#[test]
fn within_capacity_everything_arrives_in_order() {
    let mut ch = BroadcastChannel::new(32);
    let mut sub = ch.subscribe();
    ch.send(ev("/a")).unwrap();
    ch.send(ev("/b")).unwrap();
    ch.send(ev("/c")).unwrap();
    for want in ["/a", "/b", "/c"] {
        match ch.recv(&mut sub) {
            RecvOutcome::Received(e) => {
                assert_eq!(e.target.as_ref().unwrap().path, want.as_bytes().to_vec());
            },
            other => panic!("unexpected {:?}", other),
        }
    }
    assert!(matches!(ch.recv(&mut sub), RecvOutcome::Pending));
}

#[test]
fn lagging_subscriber_skips_to_oldest_retained() {
    let mut ch = BroadcastChannel::new(2);
    let mut sub = ch.subscribe();
    ch.send(ev("/a")).unwrap();
    ch.send(ev("/b")).unwrap();
    ch.send(ev("/c")).unwrap();
    assert!(matches!(ch.recv(&mut sub), RecvOutcome::Lagged));
    match ch.recv(&mut sub) {
        RecvOutcome::Received(e) => {
            assert_eq!(e.target.as_ref().unwrap().path, b"/b".to_vec());
        },
        other => panic!("unexpected {:?}", other),
    }
}

#[test]
fn late_subscriber_sees_only_later_events() {
    let mut ch = BroadcastChannel::new(8);
    ch.send(ev("/early")).unwrap();
    let mut sub = ch.subscribe();
    assert!(matches!(ch.recv(&mut sub), RecvOutcome::Pending));
    ch.send(ev("/late")).unwrap();
    match ch.recv(&mut sub) {
        RecvOutcome::Received(e) => {
            assert_eq!(e.target.as_ref().unwrap().path, b"/late".to_vec());
        },
        other => panic!("unexpected {:?}", other),
    }
}

#[test]
fn closed_channel_drains_then_ends() {
    let mut ch = BroadcastChannel::new(8);
    let mut sub = ch.subscribe();
    ch.send(ev("/a")).unwrap();
    ch.close();
    assert!(ch.send(ev("/b")).is_err());
    assert!(matches!(ch.recv(&mut sub), RecvOutcome::Received(_)));
    assert!(matches!(ch.recv(&mut sub), RecvOutcome::Closed));
    assert!(matches!(ch.recv(&mut sub), RecvOutcome::Closed));
}
