use kanshi::broadcast::RecvOutcome;
use kanshi::engines::{Kanshi, KanshiEngines, KanshiOptions, Platform, select_engine};
use kanshi::errors::{FileSystemTracerError, KanshiError};
use kanshi::events::{FileSystemEvent, FileSystemEventType};
use kanshi::lifecycle::{Lifecycle, LifecycleState};

#[test]
fn engine_names_parse_per_platform() {
    assert!(matches!(
        KanshiEngines::from(Platform::Linux, "fanotify"),
        Ok(KanshiEngines::Fanotify)
    ));
    assert!(matches!(
        KanshiEngines::from(Platform::Linux, "inotify"),
        Ok(KanshiEngines::Inotify)
    ));
    assert!(matches!(
        KanshiEngines::from(Platform::MacOs, "fsevents"),
        Ok(KanshiEngines::FSEvents)
    ));
    assert!(matches!(
        KanshiEngines::from(Platform::Windows, "readdirectorychangesw"),
        Ok(KanshiEngines::ReadDirectoryChangesW)
    ));
}

#[test]
fn invalid_engine_name_is_invalid_parameter() {
    match KanshiEngines::from(Platform::Linux, "fsevents") {
        Err(KanshiError::InvalidParameter(m)) => {
            assert_eq!(m, "Invalid engine. Allowed values are: 'fanotify', 'inotify'.");
        },
        other => panic!("unexpected {:?}", other),
    }
    match KanshiEngines::from(Platform::MacOs, "inotify") {
        Err(KanshiError::InvalidParameter(m)) => {
            assert_eq!(m, "Invalid engine. Allowed values are: 'fsevents'");
        },
        other => panic!("unexpected {:?}", other),
    }
}

#[test]
fn default_engine_follows_effective_uid() {
    let opts = KanshiOptions { force_engine: None };
    assert!(matches!(select_engine(&opts, Platform::Linux, 0), KanshiEngines::Fanotify));
    assert!(matches!(select_engine(&opts, Platform::Linux, 1000), KanshiEngines::Inotify));
    assert!(matches!(select_engine(&opts, Platform::MacOs, 501), KanshiEngines::FSEvents));
    let forced = KanshiOptions { force_engine: Some(KanshiEngines::Inotify) };
    assert!(matches!(select_engine(&forced, Platform::Linux, 0), KanshiEngines::Inotify));
}

#[test]
fn close_is_idempotent_and_ends_subscribers() {
    // close() while a subscriber awaits: the sequence ends; a second close
    // returns true.
    let opts = KanshiOptions { force_engine: Some(KanshiEngines::Inotify) };
    let mut k = Kanshi::new(&opts, Platform::Linux, 1000);
    let mut sub = k.subscribe();
    assert!(k.close(true));
    assert!(matches!(k.channel.recv(&mut sub), RecvOutcome::Closed));
    assert!(matches!(k.channel.recv(&mut sub), RecvOutcome::Closed));
    assert!(k.close(false));
    assert!(k.close(true));
}

#[test]
fn first_close_reports_detach_failure_once() {
    let opts = KanshiOptions { force_engine: Some(KanshiEngines::Inotify) };
    let mut k = Kanshi::new(&opts, Platform::Linux, 1000);
    assert!(!k.close(false));
    assert!(k.close(false));
}

#[test]
fn watch_after_start_depends_on_backend() {
    let opts = KanshiOptions { force_engine: Some(KanshiEngines::FSEvents) };
    let mut k = Kanshi::new(&opts, Platform::MacOs, 501);
    assert!(k.watch(true).is_ok());
    assert!(k.start().is_ok());
    assert!(matches!(k.watch(true), Err(KanshiError::ListenerStartedError)));

    let opts = KanshiOptions { force_engine: Some(KanshiEngines::Inotify) };
    let mut k = Kanshi::new(&opts, Platform::Linux, 1000);
    assert!(k.watch(true).is_ok());
    assert!(k.start().is_ok());
    assert!(k.watch(true).is_ok());
}

#[test]
fn watch_missing_root_is_filesystem_error() {
    let opts = KanshiOptions { force_engine: Some(KanshiEngines::Inotify) };
    let mut k = Kanshi::new(&opts, Platform::Linux, 1000);
    match k.watch(false) {
        Err(KanshiError::FileSystemError(m)) => {
            assert_eq!(m, "ENOENT Directory does not exist");
        },
        other => panic!("unexpected {:?}", other),
    }
}

#[test]
fn second_start_is_listener_started_error() {
    let opts = KanshiOptions { force_engine: Some(KanshiEngines::Inotify) };
    let mut k = Kanshi::new(&opts, Platform::Linux, 1000);
    assert!(k.start().is_ok());
    assert!(matches!(k.start(), Err(KanshiError::ListenerStartedError)));
}

#[test]
fn operations_after_close_are_stream_closed() {
    let opts = KanshiOptions { force_engine: Some(KanshiEngines::Inotify) };
    let mut k = Kanshi::new(&opts, Platform::Linux, 1000);
    k.close(true);
    assert!(matches!(k.watch(true), Err(KanshiError::StreamClosedError)));
    assert!(matches!(k.start(), Err(KanshiError::StreamClosedError)));
    let ev = FileSystemEvent { event_type: FileSystemEventType::Create, target: None };
    assert!(matches!(k.publish(ev), Err(KanshiError::StreamClosedError)));
}

#[test]
fn lifecycle_transitions() {
    let mut l = Lifecycle::new();
    assert!(matches!(l.state, LifecycleState::New));
    assert!(l.on_watch(false).is_ok());
    assert!(matches!(l.state, LifecycleState::Watching));
    assert!(l.on_start().is_ok());
    assert!(matches!(l.state, LifecycleState::Running));
    assert!(matches!(l.on_start(), Err(KanshiError::ListenerStartedError)));
    assert!(l.on_close(true));
    assert!(matches!(l.state, LifecycleState::Closed));
    assert!(matches!(l.on_watch(true), Err(KanshiError::StreamClosedError)));
}

#[test]
fn error_descriptions() {
    assert_eq!(
        KanshiError::StreamClosedError.describe(),
        "the file system listener was closed"
    );
    assert_eq!(KanshiError::ListenerStartedError.describe(), "listener has already started");
    assert_eq!(
        KanshiError::InvalidParameter(String::new()).describe(),
        "invalid parameter supplied"
    );
    assert_eq!(
        KanshiError::FileSystemError(String::new()).describe(),
        "file system error"
    );
}

#[test]
fn tracer_errors_lift_into_the_facade_taxonomy() {
    let e = FileSystemTracerError::FileSystemError(String::from("bad fd"));
    match e.into_kanshi_error() {
        KanshiError::FileSystemError(m) => assert_eq!(m, "bad fd"),
        other => panic!("unexpected {:?}", other),
    }
    assert!(matches!(
        FileSystemTracerError::TracerStartedError.into_kanshi_error(),
        KanshiError::ListenerStartedError
    ));
    assert!(matches!(
        FileSystemTracerError::StreamClosedError.into_kanshi_error(),
        KanshiError::StreamClosedError
    ));
}
