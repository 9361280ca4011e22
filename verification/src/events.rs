//! The platform-neutral event model: what every engine emits.

use vstd::prelude::*;

verus! {

/// Spec-level picture of an event type; rename payloads are byte sequences.
pub enum EventTypeModel {
    Create,
    Delete,
    Modify,
    Move,
    /// A paired rename, seen from the old path; carries the new path.
    MovedTo(Seq<u8>),
    /// A paired rename, seen from the new path; carries the old path.
    MovedFrom(Seq<u8>),
    Unknown,
}

/// Spec-level picture of an event target.
pub struct TargetModel {
    pub kind: FileSystemTargetKind,
    pub path: Seq<u8>,
}

/// Spec-level picture of a full event.
pub struct EventModel {
    pub event_type: EventTypeModel,
    pub target: Option<TargetModel>,
}

/// What kind of filesystem object an event refers to.
#[derive(Clone, Copy, Debug, PartialEq, Eq, Structural)]
pub enum FileSystemTargetKind {
    Directory,
    File,
}

/// The kind of change an event reports.  The two paired variants carry the
/// *other* endpoint of a rename: `MovedTo` is emitted for the old path and
/// carries the destination, `MovedFrom` is emitted for the new path and
/// carries the source.
#[derive(Debug)]
pub enum FileSystemEventType {
    Create,
    Delete,
    Modify,
    Move,
    MovedTo(Vec<u8>),
    MovedFrom(Vec<u8>),
    Unknown,
}

/// The object an event happened to: its kind and its path, as raw bytes in
/// the operating system's own encoding.
#[derive(Debug)]
pub struct FileSystemTarget {
    pub kind: FileSystemTargetKind,
    pub path: Vec<u8>,
}

/// One filesystem change, as delivered to subscribers.  `target` is `None`
/// when the engine could not resolve a path for the change.
#[derive(Debug)]
pub struct FileSystemEvent {
    pub event_type: FileSystemEventType,
    pub target: Option<FileSystemTarget>,
}

impl View for FileSystemEventType {
    type V = EventTypeModel;

    open spec fn view(&self) -> EventTypeModel {
        match self {
            FileSystemEventType::Create => EventTypeModel::Create,
            FileSystemEventType::Delete => EventTypeModel::Delete,
            FileSystemEventType::Modify => EventTypeModel::Modify,
            FileSystemEventType::Move => EventTypeModel::Move,
            FileSystemEventType::MovedTo(p) => EventTypeModel::MovedTo(p@),
            FileSystemEventType::MovedFrom(p) => EventTypeModel::MovedFrom(p@),
            FileSystemEventType::Unknown => EventTypeModel::Unknown,
        }
    }
}

impl View for FileSystemTarget {
    type V = TargetModel;

    open spec fn view(&self) -> TargetModel {
        TargetModel { kind: self.kind, path: self.path@ }
    }
}

impl View for FileSystemEvent {
    type V = EventModel;

    open spec fn view(&self) -> EventModel {
        EventModel {
            event_type: self.event_type@,
            target: match self.target {
                Some(t) => Some(t@),
                None => None,
            },
        }
    }
}

/// An exact copy of a byte vector.
pub fn copy_bytes(v: &Vec<u8>) -> (r: Vec<u8>)
    ensures
        r@ == v@,
{
    let n = v.len();
    let mut r: Vec<u8> = Vec::new();
    let mut i: usize = 0;
    while i < n
        invariant
            n == v@.len(),
            0 <= i <= n,
            r@ == v@.subrange(0, i as int),
        decreases n - i,
    {
        r.push(v[i]);
        i += 1;
    }
    proof {
        assert(v@.subrange(0, n as int) =~= v@);
    }
    r
}

impl Clone for FileSystemEventType {
    /// Cloning keeps the model exactly.
    fn clone(&self) -> (r: Self)
        ensures
            r@ == self@,
    {
        match self {
            FileSystemEventType::Create => FileSystemEventType::Create,
            FileSystemEventType::Delete => FileSystemEventType::Delete,
            FileSystemEventType::Modify => FileSystemEventType::Modify,
            FileSystemEventType::Move => FileSystemEventType::Move,
            FileSystemEventType::MovedTo(p) => FileSystemEventType::MovedTo(copy_bytes(p)),
            FileSystemEventType::MovedFrom(p) => FileSystemEventType::MovedFrom(copy_bytes(p)),
            FileSystemEventType::Unknown => FileSystemEventType::Unknown,
        }
    }
}

impl Clone for FileSystemTarget {
    /// Cloning keeps the model exactly.
    fn clone(&self) -> (r: Self)
        ensures
            r@ == self@,
    {
        FileSystemTarget { kind: self.kind, path: copy_bytes(&self.path) }
    }
}

impl Clone for FileSystemEvent {
    /// Cloning keeps the model exactly.
    fn clone(&self) -> (r: Self)
        ensures
            r@ == self@,
    {
        FileSystemEvent {
            event_type: self.event_type.clone(),
            target: match &self.target {
                Some(t) => Some(t.clone()),
                None => None,
            },
        }
    }
}

} // verus!
