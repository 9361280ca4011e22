//! The host-binding shape of an event: the string-keyed form embedding
//! layers deliver, with `previousPath` exactly on `moved_from` events and
//! `nextPath` exactly on `moved_to` events, and its decoding back.

use vstd::prelude::*;
use crate::events::{
    copy_bytes, EventModel, EventTypeModel, FileSystemEvent, FileSystemEventType,
    FileSystemTarget, FileSystemTargetKind, TargetModel,
};
use crate::paths::opt_view;
use crate::strutil::str_eq;

verus! {

/// The name the binding surface gives each event type.
pub open spec fn spec_type_name(t: EventTypeModel) -> Seq<char> {
    match t {
        EventTypeModel::Create => "create"@,
        EventTypeModel::Delete => "delete"@,
        EventTypeModel::Modify => "modify"@,
        EventTypeModel::Move => "move"@,
        EventTypeModel::MovedTo(_) => "moved_to"@,
        EventTypeModel::MovedFrom(_) => "moved_from"@,
        EventTypeModel::Unknown => "unknown"@,
    }
}

/// The name the binding surface gives each target kind.
pub open spec fn spec_kind_name(k: FileSystemTargetKind) -> Seq<char> {
    match k {
        FileSystemTargetKind::Directory => "directory"@,
        FileSystemTargetKind::File => "file"@,
    }
}

impl FileSystemEventType {
    /// The binding-surface name of this event type.
    pub fn to_string(&self) -> (r: String)
        ensures
            r@ == spec_type_name(self@),
    {
        match self {
            FileSystemEventType::Create => String::from_str("create"),
            FileSystemEventType::Delete => String::from_str("delete"),
            FileSystemEventType::Modify => String::from_str("modify"),
            FileSystemEventType::Move => String::from_str("move"),
            FileSystemEventType::MovedTo(_) => String::from_str("moved_to"),
            FileSystemEventType::MovedFrom(_) => String::from_str("moved_from"),
            FileSystemEventType::Unknown => String::from_str("unknown"),
        }
    }
}

impl FileSystemTargetKind {
    /// The binding-surface name of this kind.
    pub fn to_string(&self) -> (r: String)
        ensures
            r@ == spec_kind_name(*self),
    {
        match self {
            FileSystemTargetKind::Directory => String::from_str("directory"),
            FileSystemTargetKind::File => String::from_str("file"),
        }
    }
}

/// The encoded target shape: path, kind name, and the rename endpoints,
/// present exactly for the matching event types.
#[derive(Debug)]
pub struct EncodedTarget {
    pub path: Vec<u8>,
    pub kind: String,
    pub previous_path: Option<Vec<u8>>,
    pub next_path: Option<Vec<u8>>,
}

/// The encoded event shape handed to embedding layers.
#[derive(Debug)]
pub struct EncodedEvent {
    pub event_type: String,
    pub target: Option<EncodedTarget>,
}

/// Spec-level picture of an encoded target.
pub struct EncodedTargetModel {
    pub path: Seq<u8>,
    pub kind: Seq<char>,
    pub previous_path: Option<Seq<u8>>,
    pub next_path: Option<Seq<u8>>,
}

/// Spec-level picture of an encoded event.
pub struct EncodedEventModel {
    pub event_type: Seq<char>,
    pub target: Option<EncodedTargetModel>,
}

impl View for EncodedTarget {
    type V = EncodedTargetModel;

    open spec fn view(&self) -> EncodedTargetModel {
        EncodedTargetModel {
            path: self.path@,
            kind: self.kind@,
            previous_path: opt_view(self.previous_path),
            next_path: opt_view(self.next_path),
        }
    }
}

impl View for EncodedEvent {
    type V = EncodedEventModel;

    open spec fn view(&self) -> EncodedEventModel {
        EncodedEventModel {
            event_type: self.event_type@,
            target: match self.target {
                Some(t) => Some(t@),
                None => None,
            },
        }
    }
}

/// What encoding does: the event type becomes its name; the target keeps
/// its path and kind name; `previous_path` carries a `moved_from` payload
/// and `next_path` a `moved_to` payload.
pub open spec fn spec_encode(e: EventModel) -> EncodedEventModel {
    EncodedEventModel {
        event_type: spec_type_name(e.event_type),
        target: match e.target {
            Some(t) => Some(EncodedTargetModel {
                path: t.path,
                kind: spec_kind_name(t.kind),
                previous_path: match e.event_type {
                    EventTypeModel::MovedFrom(p) => Some(p),
                    _ => None,
                },
                next_path: match e.event_type {
                    EventTypeModel::MovedTo(p) => Some(p),
                    _ => None,
                },
            }),
            None => None,
        },
    }
}

/// What decoding does: the inverse reading.  An unknown type or kind name,
/// or a rename name without its endpoint field, decodes to nothing.
pub open spec fn spec_decode(enc: EncodedEventModel) -> Option<EventModel> {
    let et: Option<EventTypeModel> = if enc.event_type == "create"@ {
        Some(EventTypeModel::Create)
    } else if enc.event_type == "delete"@ {
        Some(EventTypeModel::Delete)
    } else if enc.event_type == "modify"@ {
        Some(EventTypeModel::Modify)
    } else if enc.event_type == "move"@ {
        Some(EventTypeModel::Move)
    } else if enc.event_type == "unknown"@ {
        Some(EventTypeModel::Unknown)
    } else if enc.event_type == "moved_to"@ {
        match enc.target {
            Some(t) => match t.next_path {
                Some(p) => Some(EventTypeModel::MovedTo(p)),
                None => None,
            },
            None => None,
        }
    } else if enc.event_type == "moved_from"@ {
        match enc.target {
            Some(t) => match t.previous_path {
                Some(p) => Some(EventTypeModel::MovedFrom(p)),
                None => None,
            },
            None => None,
        }
    } else {
        None
    };
    match et {
        Some(event_type) => match enc.target {
            Some(t) => if t.kind == "directory"@ {
                Some(EventModel {
                    event_type,
                    target: Some(TargetModel {
                        kind: FileSystemTargetKind::Directory,
                        path: t.path,
                    }),
                })
            } else if t.kind == "file"@ {
                Some(EventModel {
                    event_type,
                    target: Some(TargetModel { kind: FileSystemTargetKind::File, path: t.path }),
                })
            } else {
                None
            },
            None => Some(EventModel { event_type, target: None }),
        },
        None => None,
    }
}

/// An event is binding-complete when a rename payload comes with a target —
/// which every engine guarantees, since paired events always carry one.
pub open spec fn spec_binding_complete(e: EventModel) -> bool {
    (e.event_type is MovedTo || e.event_type is MovedFrom) ==> e.target is Some
}

/// Encoding then decoding an event through the binding shape gives the
/// event back, every field preserved.  (A rename event without a target has
/// nowhere to carry its payload; engines never emit one.)
pub proof fn lemma_codec_roundtrip(e: EventModel)
    requires
        spec_binding_complete(e),
    ensures
        spec_decode(spec_encode(e)) == Some(e),
{
    reveal_strlit("create");
    reveal_strlit("delete");
    reveal_strlit("modify");
    reveal_strlit("move");
    reveal_strlit("moved_to");
    reveal_strlit("moved_from");
    reveal_strlit("unknown");
    reveal_strlit("directory");
    reveal_strlit("file");
    assert("create"@.len() == 6);
    assert("delete"@.len() == 6);
    assert("modify"@.len() == 6);
    assert("move"@.len() == 4);
    assert("moved_to"@.len() == 8);
    assert("moved_from"@.len() == 10);
    assert("unknown"@.len() == 7);
    assert("directory"@.len() == 9);
    assert("file"@.len() == 4);
    assert("create"@[0] == 'c');
    assert("delete"@[0] == 'd');
    assert("modify"@[0] == 'm');
    assert("create"@ != "delete"@);
    assert("create"@ != "modify"@);
    assert("delete"@ != "modify"@);
    assert("file"@ != "directory"@);
    let enc = spec_encode(e);
    match e.target {
        Some(t) => {
            assert(enc.target matches Some(et2) && et2.path == t.path);
            match t.kind {
                FileSystemTargetKind::Directory => {
                    assert(spec_kind_name(t.kind) == "directory"@);
                },
                FileSystemTargetKind::File => {
                    assert(spec_kind_name(t.kind) != "directory"@);
                },
            }
            assert(spec_decode(enc) matches Some(d) && d.target matches Some(dt)
                && dt == t);
        },
        None => {},
    }
    match spec_decode(enc) {
        Some(d) => {
            assert(d.event_type == e.event_type);
            assert(d == e);
        },
        None => {
            assert(false);
        },
    }
}

/// Encode one event into the binding shape.
pub fn encode_event(e: &FileSystemEvent) -> (r: EncodedEvent)
    ensures
        r@ == spec_encode(e@),
{
    let event_type = e.event_type.to_string();
    let target = match &e.target {
        Some(t) => {
            let previous_path = match &e.event_type {
                FileSystemEventType::MovedFrom(p) => Some(copy_bytes(p)),
                _ => None,
            };
            let next_path = match &e.event_type {
                FileSystemEventType::MovedTo(p) => Some(copy_bytes(p)),
                _ => None,
            };
            Some(EncodedTarget {
                path: copy_bytes(&t.path),
                kind: t.kind.to_string(),
                previous_path,
                next_path,
            })
        },
        None => None,
    };
    EncodedEvent { event_type, target }
}

/// Decode an encoded event back; `None` for a shape no engine produces.
pub fn decode_event(enc: &EncodedEvent) -> (r: Option<FileSystemEvent>)
    ensures
        (match r {
            Some(ev) => Some(ev@),
            None => None,
        }) == spec_decode(enc@),
{
    let name = enc.event_type.as_str();
    let et: Option<FileSystemEventType> = if str_eq(name, "create") {
        Some(FileSystemEventType::Create)
    } else if str_eq(name, "delete") {
        Some(FileSystemEventType::Delete)
    } else if str_eq(name, "modify") {
        Some(FileSystemEventType::Modify)
    } else if str_eq(name, "move") {
        Some(FileSystemEventType::Move)
    } else if str_eq(name, "unknown") {
        Some(FileSystemEventType::Unknown)
    } else if str_eq(name, "moved_to") {
        match &enc.target {
            Some(t) => match &t.next_path {
                Some(p) => Some(FileSystemEventType::MovedTo(copy_bytes(p))),
                None => None,
            },
            None => None,
        }
    } else if str_eq(name, "moved_from") {
        match &enc.target {
            Some(t) => match &t.previous_path {
                Some(p) => Some(FileSystemEventType::MovedFrom(copy_bytes(p))),
                None => None,
            },
            None => None,
        }
    } else {
        None
    };
    proof {
        reveal_strlit("create");
        reveal_strlit("delete");
        reveal_strlit("modify");
        reveal_strlit("move");
        reveal_strlit("moved_to");
        reveal_strlit("moved_from");
        reveal_strlit("unknown");
    }
    match et {
        Some(event_type) => match &enc.target {
            Some(t) => {
                let kind_name = t.kind.as_str();
                if str_eq(kind_name, "directory") {
                    Some(FileSystemEvent {
                        event_type,
                        target: Some(FileSystemTarget {
                            kind: FileSystemTargetKind::Directory,
                            path: copy_bytes(&t.path),
                        }),
                    })
                } else if str_eq(kind_name, "file") {
                    Some(FileSystemEvent {
                        event_type,
                        target: Some(FileSystemTarget {
                            kind: FileSystemTargetKind::File,
                            path: copy_bytes(&t.path),
                        }),
                    })
                } else {
                    None
                }
            },
            None => Some(FileSystemEvent { event_type, target: None }),
        },
        None => None,
    }
}

} // verus!
