//! The FSEvents engine core: the paths-to-watch list that is frozen at
//! `start`, and the translation of coalesced flag sets into events.
//!
//! The CoreServices stream, its dispatch queue and the C callback live in
//! the host runtime; the callback hands each (path, flags) pair to
//! `build_fsevents_event`.

use vstd::prelude::*;
use crate::errors::KanshiError;
use crate::events::{
    copy_bytes, EventModel, EventTypeModel, FileSystemEvent, FileSystemEventType,
    FileSystemTarget, FileSystemTargetKind, TargetModel,
};
use crate::lifecycle::{Lifecycle, LifecycleState, spec_close, spec_watch_allowed};

verus! {

/// A CoreFoundation range: a location and a length within a string.
#[derive(Clone, Copy, Debug, PartialEq, Eq, Structural)]
pub struct CFRange {
    pub location: isize,
    pub length: isize,
}

// The FSEvents stream flag bits, as CoreServices defines them.
pub const FSE_MUST_SCAN_SUBDIRS: u32 = 0x1;
pub const FSE_ITEM_CREATED: u32 = 0x100;
pub const FSE_ITEM_REMOVED: u32 = 0x200;
pub const FSE_ITEM_INODE_META_MOD: u32 = 0x400;
pub const FSE_ITEM_RENAMED: u32 = 0x800;
pub const FSE_ITEM_MODIFIED: u32 = 0x1000;
pub const FSE_ITEM_IS_FILE: u32 = 0x10000;
pub const FSE_ITEM_IS_DIR: u32 = 0x20000;

/// Whether `flags` carries the bit `flag`.
pub open spec fn fse_has(flags: u32, flag: u32) -> bool {
    flags & flag != 0
}

/// The target kind an FSEvents flag set announces.
pub open spec fn spec_fse_kind(flags: u32) -> FileSystemTargetKind {
    if fse_has(flags, FSE_ITEM_IS_DIR) {
        FileSystemTargetKind::Directory
    } else {
        FileSystemTargetKind::File
    }
}

/// The event type a coalesced FSEvents flag set maps to, by first match:
/// created-and-removed is a delete (the item is gone), created-and-renamed a
/// move, then the single bits in the order create, delete, modify, move.
pub open spec fn spec_fse_event_type(flags: u32) -> EventTypeModel {
    if fse_has(flags, FSE_ITEM_CREATED) {
        if fse_has(flags, FSE_ITEM_REMOVED) {
            EventTypeModel::Delete
        } else if fse_has(flags, FSE_ITEM_RENAMED) {
            EventTypeModel::Move
        } else {
            EventTypeModel::Create
        }
    } else if fse_has(flags, FSE_ITEM_REMOVED) {
        EventTypeModel::Delete
    } else if fse_has(flags, FSE_ITEM_MODIFIED) {
        EventTypeModel::Modify
    } else if fse_has(flags, FSE_ITEM_RENAMED) {
        EventTypeModel::Move
    } else {
        EventTypeModel::Unknown
    }
}

/// The target kind of an FSEvents record: directory exactly when the
/// is-directory bit is set.
pub fn fse_kind_for_flags(flags: u32) -> (r: FileSystemTargetKind)
    ensures
        r == spec_fse_kind(flags),
        r is Directory <==> fse_has(flags, FSE_ITEM_IS_DIR),
{
    if flags & FSE_ITEM_IS_DIR != 0 {
        FileSystemTargetKind::Directory
    } else {
        FileSystemTargetKind::File
    }
}

/// Translate a coalesced FSEvents flag set into an event type.
pub fn fse_event_type_for_flags(flags: u32) -> (r: FileSystemEventType)
    ensures
        r@ == spec_fse_event_type(flags),
{
    if flags & FSE_ITEM_CREATED != 0 {
        if flags & FSE_ITEM_REMOVED != 0 {
            FileSystemEventType::Delete
        } else if flags & FSE_ITEM_RENAMED != 0 {
            FileSystemEventType::Move
        } else {
            FileSystemEventType::Create
        }
    } else if flags & FSE_ITEM_REMOVED != 0 {
        FileSystemEventType::Delete
    } else if flags & FSE_ITEM_MODIFIED != 0 {
        FileSystemEventType::Modify
    } else if flags & FSE_ITEM_RENAMED != 0 {
        FileSystemEventType::Move
    } else {
        FileSystemEventType::Unknown
    }
}

/// The event one callback entry turns into.
pub open spec fn spec_fsevents_event(flags: u32, path: Seq<u8>) -> EventModel {
    EventModel {
        event_type: spec_fse_event_type(flags),
        target: Some(TargetModel { kind: spec_fse_kind(flags), path }),
    }
}

/// Assemble the event for one (path, flags) pair from the stream callback.
pub fn build_fsevents_event(flags: u32, path: Vec<u8>) -> (ev: FileSystemEvent)
    ensures
        ev@ == spec_fsevents_event(flags, path@),
{
    let et = fse_event_type_for_flags(flags);
    let kind = fse_kind_for_flags(flags);
    FileSystemEvent { event_type: et, target: Some(FileSystemTarget { kind, path }) }
}

/// The FSEvents engine state: the roots accumulated before `start`, frozen
/// once the stream exists.
#[derive(Debug)]
pub struct FsEventsState {
    pub paths: Vec<Vec<u8>>,
    pub lifecycle: Lifecycle,
}

/// The views of the accumulated roots.
pub open spec fn paths_view(v: Seq<Vec<u8>>) -> Seq<Seq<u8>> {
    v.map_values(|p: Vec<u8>| p@)
}

impl FsEventsState {
    /// A fresh engine: no roots, nothing started.
    pub fn new() -> (r: FsEventsState)
        ensures
            paths_view(r.paths@) =~= Seq::<Seq<u8>>::empty(),
            r.lifecycle.state == LifecycleState::New,
    {
        FsEventsState { paths: Vec::new(), lifecycle: Lifecycle::new() }
    }

    /// Add a root.  Legal only before `start`: the stream's path list cannot
    /// change afterwards.  A root that does not exist is a filesystem error
    /// and changes nothing.
    pub fn watch(&mut self, dir: Vec<u8>, exists: bool) -> (r: Result<(), KanshiError>)
        ensures
            r is Ok <==> (spec_watch_allowed(old(self).lifecycle.state, false) && exists),
            r is Ok ==> paths_view(final(self).paths@) == paths_view(old(self).paths@).push(
                dir@) && final(self).lifecycle.state == LifecycleState::Watching,
            r is Err ==> final(self).paths@ == old(self).paths@ && final(self).lifecycle
                == old(self).lifecycle,
            old(self).lifecycle.state is Running ==> (r matches Err(e)
                && e is ListenerStartedError),
            old(self).lifecycle.state is Closed ==> (r matches Err(e)
                && e is StreamClosedError),
            spec_watch_allowed(old(self).lifecycle.state, false) && !exists ==> (r matches
                Err(e) && e matches KanshiError::FileSystemError(m)
                && m@ == "ENOENT Directory does not exist"@),
    {
        let pre = self.lifecycle;
        match self.lifecycle.on_watch(false) {
            Ok(()) => {
                if exists {
                    let ghost pv = paths_view(self.paths@);
                    self.paths.push(dir);
                    proof {
                        assert(paths_view(self.paths@) =~= pv.push(
                            self.paths@[self.paths@.len() - 1]@));
                    }
                    Ok(())
                } else {
                    self.lifecycle = pre;
                    Err(KanshiError::FileSystemError(String::from_str(
                        "ENOENT Directory does not exist",
                    )))
                }
            },
            Err(e) => Err(e),
        }
    }

    /// Start the stream: freezes and hands back the accumulated roots for
    /// stream creation.  Legal exactly once.
    pub fn start(&mut self) -> (r: Result<Vec<Vec<u8>>, KanshiError>)
        ensures
            r is Ok <==> (old(self).lifecycle.state is New || old(self).lifecycle.state
                is Watching),
            r matches Ok(ps) ==> paths_view(ps@) == paths_view(old(self).paths@)
                && final(self).lifecycle.state == LifecycleState::Running,
            final(self).paths@ == old(self).paths@,
            r is Err ==> final(self).lifecycle == old(self).lifecycle,
            old(self).lifecycle.state is Running ==> (r matches Err(e)
                && e is ListenerStartedError),
            old(self).lifecycle.state is Closed ==> (r matches Err(e)
                && e is StreamClosedError),
    {
        match self.lifecycle.on_start() {
            Ok(()) => {
                let n = self.paths.len();
                let mut ps: Vec<Vec<u8>> = Vec::new();
                let mut i: usize = 0;
                while i < n
                    invariant
                        n == self.paths@.len(),
                        0 <= i <= n,
                        self.paths@ == old(self).paths@,
                        ps@.len() == i,
                        forall|k: int| 0 <= k < i ==> ps@[k]@ == self.paths@[k]@,
                    decreases n - i,
                {
                    let p = copy_bytes(&self.paths[i]);
                    ps.push(p);
                    i += 1;
                }
                proof {
                    assert forall|k: int| 0 <= k < n implies paths_view(ps@)[k]
                        == paths_view(self.paths@)[k] by {
                        assert(ps@[k]@ == self.paths@[k]@);
                    }
                    assert(paths_view(ps@) =~= paths_view(self.paths@));
                }
                Ok(ps)
            },
            Err(e) => Err(e),
        }
    }

    /// Close the engine: terminal and idempotent; `detach_ok` reports
    /// whether stopping and releasing the stream succeeded, and is consulted
    /// only the first time.
    pub fn close(&mut self, detach_ok: bool) -> (r: bool)
        ensures
            (final(self).lifecycle.state, r) == spec_close(old(self).lifecycle.state,
                detach_ok),
            final(self).paths@ == old(self).paths@,
    {
        self.lifecycle.on_close(detach_ok)
    }
}

} // verus!
