//! The inotify engine core: translating raw kernel records into events,
//! pairing the two halves of a rename by cookie, rewriting the watch map on
//! subtree moves, and downgrading unpaired cookies to single-sided moves.
//!
//! The host runtime reads records from the kernel and performs the returned
//! actions (adding, removing or re-crawling watches); every decision in
//! between is made here.

use vstd::prelude::*;
use crate::events::{
    copy_bytes, EventModel, EventTypeModel, FileSystemEvent, FileSystemEventType,
    FileSystemTarget, FileSystemTargetKind, TargetModel,
};
use crate::paths::{is_path_prefix, opt_view, spec_join};
use crate::paths::{join_path, lemma_rewrite_extends};
use crate::PATH_SEP;
use crate::watchmap::{
    contains_path, lookup_wd, spec_remove_subtree, spec_removed_wds, spec_rewrite_entries,
    WatchEntryModel, WatchMap,
};

verus! {

// The inotify mask bits, as the kernel ABI defines them.
pub const IN_MODIFY: u32 = 0x2;
pub const IN_ATTRIB: u32 = 0x4;
pub const IN_MOVED_FROM: u32 = 0x40;
pub const IN_MOVED_TO: u32 = 0x80;
pub const IN_MOVE: u32 = 0xc0;
pub const IN_CREATE: u32 = 0x100;
pub const IN_DELETE: u32 = 0x200;
pub const IN_DELETE_SELF: u32 = 0x400;
pub const IN_IGNORED: u32 = 0x8000;
pub const IN_ISDIR: u32 = 0x40000000;

/// The mask every directory is registered with.
pub const IN_WATCH_MASK: u32 = IN_CREATE | IN_MODIFY | IN_MOVE | IN_DELETE;

/// Whether `mask` carries the bit `flag`.
pub open spec fn mask_has(mask: u32, flag: u32) -> bool {
    mask & flag != 0
}

/// The target kind a record's mask announces: the kernel's directory bit
/// decides, and everything else is a file.
pub open spec fn spec_kind(mask: u32) -> FileSystemTargetKind {
    if mask_has(mask, IN_ISDIR) {
        FileSystemTargetKind::Directory
    } else {
        FileSystemTargetKind::File
    }
}

/// The event type a non-rename mask maps to, by the fixed priority
/// create > delete > modify; anything unrecognised is `Unknown`.
pub open spec fn spec_event_type(mask: u32) -> EventTypeModel {
    if mask_has(mask, IN_CREATE) {
        EventTypeModel::Create
    } else if mask_has(mask, IN_DELETE) {
        EventTypeModel::Delete
    } else if mask_has(mask, IN_DELETE_SELF) {
        EventTypeModel::Delete
    } else if mask_has(mask, IN_MODIFY) {
        EventTypeModel::Modify
    } else if mask_has(mask, IN_ATTRIB) {
        EventTypeModel::Modify
    } else {
        EventTypeModel::Unknown
    }
}

/// The target kind of a record: directory exactly when the kernel's
/// directory bit is set.
pub fn kind_for_mask(mask: u32) -> (r: FileSystemTargetKind)
    ensures
        r == spec_kind(mask),
        r is Directory <==> mask_has(mask, IN_ISDIR),
{
    if mask & IN_ISDIR != 0 {
        FileSystemTargetKind::Directory
    } else {
        FileSystemTargetKind::File
    }
}

/// Translate a non-rename mask into an event type.
pub fn event_type_for_mask(mask: u32) -> (r: FileSystemEventType)
    ensures
        r@ == spec_event_type(mask),
{
    if mask & IN_CREATE != 0 {
        FileSystemEventType::Create
    } else if mask & IN_DELETE != 0 {
        FileSystemEventType::Delete
    } else if mask & IN_DELETE_SELF != 0 {
        FileSystemEventType::Delete
    } else if mask & IN_MODIFY != 0 {
        FileSystemEventType::Modify
    } else if mask & IN_ATTRIB != 0 {
        FileSystemEventType::Modify
    } else {
        FileSystemEventType::Unknown
    }
}

/// One raw kernel record: the watch descriptor it arrived on, its mask, the
/// rename-pairing cookie (zero when not a rename), and the entry name.
#[derive(Debug)]
pub struct InotifyRecord {
    pub wd: i32,
    pub mask: u32,
    pub cookie: u32,
    pub name: Option<Vec<u8>>,
}

/// Spec-level picture of a raw record.
pub struct RecordModel {
    pub wd: i32,
    pub mask: u32,
    pub cookie: u32,
    pub name: Option<Seq<u8>>,
}

impl View for InotifyRecord {
    type V = RecordModel;

    open spec fn view(&self) -> RecordModel {
        RecordModel {
            wd: self.wd,
            mask: self.mask,
            cookie: self.cookie,
            name: opt_view(self.name),
        }
    }
}

/// The first pending record carrying cookie `c`.
pub open spec fn lookup_cookie(s: Seq<RecordModel>, c: u32) -> Option<RecordModel>
    decreases s.len(),
{
    if s.len() == 0 {
        None
    } else if s[0].cookie == c {
        Some(s[0])
    } else {
        lookup_cookie(s.drop_first(), c)
    }
}

/// The pending records with the first carrier of cookie `c` taken out.
pub open spec fn remove_cookie(s: Seq<RecordModel>, c: u32) -> Seq<RecordModel>
    decreases s.len(),
{
    if s.len() == 0 {
        Seq::empty()
    } else if s[0].cookie == c {
        s.drop_first()
    } else {
        seq![s[0]] + remove_cookie(s.drop_first(), c)
    }
}

/// Taking out the record at the first matching index is exactly
/// `Seq::remove` there.
proof fn lemma_remove_cookie_at(s: Seq<RecordModel>, i: int, c: u32)
    requires
        0 <= i < s.len(),
        s[i].cookie == c,
        forall|j: int| 0 <= j < i ==> s[j].cookie != c,
    ensures
        lookup_cookie(s, c) == Some(s[i]),
        remove_cookie(s, c) == s.remove(i),
    decreases i,
{
    if i == 0 {
        assert(s.remove(0) =~= s.drop_first());
    } else {
        assert(s[0].cookie != c);
        assert forall|j: int| 0 <= j < i - 1 implies s.drop_first()[j].cookie != c by {
            assert(s.drop_first()[j] == s[j + 1]);
        }
        assert(s.drop_first()[i - 1] == s[i]);
        lemma_remove_cookie_at(s.drop_first(), i - 1, c);
        assert(s.remove(i) =~= seq![s[0]] + s.drop_first().remove(i - 1));
    }
}

/// When no pending record carries cookie `c`, nothing is found and nothing
/// is removed.
proof fn lemma_remove_cookie_absent(s: Seq<RecordModel>, c: u32)
    requires
        forall|j: int| 0 <= j < s.len() ==> s[j].cookie != c,
    ensures
        lookup_cookie(s, c) is None,
        remove_cookie(s, c) == s,
    decreases s.len(),
{
    if s.len() != 0 {
        assert forall|j: int| 0 <= j < s.drop_first().len() implies s.drop_first()[j].cookie
            != c by {
            assert(s.drop_first()[j] == s[j + 1]);
        }
        lemma_remove_cookie_absent(s.drop_first(), c);
        assert(remove_cookie(s, c) =~= s);
    }
}

/// A cookie that is not found is not removed either.
proof fn lemma_remove_cookie_none(s: Seq<RecordModel>, c: u32)
    requires
        lookup_cookie(s, c) is None,
    ensures
        remove_cookie(s, c) == s,
    decreases s.len(),
{
    if s.len() != 0 {
        assert(s[0].cookie != c);
        lemma_remove_cookie_none(s.drop_first(), c);
        assert(remove_cookie(s, c) =~= s);
    }
}

/// The ephemeral cookie map: records awaiting their rename partner within
/// the current poll cycle.
#[derive(Debug)]
pub struct CookieMap {
    pub entries: Vec<InotifyRecord>,
}

impl View for CookieMap {
    type V = Seq<RecordModel>;

    open spec fn view(&self) -> Seq<RecordModel> {
        self.entries@.map_values(|r: InotifyRecord| r@)
    }
}

impl CookieMap {
    /// An empty cookie map.
    pub fn new() -> (r: CookieMap)
        ensures
            r@ =~= Seq::<RecordModel>::empty(),
    {
        CookieMap { entries: Vec::new() }
    }

    /// Stash a record until its partner arrives.
    pub fn stash(&mut self, rec: InotifyRecord)
        ensures
            final(self)@ == old(self)@.push(rec@),
    {
        let ghost pre = self@;
        self.entries.push(rec);
        proof {
            assert(self@ =~= pre.push(self.entries@[self.entries@.len() - 1]@));
        }
    }

    /// Take out the first record carrying cookie `c`, if any.
    pub fn take(&mut self, c: u32) -> (r: Option<InotifyRecord>)
        ensures
            final(self)@ == remove_cookie(old(self)@, c),
            (match r {
                Some(x) => Some(x@),
                None => None,
            }) == lookup_cookie(old(self)@, c),
    {
        let n = self.entries.len();
        let mut i: usize = 0;
        while i < n
            invariant
                n == self.entries@.len(),
                0 <= i <= n,
                self@ == old(self)@,
                forall|j: int| 0 <= j < i ==> self@[j].cookie != c,
            decreases n - i,
        {
            if self.entries[i].cookie == c {
                let ghost pre = self@;
                proof {
                    lemma_remove_cookie_at(pre, i as int, c);
                }
                let rec = self.entries.remove(i);
                proof {
                    assert(self@ =~= pre.remove(i as int));
                }
                return Some(rec);
            }
            i += 1;
        }
        proof {
            lemma_remove_cookie_absent(self@, c);
        }
        None
    }

    /// Drop everything; the poll cycle is over.
    pub fn clear(&mut self)
        ensures
            final(self)@ =~= Seq::<RecordModel>::empty(),
    {
        self.entries = Vec::new();
    }
}

/// A kernel-side step the host runtime must perform on the engine's behalf.
#[derive(Debug)]
pub enum EngineAction {
    /// Register a watch on this directory (and crawl into it).
    AddWatch(Vec<u8>),
    /// Release this kernel watch descriptor.
    RemoveWatch(i32),
    /// The path may have moved into the tree: crawl and watch it afresh.
    Rewatch(Vec<u8>),
}

/// Spec-level picture of a required action.
pub enum ActionModel {
    AddWatch(Seq<u8>),
    RemoveWatch(i32),
    Rewatch(Seq<u8>),
}

impl View for EngineAction {
    type V = ActionModel;

    open spec fn view(&self) -> ActionModel {
        match self {
            EngineAction::AddWatch(p) => ActionModel::AddWatch(p@),
            EngineAction::RemoveWatch(wd) => ActionModel::RemoveWatch(*wd),
            EngineAction::Rewatch(p) => ActionModel::Rewatch(p@),
        }
    }
}

/// The views of a vector of events.
pub open spec fn events_view(v: Seq<FileSystemEvent>) -> Seq<EventModel> {
    v.map_values(|e: FileSystemEvent| e@)
}

/// The views of a vector of actions.
pub open spec fn actions_view(v: Seq<EngineAction>) -> Seq<ActionModel> {
    v.map_values(|a: EngineAction| a@)
}

/// Spec-level picture of the engine state: the watch map and the cookies
/// still awaiting a partner.
pub struct InotifyModel {
    pub watches: Seq<WatchEntryModel>,
    pub pending: Seq<RecordModel>,
}

/// What one record does to the engine: the state afterwards, the events
/// published, and the kernel actions required.
pub struct StepOutcome {
    pub state: InotifyModel,
    pub events: Seq<EventModel>,
    pub actions: Seq<ActionModel>,
}

/// The event for a non-rename record: its type from the mask, its target at
/// `watch path + "/" + name`.
pub open spec fn spec_plain_event(st: InotifyModel, r: RecordModel) -> EventModel {
    EventModel {
        event_type: spec_event_type(r.mask),
        target: Some(TargetModel {
            kind: spec_kind(r.mask),
            path: spec_join(lookup_wd(st.watches, r.wd), r.name),
        }),
    }
}

/// The pair of events a completed rename publishes: `MovedTo(dest)` on the
/// source target, then `MovedFrom(source)` on the destination target.
pub open spec fn spec_pair_events(kind: FileSystemTargetKind, from: Seq<u8>, to: Seq<u8>)
    -> Seq<EventModel> {
    seq![
        EventModel {
            event_type: EventTypeModel::MovedTo(to),
            target: Some(TargetModel { kind, path: from }),
        },
        EventModel {
            event_type: EventTypeModel::MovedFrom(from),
            target: Some(TargetModel { kind, path: to }),
        },
    ]
}

/// What handling one kernel record does, as a function of the state and the
/// record.
///
/// - A record with a zero cookie is no rename: unless the kernel is retiring
///   the watch (`IN_IGNORED`), it becomes one event; a directory creation
///   additionally asks the runtime to watch the new directory.
/// - A record with a cookie and no stashed partner waits in the cookie map.
/// - A record whose partner is stashed completes the rename: the side marked
///   `IN_MOVED_FROM` is the source, the other the destination; a directory
///   rename rewrites every watched path under the source to sit under the
///   destination.
pub open spec fn spec_step(st: InotifyModel, r: RecordModel) -> StepOutcome {
    if r.cookie == 0 {
        if mask_has(r.mask, IN_IGNORED) {
            StepOutcome { state: st, events: Seq::empty(), actions: Seq::empty() }
        } else {
            let path = spec_join(lookup_wd(st.watches, r.wd), r.name);
            let actions: Seq<ActionModel> = if mask_has(r.mask, IN_CREATE) && mask_has(
                r.mask, IN_ISDIR) {
                seq![ActionModel::AddWatch(path)]
            } else {
                Seq::empty()
            };
            StepOutcome { state: st, events: seq![spec_plain_event(st, r)], actions }
        }
    } else {
        match lookup_cookie(st.pending, r.cookie) {
            None => StepOutcome {
                state: InotifyModel { watches: st.watches, pending: st.pending.push(r) },
                events: Seq::empty(),
                actions: Seq::empty(),
            },
            Some(other) => {
                let other_path = spec_join(lookup_wd(st.watches, other.wd), other.name);
                let this_path = spec_join(lookup_wd(st.watches, r.wd), r.name);
                let from = if mask_has(other.mask, IN_MOVED_FROM) {
                    other_path
                } else {
                    this_path
                };
                let to = if mask_has(other.mask, IN_MOVED_FROM) {
                    this_path
                } else {
                    other_path
                };
                let kind = spec_kind(r.mask);
                let watches = if kind is Directory {
                    spec_rewrite_entries(st.watches, from, to)
                } else {
                    st.watches
                };
                StepOutcome {
                    state: InotifyModel {
                        watches,
                        pending: remove_cookie(st.pending, r.cookie),
                    },
                    events: spec_pair_events(kind, from, to),
                    actions: Seq::empty(),
                }
            },
        }
    }
}

/// What the end of an empty poll cycle does, as a function of the watch map
/// and the cookies left unpaired.  Each one is downgraded to a single-sided
/// `Move`: if its path is a watched directory, the thing moved out of the
/// tree and its whole subtree of watches is released; otherwise it may have
/// moved into the tree and the runtime is asked to watch it afresh.
pub struct FlushOutcome {
    pub watches: Seq<WatchEntryModel>,
    pub events: Seq<EventModel>,
    pub actions: Seq<ActionModel>,
}

pub open spec fn spec_flush(watches: Seq<WatchEntryModel>, pend: Seq<RecordModel>)
    -> FlushOutcome
    decreases pend.len(),
{
    if pend.len() == 0 {
        FlushOutcome { watches, events: Seq::empty(), actions: Seq::empty() }
    } else {
        let r = pend[0];
        let path = spec_join(lookup_wd(watches, r.wd), r.name);
        let ev = EventModel {
            event_type: EventTypeModel::Move,
            target: Some(TargetModel { kind: spec_kind(r.mask), path }),
        };
        let watched = contains_path(watches, path);
        let watches1 = if watched {
            spec_remove_subtree(watches, path)
        } else {
            watches
        };
        let acts = if watched {
            spec_removed_wds(watches, path).map_values(|wd: i32| ActionModel::RemoveWatch(wd))
        } else {
            seq![ActionModel::Rewatch(path)]
        };
        let rest = spec_flush(watches1, pend.drop_first());
        FlushOutcome {
            watches: rest.watches,
            events: seq![ev] + rest.events,
            actions: acts + rest.actions,
        }
    }
}

/// The inotify engine state: the live watch registrations and the rename
/// cookies of the current poll cycle.
#[derive(Debug)]
pub struct InotifyState {
    pub watches: WatchMap,
    pub pending: CookieMap,
}

impl View for InotifyState {
    type V = InotifyModel;

    open spec fn view(&self) -> InotifyModel {
        InotifyModel { watches: self.watches@, pending: self.pending@ }
    }
}

impl InotifyState {
    /// The engine's invariant: watch descriptors are unique.
    pub open spec fn wf(self) -> bool {
        self.watches.wf()
    }

    /// A fresh engine with no watches and no pending cookies.
    pub fn new() -> (r: InotifyState)
        ensures
            r.wf(),
            r@.watches =~= Seq::<WatchEntryModel>::empty(),
            r@.pending =~= Seq::<RecordModel>::empty(),
    {
        InotifyState { watches: WatchMap::new(), pending: CookieMap::new() }
    }

    /// Record that the kernel registered `path` under descriptor `wd` — the
    /// runtime calls this after every successful watch addition.
    pub fn record_watch(&mut self, wd: i32, path: Vec<u8>)
        requires
            old(self).wf(),
        ensures
            final(self).wf(),
            lookup_wd(final(self)@.watches, wd) == Some(path@),
            forall|w: i32| w != wd ==> lookup_wd(final(self)@.watches, w) == lookup_wd(
                old(self)@.watches, w),
            final(self)@.pending == old(self)@.pending,
    {
        self.watches.insert(wd, path);
    }

    /// Handle one kernel record, exactly as `spec_step` describes it.
    pub fn handle_record(&mut self, rec: InotifyRecord) -> (out: (Vec<FileSystemEvent>,
        Vec<EngineAction>))
        requires
            old(self).wf(),
        ensures
            final(self).wf(),
            final(self)@ == spec_step(old(self)@, rec@).state,
            events_view(out.0@) == spec_step(old(self)@, rec@).events,
            actions_view(out.1@) == spec_step(old(self)@, rec@).actions,
    {
        let ghost st0 = self@;
        if rec.cookie == 0 {
            if rec.mask & IN_IGNORED != 0 {
                let out = (Vec::new(), Vec::new());
                proof {
                    assert(events_view(out.0@) =~= spec_step(st0, rec@).events);
                    assert(actions_view(out.1@) =~= spec_step(st0, rec@).actions);
                    assert(self@ == spec_step(st0, rec@).state);
                }
                out
            } else {
                let base = self.watches.lookup(rec.wd);
                let path = join_path(&base, &rec.name);
                let kind = kind_for_mask(rec.mask);
                let et = event_type_for_mask(rec.mask);
                let mut actions: Vec<EngineAction> = Vec::new();
                if rec.mask & IN_CREATE != 0 && rec.mask & IN_ISDIR != 0 {
                    actions.push(EngineAction::AddWatch(copy_bytes(&path)));
                }
                let mut events: Vec<FileSystemEvent> = Vec::new();
                events.push(FileSystemEvent {
                    event_type: et,
                    target: Some(FileSystemTarget { kind, path }),
                });
                proof {
                    assert(events_view(events@) =~= spec_step(st0, rec@).events);
                    assert(actions_view(actions@) =~= spec_step(st0, rec@).actions);
                    assert(self@ == spec_step(st0, rec@).state);
                }
                (events, actions)
            }
        } else {
            match self.pending.take(rec.cookie) {
                None => {
                    proof {
                        lemma_remove_cookie_none(st0.pending, rec@.cookie);
                    }
                    self.pending.stash(rec);
                    let out = (Vec::new(), Vec::new());
                    proof {
                        assert(events_view(out.0@) =~= spec_step(st0, rec@).events);
                        assert(actions_view(out.1@) =~= spec_step(st0, rec@).actions);
                        assert(self@ == spec_step(st0, rec@).state);
                    }
                    out
                },
                Some(other) => {
                    let other_base = self.watches.lookup(other.wd);
                    let other_path = join_path(&other_base, &other.name);
                    let this_base = self.watches.lookup(rec.wd);
                    let this_path = join_path(&this_base, &rec.name);
                    let from_is_other = other.mask & IN_MOVED_FROM != 0;
                    let (from, to) = if from_is_other {
                        (other_path, this_path)
                    } else {
                        (this_path, other_path)
                    };
                    let kind = kind_for_mask(rec.mask);
                    if matches!(kind, FileSystemTargetKind::Directory) {
                        self.watches.rewrite_all(&from, &to);
                    }
                    let ev1 = FileSystemEvent {
                        event_type: FileSystemEventType::MovedTo(copy_bytes(&to)),
                        target: Some(FileSystemTarget { kind, path: copy_bytes(&from) }),
                    };
                    let ev2 = FileSystemEvent {
                        event_type: FileSystemEventType::MovedFrom(from),
                        target: Some(FileSystemTarget { kind, path: to }),
                    };
                    let mut events: Vec<FileSystemEvent> = Vec::new();
                    events.push(ev1);
                    events.push(ev2);
                    let actions: Vec<EngineAction> = Vec::new();
                    proof {
                        assert(events_view(events@) =~= spec_step(st0, rec@).events);
                        assert(actions_view(actions@) =~= spec_step(st0, rec@).actions);
                        assert(self@ == spec_step(st0, rec@).state);
                    }
                    (events, actions)
                },
            }
        }
    }

    /// End an empty poll cycle: downgrade every unpaired cookie to a
    /// single-sided `Move`, release or re-crawl the affected watches, and
    /// clear the cookie map — exactly as `spec_flush` describes it.
    pub fn flush_pending(&mut self) -> (out: (Vec<FileSystemEvent>, Vec<EngineAction>))
        requires
            old(self).wf(),
        ensures
            final(self).wf(),
            final(self)@.watches == spec_flush(old(self)@.watches,
                old(self)@.pending).watches,
            final(self)@.pending == Seq::<RecordModel>::empty(),
            events_view(out.0@) == spec_flush(old(self)@.watches, old(self)@.pending).events,
            actions_view(out.1@) == spec_flush(old(self)@.watches,
                old(self)@.pending).actions,
    {
        let ghost w0 = self@.watches;
        let ghost p0 = self@.pending;
        let mut events: Vec<FileSystemEvent> = Vec::new();
        let mut actions: Vec<EngineAction> = Vec::new();
        let n = self.pending.entries.len();
        let mut i: usize = 0;
        proof {
            assert(p0.skip(0) =~= p0);
            assert(events_view(events@) =~= Seq::<EventModel>::empty());
            assert(actions_view(actions@) =~= Seq::<ActionModel>::empty());
        }
        while i < n
            invariant
                n == self.pending.entries@.len(),
                0 <= i <= n,
                self.pending@ == p0,
                self.watches.wf(),
                spec_flush(w0, p0).watches == spec_flush(self@.watches,
                    p0.skip(i as int)).watches,
                spec_flush(w0, p0).events == events_view(events@) + spec_flush(self@.watches,
                    p0.skip(i as int)).events,
                spec_flush(w0, p0).actions == actions_view(actions@) + spec_flush(
                    self@.watches, p0.skip(i as int)).actions,
            decreases n - i,
        {
            proof {
                assert(p0.skip(i as int)[0] == p0[i as int]);
                assert(p0.skip(i as int).drop_first() =~= p0.skip(i as int + 1));
            }
            let wd = self.pending.entries[i].wd;
            let mask = self.pending.entries[i].mask;
            let base = self.watches.lookup(wd);
            let path = join_path(&base, &self.pending.entries[i].name);
            let kind = kind_for_mask(mask);
            let ghost w_cur = self@.watches;
            let ghost evs_pre = events_view(events@);
            let ghost acts_pre = actions_view(actions@);
            let ghost step_events = spec_flush(w_cur, p0.skip(i as int)).events;
            let ghost step_actions = spec_flush(w_cur, p0.skip(i as int)).actions;
            let watched = self.watches.contains_value(&path);
            if watched {
                let removed = self.watches.remove_subtree(&path);
                let m = removed.len();
                let ghost removed_acts = spec_removed_wds(w_cur, path@).map_values(
                    |w: i32| ActionModel::RemoveWatch(w));
                proof {
                    assert(acts_pre + removed_acts.take(0) =~= acts_pre);
                }
                let mut j: usize = 0;
                while j < m
                    invariant
                        m == removed@.len(),
                        0 <= j <= m,
                        removed@ == spec_removed_wds(w_cur, path@),
                        removed_acts == spec_removed_wds(w_cur, path@).map_values(
                            |w: i32| ActionModel::RemoveWatch(w)),
                        actions_view(actions@) == acts_pre + removed_acts.take(j as int),
                    decreases m - j,
                {
                    let ghost apre = actions@;
                    actions.push(EngineAction::RemoveWatch(removed[j]));
                    proof {
                        assert(removed_acts[j as int] == ActionModel::RemoveWatch(
                            removed@[j as int]));
                        assert(actions@ =~= apre.push(EngineAction::RemoveWatch(
                            removed@[j as int] as i32)));
                        assert(actions_view(actions@) =~= actions_view(apre).push(
                            removed_acts[j as int]));
                        assert(removed_acts.take(j as int + 1) =~= removed_acts.take(
                            j as int).push(removed_acts[j as int]));
                        assert(actions_view(actions@) =~= acts_pre + removed_acts.take(
                            j as int + 1));
                    }
                    j += 1;
                }
                proof {
                    assert(removed_acts.take(m as int) =~= removed_acts);
                }
            } else {
                actions.push(EngineAction::Rewatch(copy_bytes(&path)));
                proof {
                    assert(actions_view(actions@) =~= acts_pre + seq![ActionModel::Rewatch(
                        path@)]);
                }
            }
            events.push(FileSystemEvent {
                event_type: FileSystemEventType::Move,
                target: Some(FileSystemTarget { kind, path }),
            });
            proof {
                let r = p0[i as int];
                let spath = spec_join(lookup_wd(w_cur, r.wd), r.name);
                let ev = EventModel {
                    event_type: EventTypeModel::Move,
                    target: Some(TargetModel { kind: spec_kind(r.mask), path: spath }),
                };
                assert(events_view(events@) =~= evs_pre + seq![ev]);
                let rest = spec_flush(self@.watches, p0.skip(i as int + 1));
                assert(step_events == seq![ev] + rest.events);
                assert(evs_pre + step_events =~= events_view(events@) + rest.events);
                assert(acts_pre + step_actions =~= actions_view(actions@) + rest.actions);
            }
            i += 1;
        }
        proof {
            assert(p0.skip(n as int) =~= Seq::<RecordModel>::empty());
        }
        self.pending.clear();
        (events, actions)
    }
}

/// A cookie stashed into a map that did not hold it is found by the next
/// carrier of the same cookie, and taking it out restores the map.
proof fn lemma_cookie_stash_roundtrip(s: Seq<RecordModel>, a: RecordModel, c: u32)
    requires
        lookup_cookie(s, c) is None,
        a.cookie == c,
    ensures
        lookup_cookie(s.push(a), c) == Some(a),
        remove_cookie(s.push(a), c) == s,
    decreases s.len(),
{
    let t = s.push(a);
    if s.len() == 0 {
        assert(t[0] == a);
        assert(t.drop_first() =~= s);
    } else {
        assert(s[0].cookie != c);
        assert(t[0] == s[0]);
        assert(t.drop_first() =~= s.drop_first().push(a));
        lemma_cookie_stash_roundtrip(s.drop_first(), a, c);
        assert(remove_cookie(t, c) =~= s);
    }
}

/// The rename source of a completed pair: the path of whichever record
/// carries the `IN_MOVED_FROM` bit, resolved in the pre-rename watch map.
pub open spec fn spec_pair_source(st: InotifyModel, a: RecordModel, b: RecordModel)
    -> Seq<u8> {
    if mask_has(a.mask, IN_MOVED_FROM) {
        spec_join(lookup_wd(st.watches, a.wd), a.name)
    } else {
        spec_join(lookup_wd(st.watches, b.wd), b.name)
    }
}

/// The rename destination of a completed pair: the other record's path.
pub open spec fn spec_pair_dest(st: InotifyModel, a: RecordModel, b: RecordModel)
    -> Seq<u8> {
    if mask_has(a.mask, IN_MOVED_FROM) {
        spec_join(lookup_wd(st.watches, b.wd), b.name)
    } else {
        spec_join(lookup_wd(st.watches, a.wd), a.name)
    }
}

/// For every rename pair observed within one poll cycle — the two kernel
/// records that share a fresh cookie, one carrying `IN_MOVED_FROM` — the
/// subscriber sees exactly one `MovedTo(dest)` event targeted at the source
/// and one `MovedFrom(source)` event targeted at the destination, in either
/// arrival order; the first record alone publishes nothing, and the cookie
/// map returns to its prior state.
pub proof fn lemma_rename_pairing(st: InotifyModel, a: RecordModel, b: RecordModel)
    requires
        a.cookie != 0,
        b.cookie == a.cookie,
        lookup_cookie(st.pending, a.cookie) is None,
        mask_has(a.mask, IN_MOVED_FROM) != mask_has(b.mask, IN_MOVED_FROM),
    ensures
        spec_step(st, a).events.len() == 0,
        spec_step(st, a).actions.len() == 0,
        spec_step(spec_step(st, a).state, b).events == spec_pair_events(spec_kind(b.mask),
            spec_pair_source(st, a, b), spec_pair_dest(st, a, b)),
        spec_step(spec_step(st, a).state, b).state.pending == st.pending,
{
    let st1 = spec_step(st, a).state;
    lemma_cookie_stash_roundtrip(st.pending, a, a.cookie);
    assert(lookup_cookie(st1.pending, b.cookie) == Some(a));
}

/// For a rename record whose partner never arrives in its cycle, the next
/// empty poll publishes exactly one single-sided `Move` on the in-tree
/// endpoint — no `MovedFrom`, no duplicate.
pub proof fn lemma_cookie_downgrade(st: InotifyModel, a: RecordModel)
    requires
        a.cookie != 0,
        st.pending.len() == 0,
    ensures
        spec_step(st, a).events.len() == 0,
        ({
            let fl = spec_flush(spec_step(st, a).state.watches,
                spec_step(st, a).state.pending);
            &&& fl.events.len() == 1
            &&& fl.events[0].event_type is Move
            &&& fl.events[0].target matches Some(t)
                && t.path == spec_join(lookup_wd(st.watches, a.wd), a.name)
                && t.kind == spec_kind(a.mask)
        }),
{
    let st1 = spec_step(st, a).state;
    assert(st1.pending =~= seq![a]);
    assert(st1.pending[0] == a);
    assert(st1.pending.len() == 1);
    assert(st1.pending.drop_first() =~= Seq::<RecordModel>::empty());
    let path = spec_join(lookup_wd(st1.watches, a.wd), a.name);
    let ev = EventModel {
        event_type: EventTypeModel::Move,
        target: Some(TargetModel { kind: spec_kind(a.mask), path }),
    };
    let watched = contains_path(st1.watches, path);
    let watches1 = if watched {
        spec_remove_subtree(st1.watches, path)
    } else {
        st1.watches
    };
    let rest = spec_flush(watches1, st1.pending.drop_first());
    assert(rest.events =~= Seq::<EventModel>::empty());
    let fl = spec_flush(st1.watches, st1.pending);
    assert(fl.events == seq![ev] + rest.events);
    assert(fl.events =~= seq![ev]);
    assert(fl.events[0] == ev);
}

/// After a directory rename from `source` to `dest`, every watch that hung
/// under the source hangs under the destination: a descriptor registered at
/// `source + tail` resolves to `dest + tail`, so later events on it report
/// the new location.
pub proof fn lemma_subtree_rewrite(st: InotifyModel, a: RecordModel, b: RecordModel,
    wd: i32, tail: Seq<u8>)
    requires
        a.cookie != 0,
        b.cookie == a.cookie,
        lookup_cookie(st.pending, a.cookie) is None,
        mask_has(a.mask, IN_MOVED_FROM) != mask_has(b.mask, IN_MOVED_FROM),
        spec_kind(b.mask) is Directory,
        tail.len() == 0 || tail[0] == PATH_SEP,
        lookup_wd(st.watches, wd) == Some(spec_pair_source(st, a, b) + tail),
    ensures
        lookup_wd(spec_step(spec_step(st, a).state, b).state.watches, wd)
            == Some(spec_pair_dest(st, a, b) + tail),
{
    let source = spec_pair_source(st, a, b);
    let dest = spec_pair_dest(st, a, b);
    let st1 = spec_step(st, a).state;
    lemma_cookie_stash_roundtrip(st.pending, a, a.cookie);
    assert(lookup_cookie(st1.pending, b.cookie) == Some(a));
    let st2 = spec_step(st1, b).state;
    assert(st2.watches == spec_rewrite_entries(st.watches, source, dest));
    crate::watchmap::lemma_lookup_after_rewrite(st.watches, source, dest, wd);
    lemma_rewrite_extends(source, dest, tail);
}

/// The same, at the event level: after the directory rename, a subsequent
/// record on a descriptor that lived at `source + tail` emits its path under
/// `dest + tail` — events on the old subtree report the new location.
pub proof fn lemma_subtree_rewrite_event(st: InotifyModel, a: RecordModel, b: RecordModel,
    wd: i32, tail: Seq<u8>, r2: RecordModel)
    requires
        a.cookie != 0,
        b.cookie == a.cookie,
        lookup_cookie(st.pending, a.cookie) is None,
        mask_has(a.mask, IN_MOVED_FROM) != mask_has(b.mask, IN_MOVED_FROM),
        spec_kind(b.mask) is Directory,
        tail.len() == 0 || tail[0] == PATH_SEP,
        lookup_wd(st.watches, wd) == Some(spec_pair_source(st, a, b) + tail),
        r2.cookie == 0,
        !mask_has(r2.mask, IN_IGNORED),
        r2.wd == wd,
    ensures
        ({
            let st2 = spec_step(spec_step(st, a).state, b).state;
            let evs = spec_step(st2, r2).events;
            &&& evs.len() == 1
            &&& evs[0].target matches Some(t) && t.path == spec_join(Some(spec_pair_dest(
                st, a, b) + tail), r2.name)
        }),
{
    lemma_subtree_rewrite(st, a, b, wd, tail);
}

/// A join hangs under its base directory.
proof fn lemma_join_under_base(base: Seq<u8>, name: Option<Seq<u8>>)
    ensures
        is_path_prefix(base, spec_join(Some(base), name)),
{
    let p = spec_join(Some(base), name);
    assert(p.subrange(0, base.len() as int) =~= base);
    assert(p[base.len() as int] == PATH_SEP);
}

/// No phantom events: a non-rename record that arrives on a live watch emits
/// exactly one event, and its path lies under that watched directory — never
/// outside the watched subtrees.
pub proof fn lemma_no_phantom_plain(st: InotifyModel, r: RecordModel, base: Seq<u8>)
    requires
        r.cookie == 0,
        !mask_has(r.mask, IN_IGNORED),
        lookup_wd(st.watches, r.wd) == Some(base),
    ensures
        spec_step(st, r).events.len() == 1,
        spec_step(st, r).events[0].target matches Some(t) && is_path_prefix(base, t.path),
{
    lemma_join_under_base(base, r.name);
}

/// No phantom events for completed renames either: both emitted paths lie
/// under the watched directories the two records arrived on.
pub proof fn lemma_no_phantom_pair(st: InotifyModel, a: RecordModel, b: RecordModel,
    base_a: Seq<u8>, base_b: Seq<u8>)
    requires
        a.cookie != 0,
        b.cookie == a.cookie,
        lookup_cookie(st.pending, a.cookie) is None,
        mask_has(a.mask, IN_MOVED_FROM) != mask_has(b.mask, IN_MOVED_FROM),
        lookup_wd(st.watches, a.wd) == Some(base_a),
        lookup_wd(st.watches, b.wd) == Some(base_b),
    ensures
        ({
            let evs = spec_step(spec_step(st, a).state, b).events;
            &&& evs.len() == 2
            &&& evs[0].target matches Some(t) && (is_path_prefix(base_a, t.path)
                || is_path_prefix(base_b, t.path))
            &&& evs[1].target matches Some(t) && (is_path_prefix(base_a, t.path)
                || is_path_prefix(base_b, t.path))
        }),
{
    lemma_rename_pairing(st, a, b);
    lemma_join_under_base(base_a, a.name);
    lemma_join_under_base(base_b, b.name);
}

} // verus!
