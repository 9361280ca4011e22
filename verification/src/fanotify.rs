//! The fanotify engine core: parsing the kernel's variable-length event
//! records with their trailing info sub-records out of a raw read buffer,
//! and translating mask bits into events.
//!
//! Resolving a file handle back to a path needs `open_by_handle_at` and a
//! `/proc/self/fd` readlink; the host runtime does that and hands the result
//! to `build_fanotify_event`, which decides everything else.

use vstd::prelude::*;
use crate::events::{
    EventModel, EventTypeModel, FileSystemEvent, FileSystemEventType, FileSystemTarget,
    FileSystemTargetKind, TargetModel,
};
use crate::paths::{opt_bytes, opt_view};
use crate::PATH_SEP;

verus! {

// The fanotify mask bits, as the kernel ABI defines them.
pub const FAN_MODIFY: u64 = 0x2;
pub const FAN_MOVED_FROM: u64 = 0x40;
pub const FAN_MOVED_TO: u64 = 0x80;
pub const FAN_MOVE: u64 = 0xc0;
pub const FAN_CREATE: u64 = 0x100;
pub const FAN_DELETE: u64 = 0x200;
pub const FAN_DELETE_SELF: u64 = 0x400;
pub const FAN_MOVE_SELF: u64 = 0x800;
pub const FAN_Q_OVERFLOW: u64 = 0x4000;
pub const FAN_ONDIR: u64 = 0x40000000;

/// The mask every directory tree is marked with.
pub const FAN_WATCH_MASK: u64 = FAN_ONDIR | FAN_CREATE | FAN_MODIFY | FAN_DELETE
    | FAN_DELETE_SELF | FAN_MOVE | FAN_MOVE_SELF;

/// The metadata version this parser understands.
pub const FANOTIFY_METADATA_VERSION: u8 = 3;

/// The fd value the kernel reports when the event queue overflowed.
pub const FAN_NOFD: i32 = -1;

// The info-record type tags.
pub const FAN_EVENT_INFO_TYPE_FID: u8 = 1;
pub const FAN_EVENT_INFO_TYPE_DFID_NAME: u8 = 2;
pub const FAN_EVENT_INFO_TYPE_DFID: u8 = 3;
pub const FAN_EVENT_INFO_TYPE_PIDFD: u8 = 4;
pub const FAN_EVENT_INFO_TYPE_ERROR: u8 = 5;
pub const FAN_EVENT_INFO_TYPE_OLD_DFID_NAME: u8 = 10;
pub const FAN_EVENT_INFO_TYPE_NEW_DFID_NAME: u8 = 12;

/// Whether `mask` carries the bit `flag`.
pub open spec fn fan_mask_has(mask: u64, flag: u64) -> bool {
    mask & flag != 0
}

/// The target kind a fanotify mask announces: the on-dir bit decides.
pub open spec fn spec_fan_kind(mask: u64) -> FileSystemTargetKind {
    if fan_mask_has(mask, FAN_ONDIR) {
        FileSystemTargetKind::Directory
    } else {
        FileSystemTargetKind::File
    }
}

/// The event type a fanotify mask maps to, by the fixed priority
/// create > delete > modify > move; fanotify renames have no cookie pairing,
/// so both halves come out as the single-sided `Move`.
pub open spec fn spec_fan_event_type(mask: u64) -> EventTypeModel {
    if fan_mask_has(mask, FAN_CREATE) {
        EventTypeModel::Create
    } else if fan_mask_has(mask, FAN_DELETE_SELF) {
        EventTypeModel::Delete
    } else if fan_mask_has(mask, FAN_DELETE) {
        EventTypeModel::Delete
    } else if fan_mask_has(mask, FAN_MODIFY) {
        EventTypeModel::Modify
    } else if fan_mask_has(mask, FAN_MOVE_SELF) {
        EventTypeModel::Move
    } else if fan_mask_has(mask, FAN_MOVE) {
        EventTypeModel::Move
    } else {
        EventTypeModel::Unknown
    }
}

/// The target kind of a fanotify record: directory exactly when the kernel's
/// on-dir bit is set.
pub fn fan_kind_for_mask(mask: u64) -> (r: FileSystemTargetKind)
    ensures
        r == spec_fan_kind(mask),
        r is Directory <==> fan_mask_has(mask, FAN_ONDIR),
{
    if mask & FAN_ONDIR != 0 {
        FileSystemTargetKind::Directory
    } else {
        FileSystemTargetKind::File
    }
}

/// Translate a fanotify mask into an event type.
pub fn fan_event_type_for_mask(mask: u64) -> (r: FileSystemEventType)
    ensures
        r@ == spec_fan_event_type(mask),
{
    if mask & FAN_CREATE != 0 {
        FileSystemEventType::Create
    } else if mask & FAN_DELETE_SELF != 0 {
        FileSystemEventType::Delete
    } else if mask & FAN_DELETE != 0 {
        FileSystemEventType::Delete
    } else if mask & FAN_MODIFY != 0 {
        FileSystemEventType::Modify
    } else if mask & FAN_MOVE_SELF != 0 {
        FileSystemEventType::Move
    } else if mask & FAN_MOVE != 0 {
        FileSystemEventType::Move
    } else {
        FileSystemEventType::Unknown
    }
}

// ---- little-endian readers ----

/// The 16-bit little-endian value at `off`.
pub open spec fn spec_le_u16(b: Seq<u8>, off: int) -> int {
    b[off] + 0x100 * b[off + 1]
}

/// The 32-bit little-endian value at `off`.
pub open spec fn spec_le_u32(b: Seq<u8>, off: int) -> int {
    b[off] + 0x100 * b[off + 1] + 0x10000 * b[off + 2] + 0x1000000 * b[off + 3]
}

/// The 64-bit little-endian value at `off`.
pub open spec fn spec_le_u64(b: Seq<u8>, off: int) -> int {
    spec_le_u32(b, off) + 0x100000000 * spec_le_u32(b, off + 4)
}

/// The 32-bit value `u` reinterpreted as a two's-complement signed value.
pub open spec fn spec_as_i32(u: int) -> int {
    if u < 0x80000000 {
        u
    } else {
        u - 0x100000000
    }
}

/// Read the 16-bit little-endian value at `off`.
pub fn read_le_u16(b: &Vec<u8>, off: usize) -> (r: u16)
    requires
        off + 2 <= b@.len(),
    ensures
        r as int == spec_le_u16(b@, off as int),
{
    let blen = b.len();
    proof {
        assert(off + 1 < blen);
    }
    (b[off] as u16) + 0x100 * (b[off + 1] as u16)
}

/// Read the 32-bit little-endian value at `off`.
pub fn read_le_u32(b: &Vec<u8>, off: usize) -> (r: u32)
    requires
        off + 4 <= b@.len(),
    ensures
        r as int == spec_le_u32(b@, off as int),
{
    let blen = b.len();
    proof {
        assert(off + 3 < blen);
    }
    (b[off] as u32) + 0x100 * (b[off + 1] as u32) + 0x10000 * (b[off + 2] as u32)
        + 0x1000000 * (b[off + 3] as u32)
}

/// Read the 64-bit little-endian value at `off`.
pub fn read_le_u64(b: &Vec<u8>, off: usize) -> (r: u64)
    requires
        off + 8 <= b@.len(),
    ensures
        r as int == spec_le_u64(b@, off as int),
{
    let blen = b.len();
    proof {
        assert(off + 7 < blen);
    }
    let lo = read_le_u32(b, off);
    let hi = read_le_u32(b, off + 4);
    (lo as u64) + 0x100000000 * (hi as u64)
}

/// Reinterpret a raw 32-bit value as the signed field it encodes.
pub fn as_i32(u: u32) -> (r: i32)
    ensures
        r as int == spec_as_i32(u as int),
{
    if u < 0x80000000 {
        u as i32
    } else {
        let m = u - 0x80000000;
        let neg: i64 = (m as i64) - 0x80000000i64;
        neg as i32
    }
}

// ---- the record structures ----

/// The fixed header of one fanotify event record.
#[derive(Clone, Copy, Debug, PartialEq, Eq, Structural)]
pub struct FanotifyEventMetaData {
    pub event_len: u32,
    pub vers: u8,
    pub reserved: u8,
    pub metadata_len: u16,
    pub mask: u64,
    pub fd: i32,
    pub pid: i32,
}

impl FanotifyEventMetaData {
    /// The version number the kernel stamped on the record.
    pub fn version(&self) -> (r: u8)
        ensures
            r == self.vers,
    {
        self.vers
    }

    /// Whether the record's version matches the version this parser was
    /// written against.
    pub fn check_version(&self) -> (r: bool)
        ensures
            r == (self.vers == FANOTIFY_METADATA_VERSION),
    {
        self.vers == FANOTIFY_METADATA_VERSION
    }

    /// The event's file descriptor; `None` reports a queue overflow.
    pub fn fd_opt(&self) -> (r: Option<i32>)
        ensures
            self.fd == FAN_NOFD ==> r is None,
            self.fd != FAN_NOFD ==> r == Some(self.fd),
    {
        if self.fd == FAN_NOFD {
            None
        } else {
            Some(self.fd)
        }
    }

    /// The id of the process that caused the event.
    pub fn pid(&self) -> (r: i32)
        ensures
            r == self.pid,
    {
        self.pid
    }
}

/// The byte size of the fixed metadata header.
pub const FAN_EVENT_METADATA_LEN: usize = 24;

/// A kernel file handle carried by an info record: what
/// `open_by_handle_at` takes to reopen the object.
#[derive(Debug)]
pub struct FileHandle {
    pub handle_bytes: u32,
    pub handle_type: i32,
    pub f_handle: Vec<u8>,
}

/// Spec-level picture of a file handle.
pub struct FileHandleModel {
    pub handle_bytes: u32,
    pub handle_type: i32,
    pub f_handle: Seq<u8>,
}

impl View for FileHandle {
    type V = FileHandleModel;

    open spec fn view(&self) -> FileHandleModel {
        FileHandleModel {
            handle_bytes: self.handle_bytes,
            handle_type: self.handle_type,
            f_handle: self.f_handle@,
        }
    }
}

/// One info sub-record trailing a fanotify event.
#[derive(Debug)]
pub enum FanotifyInfoRecord {
    /// A file-id record, optionally with the entry name that follows the
    /// handle (the dir-fid + name form).
    Fid { info_type: u8, fsid: u64, handle: FileHandle, name: Option<Vec<u8>> },
    /// A filesystem-error record.
    Error { error: i32, error_count: u32 },
    /// A process-fd record.
    Pidfd { pidfd: i32 },
    /// Anything unrecognised or malformed, kept as its raw bytes.
    Unimplemented(Vec<u8>),
}

/// Spec-level picture of one info sub-record.
pub enum InfoModel {
    Fid { info_type: u8, fsid: u64, handle: FileHandleModel, name: Option<Seq<u8>> },
    Error { error: i32, error_count: u32 },
    Pidfd { pidfd: i32 },
    Unimplemented(Seq<u8>),
}

impl View for FanotifyInfoRecord {
    type V = InfoModel;

    open spec fn view(&self) -> InfoModel {
        match self {
            FanotifyInfoRecord::Fid { info_type, fsid, handle, name } => InfoModel::Fid {
                info_type: *info_type,
                fsid: *fsid,
                handle: handle@,
                name: opt_view(*name),
            },
            FanotifyInfoRecord::Error { error, error_count } => InfoModel::Error {
                error: *error,
                error_count: *error_count,
            },
            FanotifyInfoRecord::Pidfd { pidfd } => InfoModel::Pidfd { pidfd: *pidfd },
            FanotifyInfoRecord::Unimplemented(raw) => InfoModel::Unimplemented(raw@),
        }
    }
}

// ---- the grammar ----

/// The metadata header at `off`.
pub open spec fn spec_parse_meta(b: Seq<u8>, off: int) -> FanotifyEventMetaData {
    FanotifyEventMetaData {
        event_len: spec_le_u32(b, off) as u32,
        vers: b[off + 4],
        reserved: b[off + 5],
        metadata_len: spec_le_u16(b, off + 6) as u16,
        mask: spec_le_u64(b, off + 8) as u64,
        fd: spec_as_i32(spec_le_u32(b, off + 16)) as i32,
        pid: spec_as_i32(spec_le_u32(b, off + 20)) as i32,
    }
}

/// The bytes from `off` up to the first terminating zero, or to `end`.
pub open spec fn spec_cstr(b: Seq<u8>, off: int, end: int) -> Seq<u8>
    decreases end - off,
{
    if off < end && b[off] != 0 {
        seq![b[off]] + spec_cstr(b, off + 1, end)
    } else {
        Seq::empty()
    }
}

/// Whether an info-type tag names a file-id record.
pub open spec fn spec_is_fid_type(t: u8) -> bool {
    t == FAN_EVENT_INFO_TYPE_FID || t == FAN_EVENT_INFO_TYPE_DFID_NAME
        || t == FAN_EVENT_INFO_TYPE_DFID || t == FAN_EVENT_INFO_TYPE_OLD_DFID_NAME
        || t == FAN_EVENT_INFO_TYPE_NEW_DFID_NAME
}

/// One info record of `ilen` bytes at `off`, already known to fit.
pub open spec fn spec_parse_info(b: Seq<u8>, off: int, ilen: int) -> InfoModel {
    let itype = b[off];
    if spec_is_fid_type(itype) && ilen >= 20 && 20 + spec_le_u32(b, off + 12) <= ilen {
        let hb = spec_le_u32(b, off + 12);
        let nm = spec_cstr(b, off + 20 + hb, off + ilen);
        InfoModel::Fid {
            info_type: itype,
            fsid: spec_le_u64(b, off + 4) as u64,
            handle: FileHandleModel {
                handle_bytes: hb as u32,
                handle_type: spec_as_i32(spec_le_u32(b, off + 16)) as i32,
                f_handle: b.subrange(off + 20, off + 20 + hb),
            },
            name: if nm.len() > 0 {
                Some(nm)
            } else {
                None
            },
        }
    } else if itype == FAN_EVENT_INFO_TYPE_ERROR && ilen >= 12 {
        InfoModel::Error {
            error: spec_as_i32(spec_le_u32(b, off + 4)) as i32,
            error_count: spec_le_u32(b, off + 8) as u32,
        }
    } else if itype == FAN_EVENT_INFO_TYPE_PIDFD && ilen >= 8 {
        InfoModel::Pidfd { pidfd: spec_as_i32(spec_le_u32(b, off + 4)) as i32 }
    } else {
        InfoModel::Unimplemented(b.subrange(off, off + ilen))
    }
}

/// The info records between `off` and `end`: headers are walked by their
/// length field; a malformed length ends the walk with the rest kept raw.
pub open spec fn spec_parse_infos(b: Seq<u8>, off: int, end: int) -> Seq<InfoModel>
    decreases end - off,
{
    if off + 4 <= end {
        let ilen = spec_le_u16(b, off + 2);
        if 4 <= ilen && off + ilen <= end {
            seq![spec_parse_info(b, off, ilen)] + spec_parse_infos(b, off + ilen, end)
        } else {
            seq![InfoModel::Unimplemented(b.subrange(off, end))]
        }
    } else if off < end {
        seq![InfoModel::Unimplemented(b.subrange(off, end))]
    } else {
        Seq::empty()
    }
}

/// Every event record in the buffer from `off` on: each fixed header is
/// followed by its info records up to `event_len`; a header that does not
/// fit, or an `event_len` that is short or runs past the buffer, ends the
/// parse.
pub open spec fn spec_parse_events(b: Seq<u8>, off: int)
    -> Seq<(FanotifyEventMetaData, Seq<InfoModel>)>
    decreases b.len() - off,
{
    if 0 <= off && off + FAN_EVENT_METADATA_LEN <= b.len() {
        let meta = spec_parse_meta(b, off);
        if meta.event_len >= FAN_EVENT_METADATA_LEN && off + meta.event_len <= b.len() {
            let infos = spec_parse_infos(b, off + FAN_EVENT_METADATA_LEN,
                off + meta.event_len);
            seq![(meta, infos)] + spec_parse_events(b, off + meta.event_len)
        } else {
            Seq::empty()
        }
    } else {
        Seq::empty()
    }
}

// ---- the parser ----

/// Read the fixed metadata header at `off`.
pub fn parse_meta(b: &Vec<u8>, off: usize) -> (r: FanotifyEventMetaData)
    requires
        off + FAN_EVENT_METADATA_LEN <= b@.len(),
    ensures
        r == spec_parse_meta(b@, off as int),
{
    let blen = b.len();
    proof {
        assert(off + 23 < blen);
    }
    FanotifyEventMetaData {
        event_len: read_le_u32(b, off),
        vers: b[off + 4],
        reserved: b[off + 5],
        metadata_len: read_le_u16(b, off + 6),
        mask: read_le_u64(b, off + 8),
        fd: as_i32(read_le_u32(b, off + 16)),
        pid: as_i32(read_le_u32(b, off + 20)),
    }
}

/// Copy the zero-terminated bytes at `off`, stopping at `end`.
fn read_cstr(b: &Vec<u8>, off: usize, end: usize) -> (r: Vec<u8>)
    requires
        off <= end <= b@.len(),
    ensures
        r@ == spec_cstr(b@, off as int, end as int),
{
    let mut r: Vec<u8> = Vec::new();
    let mut i: usize = off;
    while i < end && b[i] != 0
        invariant
            off <= i <= end <= b@.len(),
            spec_cstr(b@, off as int, end as int) == r@ + spec_cstr(b@, i as int, end as int),
        decreases end - i,
    {
        let ghost pre = r@;
        r.push(b[i]);
        proof {
            assert(r@ =~= pre + seq![b@[i as int]]);
            assert(pre + (seq![b@[i as int]] + spec_cstr(b@, i as int + 1, end as int))
                =~= r@ + spec_cstr(b@, i as int + 1, end as int));
        }
        i += 1;
    }
    r
}

/// Copy the byte range `off .. end`.
fn read_range(b: &Vec<u8>, off: usize, end: usize) -> (r: Vec<u8>)
    requires
        off <= end <= b@.len(),
    ensures
        r@ == b@.subrange(off as int, end as int),
{
    let mut r: Vec<u8> = Vec::new();
    let mut i: usize = off;
    while i < end
        invariant
            off <= i <= end <= b@.len(),
            r@ == b@.subrange(off as int, i as int),
        decreases end - i,
    {
        r.push(b[i]);
        proof {
            assert(r@ =~= b@.subrange(off as int, i as int + 1));
        }
        i += 1;
    }
    r
}

/// Parse one info record of `ilen` bytes at `off`.
fn parse_info(b: &Vec<u8>, off: usize, ilen: usize) -> (r: FanotifyInfoRecord)
    requires
        4 <= ilen,
        off + ilen <= b@.len(),
    ensures
        r@ == spec_parse_info(b@, off as int, ilen as int),
{
    let blen = b.len();
    proof {
        assert(off + ilen <= blen);
    }
    let itype = b[off];
    let is_fid = itype == FAN_EVENT_INFO_TYPE_FID || itype == FAN_EVENT_INFO_TYPE_DFID_NAME
        || itype == FAN_EVENT_INFO_TYPE_DFID || itype == FAN_EVENT_INFO_TYPE_OLD_DFID_NAME
        || itype == FAN_EVENT_INFO_TYPE_NEW_DFID_NAME;
    if is_fid && ilen >= 20 {
        let hb = read_le_u32(b, off + 12);
        if (hb as usize) <= ilen - 20 {
            let hb_us = hb as usize;
            let fsid = read_le_u64(b, off + 4);
            let handle_type = as_i32(read_le_u32(b, off + 16));
            let f_handle = read_range(b, off + 20, off + 20 + hb_us);
            let nm = read_cstr(b, off + 20 + hb_us, off + ilen);
            let name = if nm.len() > 0 {
                Some(nm)
            } else {
                None
            };
            FanotifyInfoRecord::Fid {
                info_type: itype,
                fsid,
                handle: FileHandle { handle_bytes: hb, handle_type, f_handle },
                name,
            }
        } else {
            FanotifyInfoRecord::Unimplemented(read_range(b, off, off + ilen))
        }
    } else if itype == FAN_EVENT_INFO_TYPE_ERROR && ilen >= 12 {
        FanotifyInfoRecord::Error {
            error: as_i32(read_le_u32(b, off + 4)),
            error_count: read_le_u32(b, off + 8),
        }
    } else if itype == FAN_EVENT_INFO_TYPE_PIDFD && ilen >= 8 {
        FanotifyInfoRecord::Pidfd { pidfd: as_i32(read_le_u32(b, off + 4)) }
    } else {
        FanotifyInfoRecord::Unimplemented(read_range(b, off, off + ilen))
    }
}

/// The views of a vector of info records.
pub open spec fn infos_view(v: Seq<FanotifyInfoRecord>) -> Seq<InfoModel> {
    v.map_values(|r: FanotifyInfoRecord| r@)
}

/// Parse the info records between `off` and `end`.
fn parse_infos(b: &Vec<u8>, off: usize, end: usize) -> (r: Vec<FanotifyInfoRecord>)
    requires
        off <= end <= b@.len(),
    ensures
        infos_view(r@) == spec_parse_infos(b@, off as int, end as int),
{
    let blen = b.len();
    let mut r: Vec<FanotifyInfoRecord> = Vec::new();
    let mut i: usize = off;
    proof {
        assert(infos_view(r@) =~= Seq::<InfoModel>::empty());
    }
    while end - i >= 4
        invariant
            off <= i,
            i <= end <= b@.len(),
            b@.len() <= usize::MAX,
            spec_parse_infos(b@, off as int, end as int) == infos_view(r@)
                + spec_parse_infos(b@, i as int, end as int),
        decreases end - i,
    {
        let ilen = read_le_u16(b, i + 2);
        if 4 <= ilen && (ilen as usize) <= end - i {
            let ghost pre = infos_view(r@);
            let rec = parse_info(b, i, ilen as usize);
            r.push(rec);
            proof {
                assert(infos_view(r@) =~= pre + seq![spec_parse_info(b@, i as int,
                    ilen as int)]);
                assert(pre + (seq![spec_parse_info(b@, i as int, ilen as int)]
                    + spec_parse_infos(b@, i as int + ilen as int, end as int))
                    =~= infos_view(r@) + spec_parse_infos(b@, i as int + ilen as int,
                    end as int));
            }
            i += ilen as usize;
        } else {
            let ghost pre = infos_view(r@);
            let rec = FanotifyInfoRecord::Unimplemented(read_range(b, i, end));
            r.push(rec);
            proof {
                assert(infos_view(r@) =~= pre + seq![InfoModel::Unimplemented(b@.subrange(
                    i as int, end as int))]);
                assert(spec_parse_infos(b@, i as int, end as int)
                    == seq![InfoModel::Unimplemented(b@.subrange(i as int, end as int))]);
                assert(pre + spec_parse_infos(b@, i as int, end as int) =~= infos_view(r@));
            }
            i = end;
            proof {
                assert(spec_parse_infos(b@, i as int, end as int) =~= Seq::<
                    InfoModel>::empty());
                assert(infos_view(r@) + spec_parse_infos(b@, i as int, end as int)
                    =~= infos_view(r@));
            }
        }
    }
    if i < end {
        let ghost pre = infos_view(r@);
        let rec = FanotifyInfoRecord::Unimplemented(read_range(b, i, end));
        r.push(rec);
        proof {
            assert(infos_view(r@) =~= pre + seq![InfoModel::Unimplemented(b@.subrange(
                i as int, end as int))]);
            assert(spec_parse_infos(b@, i as int, end as int) == seq![
                InfoModel::Unimplemented(b@.subrange(i as int, end as int))]);
            assert(pre + spec_parse_infos(b@, i as int, end as int) =~= infos_view(r@));
        }
    } else {
        proof {
            assert(spec_parse_infos(b@, i as int, end as int) =~= Seq::<InfoModel>::empty());
            assert(infos_view(r@) + Seq::<InfoModel>::empty() =~= infos_view(r@));
        }
    }
    r
}

/// One parsed event: its fixed header and its info records.
#[derive(Debug)]
pub struct FanotifyEventWithInfoRecords {
    pub meta: FanotifyEventMetaData,
    pub infos: Vec<FanotifyInfoRecord>,
}

/// Spec-level picture of one parsed event.
pub open spec fn event_view(e: FanotifyEventWithInfoRecords) -> (FanotifyEventMetaData,
    Seq<InfoModel>) {
    (e.meta, infos_view(e.infos@))
}

impl FanotifyEventWithInfoRecords {
    /// The version number the kernel stamped on the record.
    pub fn version(&self) -> (r: u8)
        ensures
            r == self.meta.vers,
    {
        self.meta.vers
    }

    /// Whether the record's version matches the version this parser was
    /// written against.
    pub fn check_version(&self) -> (r: bool)
        ensures
            r == (self.meta.vers == FANOTIFY_METADATA_VERSION),
    {
        self.meta.check_version()
    }

    /// The mask bits of this event.
    pub fn mask(&self) -> (r: u64)
        ensures
            r == self.meta.mask,
    {
        self.meta.mask
    }

    /// The event's file descriptor; `None` reports a queue overflow.
    pub fn fd_opt(&self) -> (r: Option<i32>)
        ensures
            self.meta.fd == FAN_NOFD ==> r is None,
            self.meta.fd != FAN_NOFD ==> r == Some(self.meta.fd),
    {
        self.meta.fd_opt()
    }

    /// The id of the process that caused the event.
    pub fn pid(&self) -> (r: i32)
        ensures
            r == self.meta.pid,
    {
        self.meta.pid
    }

    /// The info sub-records that trailed the fixed header.
    pub fn get_events(&self) -> (r: &Vec<FanotifyInfoRecord>)
        ensures
            r@ == self.infos@,
    {
        &self.infos
    }
}

/// The views of a vector of parsed events.
pub open spec fn events_records_view(v: Seq<FanotifyEventWithInfoRecords>)
    -> Seq<(FanotifyEventMetaData, Seq<InfoModel>)> {
    v.map_values(|e: FanotifyEventWithInfoRecords| event_view(e))
}

/// Parse every event record out of one raw kernel read, exactly as
/// `spec_parse_events` describes the buffer's grammar.
pub fn parse_events(b: &Vec<u8>) -> (r: Vec<FanotifyEventWithInfoRecords>)
    ensures
        events_records_view(r@) == spec_parse_events(b@, 0),
{
    let mut r: Vec<FanotifyEventWithInfoRecords> = Vec::new();
    let mut off: usize = 0;
    let n = b.len();
    proof {
        assert(events_records_view(r@) =~= Seq::<(FanotifyEventMetaData, Seq<
            InfoModel>)>::empty());
    }
    while n - off >= FAN_EVENT_METADATA_LEN
        invariant
            n == b@.len(),
            0 <= off <= n,
            spec_parse_events(b@, 0) == events_records_view(r@) + spec_parse_events(b@,
                off as int),
        decreases n - off,
    {
        let meta = parse_meta(b, off);
        let elen = meta.event_len as usize;
        if elen >= FAN_EVENT_METADATA_LEN && elen <= n - off {
            let infos = parse_infos(b, off + FAN_EVENT_METADATA_LEN, off + elen);
            let ghost pre = events_records_view(r@);
            let ghost one = (spec_parse_meta(b@, off as int), spec_parse_infos(b@,
                off as int + FAN_EVENT_METADATA_LEN as int, off as int + elen as int));
            r.push(FanotifyEventWithInfoRecords { meta, infos });
            proof {
                assert(events_records_view(r@) =~= pre + seq![one]);
                assert(pre + (seq![one] + spec_parse_events(b@, off as int + elen as int))
                    =~= events_records_view(r@) + spec_parse_events(b@,
                    off as int + elen as int));
            }
            off += elen;
        } else {
            proof {
                assert(spec_parse_events(b@, off as int) =~= Seq::<(FanotifyEventMetaData,
                    Seq<InfoModel>)>::empty());
                assert(events_records_view(r@) + spec_parse_events(b@, off as int)
                    =~= events_records_view(r@));
            }
            return r;
        }
    }
    proof {
        assert(spec_parse_events(b@, off as int) =~= Seq::<(FanotifyEventMetaData, Seq<
            InfoModel>)>::empty());
        assert(events_records_view(r@) + spec_parse_events(b@, off as int)
            =~= events_records_view(r@));
    }
    r
}

// ---- event assembly ----

/// The path a fanotify event reports: the resolved directory, then the
/// entry name when one was carried and is not the `"."` self-reference.
pub open spec fn spec_fan_path(dir: Option<Seq<u8>>, name: Option<Seq<u8>>) -> Seq<u8> {
    let base = opt_bytes(dir);
    match name {
        Some(n) => if n == seq![46u8] {
            base
        } else {
            base + seq![PATH_SEP] + n
        },
        None => base,
    }
}

/// The event a fanotify record turns into, given the path the host resolved
/// from its file handle (`None` when resolution failed — the inode may
/// already be gone) and the name its info record carried.
pub open spec fn spec_fanotify_event(mask: u64, dir: Option<Seq<u8>>, name: Option<Seq<u8>>)
    -> EventModel {
    let path = spec_fan_path(dir, name);
    EventModel {
        event_type: spec_fan_event_type(mask),
        target: if path.len() > 0 {
            Some(TargetModel { kind: spec_fan_kind(mask), path })
        } else {
            None
        },
    }
}

/// Assemble the event for one fanotify record.  A path that comes out empty
/// — nothing resolved and no usable name — leaves the target unresolved.
pub fn build_fanotify_event(mask: u64, resolved_dir: Option<Vec<u8>>, name: Option<Vec<u8>>)
    -> (ev: FileSystemEvent)
    ensures
        ev@ == spec_fanotify_event(mask, opt_view(resolved_dir), opt_view(name)),
{
    let mut path: Vec<u8> = match resolved_dir {
        Some(d) => d,
        None => Vec::new(),
    };
    match name {
        Some(n) => {
            if n.len() == 1 && n[0] == 46u8 {
                proof {
                    assert(n@ =~= seq![46u8]);
                }
            } else {
                proof {
                    assert(n@ != seq![46u8]) by {
                        if n@.len() == 1 {
                            assert(n@[0] != 46u8);
                        }
                    }
                }
                let ghost base = path@;
                path.push(PATH_SEP);
                let m = n.len();
                let mut i: usize = 0;
                while i < m
                    invariant
                        m == n@.len(),
                        0 <= i <= m,
                        path@ == base + seq![PATH_SEP] + n@.subrange(0, i as int),
                    decreases m - i,
                {
                    path.push(n[i]);
                    proof {
                        assert(path@ =~= base + seq![PATH_SEP] + n@.subrange(0, i as int
                            + 1));
                    }
                    i += 1;
                }
                proof {
                    assert(n@.subrange(0, m as int) =~= n@);
                }
            }
        },
        None => {},
    }
    let et = fan_event_type_for_mask(mask);
    let kind = fan_kind_for_mask(mask);
    if path.len() > 0 {
        FileSystemEvent {
            event_type: et,
            target: Some(FileSystemTarget { kind, path }),
        }
    } else {
        FileSystemEvent { event_type: et, target: None }
    }
}

} // verus!
