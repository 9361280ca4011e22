//! Kanshi: a filesystem-watcher core.
//!
//! The library models the platform engines (inotify, fanotify, FSEvents) as
//! state machines over plain values: raw kernel records come in, translated
//! events and follow-up actions come out.  A host runtime performs the kernel
//! calls and drives these machines; everything the machines decide is verified.

use vstd::prelude::*;

pub mod broadcast;
pub mod codec;
pub mod crawl;
pub mod engines;
pub mod errors;
pub mod events;
pub mod fanotify;
pub mod fsevents;
pub mod inotify;
pub mod lifecycle;
pub mod paths;
pub mod strutil;
pub mod watchmap;

verus! {

/// The byte that separates path components.
pub const PATH_SEP: u8 = 47;

} // verus!
