//! The decisions inside the recursive watch crawl: which directory entries
//! to mark and which to descend into, tracking visited inodes so hardlink
//! and symlink cycles terminate.
//!
//! The host runtime lists directories and performs the kernel marking; it
//! hands each directory's entries to `crawl_step` and follows the returned
//! plan.

use vstd::prelude::*;
use crate::events::copy_bytes;

verus! {

/// What the runtime reports about one directory entry.
#[derive(Debug)]
pub struct DirEntryInfo {
    pub inode: u64,
    pub is_symlink: bool,
    pub is_dir: bool,
    pub path: Vec<u8>,
}

/// Spec-level picture of one directory entry.
pub struct EntryModel {
    pub inode: u64,
    pub is_symlink: bool,
    pub is_dir: bool,
    pub path: Seq<u8>,
}

impl View for DirEntryInfo {
    type V = EntryModel;

    open spec fn view(&self) -> EntryModel {
        EntryModel {
            inode: self.inode,
            is_symlink: self.is_symlink,
            is_dir: self.is_dir,
            path: self.path@,
        }
    }
}

/// What one crawl step decides: the grown visited set, the paths to mark,
/// and the directories to descend into.
pub struct CrawlOutcome {
    pub visited: Seq<u64>,
    pub marks: Seq<Seq<u8>>,
    pub descend: Seq<Seq<u8>>,
}

/// The crawl decision over one directory's entries, in listing order: an
/// entry whose inode was already seen, or which is a symlink, is skipped;
/// any other entry is recorded as visited, marked (every entry when
/// `mark_files` is set — the fanotify crawl — and only directories
/// otherwise — the inotify crawl), and queued for descent when it is a
/// directory.
pub open spec fn spec_crawl(vis: Seq<u64>, es: Seq<EntryModel>, mark_files: bool)
    -> CrawlOutcome
    decreases es.len(),
{
    if es.len() == 0 {
        CrawlOutcome { visited: vis, marks: Seq::empty(), descend: Seq::empty() }
    } else {
        let e = es[0];
        if !vis.contains(e.inode) && !e.is_symlink {
            let marks0: Seq<Seq<u8>> = if mark_files || e.is_dir {
                seq![e.path]
            } else {
                Seq::empty()
            };
            let descend0: Seq<Seq<u8>> = if e.is_dir {
                seq![e.path]
            } else {
                Seq::empty()
            };
            let rest = spec_crawl(vis.push(e.inode), es.drop_first(), mark_files);
            CrawlOutcome {
                visited: rest.visited,
                marks: marks0 + rest.marks,
                descend: descend0 + rest.descend,
            }
        } else {
            spec_crawl(vis, es.drop_first(), mark_files)
        }
    }
}

/// Whether the inode set holds `x`.
fn contains_inode(vis: &Vec<u64>, x: u64) -> (r: bool)
    ensures
        r == vis@.contains(x),
{
    let n = vis.len();
    let mut i: usize = 0;
    while i < n
        invariant
            n == vis@.len(),
            0 <= i <= n,
            forall|j: int| 0 <= j < i ==> vis@[j] != x,
        decreases n - i,
    {
        if vis[i] == x {
            return true;
        }
        i += 1;
    }
    false
}

/// The views of a vector of paths.
pub open spec fn byte_paths_view(v: Seq<Vec<u8>>) -> Seq<Seq<u8>> {
    v.map_values(|p: Vec<u8>| p@)
}

/// The views of a vector of entries.
pub open spec fn entries_view(v: Seq<DirEntryInfo>) -> Seq<EntryModel> {
    v.map_values(|e: DirEntryInfo| e@)
}

/// Decide one directory's worth of the crawl, exactly as `spec_crawl`
/// describes it: grow the visited-inode set, and return the paths to mark
/// and the directories to descend into, in listing order.
pub fn crawl_step(visited: &mut Vec<u64>, entries: &Vec<DirEntryInfo>, mark_files: bool)
    -> (out: (Vec<Vec<u8>>, Vec<Vec<u8>>))
    ensures
        final(visited)@ == spec_crawl(old(visited)@, entries_view(entries@),
            mark_files).visited,
        byte_paths_view(out.0@) == spec_crawl(old(visited)@, entries_view(entries@),
            mark_files).marks,
        byte_paths_view(out.1@) == spec_crawl(old(visited)@, entries_view(entries@),
            mark_files).descend,
{
    let ghost es = entries_view(entries@);
    let ghost vis0 = visited@;
    let mut marks: Vec<Vec<u8>> = Vec::new();
    let mut descend: Vec<Vec<u8>> = Vec::new();
    let n = entries.len();
    let mut i: usize = 0;
    proof {
        assert(es.skip(0) =~= es);
        assert(byte_paths_view(marks@) =~= Seq::<Seq<u8>>::empty());
        assert(byte_paths_view(descend@) =~= Seq::<Seq<u8>>::empty());
    }
    while i < n
        invariant
            n == entries@.len(),
            0 <= i <= n,
            es == entries_view(entries@),
            spec_crawl(vis0, es, mark_files).visited == spec_crawl(visited@,
                es.skip(i as int), mark_files).visited,
            spec_crawl(vis0, es, mark_files).marks == byte_paths_view(marks@) + spec_crawl(
                visited@, es.skip(i as int), mark_files).marks,
            spec_crawl(vis0, es, mark_files).descend == byte_paths_view(descend@)
                + spec_crawl(visited@, es.skip(i as int), mark_files).descend,
        decreases n - i,
    {
        proof {
            assert(es.skip(i as int)[0] == es[i as int]);
            assert(es[i as int] == entries@[i as int]@);
            assert(es.skip(i as int).drop_first() =~= es.skip(i as int + 1));
        }
        let e = &entries[i];
        let seen = contains_inode(visited, e.inode);
        if !seen && !e.is_symlink {
            let ghost vpre = visited@;
            visited.push(e.inode);
            let ghost mpre = byte_paths_view(marks@);
            let ghost dpre = byte_paths_view(descend@);
            if mark_files || e.is_dir {
                marks.push(copy_bytes(&e.path));
                proof {
                    assert(byte_paths_view(marks@) =~= mpre + seq![es[i as int].path]);
                }
            }
            if e.is_dir {
                descend.push(copy_bytes(&e.path));
                proof {
                    assert(byte_paths_view(descend@) =~= dpre + seq![es[i as int].path]);
                }
            }
            proof {
                let rest = spec_crawl(visited@, es.skip(i as int + 1), mark_files);
                let marks0: Seq<Seq<u8>> = if mark_files || es[i as int].is_dir {
                    seq![es[i as int].path]
                } else {
                    Seq::empty()
                };
                let descend0: Seq<Seq<u8>> = if es[i as int].is_dir {
                    seq![es[i as int].path]
                } else {
                    Seq::empty()
                };
                assert(spec_crawl(vpre, es.skip(i as int), mark_files).marks == marks0
                    + rest.marks);
                assert(mpre + (marks0 + rest.marks) =~= byte_paths_view(marks@)
                    + rest.marks);
                assert(dpre + (descend0 + rest.descend) =~= byte_paths_view(descend@)
                    + rest.descend);
            }
        } else {
            proof {
                assert(spec_crawl(visited@, es.skip(i as int), mark_files) == spec_crawl(
                    visited@, es.skip(i as int + 1), mark_files));
            }
        }
        i += 1;
    }
    proof {
        assert(es.skip(n as int) =~= Seq::<EntryModel>::empty());
    }
    (marks, descend)
}

} // verus!
