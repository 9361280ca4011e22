//! The two pieces of per-engine bookkeeping the inotify backend keeps: the
//! watch-descriptor map (descriptor -> absolute directory path) and the
//! ephemeral cookie map that pairs the two halves of a rename.

use vstd::prelude::*;
use crate::events::copy_bytes;
use crate::paths::{is_path_prefix, opt_view, spec_rewrite};
use crate::paths::{has_path_prefix, bytes_eq, rewrite_path};

verus! {

/// One watch registration: a kernel descriptor and the directory it names.
#[derive(Debug)]
pub struct WatchEntry {
    pub wd: i32,
    pub path: Vec<u8>,
}

/// Spec-level picture of one watch registration.
pub struct WatchEntryModel {
    pub wd: i32,
    pub path: Seq<u8>,
}

impl View for WatchEntry {
    type V = WatchEntryModel;

    open spec fn view(&self) -> WatchEntryModel {
        WatchEntryModel { wd: self.wd, path: self.path@ }
    }
}

impl Clone for WatchEntry {
    /// Cloning keeps the model exactly.
    fn clone(&self) -> (r: Self)
        ensures
            r@ == self@,
    {
        WatchEntry { wd: self.wd, path: copy_bytes(&self.path) }
    }
}

/// The directory registered under `wd`, by first match.
pub open spec fn lookup_wd(s: Seq<WatchEntryModel>, wd: i32) -> Option<Seq<u8>>
    decreases s.len(),
{
    if s.len() == 0 {
        None
    } else if s[0].wd == wd {
        Some(s[0].path)
    } else {
        lookup_wd(s.drop_first(), wd)
    }
}

/// Whether some entry registers exactly the path `p`.
pub open spec fn contains_path(s: Seq<WatchEntryModel>, p: Seq<u8>) -> bool {
    exists|i: int| 0 <= i < s.len() && s[i].path == p
}

/// No descriptor occurs twice.
pub open spec fn wds_unique(s: Seq<WatchEntryModel>) -> bool {
    forall|i: int, j: int| 0 <= i < j < s.len() ==> s[i].wd != s[j].wd
}

/// Every entry, with paths under `from` rewritten to sit under `to`.
pub open spec fn spec_rewrite_entries(s: Seq<WatchEntryModel>, from: Seq<u8>, to: Seq<u8>)
    -> Seq<WatchEntryModel> {
    s.map_values(|e: WatchEntryModel| WatchEntryModel {
        wd: e.wd,
        path: spec_rewrite(e.path, from, to),
    })
}

/// The entries that survive dropping the subtree rooted at `p`.
pub open spec fn spec_remove_subtree(s: Seq<WatchEntryModel>, p: Seq<u8>)
    -> Seq<WatchEntryModel>
    decreases s.len(),
{
    if s.len() == 0 {
        Seq::empty()
    } else {
        let rest = spec_remove_subtree(s.drop_first(), p);
        if is_path_prefix(p, s[0].path) {
            rest
        } else {
            seq![s[0]] + rest
        }
    }
}

/// The descriptors of the entries that dropping the subtree at `p` releases,
/// in map order.
pub open spec fn spec_removed_wds(s: Seq<WatchEntryModel>, p: Seq<u8>) -> Seq<i32>
    decreases s.len(),
{
    if s.len() == 0 {
        Seq::empty()
    } else {
        let rest = spec_removed_wds(s.drop_first(), p);
        if is_path_prefix(p, s[0].path) {
            seq![s[0].wd] + rest
        } else {
            rest
        }
    }
}

/// Looking a descriptor up after a subtree rewrite finds the rewritten path.
pub proof fn lemma_lookup_after_rewrite(s: Seq<WatchEntryModel>, from: Seq<u8>, to: Seq<u8>,
    wd: i32)
    ensures
        lookup_wd(spec_rewrite_entries(s, from, to), wd) == (match lookup_wd(s, wd) {
            Some(p) => Some(spec_rewrite(p, from, to)),
            None => None,
        }),
    decreases s.len(),
{
    let t = spec_rewrite_entries(s, from, to);
    if s.len() != 0 {
        lemma_lookup_after_rewrite(s.drop_first(), from, to, wd);
        assert(t.drop_first() =~= spec_rewrite_entries(s.drop_first(), from, to));
    }
}

/// Surviving the removal of a subtree keeps a descriptor's registration.
pub proof fn lemma_remove_keeps_others(s: Seq<WatchEntryModel>, p: Seq<u8>)
    ensures
        forall|e: WatchEntryModel|
            #[trigger] spec_remove_subtree(s, p).contains(e) ==> s.contains(e),
    decreases s.len(),
{
    if s.len() != 0 {
        lemma_remove_keeps_others(s.drop_first(), p);
        let kept = spec_remove_subtree(s, p);
        let rest = spec_remove_subtree(s.drop_first(), p);
        assert forall|e: WatchEntryModel| #[trigger] kept.contains(e) implies s.contains(e) by {
            if !is_path_prefix(p, s[0].path) && e == s[0] {
                assert(s[0] == s[0]);
            } else {
                assert(rest.contains(e));
                let i = choose|i: int| 0 <= i < rest.len() && rest[i] == e;
                assert(s.drop_first().contains(e));
                let j = choose|j: int| 0 <= j < s.drop_first().len() && s.drop_first()[j] == e;
                assert(s[j + 1] == e);
            }
        }
    }
}

/// Removing a subtree keeps descriptors unique.
pub proof fn lemma_remove_subtree_unique(s: Seq<WatchEntryModel>, p: Seq<u8>)
    requires
        wds_unique(s),
    ensures
        wds_unique(spec_remove_subtree(s, p)),
    decreases s.len(),
{
    if s.len() != 0 {
        assert(wds_unique(s.drop_first())) by {
            assert forall|i: int, j: int| 0 <= i < j < s.drop_first().len()
                implies s.drop_first()[i].wd != s.drop_first()[j].wd by {
                assert(s.drop_first()[i] == s[i + 1]);
                assert(s.drop_first()[j] == s[j + 1]);
            }
        }
        lemma_remove_subtree_unique(s.drop_first(), p);
        if !is_path_prefix(p, s[0].path) {
            let rest = spec_remove_subtree(s.drop_first(), p);
            lemma_remove_keeps_others(s.drop_first(), p);
            let kept = seq![s[0]] + rest;
            assert forall|i: int, j: int| 0 <= i < j < kept.len() implies kept[i].wd
                != kept[j].wd by {
                if i == 0 {
                    assert(rest.contains(rest[j - 1]));
                    assert(s.drop_first().contains(rest[j - 1]));
                    let k = choose|k: int|
                        0 <= k < s.drop_first().len() && s.drop_first()[k] == rest[j - 1];
                    assert(s[k + 1] == rest[j - 1]);
                }
            }
        }
    }
}

/// The watch-descriptor map: every live kernel watch and the absolute
/// directory it stands for.
#[derive(Debug)]
pub struct WatchMap {
    pub entries: Vec<WatchEntry>,
}

impl View for WatchMap {
    type V = Seq<WatchEntryModel>;

    open spec fn view(&self) -> Seq<WatchEntryModel> {
        self.entries@.map_values(|e: WatchEntry| e@)
    }
}

impl WatchMap {
    /// The map's invariant: descriptors are unique.
    pub open spec fn wf(self) -> bool {
        wds_unique(self@)
    }

    /// An empty map.
    pub fn new() -> (r: WatchMap)
        ensures
            r@ =~= Seq::<WatchEntryModel>::empty(),
            r.wf(),
    {
        WatchMap { entries: Vec::new() }
    }

    /// How many watches are registered.
    pub fn len(&self) -> (r: usize)
        ensures
            r == self@.len(),
    {
        self.entries.len()
    }

    /// The directory registered under `wd`, copied out.
    pub fn lookup(&self, wd: i32) -> (r: Option<Vec<u8>>)
        ensures
            opt_view(r) == lookup_wd(self@, wd),
    {
        let n = self.entries.len();
        let mut i: usize = 0;
        proof {
            assert(self@.skip(0) =~= self@);
        }
        while i < n
            invariant
                n == self.entries@.len(),
                0 <= i <= n,
                lookup_wd(self@, wd) == lookup_wd(self@.skip(i as int), wd),
            decreases n - i,
        {
            proof {
                assert(self@.skip(i as int).drop_first() =~= self@.skip(i as int + 1));
            }
            if self.entries[i].wd == wd {
                let r = copy_bytes(&self.entries[i].path);
                proof {
                    assert(self@.skip(i as int)[0] == self@[i as int]);
                }
                return Some(r);
            }
            i += 1;
        }
        proof {
            assert(self@.skip(n as int) =~= Seq::<WatchEntryModel>::empty());
        }
        None
    }

    /// Register `path` under `wd`, replacing any stale registration of the
    /// same descriptor.
    pub fn insert(&mut self, wd: i32, path: Vec<u8>)
        requires
            old(self).wf(),
        ensures
            final(self).wf(),
            lookup_wd(final(self)@, wd) == Some(path@),
            forall|w: i32| w != wd ==> lookup_wd(final(self)@, w) == lookup_wd(old(self)@, w),
    {
        let n = self.entries.len();
        let mut i: usize = 0;
        while i < n
            invariant
                n == self.entries@.len(),
                0 <= i <= n,
                self@ == old(self)@,
                wds_unique(old(self)@),
                forall|j: int| 0 <= j < i ==> self@[j].wd != wd,
            decreases n - i,
        {
            if self.entries[i].wd == wd {
                let ghost pre = self@;
                self.entries.set(i, WatchEntry { wd, path });
                proof {
                    let e = WatchEntryModel { wd, path: path@ };
                    assert(pre == old(self)@);
                    assert forall|i2: int, j2: int| 0 <= i2 < j2 < pre.len() implies
                        pre[i2].wd != pre[j2].wd by {
                        assert(old(self)@[i2].wd != old(self)@[j2].wd);
                    }
                    assert(self@ =~= pre.update(i as int, e));
                    lemma_lookup_update_hit(pre, i as int, path@, wd);
                    assert forall|i2: int, j2: int| 0 <= i2 < j2 < self@.len() implies
                        self@[i2].wd != self@[j2].wd by {
                        assert(pre[i2].wd != pre[j2].wd);
                        if i2 != i && j2 != i {
                        } else if i2 == i {
                            assert(self@[j2] == pre[j2]);
                        } else {
                            assert(self@[i2] == pre[i2]);
                        }
                    }
                }
                return;
            }
            i += 1;
        }
        let ghost pre = self@;
        self.entries.push(WatchEntry { wd, path });
        proof {
            let e = WatchEntryModel { wd, path: path@ };
            assert(self@ =~= pre.push(e));
            lemma_lookup_push_miss(pre, e);
            assert forall|i2: int, j2: int| 0 <= i2 < j2 < self@.len() implies self@[i2].wd
                != self@[j2].wd by {
                assert(self@[i2] == pre[i2]);
                if j2 < pre.len() {
                    assert(self@[j2] == pre[j2]);
                } else {
                    assert(self@[j2] == e);
                    assert(pre[i2].wd != wd);
                }
            }
        }
    }

    /// Rewrite every registered path under `from` to sit under `to`: the
    /// subtree-rename bookkeeping.
    pub fn rewrite_all(&mut self, from: &Vec<u8>, to: &Vec<u8>)
        requires
            old(self).wf(),
        ensures
            final(self).wf(),
            final(self)@ == spec_rewrite_entries(old(self)@, from@, to@),
    {
        let n = self.entries.len();
        let mut i: usize = 0;
        while i < n
            invariant
                n == self.entries@.len(),
                0 <= i <= n,
                self@.len() == old(self)@.len(),
                forall|j: int| 0 <= j < i ==> self@[j] == spec_rewrite_entries(old(self)@,
                    from@, to@)[j],
                forall|j: int| i <= j < n ==> self@[j] == old(self)@[j],
            decreases n - i,
        {
            let new_path = rewrite_path(&self.entries[i].path, from, to);
            let wd = self.entries[i].wd;
            let ghost pre = self@;
            self.entries.set(i, WatchEntry { wd, path: new_path });
            proof {
                assert(self@ =~= pre.update(i as int, WatchEntryModel {
                    wd,
                    path: new_path@,
                }));
                assert(self@[i as int] == spec_rewrite_entries(old(self)@, from@,
                    to@)[i as int]);
                assert forall|j: int| 0 <= j < i + 1 implies self@[j]
                    == spec_rewrite_entries(old(self)@, from@, to@)[j] by {
                    if j < i {
                        assert(self@[j] == pre[j]);
                    }
                }
            }
            i += 1;
        }
        proof {
            assert(self@ =~= spec_rewrite_entries(old(self)@, from@, to@));
            assert forall|i2: int, j2: int| 0 <= i2 < j2 < self@.len() implies self@[i2].wd
                != self@[j2].wd by {
                assert(old(self)@[i2].wd != old(self)@[j2].wd);
            }
        }
    }

    /// Whether some entry registers exactly the path `p`.
    pub fn contains_value(&self, p: &Vec<u8>) -> (r: bool)
        ensures
            r == contains_path(self@, p@),
    {
        let n = self.entries.len();
        let mut i: usize = 0;
        while i < n
            invariant
                n == self.entries@.len(),
                0 <= i <= n,
                forall|j: int| 0 <= j < i ==> self@[j].path != p@,
            decreases n - i,
        {
            if bytes_eq(&self.entries[i].path, p) {
                proof {
                    assert(self@[i as int].path == p@);
                }
                return true;
            }
            i += 1;
        }
        false
    }

    /// Drop every entry at or under `p`; the released descriptors come back
    /// in map order so the caller can hand them to the kernel.
    pub fn remove_subtree(&mut self, p: &Vec<u8>) -> (removed: Vec<i32>)
        requires
            old(self).wf(),
        ensures
            final(self).wf(),
            final(self)@ == spec_remove_subtree(old(self)@, p@),
            removed@ == spec_removed_wds(old(self)@, p@),
    {
        let n = self.entries.len();
        let mut kept: Vec<WatchEntry> = Vec::new();
        let mut removed: Vec<i32> = Vec::new();
        let mut i: usize = 0;
        proof {
            assert(self@.skip(0) =~= self@);
            assert(kept@.map_values(|e: WatchEntry| e@) =~= Seq::<WatchEntryModel>::empty());
        }
        while i < n
            invariant
                n == self.entries@.len(),
                0 <= i <= n,
                spec_remove_subtree(self@, p@) == kept@.map_values(|e: WatchEntry| e@)
                    + spec_remove_subtree(self@.skip(i as int), p@),
                spec_removed_wds(self@, p@) == removed@ + spec_removed_wds(
                    self@.skip(i as int), p@),
            decreases n - i,
        {
            proof {
                assert(self@.skip(i as int).drop_first() =~= self@.skip(i as int + 1));
                assert(self@.skip(i as int)[0] == self@[i as int]);
            }
            let ghost kept_pre = kept@.map_values(|e: WatchEntry| e@);
            if has_path_prefix(p, &self.entries[i].path) {
                removed.push(self.entries[i].wd);
                proof {
                    assert(spec_removed_wds(self@, p@) =~= removed@ + spec_removed_wds(
                        self@.skip(i as int + 1), p@));
                }
            } else {
                kept.push(self.entries[i].clone());
                proof {
                    assert(kept@.map_values(|e: WatchEntry| e@) =~= kept_pre
                        + seq![self@[i as int]]);
                    assert(kept_pre + (seq![self@[i as int]] + spec_remove_subtree(
                        self@.skip(i as int + 1), p@)) =~= kept@.map_values(
                        |e: WatchEntry| e@) + spec_remove_subtree(self@.skip(i as int + 1),
                        p@));
                }
            }
            i += 1;
        }
        proof {
            assert(self@.skip(n as int) =~= Seq::<WatchEntryModel>::empty());
            assert(kept@.map_values(|e: WatchEntry| e@) =~= spec_remove_subtree(self@, p@));
            lemma_remove_subtree_unique(self@, p@);
        }
        self.entries = kept;
        removed
    }
}

/// Updating the first entry that carries `wd` leaves every other
/// descriptor's lookup alone and makes `wd` resolve to the new path.
proof fn lemma_lookup_update_hit(s: Seq<WatchEntryModel>, i: int, path: Seq<u8>, wd: i32)
    requires
        0 <= i < s.len(),
        s[i].wd == wd,
        forall|j: int| 0 <= j < i ==> s[j].wd != wd,
    ensures
        lookup_wd(s.update(i, WatchEntryModel { wd, path }), wd) == Some(path),
        forall|w: i32| w != wd ==> lookup_wd(s.update(i, WatchEntryModel { wd, path }), w)
            == lookup_wd(s, w),
    decreases s.len(),
{
    let t = s.update(i, WatchEntryModel { wd, path });
    if i == 0 {
        assert(t[0] == WatchEntryModel { wd, path });
        assert(lookup_wd(t, wd) == Some(path));
        assert forall|w: i32| w != wd implies lookup_wd(t, w) == lookup_wd(s, w) by {
            assert(t.drop_first() =~= s.drop_first());
            assert(lookup_wd(t, w) == lookup_wd(t.drop_first(), w));
            assert(lookup_wd(s, w) == lookup_wd(s.drop_first(), w));
        }
    } else {
        assert(t.drop_first() =~= s.drop_first().update(i - 1, WatchEntryModel { wd, path }));
        assert forall|j: int| 0 <= j < i - 1 implies s.drop_first()[j].wd != wd by {
            assert(s.drop_first()[j] == s[j + 1]);
        }
        assert(s.drop_first()[i - 1].wd == wd);
        lemma_lookup_update_hit(s.drop_first(), i - 1, path, wd);
        assert(t[0] == s[0]);
        assert(s[0].wd != wd);
        assert(lookup_wd(t, wd) == lookup_wd(t.drop_first(), wd));
        assert forall|w: i32| w != wd implies lookup_wd(t, w) == lookup_wd(s, w) by {
            if s[0].wd != w {
                assert(lookup_wd(t, w) == lookup_wd(t.drop_first(), w));
                assert(lookup_wd(s, w) == lookup_wd(s.drop_first(), w));
            }
        }
    }
}

/// Appending a fresh descriptor adds its lookup and keeps all others.
proof fn lemma_lookup_push_miss(s: Seq<WatchEntryModel>, e: WatchEntryModel)
    requires
        forall|j: int| 0 <= j < s.len() ==> s[j].wd != e.wd,
    ensures
        lookup_wd(s.push(e), e.wd) == Some(e.path),
        forall|w: i32| w != e.wd ==> lookup_wd(s.push(e), w) == lookup_wd(s, w),
    decreases s.len(),
{
    let t = s.push(e);
    if s.len() == 0 {
        assert(t[0] == e);
        assert forall|w: i32| w != e.wd implies lookup_wd(t, w) == lookup_wd(s, w) by {
            assert(t.drop_first() =~= Seq::<WatchEntryModel>::empty());
            assert(lookup_wd(t.drop_first(), w) == None::<Seq<u8>>);
            assert(lookup_wd(t, w) == None::<Seq<u8>>);
            assert(lookup_wd(s, w) == None::<Seq<u8>>);
        }
    } else {
        assert(t.drop_first() =~= s.drop_first().push(e));
        assert forall|j: int| 0 <= j < s.drop_first().len() implies s.drop_first()[j].wd
            != e.wd by {
            assert(s.drop_first()[j] == s[j + 1]);
        }
        lemma_lookup_push_miss(s.drop_first(), e);
        assert(t[0] == s[0]);
        assert(s[0].wd != e.wd);
        assert(lookup_wd(t, e.wd) == lookup_wd(t.drop_first(), e.wd));
        assert forall|w: i32| w != e.wd implies lookup_wd(t, w) == lookup_wd(s, w) by {
            if s[0].wd == w {
            } else {
                assert(lookup_wd(t, w) == lookup_wd(t.drop_first(), w));
                assert(lookup_wd(s, w) == lookup_wd(s.drop_first(), w));
            }
        }
    }
}

} // verus!
