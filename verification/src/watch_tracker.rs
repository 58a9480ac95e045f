use vstd::prelude::*;

verus! {

/// One watched target: a directory path and a file name under it.
pub struct WatchPair {
    pub dir: String,
    pub file: String,
}

/// Tracks which (directory, file name) pairs are currently watched.  The
/// underlying change source only subscribes at directory granularity, so a
/// directory is subscribed exactly while at least one file name under it is
/// tracked: `insert` reports when a directory-level subscribe is owed (first
/// file of its directory) and `remove` reports when an unsubscribe is owed
/// (last file of its directory).
pub struct WatchTracker {
    pub pairs: Vec<WatchPair>,
}

impl WatchTracker {
    /// The directory `dir` currently holds at least one watched file, and so
    /// is subscribed.
    pub open spec fn has_dir(self, dir: Seq<char>) -> bool {
        exists|i: int| 0 <= i < self.pairs@.len() && self.pairs@[i].dir@ == dir
    }

    /// The pair (`dir`, `file`) is currently watched.
    pub open spec fn watches(self, dir: Seq<char>, file: Seq<char>) -> bool {
        exists|i: int|
            0 <= i < self.pairs@.len() && self.pairs@[i].dir@ == dir && self.pairs@[i].file@
                == file
    }

    /// Well-formedness: no pair is recorded twice.
    pub open spec fn wf(self) -> bool {
        forall|i: int, j: int|
            0 <= i < j < self.pairs@.len() ==> !(self.pairs@[i].dir@ == self.pairs@[j].dir@
                && self.pairs@[i].file@ == self.pairs@[j].file@)
    }

    pub fn new() -> (t: WatchTracker)
        ensures
            t.wf(),
            forall|d: Seq<char>| !t.has_dir(d),
            forall|d: Seq<char>, f: Seq<char>| !t.watches(d, f),
    {
        WatchTracker { pairs: Vec::new() }
    }

    /// Whether some file under `dir` is watched.
    pub fn dir_subscribed(&self, dir: &String) -> (r: bool)
        ensures
            r == self.has_dir(dir@),
    {
        let mut i: usize = 0;
        while i < self.pairs.len()
            invariant
                i <= self.pairs@.len(),
                forall|j: int| 0 <= j < i ==> self.pairs@[j].dir@ != dir@,
            decreases self.pairs@.len() - i,
        {
            if self.pairs[i].dir == *dir {
                return true;
            }
            i = i + 1;
        }
        false
    }

    fn find_pair(&self, dir: &String, file: &String) -> (r: Option<usize>)
        ensures
            match r {
                Some(i) => i < self.pairs@.len() && self.pairs@[i as int].dir@ == dir@
                    && self.pairs@[i as int].file@ == file@,
                None => !self.watches(dir@, file@),
            },
    {
        let mut i: usize = 0;
        while i < self.pairs.len()
            invariant
                i <= self.pairs@.len(),
                forall|j: int|
                    0 <= j < i ==> !(self.pairs@[j].dir@ == dir@ && self.pairs@[j].file@
                        == file@),
            decreases self.pairs@.len() - i,
        {
            if self.pairs[i].dir == *dir && self.pairs[i].file == *file {
                return Some(i);
            }
            i = i + 1;
        }
        None
    }

    /// Whether the pair (`dir`, `file`) is currently watched.
    pub fn is_watched(&self, dir: &String, file: &String) -> (r: bool)
        ensures
            r == self.watches(dir@, file@),
    {
        self.find_pair(dir, file).is_some()
    }

    /// Record that `file` under `dir` is of interest.  Returns true exactly
    /// when `dir` had no watched file yet, in which case the caller owes a
    /// directory-level subscribe.
    pub fn insert(&mut self, dir: &String, file: &String) -> (fresh: bool)
        requires
            old(self).wf(),
        ensures
            final(self).wf(),
            fresh == !old(self).has_dir(dir@),
            insert_transition(*old(self), *final(self), dir@, file@),
    {
        let fresh = !self.dir_subscribed(dir);
        if self.find_pair(dir, file).is_none() {
            self.pairs.push(WatchPair { dir: dir.clone(), file: file.clone() });
        }
        proof {
            let pre = old(self).pairs@;
            let post = self.pairs@;
            assert forall|d: Seq<char>, f: Seq<char>|
                self.watches(d, f) implies (old(self).watches(d, f) || (d == dir@ && f
                == file@)) by {
                let k = choose|k: int|
                    0 <= k < post.len() && post[k].dir@ == d && post[k].file@ == f;
                if k < pre.len() {
                    assert(old(self).watches(d, f));
                }
            }
            if old(self).watches(dir@, file@) {
                assert(self.watches(dir@, file@));
            } else {
                assert(post[post.len() - 1].dir@ == dir@ && post[post.len() - 1].file@ == file@);
            }
            assert forall|d: Seq<char>, f: Seq<char>|
                old(self).watches(d, f) implies self.watches(d, f) by {
                let k = choose|k: int| 0 <= k < pre.len() && pre[k].dir@ == d && pre[k].file@ == f;
                assert(post[k].dir@ == d && post[k].file@ == f);
            }
            assert forall|d: Seq<char>| self.has_dir(d) implies (old(self).has_dir(d) || d
                == dir@) by {
                let k = choose|k: int| 0 <= k < post.len() && post[k].dir@ == d;
                if k < pre.len() {
                    assert(old(self).has_dir(d));
                }
            }
            assert forall|d: Seq<char>| old(self).has_dir(d) implies self.has_dir(d) by {
                let k = choose|k: int| 0 <= k < pre.len() && pre[k].dir@ == d;
                assert(post[k].dir@ == d);
            }
        }
        fresh
    }

    /// Forget `file` under `dir`.  Returns true exactly when this removed
    /// the last watched file of `dir`, in which case the caller owes a
    /// directory-level unsubscribe.
    pub fn remove(&mut self, dir: &String, file: &String) -> (unsubscribe: bool)
        requires
            old(self).wf(),
        ensures
            final(self).wf(),
            forall|d: Seq<char>, f: Seq<char>|
                final(self).watches(d, f) <==> (old(self).watches(d, f) && !(d == dir@ && f
                    == file@)),
            unsubscribe == (old(self).has_dir(dir@) && !final(self).has_dir(dir@)),
            forall|d: Seq<char>| d != dir@ ==> (final(self).has_dir(d) <==> old(self).has_dir(d)),
            final(self).has_dir(dir@) ==> old(self).has_dir(dir@),
    {
        let j = match self.find_pair(dir, file) {
            None => {
                return false;
            },
            Some(j) => j,
        };
        self.pairs.remove(j);
        proof {
            let pre = old(self).pairs@;
            let post = self.pairs@;
            assert forall|d: Seq<char>, f: Seq<char>|
                self.watches(d, f) implies (old(self).watches(d, f) && !(d == dir@ && f
                == file@)) by {
                let k = choose|k: int|
                    0 <= k < post.len() && post[k].dir@ == d && post[k].file@ == f;
                if k < j {
                    assert(pre[k].dir@ == d && pre[k].file@ == f);
                } else {
                    assert(pre[k + 1].dir@ == d && pre[k + 1].file@ == f);
                }
            }
            assert forall|d: Seq<char>, f: Seq<char>|
                (old(self).watches(d, f) && !(d == dir@ && f == file@)) implies self.watches(
                    d,
                    f,
                ) by {
                let k = choose|k: int| 0 <= k < pre.len() && pre[k].dir@ == d && pre[k].file@ == f;
                if k < j {
                    assert(post[k].dir@ == d && post[k].file@ == f);
                } else {
                    assert(k != j);
                    assert(post[k - 1].dir@ == d && post[k - 1].file@ == f);
                }
            }
            assert forall|d: Seq<char>| d != dir@ && self.has_dir(d) implies old(self).has_dir(
                d,
            ) by {
                let k = choose|k: int| 0 <= k < post.len() && post[k].dir@ == d;
                if k < j {
                    assert(pre[k].dir@ == d);
                } else {
                    assert(pre[k + 1].dir@ == d);
                }
            }
            assert forall|d: Seq<char>| d != dir@ && old(self).has_dir(d) implies self.has_dir(
                d,
            ) by {
                let k = choose|k: int| 0 <= k < pre.len() && pre[k].dir@ == d;
                if k < j {
                    assert(post[k].dir@ == d);
                } else {
                    assert(post[k - 1].dir@ == d);
                }
            }
            if self.has_dir(dir@) {
                let k = choose|k: int| 0 <= k < post.len() && post[k].dir@ == dir@;
                if k < j {
                    assert(pre[k].dir@ == dir@);
                } else {
                    assert(pre[k + 1].dir@ == dir@);
                }
            }
        }
        !self.dir_subscribed(dir)
    }

    /// Forget everything.  Returns each formerly subscribed directory once:
    /// the caller owes a directory-level unsubscribe for each.
    pub fn drain_all(&mut self) -> (dirs: Vec<String>)
        requires
            old(self).wf(),
        ensures
            final(self).wf(),
            final(self).pairs@.len() == 0,
            forall|d: Seq<char>| !final(self).has_dir(d),
            forall|d: Seq<char>, f: Seq<char>| !final(self).watches(d, f),
            forall|d: Seq<char>| old(self).has_dir(d) <==> seq_contains_str(dirs@, d),
            forall|i: int, j: int| 0 <= i < j < dirs@.len() ==> dirs@[i]@ != dirs@[j]@,
    {
        let mut dirs: Vec<String> = Vec::new();
        let mut i: usize = 0;
        while i < self.pairs.len()
            invariant
                i <= self.pairs@.len(),
                forall|k: int, m: int| 0 <= k < m < dirs@.len() ==> dirs@[k]@ != dirs@[m]@,
                forall|d: Seq<char>|
                    seq_contains_str(dirs@, d) <==> prefix_has_dir(self.pairs@, i as int, d),
            decreases self.pairs@.len() - i,
        {
            let ghost dirs_pre = dirs@;
            if !vec_contains_str(&dirs, &self.pairs[i].dir) {
                dirs.push(self.pairs[i].dir.clone());
            }
            proof {
                let d0 = self.pairs@[i as int].dir@;
                assert forall|d: Seq<char>| seq_contains_str(dirs@, d) implies prefix_has_dir(
                    self.pairs@,
                    i + 1,
                    d,
                ) by {
                    let k = choose|k: int| 0 <= k < dirs@.len() && dirs@[k]@ == d;
                    if k < dirs_pre.len() {
                        assert(seq_contains_str(dirs_pre, d));
                        assert(prefix_has_dir(self.pairs@, i as int, d));
                    } else {
                        assert(self.pairs@[i as int].dir@ == d);
                    }
                }
                assert forall|d: Seq<char>| prefix_has_dir(self.pairs@, i + 1, d) implies
                    seq_contains_str(dirs@, d) by {
                    let k = choose|k: int| 0 <= k < i + 1 && self.pairs@[k].dir@ == d;
                    if k < i {
                        assert(prefix_has_dir(self.pairs@, i as int, d));
                        assert(seq_contains_str(dirs_pre, d));
                        let m = choose|m: int| 0 <= m < dirs_pre.len() && dirs_pre[m]@ == d;
                        assert(dirs@[m]@ == d);
                    } else {
                        assert(d == d0);
                        if seq_contains_str(dirs_pre, d0) {
                            let m = choose|m: int| 0 <= m < dirs_pre.len() && dirs_pre[m]@ == d0;
                            assert(dirs@[m]@ == d);
                        } else {
                            assert(dirs@[dirs@.len() - 1]@ == d);
                        }
                    }
                }
            }
            i = i + 1;
        }
        proof {
            assert forall|d: Seq<char>| old(self).has_dir(d) implies seq_contains_str(
                dirs@,
                d,
            ) by {
                assert(prefix_has_dir(old(self).pairs@, old(self).pairs@.len() as int, d));
            }
        }
        self.pairs = Vec::new();
        dirs
    }
}

/// The shape `insert` leaves behind: `post` watches exactly `pre`'s pairs
/// plus (`d`, `f`), and `post`'s subscribed directories are exactly `pre`'s
/// plus `d`.
pub open spec fn insert_transition(
    pre: WatchTracker,
    post: WatchTracker,
    d: Seq<char>,
    f: Seq<char>,
) -> bool {
    &&& forall|d2: Seq<char>, f2: Seq<char>|
        post.watches(d2, f2) <==> (pre.watches(d2, f2) || (d2 == d && f2 == f))
    &&& forall|d2: Seq<char>| post.has_dir(d2) <==> (pre.has_dir(d2) || d2 == d)
}

/// Law: watching a pair under one directory and then a pair under another
/// leaves both directories subscribed; nothing in between unsubscribed the
/// first.
pub proof fn lemma_two_watches_subscribe_both(
    t0: WatchTracker,
    t1: WatchTracker,
    t2: WatchTracker,
    da: Seq<char>,
    fa: Seq<char>,
    db: Seq<char>,
    fb: Seq<char>,
)
    requires
        insert_transition(t0, t1, da, fa),
        insert_transition(t1, t2, db, fb),
    ensures
        t2.has_dir(da),
        t2.has_dir(db),
{
}

/// Law: clearing every watch and then watching one pair leaves exactly
/// that pair's directory subscribed.
pub proof fn lemma_reset_then_watch_single_dir(
    t1: WatchTracker,
    t2: WatchTracker,
    db: Seq<char>,
    fb: Seq<char>,
)
    requires
        forall|d: Seq<char>| !t1.has_dir(d),
        insert_transition(t1, t2, db, fb),
    ensures
        forall|d: Seq<char>| t2.has_dir(d) <==> d == db,
{
}

/// `s` occurs in `items`.
pub open spec fn seq_contains_str(items: Seq<String>, s: Seq<char>) -> bool {
    exists|j: int| 0 <= j < items.len() && items[j]@ == s
}

/// Some pair among the first `n` has directory `d`.
pub open spec fn prefix_has_dir(pairs: Seq<WatchPair>, n: int, d: Seq<char>) -> bool {
    exists|k: int| 0 <= k < n && pairs[k].dir@ == d
}

fn vec_contains_str(items: &Vec<String>, s: &String) -> (r: bool)
    ensures
        r == seq_contains_str(items@, s@),
{
    let mut j: usize = 0;
    while j < items.len()
        invariant
            j <= items@.len(),
            forall|m: int| 0 <= m < j ==> items@[m]@ != s@,
        decreases items@.len() - j,
    {
        if items[j] == *s {
            return true;
        }
        j = j + 1;
    }
    false
}

} // verus!
