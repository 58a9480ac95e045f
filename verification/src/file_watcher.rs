use vstd::prelude::*;

use crate::watch_tracker::WatchTracker;
use notify_debouncer_mini::notify::RecommendedWatcher;
use notify_debouncer_mini::DebounceEventResult;
use notify_debouncer_mini::Debouncer;
use std::sync::mpsc::Receiver;

verus! {

/// The debounced observer and the receiving end of its batch queue, held
/// together as one opaque handle.  Verus sees nothing inside it; every use
/// goes through the trusted calls below.
#[verifier::external_body]
pub struct DebounceHandle {
    debouncer: Debouncer<RecommendedWatcher>,
    rx: Receiver<DebounceEventResult>,
}

/// Relies on std::sync::mpsc::channel and notify_debouncer_mini's
/// new_debouncer: builds the debounced watcher whose background thread
/// coalesces raw change notifications over the given window and queues one
/// batch per window on the returned channel.
#[verifier::external_body]
fn make_debouncer(debounce_window_ms: u64) -> (r: Result<DebounceHandle, String>) {
    let (tx, rx) = std::sync::mpsc::channel();
    match notify_debouncer_mini::new_debouncer(
        std::time::Duration::from_millis(debounce_window_ms),
        tx,
    ) {
        Ok(debouncer) => Ok(DebounceHandle { debouncer, rx }),
        Err(e) => Err(e.to_string()),
    }
}

/// Relies on notify's Watcher::watch, reached through Debouncer::watcher:
/// subscribes the directory, non-recursively, to the raw change stream.
/// Whether it succeeds depends on the platform and the filesystem.
#[verifier::external_body]
fn subscribe_dir(handle: &mut DebounceHandle, dir: &String) -> (r: Result<(), String>) {
    handle.debouncer.watcher().watch(
        std::path::Path::new(dir.as_str()),
        notify_debouncer_mini::notify::RecursiveMode::NonRecursive,
    ).map_err(|e| e.to_string())
}

/// Relies on notify's Watcher::unwatch, reached through Debouncer::watcher:
/// drops the directory's subscription to the raw change stream.
#[verifier::external_body]
fn unsubscribe_dir(handle: &mut DebounceHandle, dir: &String) -> (r: Result<(), String>) {
    handle.debouncer.watcher().unwatch(std::path::Path::new(dir.as_str())).map_err(|e| e.to_string())
}

/// Relies on Receiver::try_recv: drains, without ever blocking, every
/// coalesced batch the debouncer has queued so far, keeping each event's
/// path as text; stops at the first empty read or at a batch that reports
/// an error.  What comes back depends on what happened on disk.
#[verifier::external_body]
fn drain_batches(handle: &DebounceHandle) -> (r: Vec<Vec<String>>) {
    let mut out: Vec<Vec<String>> = Vec::new();
    while let Ok(Ok(events)) = handle.rx.try_recv() {
        out.push(
            events.into_iter().map(|e| e.path.to_string_lossy().into_owned()).collect(),
        );
    }
    out
}

/// Relies on Path::canonicalize: resolves the path against the filesystem
/// and splits the result into its parent directory and its file name, both
/// as text.  Nothing when the path does not resolve or lacks a parent or a
/// name; what resolves depends on what is on disk.
#[verifier::external_body]
fn canonical_dir_and_file(path: &str) -> (r: Option<(String, String)>) {
    let canonical = std::path::Path::new(path).canonicalize().ok()?;
    let dir = canonical.parent()?.to_string_lossy().into_owned();
    let file = canonical.file_name()?.to_string_lossy().into_owned();
    Some((dir, file))
}

/// A change event whose path resolved: the raw path as delivered, and the
/// (directory, file name) pair it canonicalizes to.
pub struct ResolvedEvent {
    pub path: String,
    pub dir: String,
    pub file: String,
}

/// The debounced change source together with the watch-target tracker.
/// The debouncer's background thread queues one coalesced batch per
/// debounce window; the single rendering thread polls the queue without
/// ever blocking.  N writes within one window produce one batch (that is
/// the debouncer's timing contract); writes spanning two windows may
/// produce two.
pub struct FileWatcher {
    pub handle: DebounceHandle,
    pub tracker: WatchTracker,
}

/// `post` watches exactly `pre`'s pairs plus (`d`, `f`).
pub open spec fn watch_added(pre: FileWatcher, post: FileWatcher, d: Seq<char>, f: Seq<char>) -> bool {
    forall|d2: Seq<char>, f2: Seq<char>|
        post.watches(d2, f2) <==> (pre.watches(d2, f2) || (d2 == d && f2 == f))
}

/// `post` watches exactly `pre`'s pairs less (`d`, `f`), and no other
/// directory's subscription moved.
pub open spec fn watch_removed(pre: FileWatcher, post: FileWatcher, d: Seq<char>, f: Seq<char>) -> bool {
    &&& forall|d2: Seq<char>, f2: Seq<char>|
        post.watches(d2, f2) <==> (pre.watches(d2, f2) && !(d2 == d && f2 == f))
    &&& forall|d2: Seq<char>|
        d2 != d ==> (post.tracker.has_dir(d2) <==> pre.tracker.has_dir(d2))
    &&& post.tracker.has_dir(d) ==> pre.tracker.has_dir(d)
}

/// The watched set did not move at all.
pub open spec fn watches_unchanged(pre: FileWatcher, post: FileWatcher) -> bool {
    &&& forall|d2: Seq<char>, f2: Seq<char>| post.watches(d2, f2) == pre.watches(d2, f2)
    &&& forall|d2: Seq<char>| post.tracker.has_dir(d2) == pre.tracker.has_dir(d2)
}

impl FileWatcher {
    pub open spec fn wf(self) -> bool {
        self.tracker.wf()
    }

    /// The pair (`dir`, `file`) is currently watched.
    pub open spec fn watches(self, dir: Seq<char>, file: Seq<char>) -> bool {
        self.tracker.watches(dir, file)
    }

    /// Create the debounced change source with the given window.  Failure
    /// to create the underlying observer is fatal to watching and is
    /// reported to the caller.
    pub fn new(debouncer_ms: u32) -> (r: Result<FileWatcher, String>)
        ensures
            r matches Ok(w) ==> {
                &&& w.wf()
                &&& forall|d: Seq<char>, f: Seq<char>| !w.watches(d, f)
                &&& forall|d: Seq<char>| !w.tracker.has_dir(d)
            },
    {
        match make_debouncer(debouncer_ms as u64) {
            Ok(handle) => Ok(FileWatcher { handle, tracker: WatchTracker::new() }),
            Err(e) => Err(e),
        }
    }

    /// Start watching `path`: canonicalize it, split it into directory and
    /// file name, and subscribe the directory if this is its first watched
    /// file.  Fails when the path does not resolve or the subscribe call
    /// fails; a failed watch leaves the watched set as it was.
    pub fn watch(&mut self, path: &str) -> (r: Result<(), String>)
        requires
            old(self).wf(),
        ensures
            final(self).wf(),
            r is Ok ==> exists|d: Seq<char>, f: Seq<char>|
                #[trigger] watch_added(*old(self), *final(self), d, f),
            r is Err ==> forall|d: Seq<char>, f: Seq<char>|
                final(self).watches(d, f) == old(self).watches(d, f),
    {
        let (dir, file) = match canonical_dir_and_file(path) {
            None => {
                return Err(watch_error_message());
            },
            Some(df) => df,
        };
        let fresh = self.tracker.insert(&dir, &file);
        if fresh {
            match subscribe_dir(&mut self.handle, &dir) {
                Ok(()) => {
                    proof {
                        assert(watch_added(*old(self), *self, dir@, file@));
                    }
                    Ok(())
                },
                Err(e) => {
                    let _ = self.tracker.remove(&dir, &file);
                    Err(e)
                },
            }
        } else {
            proof {
                assert(watch_added(*old(self), *self, dir@, file@));
            }
            Ok(())
        }
    }

    /// Stop watching `path`: the pair it resolves to leaves the watched
    /// set, every other pair stays, and when its directory loses its last
    /// watched file the directory is unsubscribed.  A path that does not
    /// resolve leaves the set untouched.
    pub fn unwatch(&mut self, path: &str) -> (r: Result<(), String>)
        requires
            old(self).wf(),
        ensures
            final(self).wf(),
            watches_unchanged(*old(self), *final(self)) || (exists|d: Seq<char>, f: Seq<char>|
                #[trigger] watch_removed(*old(self), *final(self), d, f)),
    {
        let (dir, file) = match canonical_dir_and_file(path) {
            None => {
                proof {
                    assert(watches_unchanged(*old(self), *self));
                }
                return Ok(());
            },
            Some(df) => df,
        };
        let unsubscribe = self.tracker.remove(&dir, &file);
        let result = if unsubscribe {
            unsubscribe_dir(&mut self.handle, &dir)
        } else {
            Ok(())
        };
        proof {
            assert(watch_removed(*old(self), *self, dir@, file@));
        }
        result
    }

    /// Stop watching everything: the tracked set is cleared and every
    /// formerly subscribed directory is unsubscribed.  The first failing
    /// unsubscribe is reported; the set is cleared regardless.
    pub fn unwatch_all(&mut self) -> (r: Result<(), String>)
        requires
            old(self).wf(),
        ensures
            final(self).wf(),
            forall|d: Seq<char>, f: Seq<char>| !final(self).watches(d, f),
            forall|d: Seq<char>| !final(self).tracker.has_dir(d),
    {
        let dirs = self.tracker.drain_all();
        let mut i: usize = 0;
        while i < dirs.len()
            invariant
                self.wf(),
                self.tracker.pairs@.len() == 0,
            decreases dirs@.len() - i,
        {
            match unsubscribe_dir(&mut self.handle, &dirs[i]) {
                Ok(()) => {},
                Err(e) => {
                    return Err(e);
                },
            }
            i = i + 1;
        }
        Ok(())
    }

    /// The last resolved event in `events` whose (directory, file name)
    /// pair is watched: earlier matches in the same poll are discarded, so
    /// one drain yields at most one path however many events it held.
    pub fn last_watched_path(&self, events: &Vec<ResolvedEvent>) -> (r: Option<String>)
        ensures
            match r {
                Some(p) => exists|i: int|
                    {
                        &&& 0 <= i < events@.len()
                        &&& #[trigger] self.watches(events@[i].dir@, events@[i].file@)
                        &&& p@ == events@[i].path@
                        &&& forall|k: int|
                            i < k < events@.len() ==> !self.watches(
                                events@[k].dir@,
                                events@[k].file@,
                            )
                    },
                None => forall|i: int|
                    0 <= i < events@.len() ==> !self.watches(events@[i].dir@, events@[i].file@),
            },
    {
        let mut out: Option<String> = None;
        let ghost mut best: int = 0;
        let mut i: usize = 0;
        while i < events.len()
            invariant
                i <= events@.len(),
                match out {
                    Some(p) => {
                        &&& 0 <= best < i
                        &&& self.watches(events@[best].dir@, events@[best].file@)
                        &&& p@ == events@[best].path@
                        &&& forall|k: int|
                            best < k < i ==> !self.watches(events@[k].dir@, events@[k].file@)
                    },
                    None => forall|k: int|
                        0 <= k < i ==> !self.watches(events@[k].dir@, events@[k].file@),
                },
            decreases events@.len() - i,
        {
            if self.tracker.is_watched(&events[i].dir, &events[i].file) {
                out = Some(events[i].path.clone());
                proof {
                    best = i as int;
                }
            }
            i = i + 1;
        }
        out
    }

    /// Poll for a changed watched file.  Drains every coalesced batch the
    /// debouncer has queued, resolves each event's path, and returns the
    /// last one that is currently watched, or nothing.  Never blocks the
    /// calling thread.
    pub fn file_changed(&self) -> (r: Option<String>)
        ensures
            r is Some ==> exists|d: Seq<char>, f: Seq<char>| #[trigger] self.watches(d, f),
    {
        let batches = drain_batches(&self.handle);
        let mut events: Vec<ResolvedEvent> = Vec::new();
        let mut b: usize = 0;
        while b < batches.len()
            invariant
                b <= batches@.len(),
            decreases batches@.len() - b,
        {
            let mut e: usize = 0;
            while e < batches[b].len()
                invariant
                    b < batches@.len(),
                    e <= batches@[b as int]@.len(),
                decreases batches@[b as int]@.len() - e,
            {
                match canonical_dir_and_file(batches[b][e].as_str()) {
                    Some((dir, file)) => {
                        let path = batches[b][e].clone();
                        events.push(ResolvedEvent { path, dir, file });
                    },
                    None => {},
                }
                e = e + 1;
            }
            b = b + 1;
        }
        let r = self.last_watched_path(&events);
        proof {
            if r is Some {
                let i = choose|i: int|
                    {
                        &&& 0 <= i < events@.len()
                        &&& #[trigger] self.watches(events@[i].dir@, events@[i].file@)
                        &&& r.unwrap()@ == events@[i].path@
                        &&& forall|k: int|
                            i < k < events@.len() ==> !self.watches(
                                events@[k].dir@,
                                events@[k].file@,
                            )
                    };
                assert(self.watches(events@[i].dir@, events@[i].file@));
            }
        }
        r
    }
}

/// The message reported when a watch target cannot be canonicalized.
fn watch_error_message() -> (s: String)
    ensures
        s@ == "path does not resolve to an existing file"@,
{
    let s: &str = "path does not resolve to an existing file";
    s.to_owned()
}

} // verus!
