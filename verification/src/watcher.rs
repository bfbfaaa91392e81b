//! Filesystem watcher: coalesces a burst of raw filesystem events into a
//! single "changes pending" signal, cleared on read.  The OS watch handles
//! and the raw event channel are created on `start` and released entirely on
//! `stop`.

use vstd::prelude::*;
use std::sync::mpsc::Receiver;

verus! {

#[verifier::external_type_specification]
#[verifier::external_body]
pub struct ExRecommendedWatcher(notify::RecommendedWatcher);

#[verifier::external_type_specification]
#[verifier::external_body]
pub struct ExNotifyEvent(notify::Event);

#[verifier::external_type_specification]
#[verifier::external_body]
pub struct ExNotifyError(notify::Error);

#[verifier::external_type_specification]
#[verifier::external_body]
#[verifier::reject_recursive_types(T)]
pub struct ExReceiver<T>(Receiver<T>);

/// Relies on notify::Watcher::new for notify::RecommendedWatcher and on
/// std::sync::mpsc::channel: builds a watcher whose event handler only
/// forwards each raw event into the returned channel, with a two-second poll
/// interval as a fallback for filesystems without native notification.
/// Creation may fail with the platform's message; nothing is promised about
/// the result.
#[verifier::external_body]
fn new_watcher_channel() -> Result<
    (notify::RecommendedWatcher, Receiver<Result<notify::Event, notify::Error>>),
    String,
> {
    let (tx, rx) = std::sync::mpsc::channel();
    let watcher = <notify::RecommendedWatcher as notify::Watcher>::new(
        move |res| {
            let _ = tx.send(res);
        },
        notify::Config::default().with_poll_interval(std::time::Duration::from_secs(2)),
    ).map_err(|e| format!("Failed to create watcher: {}", e))?;
    Ok((watcher, rx))
}

/// Relies on notify::Watcher::watch: registers a recursive watch on the path,
/// reporting the platform's message on failure.
#[verifier::external_body]
fn watch_recursive(w: &mut notify::RecommendedWatcher, path: &str) -> Result<(), String> {
    notify::Watcher::watch(
        w,
        std::path::Path::new(path),
        notify::RecursiveMode::Recursive,
    ).map_err(|e| format!("Failed to watch {:?}: {}", path, e))
}

/// Relies on std::path::Path::exists: whether the path currently exists on
/// disk.  The result depends on the filesystem, so nothing is promised.
#[verifier::external_body]
fn path_exists(path: &str) -> bool {
    std::path::Path::new(path).exists()
}

/// Relies on std::sync::mpsc::Receiver::try_recv: non-blocking; reports
/// whether the first queued item was a change event and, when it was, drains
/// everything else queued.  What is queued depends on outside filesystem
/// activity, so nothing is promised about the result.
#[verifier::external_body]
fn drain_events(rx: &Receiver<Result<notify::Event, notify::Error>>) -> bool {
    match rx.try_recv() {
        Ok(Ok(_)) => {
            while rx.try_recv().is_ok() {}
            true
        },
        _ => false,
    }
}

/// Watches a set of local directory trees and turns raw filesystem events
/// into one coalesced boolean signal.
pub struct FileWatcher {
    watcher: Option<notify::RecommendedWatcher>,
    rx: Option<Receiver<Result<notify::Event, notify::Error>>>,
}

impl FileWatcher {
    /// Whether the watcher currently holds a channel of raw events.
    pub closed spec fn watching(&self) -> bool {
        self.rx is Some
    }

    /// The watch handles and the event channel live and die together.
    pub closed spec fn wf(&self) -> bool {
        self.watcher is Some <==> self.rx is Some
    }

    /// A stopped watcher.
    pub fn new() -> (r: Self)
        ensures
            r.wf(),
            !r.watching(),
    {
        FileWatcher { watcher: None, rx: None }
    }

    /// Start watching the given directories for changes.  A path that does
    /// not currently exist is silently skipped.  On failure the watcher is
    /// left exactly as it was.
    pub fn start(&mut self, paths: &Vec<String>) -> (r: Result<(), String>)
        requires
            old(self).wf(),
        ensures
            final(self).wf(),
            r matches Ok(_) ==> final(self).watching(),
            r matches Err(_) ==> *final(self) == *old(self),
    {
        let created = new_watcher_channel();
        let (mut w, rx) = match created {
            Ok(p) => p,
            Err(e) => {
                return Err(e);
            },
        };
        let mut i: usize = 0;
        while i < paths.len()
            invariant
                i <= paths@.len(),
                *self == *old(self),
                old(self).wf(),
            decreases paths@.len() - i,
        {
            if path_exists(paths[i].as_str()) {
                match watch_recursive(&mut w, paths[i].as_str()) {
                    Ok(_) => {},
                    Err(e) => {
                        return Err(e);
                    },
                }
            }
            i = i + 1;
        }
        self.watcher = Some(w);
        self.rx = Some(rx);
        Ok(())
    }

    /// Stop watching: release all handles and discard anything queued.
    /// Idempotent; no partial state survives.
    pub fn stop(&mut self)
        ensures
            final(self).wf(),
            !final(self).watching(),
    {
        self.watcher = None;
        self.rx = None;
    }

    /// Whether at least one filesystem event arrived since the watcher
    /// started or since the previous call; a read that reports a change
    /// clears everything queued.  A watcher that is not watching reports no
    /// changes.
    pub fn has_changes(&self) -> (r: bool)
        ensures
            !self.watching() ==> r == false,
    {
        match &self.rx {
            None => false,
            Some(rx) => drain_events(rx),
        }
    }
}

impl Default for FileWatcher {
    /// Same as `FileWatcher::new`: a stopped watcher.
    fn default() -> (r: Self)
        ensures
            r.wf(),
            !r.watching(),
    {
        FileWatcher::new()
    }
}

} // verus!
