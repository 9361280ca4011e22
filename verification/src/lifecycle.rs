//! The lifecycle every engine follows: `New -> Watching -> Running -> Closed`,
//! with `close` idempotent and terminal.

use vstd::prelude::*;
use crate::errors::KanshiError;

verus! {

/// Where an engine stands in its life.
#[derive(Clone, Copy, Debug, PartialEq, Eq, Structural)]
pub enum LifecycleState {
    /// Constructed; no roots added yet.
    New,
    /// One or more roots added; not yet started.
    Watching,
    /// The read loop runs.
    Running,
    /// Closed; terminal.
    Closed,
}

/// Whether `watch` is legal in `s`.  Backends that keep their kernel marks
/// adjustable (inotify, fanotify) accept `watch` while running; the FSEvents
/// backend does not.
pub open spec fn spec_watch_allowed(s: LifecycleState, watch_while_running: bool) -> bool {
    match s {
        LifecycleState::New => true,
        LifecycleState::Watching => true,
        LifecycleState::Running => watch_while_running,
        LifecycleState::Closed => false,
    }
}

/// What one `close` call does: the state becomes `Closed`; the call reports
/// success unless this very call had to detach kernel resources and failed.
pub open spec fn spec_close(s: LifecycleState, detach_ok: bool) -> (LifecycleState, bool) {
    if s is Closed {
        (LifecycleState::Closed, true)
    } else {
        (LifecycleState::Closed, detach_ok)
    }
}

/// The lifecycle controller an engine embeds.
#[derive(Clone, Copy, Debug)]
pub struct Lifecycle {
    pub state: LifecycleState,
}

impl Lifecycle {
    /// A fresh controller in `New`.
    pub fn new() -> (r: Lifecycle)
        ensures
            r.state == LifecycleState::New,
    {
        Lifecycle { state: LifecycleState::New }
    }

    /// Record a `watch` call.  Legal in `New` and `Watching`; legal in
    /// `Running` only when the backend allows it; an error after `close`
    /// or, on a forbidding backend, after `start`.
    pub fn on_watch(&mut self, watch_while_running: bool) -> (r: Result<(), KanshiError>)
        ensures
            r is Ok <==> spec_watch_allowed(old(self).state, watch_while_running),
            r is Ok ==> final(self).state == (if old(self).state is Running {
                LifecycleState::Running
            } else {
                LifecycleState::Watching
            }),
            r is Err ==> *final(self) == *old(self),
            old(self).state is Closed ==> (r matches Err(e) && e is StreamClosedError),
            old(self).state is Running && !watch_while_running ==> (r matches Err(e)
                && e is ListenerStartedError),
    {
        match self.state {
            LifecycleState::New => {
                self.state = LifecycleState::Watching;
                Ok(())
            },
            LifecycleState::Watching => Ok(()),
            LifecycleState::Running => {
                if watch_while_running {
                    Ok(())
                } else {
                    Err(KanshiError::ListenerStartedError)
                }
            },
            LifecycleState::Closed => Err(KanshiError::StreamClosedError),
        }
    }

    /// Record a `start` call.  Legal exactly once: an error when already
    /// running, and an error after `close`.
    pub fn on_start(&mut self) -> (r: Result<(), KanshiError>)
        ensures
            r is Ok <==> (old(self).state is New || old(self).state is Watching),
            r is Ok ==> final(self).state == LifecycleState::Running,
            r is Err ==> *final(self) == *old(self),
            old(self).state is Running ==> (r matches Err(e) && e is ListenerStartedError),
            old(self).state is Closed ==> (r matches Err(e) && e is StreamClosedError),
    {
        match self.state {
            LifecycleState::New | LifecycleState::Watching => {
                self.state = LifecycleState::Running;
                Ok(())
            },
            LifecycleState::Running => Err(KanshiError::ListenerStartedError),
            LifecycleState::Closed => Err(KanshiError::StreamClosedError),
        }
    }

    /// Record a `close` call.  `detach_ok` reports whether detaching the
    /// kernel resources succeeded; it is consulted only the first time, so a
    /// repeated `close` always succeeds.
    pub fn on_close(&mut self, detach_ok: bool) -> (r: bool)
        ensures
            (final(self).state, r) == spec_close(old(self).state, detach_ok),
    {
        if matches!(self.state, LifecycleState::Closed) {
            true
        } else {
            self.state = LifecycleState::Closed;
            detach_ok
        }
    }
}

/// P4: `close` is idempotent.  Whatever the first close reported, a second
/// close finds the engine already closed, changes nothing, and returns true.
pub proof fn lemma_close_idempotent(s: LifecycleState, ok1: bool, ok2: bool)
    ensures
        spec_close(spec_close(s, ok1).0, ok2).1 == true,
        spec_close(spec_close(s, ok1).0, ok2).0 == LifecycleState::Closed,
{
}

} // verus!
