//! Engine selection and the facade every host drives: which backend a
//! platform gets, and the lifecycle/fan-out core the backends share.

use vstd::prelude::*;
use crate::broadcast::{BroadcastChannel, BroadcastSubscriber, ChannelModel};
use crate::errors::KanshiError;
use crate::events::FileSystemEvent;
use crate::lifecycle::{Lifecycle, LifecycleState, spec_close, spec_watch_allowed};
use crate::strutil::str_eq;

verus! {

/// The platform the facade is selecting an engine for.
#[derive(Clone, Copy, Debug, PartialEq, Eq, Structural)]
pub enum Platform {
    Linux,
    MacOs,
    Windows,
}

/// The concrete backends.
#[derive(Clone, Copy, Debug, PartialEq, Eq, Structural)]
pub enum KanshiEngines {
    /// Linux, filesystem-wide or directory-scoped marks; needs privilege.
    Fanotify,
    /// Linux, one watch descriptor per directory.
    Inotify,
    /// macOS CoreServices stream.
    FSEvents,
    /// Windows; reserved, not implemented.
    ReadDirectoryChangesW,
}

impl KanshiEngines {
    /// Parse a forced-engine option value.  The allowed strings are
    /// platform-specific; anything else is an invalid parameter.
    pub fn from(platform: Platform, string: &str) -> (r: Result<KanshiEngines, KanshiError>)
        ensures
            platform is Linux && string@ == "fanotify"@ ==> (r matches Ok(e)
                && e is Fanotify),
            platform is Linux && string@ == "inotify"@ ==> (r matches Ok(e)
                && e is Inotify),
            platform is Linux && string@ != "fanotify"@ && string@ != "inotify"@ ==> (r
                matches Err(e) && e matches KanshiError::InvalidParameter(m)
                && m@ == "Invalid engine. Allowed values are: 'fanotify', 'inotify'."@),
            platform is MacOs && string@ == "fsevents"@ ==> (r matches Ok(e)
                && e is FSEvents),
            platform is MacOs && string@ != "fsevents"@ ==> (r matches Err(e)
                && e matches KanshiError::InvalidParameter(m)
                && m@ == "Invalid engine. Allowed values are: 'fsevents'"@),
            platform is Windows && string@ == "readdirectorychangesw"@ ==> (r matches Ok(e)
                && e is ReadDirectoryChangesW),
            platform is Windows && string@ != "readdirectorychangesw"@ ==> (r matches Err(e)
                && e matches KanshiError::InvalidParameter(m)
                && m@ == "Invalid engine. Allowed values are: 'fanotify', 'inotify'."@),
    {
        match platform {
            Platform::Linux => {
                proof {
                    reveal_strlit("fanotify");
                    reveal_strlit("inotify");
                    assert("fanotify"@.len() == 8);
                    assert("inotify"@.len() == 7);
                }
                if str_eq(string, "fanotify") {
                    Ok(KanshiEngines::Fanotify)
                } else if str_eq(string, "inotify") {
                    Ok(KanshiEngines::Inotify)
                } else {
                    Err(KanshiError::InvalidParameter(String::from_str(
                        "Invalid engine. Allowed values are: 'fanotify', 'inotify'.",
                    )))
                }
            },
            Platform::MacOs => {
                if str_eq(string, "fsevents") {
                    Ok(KanshiEngines::FSEvents)
                } else {
                    Err(KanshiError::InvalidParameter(String::from_str(
                        "Invalid engine. Allowed values are: 'fsevents'",
                    )))
                }
            },
            Platform::Windows => {
                if str_eq(string, "readdirectorychangesw") {
                    Ok(KanshiEngines::ReadDirectoryChangesW)
                } else {
                    Err(KanshiError::InvalidParameter(String::from_str(
                        "Invalid engine. Allowed values are: 'fanotify', 'inotify'.",
                    )))
                }
            },
        }
    }

    /// Whether this backend accepts `watch` while the read loop runs.
    pub fn allows_watch_while_running(&self) -> (r: bool)
        ensures
            r == spec_watch_while_running(*self),
    {
        matches!(self, KanshiEngines::Fanotify | KanshiEngines::Inotify)
    }
}

/// The backends whose kernel marks stay adjustable after `start`.
pub open spec fn spec_watch_while_running(e: KanshiEngines) -> bool {
    e is Fanotify || e is Inotify
}

/// The engine a platform gets when none is forced: FSEvents on macOS, the
/// reserved backend on Windows, and on Linux fanotify for the superuser
/// (effective UID zero) and inotify for everyone else.
pub open spec fn spec_default_engine(platform: Platform, euid: u32) -> KanshiEngines {
    match platform {
        Platform::Linux => if euid == 0 {
            KanshiEngines::Fanotify
        } else {
            KanshiEngines::Inotify
        },
        Platform::MacOs => KanshiEngines::FSEvents,
        Platform::Windows => KanshiEngines::ReadDirectoryChangesW,
    }
}

/// Options accepted when constructing the facade.
pub struct KanshiOptions {
    /// Overrides the platform default when present.
    pub force_engine: Option<KanshiEngines>,
}

/// The Linux backends, as the engine-level option surface names them.
#[derive(Clone, Copy, Debug, PartialEq, Eq, Structural)]
pub enum LinuxEngines {
    Fanotify,
    Inotify,
}

/// Options accepted by the engine-level tracers.
pub struct TracerOptions {
    /// Overrides the default Linux backend when present.
    pub force_engine: Option<LinuxEngines>,
}

/// The watching strategies the engine layer distinguishes; the syscall
/// strategy is experimental and unused by the core.
#[derive(Clone, Copy, Debug, PartialEq, Eq, Structural)]
pub enum WatcherMode {
    INotify,
    Fanotify,
    SysCalls,
}

/// The reserved Windows backend: declared so hosts can name it, not
/// implemented.
#[derive(Clone, Copy, Debug)]
pub struct ReadDirectoryChangesTracer {}

/// Pick the backend: the forced one when given, else the platform default.
pub fn select_engine(opts: &KanshiOptions, platform: Platform, euid: u32) -> (r: KanshiEngines)
    ensures
        opts.force_engine matches Some(e) ==> r == e,
        opts.force_engine is None ==> r == spec_default_engine(platform, euid),
{
    match &opts.force_engine {
        Some(e) => *e,
        None => {
            match platform {
                Platform::Linux => {
                    if euid == 0 {
                        KanshiEngines::Fanotify
                    } else {
                        KanshiEngines::Inotify
                    }
                },
                Platform::MacOs => KanshiEngines::FSEvents,
                Platform::Windows => KanshiEngines::ReadDirectoryChangesW,
            }
        },
    }
}

/// Every engine's broadcast channel holds this many events per subscriber.
pub const DEFAULT_CHANNEL_CAPACITY: usize = 32;

/// The facade core: the chosen backend, the lifecycle gate, and the
/// broadcast channel the backend publishes into.  The host runtime performs
/// the kernel calls; every decision recorded here is verified.
pub struct Kanshi {
    pub engine: KanshiEngines,
    pub lifecycle: Lifecycle,
    pub channel: BroadcastChannel,
}

impl Kanshi {
    /// Construct the facade for the chosen backend.
    pub fn new(opts: &KanshiOptions, platform: Platform, euid: u32) -> (r: Kanshi)
        ensures
            opts.force_engine matches Some(e) ==> r.engine == e,
            opts.force_engine is None ==> r.engine == spec_default_engine(platform, euid),
            r.lifecycle.state == LifecycleState::New,
            r.channel@.history.len() == 0,
            !r.channel@.closed,
            r.channel@.capacity == DEFAULT_CHANNEL_CAPACITY as nat,
    {
        Kanshi {
            engine: select_engine(opts, platform, euid),
            lifecycle: Lifecycle::new(),
            channel: BroadcastChannel::new(DEFAULT_CHANNEL_CAPACITY),
        }
    }

    /// Gate a `watch` call: closed engines refuse, backends that forbid
    /// watching after `start` refuse while running, and a root that does not
    /// exist is a filesystem error.
    pub fn watch(&mut self, exists: bool) -> (r: Result<(), KanshiError>)
        ensures
            final(self).engine == old(self).engine,
            final(self).channel == old(self).channel,
            old(self).lifecycle.state is Closed ==> (r matches Err(e)
                && e is StreamClosedError),
            old(self).lifecycle.state is Running && !spec_watch_while_running(
                old(self).engine) ==> (r matches Err(e) && e is ListenerStartedError),
            spec_watch_allowed(old(self).lifecycle.state, spec_watch_while_running(
                old(self).engine)) && !exists ==> (r matches Err(e)
                && e matches KanshiError::FileSystemError(m)
                && m@ == "ENOENT Directory does not exist"@),
            r is Ok <==> (spec_watch_allowed(old(self).lifecycle.state,
                spec_watch_while_running(old(self).engine)) && exists),
            r is Ok ==> final(self).lifecycle.state == (if old(self).lifecycle.state
                is Running {
                LifecycleState::Running
            } else {
                LifecycleState::Watching
            }),
            r is Err ==> final(self).lifecycle == old(self).lifecycle,
    {
        let allows = self.engine.allows_watch_while_running();
        let pre = self.lifecycle;
        match self.lifecycle.on_watch(allows) {
            Ok(()) => {
                if exists {
                    Ok(())
                } else {
                    self.lifecycle = pre;
                    Err(KanshiError::FileSystemError(String::from_str(
                        "ENOENT Directory does not exist",
                    )))
                }
            },
            Err(e) => Err(e),
        }
    }

    /// Gate a `start` call: legal exactly once, an error while running and
    /// after close.
    pub fn start(&mut self) -> (r: Result<(), KanshiError>)
        ensures
            final(self).engine == old(self).engine,
            final(self).channel == old(self).channel,
            r is Ok <==> (old(self).lifecycle.state is New || old(self).lifecycle.state
                is Watching),
            r is Ok ==> final(self).lifecycle.state == LifecycleState::Running,
            r is Err ==> final(self).lifecycle == old(self).lifecycle,
            old(self).lifecycle.state is Running ==> (r matches Err(e)
                && e is ListenerStartedError),
            old(self).lifecycle.state is Closed ==> (r matches Err(e)
                && e is StreamClosedError),
    {
        self.lifecycle.on_start()
    }

    /// Publish one translated event to every subscriber.  Fails with the
    /// stream-closed error exactly when the channel was already closed, which
    /// is what aborts a backend's read loop after `close`.
    pub fn publish(&mut self, ev: FileSystemEvent) -> (r: Result<(), KanshiError>)
        ensures
            final(self).engine == old(self).engine,
            final(self).lifecycle == old(self).lifecycle,
            old(self).channel@.closed ==> (r matches Err(e) && e is StreamClosedError
                && final(self).channel@ == old(self).channel@),
            !old(self).channel@.closed ==> (r is Ok && final(self).channel@ == (ChannelModel {
                history: old(self).channel@.history.push(ev@),
                ..old(self).channel@
            })),
    {
        self.channel.send(ev)
    }

    /// Attach a new subscriber; it sees only events published after this.
    pub fn subscribe(&self) -> (s: BroadcastSubscriber)
        ensures
            s.cursor == self.channel@.history.len(),
    {
        self.channel.subscribe()
    }

    /// Close the facade: terminal for the lifecycle and the channel, and
    /// idempotent — a repeated close reports success without consulting
    /// `detach_ok` again.
    pub fn close(&mut self, detach_ok: bool) -> (r: bool)
        ensures
            final(self).engine == old(self).engine,
            (final(self).lifecycle.state, r) == spec_close(old(self).lifecycle.state,
                detach_ok),
            final(self).channel@ == (ChannelModel { closed: true, ..old(self).channel@ }),
    {
        let r = self.lifecycle.on_close(detach_ok);
        self.channel.close();
        r
    }
}

} // verus!
