//! Server lifecycle: the listener, its advertisement and its withdrawal, and
//! the watchdog that shuts the server down once the supervising parent
//! process is gone.
use vstd::prelude::*;

verus! {

/// Process id that orphaned processes are re-parented to.
pub const ROOT_PARENT_ID: u32 = 1;

/// What the platform reports of the parent process.
#[derive(Clone, Copy, Debug, PartialEq, Eq, Structural)]
pub enum ParentReading {
    Id(u32),
    /// The platform cannot tell.
    Unsupported,
}

/// What the watchdog asks its driver to do after an event.
#[derive(Clone, Copy, Debug, PartialEq, Eq, Structural)]
pub enum WatchdogAction {
    /// Nothing: keep polling (or keep waiting).
    Keep,
    /// Send the shutdown signal, then wait for the grace interval.
    SignalShutdown,
    /// Tear down and exit now.
    Terminate,
}

#[derive(Clone, Copy, Debug, PartialEq, Eq, Structural)]
pub enum WatchPhase {
    /// Parentage cannot be observed here: the watchdog never acts.
    Dormant,
    /// The parent is alive as far as is known.
    Watching,
    /// The shutdown signal went out; waiting for the grace interval.
    Signalled,
    /// Termination was asked for; nothing more to do.
    Finished,
}

/// Watches the parent process recorded at startup.
#[derive(Clone, Copy, Debug, PartialEq, Eq, Structural)]
pub struct Watchdog {
    pub initial_parent: u32,
    pub has_shutdown_channel: bool,
    pub phase: WatchPhase,
}

/// The parent recorded at startup is presumed dead when the current parent
/// differs from it or is the root process.
pub open spec fn parent_lost(initial: u32, current: u32) -> bool {
    current != initial || current == ROOT_PARENT_ID
}

/// The watchdog as started with the parent read at startup.
pub open spec fn watchdog_start(initial: ParentReading, has_shutdown_channel: bool) -> Watchdog {
    match initial {
        ParentReading::Id(p) => Watchdog { initial_parent: p, has_shutdown_channel, phase: WatchPhase::Watching },
        ParentReading::Unsupported => Watchdog {
            initial_parent: 0,
            has_shutdown_channel,
            phase: WatchPhase::Dormant,
        },
    }
}

/// One polling cycle: only a watching watchdog that finds its parent lost
/// acts, by signalling when it has a channel and terminating otherwise.
pub open spec fn watchdog_poll(w: Watchdog, reading: ParentReading) -> (Watchdog, WatchdogAction) {
    match (w.phase, reading) {
        (WatchPhase::Watching, ParentReading::Id(c)) => if parent_lost(w.initial_parent, c) {
            if w.has_shutdown_channel {
                (Watchdog { phase: WatchPhase::Signalled, ..w }, WatchdogAction::SignalShutdown)
            } else {
                (Watchdog { phase: WatchPhase::Finished, ..w }, WatchdogAction::Terminate)
            }
        } else {
            (w, WatchdogAction::Keep)
        },
        _ => (w, WatchdogAction::Keep),
    }
}

/// The grace interval after the signal ran out: force termination.
pub open spec fn watchdog_grace_elapsed(w: Watchdog) -> (Watchdog, WatchdogAction) {
    if w.phase == WatchPhase::Signalled {
        (Watchdog { phase: WatchPhase::Finished, ..w }, WatchdogAction::Terminate)
    } else {
        (w, WatchdogAction::Keep)
    }
}

impl Watchdog {
    /// Record the parent read at startup; without one the watchdog is dormant.
    pub fn start(initial: ParentReading, has_shutdown_channel: bool) -> (r: Watchdog)
        ensures
            r == watchdog_start(initial, has_shutdown_channel),
    {
        match initial {
            ParentReading::Id(p) => Watchdog { initial_parent: p, has_shutdown_channel, phase: WatchPhase::Watching },
            ParentReading::Unsupported => Watchdog {
                initial_parent: 0,
                has_shutdown_channel,
                phase: WatchPhase::Dormant,
            },
        }
    }

    /// A polling cycle that read `reading` as the current parent.
    pub fn poll(&mut self, reading: ParentReading) -> (r: WatchdogAction)
        ensures
            (*final(self), r) == watchdog_poll(*old(self), reading),
    {
        match (self.phase, reading) {
            (WatchPhase::Watching, ParentReading::Id(c)) => {
                if c != self.initial_parent || c == ROOT_PARENT_ID {
                    if self.has_shutdown_channel {
                        self.phase = WatchPhase::Signalled;
                        WatchdogAction::SignalShutdown
                    } else {
                        self.phase = WatchPhase::Finished;
                        WatchdogAction::Terminate
                    }
                } else {
                    WatchdogAction::Keep
                }
            },
            _ => WatchdogAction::Keep,
        }
    }

    /// The grace interval after the shutdown signal has elapsed and the
    /// process is still running.
    pub fn grace_elapsed(&mut self) -> (r: WatchdogAction)
        ensures
            (*final(self), r) == watchdog_grace_elapsed(*old(self)),
    {
        if self.phase == WatchPhase::Signalled {
            self.phase = WatchPhase::Finished;
            WatchdogAction::Terminate
        } else {
            WatchdogAction::Keep
        }
    }
}

/// Where the server stands: the bound port, whether its descriptor was
/// written, whether shutdown began, whether the descriptor was removed.
#[derive(Clone, Copy, Debug, PartialEq, Eq, Structural)]
pub struct Lifecycle {
    pub port: Option<u16>,
    pub advertised: bool,
    pub shutting_down: bool,
    pub lock_removed: bool,
}

/// A descriptor is only ever written for a bound port, and only removed
/// once shutdown began.
pub open spec fn lifecycle_wf(l: Lifecycle) -> bool {
    &&& l.advertised ==> l.port is Some
    &&& l.lock_removed ==> l.shutting_down && l.advertised
}

/// The listener is bound to `port` (the first binding counts).
pub open spec fn lifecycle_bound(l: Lifecycle, port: u16) -> Lifecycle {
    if l.port is None && !l.shutting_down {
        Lifecycle { port: Some(port), ..l }
    } else {
        l
    }
}

/// Advertise the bound port: the port whose descriptor is to be written, if
/// the listener is bound, nothing was advertised yet and shutdown has not begun.
pub open spec fn lifecycle_advertise(l: Lifecycle) -> (Lifecycle, Option<u16>) {
    if l.port is Some && !l.advertised && !l.shutting_down {
        (Lifecycle { advertised: true, ..l }, l.port)
    } else {
        (l, None)
    }
}

/// Shutdown: stop accepting; the port whose descriptor is to be removed the
/// first time, and nothing on every later call.
pub open spec fn lifecycle_shutdown(l: Lifecycle) -> (Lifecycle, Option<u16>) {
    if l.advertised && !l.lock_removed {
        (Lifecycle { shutting_down: true, lock_removed: true, ..l }, l.port)
    } else {
        (Lifecycle { shutting_down: true, ..l }, None)
    }
}

impl Lifecycle {
    /// Nothing bound, nothing advertised.
    pub fn new() -> (r: Lifecycle)
        ensures
            r == (Lifecycle { port: None, advertised: false, shutting_down: false, lock_removed: false }),
            lifecycle_wf(r),
    {
        Lifecycle { port: None, advertised: false, shutting_down: false, lock_removed: false }
    }

    /// Record that the listener is bound to `port`.
    pub fn listener_bound(&mut self, port: u16)
        requires
            lifecycle_wf(*old(self)),
        ensures
            *final(self) == lifecycle_bound(*old(self), port),
            lifecycle_wf(*final(self)),
    {
        if self.port.is_none() && !self.shutting_down {
            self.port = Some(port);
        }
    }

    /// The port to write the descriptor for, if it may be advertised now.
    pub fn advertise(&mut self) -> (r: Option<u16>)
        requires
            lifecycle_wf(*old(self)),
        ensures
            (*final(self), r) == lifecycle_advertise(*old(self)),
            lifecycle_wf(*final(self)),
    {
        if self.port.is_some() && !self.advertised && !self.shutting_down {
            self.advertised = true;
            self.port
        } else {
            None
        }
    }

    /// Whether new connections are to be accepted.
    pub fn accepting(&self) -> (r: bool)
        ensures
            r == (self.port is Some && !self.shutting_down),
    {
        self.port.is_some() && !self.shutting_down
    }

    /// Begin shutdown; the port whose descriptor is to be removed, once.
    pub fn shutdown(&mut self) -> (r: Option<u16>)
        requires
            lifecycle_wf(*old(self)),
        ensures
            (*final(self), r) == lifecycle_shutdown(*old(self)),
            lifecycle_wf(*final(self)),
    {
        self.shutting_down = true;
        if self.advertised && !self.lock_removed {
            self.lock_removed = true;
            self.port
        } else {
            None
        }
    }
}

/// The driver's reaction to a watchdog action: on a signal or a termination
/// it runs the shutdown path.
pub open spec fn react(l: Lifecycle, a: WatchdogAction) -> (Lifecycle, Option<u16>) {
    if a == WatchdogAction::Keep {
        (l, None)
    } else {
        lifecycle_shutdown(l)
    }
}

/// Polling cycles that read `readings` in turn: the final states, how many
/// shutdown signals went out, and how many descriptor removals were asked for.
pub open spec fn run_polls(w: Watchdog, l: Lifecycle, readings: Seq<ParentReading>) -> (Watchdog, Lifecycle, nat, nat)
    decreases readings.len(),
{
    if readings.len() == 0 {
        (w, l, 0, 0)
    } else {
        let (w1, a) = watchdog_poll(w, readings[0]);
        let (l1, removed) = react(l, a);
        let (w2, l2, signals, removals) = run_polls(w1, l1, readings.drop_first());
        (
            w2,
            l2,
            signals + if a == WatchdogAction::SignalShutdown { 1nat } else { 0nat },
            removals + if removed is Some { 1nat } else { 0nat },
        )
    }
}

proof fn lemma_signalled_stays_quiet(w: Watchdog, l: Lifecycle, readings: Seq<ParentReading>)
    requires
        w.phase == WatchPhase::Signalled,
        l.lock_removed,
    ensures
        run_polls(w, l, readings).2 == 0,
        run_polls(w, l, readings).3 == 0,
    decreases readings.len(),
{
    if readings.len() > 0 {
        let (w1, a) = watchdog_poll(w, readings[0]);
        let (l1, removed) = react(l, a);
        lemma_signalled_stays_quiet(w1, l1, readings.drop_first());
    }
}

/// Once the parent changes, any number of polling cycles that all observe the
/// change send exactly one shutdown signal and ask for exactly one removal of
/// the advertised descriptor.
pub proof fn lemma_parent_change_shuts_down_once(w: Watchdog, l: Lifecycle, readings: Seq<ParentReading>)
    requires
        w.phase == WatchPhase::Watching,
        w.has_shutdown_channel,
        lifecycle_wf(l),
        l.advertised,
        !l.lock_removed,
        readings.len() >= 1,
        forall|i: int|
            0 <= i < readings.len() ==> (#[trigger] readings[i] matches ParentReading::Id(c) && parent_lost(
                w.initial_parent,
                c,
            )),
    ensures
        run_polls(w, l, readings).2 == 1,
        run_polls(w, l, readings).3 == 1,
{
    let (w1, a) = watchdog_poll(w, readings[0]);
    assert(a == WatchdogAction::SignalShutdown);
    let (l1, removed) = react(l, a);
    assert(removed is Some);
    lemma_signalled_stays_quiet(w1, l1, readings.drop_first());
}

} // verus!
