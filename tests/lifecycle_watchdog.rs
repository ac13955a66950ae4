use claude_code_server::lifecycle::{Lifecycle, ParentReading, WatchPhase, Watchdog, WatchdogAction};

fn advertised(port: u16) -> Lifecycle {
    let mut l = Lifecycle::new();
    l.listener_bound(port);
    assert_eq!(l.advertise(), Some(port));
    l
}

#[test]
fn parent_change_signals_once_and_removes_once() {
    let mut w = Watchdog::start(ParentReading::Id(100), true);
    let mut l = advertised(59792);
    let mut signals = 0;
    let mut removals = Vec::new();
    for _ in 0..4 {
        let a = w.poll(ParentReading::Id(200));
        if a == WatchdogAction::SignalShutdown {
            signals += 1;
        }
        if a != WatchdogAction::Keep {
            if let Some(p) = l.shutdown() {
                removals.push(p);
            }
        }
    }
    assert_eq!(signals, 1);
    assert_eq!(removals, vec![59792]);
    assert_eq!(w.grace_elapsed(), WatchdogAction::Terminate);
    assert_eq!(w.grace_elapsed(), WatchdogAction::Keep);
    assert_eq!(l.shutdown(), None);
}

#[test]
fn unchanged_parent_keeps_watching() {
    let mut w = Watchdog::start(ParentReading::Id(100), true);
    for _ in 0..3 {
        assert_eq!(w.poll(ParentReading::Id(100)), WatchdogAction::Keep);
    }
    assert_eq!(w.phase, WatchPhase::Watching);
    assert_eq!(w.grace_elapsed(), WatchdogAction::Keep);
}

#[test]
fn reparented_to_root_is_parent_loss() {
    let mut w = Watchdog::start(ParentReading::Id(1), true);
    assert_eq!(w.poll(ParentReading::Id(1)), WatchdogAction::SignalShutdown);
}

#[test]
fn without_channel_terminates_at_once() {
    let mut w = Watchdog::start(ParentReading::Id(100), false);
    assert_eq!(w.poll(ParentReading::Id(300)), WatchdogAction::Terminate);
    assert_eq!(w.poll(ParentReading::Id(300)), WatchdogAction::Keep);
}

#[test]
fn unsupported_platform_is_dormant() {
    let mut w = Watchdog::start(ParentReading::Unsupported, true);
    assert_eq!(w.phase, WatchPhase::Dormant);
    assert_eq!(w.poll(ParentReading::Id(1)), WatchdogAction::Keep);
    assert_eq!(w.grace_elapsed(), WatchdogAction::Keep);
}

#[test]
fn nothing_advertised_before_bind_or_after_shutdown() {
    let mut l = Lifecycle::new();
    assert_eq!(l.advertise(), None);
    assert!(!l.accepting());
    l.listener_bound(5000);
    assert!(l.accepting());
    assert_eq!(l.advertise(), Some(5000));
    assert_eq!(l.advertise(), None);
    assert_eq!(l.shutdown(), Some(5000));
    assert!(!l.accepting());
    assert_eq!(l.shutdown(), None);

    let mut early = Lifecycle::new();
    early.listener_bound(5001);
    assert_eq!(early.shutdown(), None);
    assert_eq!(early.advertise(), None);
}
