use fade_display::watcher::{Signal, TransitionWatcher};

#[test]
fn fires_when_transition_stops() {
    let mut watcher = TransitionWatcher::arm(true);
    assert!(!watcher.has_fired());
    assert!(!watcher.needs_tick());
    assert!(!watcher.on_notify(true));
    assert!(!watcher.has_fired());
    assert!(watcher.on_notify(false));
    assert!(watcher.has_fired());
}

#[test]
fn fires_only_once() {
    let mut watcher = TransitionWatcher::arm(true);
    assert!(watcher.on_notify(false));
    assert!(!watcher.on_notify(false));
    assert!(!watcher.on_notify(true));
    assert!(!watcher.on_notify(false));
    assert!(!watcher.on_tick());
    assert!(watcher.has_fired());
}

#[test]
fn never_fires_while_transition_keeps_running() {
    let mut watcher = TransitionWatcher::arm(true);
    for _ in 0..5 {
        assert!(!watcher.on_notify(true));
        assert!(!watcher.on_tick());
    }
    assert!(!watcher.has_fired());
}

#[test]
fn armed_after_transition_finished_fires_on_next_tick() {
    let mut watcher = TransitionWatcher::arm(false);
    assert!(!watcher.has_fired());
    assert!(watcher.needs_tick());
    assert!(watcher.on_tick());
    assert!(watcher.has_fired());
    assert!(!watcher.needs_tick());
    assert!(!watcher.on_tick());
    assert!(!watcher.on_notify(false));
}

#[test]
fn notification_before_the_tick_fires_and_the_tick_does_not() {
    let mut watcher = TransitionWatcher::arm(false);
    assert!(watcher.on_notify(false));
    assert!(!watcher.needs_tick());
    assert!(!watcher.on_tick());
}

#[test]
fn tick_means_nothing_to_a_watcher_armed_while_running() {
    let mut watcher = TransitionWatcher::arm(true);
    assert!(!watcher.on_tick());
    assert!(!watcher.has_fired());
    assert!(watcher.on_notify(false));
}

#[test]
fn signals_are_what_notify_and_tick_hand_on() {
    let mut by_signal = TransitionWatcher::arm(true);
    let mut by_method = TransitionWatcher::arm(true);
    assert_eq!(by_signal.on_signal(Signal::Tick), by_method.on_tick());
    assert_eq!(by_signal.on_signal(Signal::Notify { running: true }), by_method.on_notify(true));
    assert_eq!(by_signal.on_signal(Signal::Notify { running: false }), by_method.on_notify(false));
    assert_eq!(by_signal, by_method);
    assert!(by_signal.has_fired());
}

#[test]
fn exactly_one_signal_of_a_run_fires() {
    let runs: [&[bool]; 4] = [
        &[true, true, false, true, false],
        &[false],
        &[false, false, false],
        &[true, false, false, true],
    ];
    for run in runs {
        let mut watcher = TransitionWatcher::arm(true);
        let fired: Vec<bool> = run.iter().map(|running| watcher.on_notify(*running)).collect();
        let first_stop = run.iter().position(|running| !*running).unwrap();
        for (index, fire) in fired.iter().enumerate() {
            assert_eq!(*fire, index == first_stop);
        }
    }
}
