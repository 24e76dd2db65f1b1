use boxing_timer::{BoxingRounds, BoxingTimer, Msg, State};

fn quick_config() -> BoxingRounds {
    BoxingRounds { wait: 1000, fight: 1000, rest: 1000, interval: 1000, rounds: 2 }
}

#[test]
fn fresh_clock_has_documented_initial_state() {
    let config = BoxingRounds::default();
    let t = BoxingTimer::new(&config);
    assert_eq!(t.state, State::Waiting);
    assert_eq!(t.round, 0);
    assert_eq!(t.remaining(), config.wait);
    assert_eq!(t.remaining(), 5000);
    assert!(!t.paused);
}

#[test]
fn fresh_clock_tracks_any_config() {
    let config = BoxingRounds { wait: 42, fight: 7, rest: 3, interval: 9, rounds: 0 };
    let t = BoxingTimer::new(&config);
    assert_eq!(t.state(), State::Waiting);
    assert_eq!(t.round(), 0);
    assert_eq!(t.remaining(), 42);
    assert!(!t.paused());
}

#[test]
fn seeded_clock_keeps_seed() {
    let config = BoxingRounds::default();
    let t = BoxingTimer::with_seed(&config, 7, true);
    assert_eq!(t.round, 7);
    assert_eq!(t.state, State::Waiting);
    assert_eq!(t.remaining(), 5000);
    assert!(t.paused);
}

#[test]
fn paused_tick_changes_nothing() {
    let config = quick_config();
    let mut t = BoxingTimer::new(&config);
    t.toggle_pause();
    let before = t;
    for _ in 0..10 {
        let notify = t.tick(&config);
        assert!(!notify);
        assert_eq!(t, before);
    }
}

#[test]
fn paused_tick_changes_nothing_at_boundary() {
    let config = quick_config();
    let mut t = BoxingTimer::new(&config);
    let _ = t.tick(&config);
    assert_eq!(t.remaining(), 0);
    t.toggle_pause();
    let before = t;
    let notify = t.tick(&config);
    assert!(!notify);
    assert_eq!(t, before);
}

#[test]
fn countdown_decrements_by_exactly_one_interval() {
    let config = BoxingRounds { wait: 5000, fight: 1000, rest: 1000, interval: 1500, rounds: 2 };
    let mut t = BoxingTimer::new(&config);
    let notify = t.tick(&config);
    assert!(!notify);
    assert_eq!(t.remaining(), 3500);
    assert_eq!(t.state(), State::Waiting);
    assert_eq!(t.round(), 0);
    assert!(!t.paused());
}

#[test]
fn countdown_floors_at_zero() {
    let config = BoxingRounds { wait: 500, fight: 1000, rest: 1000, interval: 1000, rounds: 2 };
    let mut t = BoxingTimer::new(&config);
    let notify = t.tick(&config);
    assert!(!notify);
    assert_eq!(t.remaining(), 0);
    assert_eq!(t.state(), State::Waiting);
}

#[test]
fn round_boundary_scenario() {
    let config = quick_config();
    let mut t = BoxingTimer::new(&config);
    assert_eq!((t.state, t.round, t.remaining()), (State::Waiting, 0, 1000));

    assert!(!t.tick(&config));
    assert_eq!((t.state, t.round, t.remaining()), (State::Waiting, 0, 0));
    assert!(t.tick(&config));
    assert_eq!((t.state, t.round, t.remaining()), (State::Fighting, 1, 1000));

    assert!(!t.tick(&config));
    assert_eq!((t.state, t.round, t.remaining()), (State::Fighting, 1, 0));
    assert!(t.tick(&config));
    assert_eq!((t.state, t.round, t.remaining()), (State::Resting, 1, 1000));

    assert!(!t.tick(&config));
    assert_eq!((t.state, t.round, t.remaining()), (State::Resting, 1, 0));
    assert!(t.tick(&config));
    assert_eq!((t.state, t.round, t.remaining()), (State::Fighting, 2, 1000));

    assert!(!t.tick(&config));
    assert_eq!((t.state, t.round, t.remaining()), (State::Fighting, 2, 0));
    assert!(t.tick(&config));
    assert_eq!((t.state, t.round, t.remaining()), (State::Finished, 2, 0));
}

#[test]
fn finished_state_is_idempotent() {
    let config = quick_config();
    let mut t = BoxingTimer::new(&config);
    for _ in 0..8 {
        let _ = t.tick(&config);
    }
    assert_eq!(t.state, State::Finished);
    for _ in 0..20 {
        let notify = t.tick(&config);
        assert!(!notify);
        assert_eq!(t.state, State::Finished);
        assert_eq!(t.remaining(), 0);
    }
}

#[test]
fn reset_returns_to_waiting_and_preserves_paused() {
    let config = quick_config();
    let mut t = BoxingTimer::new(&config);
    for _ in 0..3 {
        let _ = t.tick(&config);
    }
    t.toggle_pause();
    assert!(t.paused);
    t.reset(config.wait);
    assert_eq!(t.state, State::Waiting);
    assert_eq!(t.round, 0);
    assert_eq!(t.remaining(), 1000);
    assert!(t.paused);
}

#[test]
fn reset_preserves_running_state_too() {
    let config = quick_config();
    let mut t = BoxingTimer::new(&config);
    for _ in 0..5 {
        let _ = t.tick(&config);
    }
    t.reset(777);
    assert_eq!(t.state, State::Waiting);
    assert_eq!(t.round, 0);
    assert_eq!(t.remaining(), 777);
    assert!(!t.paused);
}

#[test]
fn toggle_pause_twice_restores_everything() {
    let config = quick_config();
    let mut t = BoxingTimer::new(&config);
    let _ = t.tick(&config);
    let before = t;
    t.toggle_pause();
    assert!(t.paused);
    assert_eq!(t.round, before.round);
    assert_eq!(t.state, before.state);
    assert_eq!(t.remaining(), before.remaining());
    t.toggle_pause();
    assert_eq!(t, before);
}

#[test]
fn round_counter_wraps_to_zero_past_round_count() {
    // A seeded round equal to the round count: the first boundary pushes
    // the counter past the count and it wraps back to zero while the
    // session keeps going.
    let config = quick_config();
    let mut t = BoxingTimer::with_seed(&config, 2, false);
    let _ = t.tick(&config);
    let notify = t.tick(&config);
    assert!(notify);
    assert_eq!(t.state, State::Fighting);
    assert_eq!(t.round, 0);
}

#[test]
fn resting_past_round_count_finishes_silently() {
    // The one transition that raises no cue: resting while the round
    // counter is already at the round count. The counter then wraps to
    // zero even though the phase is terminal.
    let config = quick_config();
    let mut t = BoxingTimer { round: 2, state: State::Resting, timeout: 0, paused: false };
    let notify = t.tick(&config);
    assert!(!notify);
    assert_eq!(t.state, State::Finished);
    assert_eq!(t.round, 0);
    assert_eq!(t.remaining(), 0);
}

#[test]
fn zero_rounds_session_finishes_after_first_fight() {
    let config = BoxingRounds { wait: 1000, fight: 1000, rest: 1000, interval: 1000, rounds: 0 };
    let mut t = BoxingTimer::new(&config);
    let _ = t.tick(&config);
    let notify = t.tick(&config);
    assert!(notify);
    assert_eq!(t.state, State::Fighting);
    assert_eq!(t.round, 0);
    let _ = t.tick(&config);
    let notify = t.tick(&config);
    assert!(notify);
    assert_eq!(t.state, State::Finished);
    assert_eq!(t.remaining(), 0);
}

#[test]
fn handle_dispatches_messages() {
    let config = quick_config();
    let mut t = BoxingTimer::new(&config);
    let notify = t.handle(&config, Msg::Tick);
    assert!(!notify);
    assert_eq!(t.remaining(), 0);
    let notify = t.handle(&config, Msg::Toggle);
    assert!(!notify);
    assert!(t.paused);
    let notify = t.handle(&config, Msg::Reset);
    assert!(!notify);
    assert_eq!(t.state, State::Waiting);
    assert_eq!(t.round, 0);
    assert_eq!(t.remaining(), config.wait);
    assert!(t.paused);
}

#[test]
fn toggle_text_names_the_next_action() {
    let config = quick_config();
    let mut t = BoxingTimer::new(&config);
    assert_eq!(t.toggle_text(), "Pause");
    t.toggle_pause();
    assert_eq!(t.toggle_text(), "Start");
}
