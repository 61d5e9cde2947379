use alarm_ring::cell::SharedStateCell;
use alarm_ring::render::RenderAction;
use alarm_ring::state::{AppResetMessage, AppState};

#[test]
fn cell_starts_at_the_baseline() {
    let cell = SharedStateCell::new();
    assert_eq!(cell.read(), AppState::Active(5));
}

#[test]
fn cell_tick_reports_the_state_it_found() {
    let cell = SharedStateCell::new();
    let (observed, action) = cell.render_tick();
    assert_eq!(observed, AppState::Active(5));
    assert_eq!(action, RenderAction::Pulse);
    assert_eq!(cell.read(), AppState::Active(4));
}

#[test]
fn cell_applies_the_conditional_rule() {
    let cell = SharedStateCell::new();
    // A motion signal during Active is ignored: a single footstep must not
    // re-arm anything.
    cell.apply_reset_message(AppResetMessage::FromAccelerometer);
    assert_eq!(cell.read(), AppState::Active(5));

    // Drain the countdown into PreAlarm; now motion interrupts the warning.
    for _ in 0..6 {
        cell.render_tick();
    }
    assert_eq!(cell.read(), AppState::PreAlarm(16));
    cell.apply_reset_message(AppResetMessage::FromAccelerometer);
    assert_eq!(cell.read(), AppState::Active(5));
}

#[test]
fn cell_button_signal_exits_a_latched_alarm() {
    let cell = SharedStateCell::new();
    // Tick all the way into Alarm: 6 active ticks, then 9 sweeps.
    for _ in 0..15 {
        cell.render_tick();
    }
    assert_eq!(cell.read(), AppState::Alarm);
    // Motion is expected once the alarm is latched: ignored.
    cell.apply_reset_message(AppResetMessage::FromAccelerometer);
    assert_eq!(cell.read(), AppState::Alarm);
    // The manual button is the one way out.
    cell.apply_reset_message(AppResetMessage::FromButton);
    assert_eq!(cell.read(), AppState::Active(5));
}

#[test]
fn cell_reset_forces_the_baseline() {
    let cell = SharedStateCell::new();
    for _ in 0..8 {
        cell.render_tick();
    }
    cell.reset();
    assert_eq!(cell.read(), AppState::Active(5));
}

#[test]
fn interleaved_signals_and_ticks_only_reach_defined_phases() {
    let cell = SharedStateCell::new();
    let signals = [
        AppResetMessage::FromButton,
        AppResetMessage::FromAccelerometer,
        AppResetMessage::FromButton,
    ];
    for round in 0..12 {
        cell.apply_reset_message(signals[round % signals.len()]);
        cell.render_tick();
        let s = cell.read();
        assert!(matches!(
            s,
            AppState::Active(_) | AppState::PreAlarm(_) | AppState::Alarm
        ));
        match s {
            AppState::Active(n) => assert!(n <= 5),
            AppState::PreAlarm(n) => assert!(n <= 16),
            AppState::Alarm => {}
        }
    }
}
