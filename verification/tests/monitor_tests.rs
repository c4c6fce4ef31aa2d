use fall_alert::classify::AccelerationSample;
use fall_alert::monitor::{AlertState, Monitor, TickActions, TICK_MICROS};
use fall_alert::pattern::Pattern;

fn sample(x: i32, y: i32, z: i32) -> Option<AccelerationSample> {
    Some(AccelerationSample { x, y, z })
}

#[test]
fn tick_period_is_500_microseconds() {
    assert_eq!(TICK_MICROS, 500);
}

#[test]
fn new_monitor_is_stationary_center_dot_silent() {
    let m = Monitor::new();
    assert_eq!(m.state, AlertState::Stationary);
    assert_eq!(m.pattern, Pattern::CenterDot);
    assert!(!m.speaker_high);
}

#[test]
fn state_sequence_mirrors_verdict_sequence() {
    // Readings classified [Stationary, Stationary, Falling, Falling, Stationary].
    let readings = [(0, 0, 1000), (600, 0, 0), (0, 0, 50), (100, 100, 100), (0, 0, 1000)];
    let expected = [
        AlertState::Stationary,
        AlertState::Stationary,
        AlertState::Falling,
        AlertState::Falling,
        AlertState::Stationary,
    ];
    let mut m = Monitor::new();
    for (r, e) in readings.iter().zip(expected.iter()) {
        m.tick(sample(r.0, r.1, r.2));
        assert_eq!(m.state, *e);
    }
}

#[test]
fn debounce_alert_survives_ticks_without_fresh_data() {
    let mut m = Monitor::new();
    m.tick(sample(0, 0, 50));
    assert_eq!(m.state, AlertState::Falling);
    for _ in 0..100 {
        m.tick(None);
        assert_eq!(m.state, AlertState::Falling);
        assert_eq!(m.pattern, Pattern::Exclamation);
    }
    m.tick(sample(0, 0, 1000));
    assert_eq!(m.state, AlertState::Stationary);
}

#[test]
fn speaker_toggles_every_tick_while_falling() {
    let mut m = Monitor::new();
    m.tick(sample(0, 0, 0));
    assert_eq!(m.state, AlertState::Falling);
    assert_eq!(m.pattern, Pattern::Exclamation);
    let mut last = m.speaker_high;
    assert!(last);
    for _ in 0..10 {
        let act = m.tick(None);
        assert_eq!(m.state, AlertState::Falling);
        assert_eq!(m.pattern, Pattern::Exclamation);
        assert_ne!(act.speaker_high, last);
        last = act.speaker_high;
    }
}

#[test]
fn speaker_low_and_center_dot_while_stationary() {
    let mut m = Monitor::new();
    for _ in 0..10 {
        let act = m.tick(sample(0, 0, 1000));
        assert_eq!(m.state, AlertState::Stationary);
        assert_eq!(m.pattern, Pattern::CenterDot);
        assert!(!act.speaker_high);
        let quiet = m.tick(None);
        assert_eq!(m.pattern, Pattern::CenterDot);
        assert!(!quiet.speaker_high);
    }
}

#[test]
fn end_to_end_three_readings() {
    // (0,0,1000) -> (0,0,50) -> (0,0,980) gives patterns
    // [CenterDot, Exclamation, CenterDot] and tone [off, on, off].
    let mut m = Monitor::new();
    let a1 = m.tick(sample(0, 0, 1000));
    assert_eq!(a1.show, Some(Pattern::CenterDot));
    assert!(!a1.speaker_high);
    assert_eq!(m.state, AlertState::Stationary);
    let a2 = m.tick(sample(0, 0, 50));
    assert_eq!(a2.show, Some(Pattern::Exclamation));
    assert!(a2.speaker_high);
    assert_eq!(m.state, AlertState::Falling);
    let a3 = m.tick(sample(0, 0, 980));
    assert_eq!(a3.show, Some(Pattern::CenterDot));
    assert!(!a3.speaker_high);
    assert_eq!(m.state, AlertState::Stationary);
}

#[test]
fn ticks_without_fresh_data_change_nothing_but_the_tone() {
    let mut m = Monitor::new();
    m.tick(sample(0, 0, 1000));
    let state = m.state;
    let pattern = m.pattern;
    for _ in 0..50 {
        let act = m.tick(None);
        assert_eq!(m.state, state);
        assert_eq!(m.pattern, pattern);
        assert_eq!(act.show, None);
    }
}

#[test]
fn confirming_fall_leaves_pattern_unchanged() {
    let mut m = Monitor::new();
    let first = m.tick(sample(0, 0, 40));
    assert_eq!(first.show, Some(Pattern::Exclamation));
    let again = m.tick(sample(10, 10, 10));
    assert_eq!(again.show, None);
    assert_eq!(m.pattern, Pattern::Exclamation);
}

#[test]
fn fresh_stationary_reading_reselects_center_dot() {
    let mut m = Monitor::new();
    let act = m.tick(sample(0, 0, 1000));
    assert_eq!(act.show, Some(Pattern::CenterDot));
    let act2 = m.tick(sample(0, 700, 700));
    assert_eq!(act2.show, Some(Pattern::CenterDot));
}

#[test]
fn tick_actions_report_the_new_speaker_level() {
    let mut m = Monitor::new();
    let act: TickActions = m.tick(sample(0, 0, 0));
    assert_eq!(act.speaker_high, m.speaker_high);
    let act2 = m.tick(None);
    assert_eq!(act2.speaker_high, m.speaker_high);
}
