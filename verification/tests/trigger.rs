use capture::{CaptureIntent, TriggerLatch};

#[test]
fn signals_classify_the_tick() {
    assert_eq!(CaptureIntent::from_signals(false, false), CaptureIntent::Idle);
    assert_eq!(CaptureIntent::from_signals(true, false), CaptureIntent::Holding);
    assert_eq!(CaptureIntent::from_signals(false, true), CaptureIntent::Released);
}

#[test]
fn pressed_wins_over_release_signal() {
    assert_eq!(CaptureIntent::from_signals(true, true), CaptureIntent::Holding);
}

#[test]
fn fresh_latch_is_up() {
    let latch = TriggerLatch::new();
    assert!(!latch.was_pressed());
}

#[test]
fn latch_remembers_last_reading() {
    let mut latch = TriggerLatch::new();
    latch.observe(true);
    assert!(latch.was_pressed());
    latch.observe(true);
    assert!(latch.was_pressed());
    latch.observe(false);
    assert!(!latch.was_pressed());
}

#[test]
fn untouched_trigger_stays_idle() {
    let mut latch = TriggerLatch::new();
    for _ in 0..5 {
        assert_eq!(latch.observe(false), CaptureIntent::Idle);
    }
}

#[test]
fn release_is_reported_on_the_falling_edge_only() {
    let mut latch = TriggerLatch::new();
    let presses = [false, true, true, false, false, true, false, false, false];
    let expected = [
        CaptureIntent::Idle,
        CaptureIntent::Holding,
        CaptureIntent::Holding,
        CaptureIntent::Released,
        CaptureIntent::Idle,
        CaptureIntent::Holding,
        CaptureIntent::Released,
        CaptureIntent::Idle,
        CaptureIntent::Idle,
    ];
    for (pressed, want) in presses.iter().zip(expected.iter()) {
        assert_eq!(latch.observe(*pressed), *want);
    }
}

#[test]
fn one_press_gives_one_release() {
    let mut latch = TriggerLatch::new();
    let mut releases = 0;
    let mut presses = vec![true; 4];
    presses.extend(vec![false; 20]);
    for pressed in presses {
        if latch.observe(pressed) == CaptureIntent::Released {
            releases += 1;
        }
    }
    assert_eq!(releases, 1);
}
