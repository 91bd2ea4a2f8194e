use quick_compare::pacing::{PlaybackTimer, is_due, nominal_duration_ms};

#[test]
fn due_exactly_at_the_nominal_boundary() {
    let t = PlaybackTimer { last_accepted: 100 };
    assert!(!is_due(&t, Some(30), 100));
    assert!(!is_due(&t, Some(30), 129));
    assert!(is_due(&t, Some(30), 130));
    assert!(is_due(&t, Some(30), 1000));
}

#[test]
fn unknown_frame_rate_is_always_due() {
    let t = PlaybackTimer { last_accepted: 500 };
    assert!(is_due(&t, None, 0));
    assert!(is_due(&t, None, 500));
    assert!(is_due(&t, None, u64::MAX));
}

#[test]
fn clock_before_last_accept_is_not_due() {
    let t = PlaybackTimer { last_accepted: 100 };
    assert!(!is_due(&t, Some(0), 99));
    assert!(is_due(&t, Some(0), 100));
}

#[test]
fn fires_once_per_elapsed_interval() {
    // Nominal duration 30 ms, samples every 10 ms: each acceptance resets
    // the timer, so exactly one firing per elapsed 30 ms.
    let d = Some(30u64);
    let mut timer = PlaybackTimer { last_accepted: 0 };
    let mut fired: Vec<u64> = Vec::new();
    for step in 1..=10u64 {
        let now = step * 10;
        if is_due(&timer, d, now) {
            fired.push(now);
            timer = PlaybackTimer { last_accepted: now };
        }
    }
    assert_eq!(fired, vec![30, 60, 90]);
}

#[test]
fn nominal_duration_rounds_the_frame_rate() {
    // 30 fps -> round(1000/30) = 33 ms
    assert_eq!(nominal_duration_ms(30, 1), Some(33));
    // 25 fps -> 40 ms exactly
    assert_eq!(nominal_duration_ms(25, 1), Some(40));
    // 24 fps -> round(41.67) = 42 ms
    assert_eq!(nominal_duration_ms(24, 1), Some(42));
    // NTSC 30000/1001 fps -> round(33.37) = 33 ms
    assert_eq!(nominal_duration_ms(30000, 1001), Some(33));
    // 60 fps -> round(16.67) = 17 ms
    assert_eq!(nominal_duration_ms(60, 1), Some(17));
    // 2 fps -> 500 ms
    assert_eq!(nominal_duration_ms(2, 1), Some(500));
}

#[test]
fn unreported_frame_rate_has_no_duration() {
    assert_eq!(nominal_duration_ms(0, 1), None);
    assert_eq!(nominal_duration_ms(1, 0), None);
    assert_eq!(nominal_duration_ms(-30, 1), None);
    assert_eq!(nominal_duration_ms(30, -1), None);
}
