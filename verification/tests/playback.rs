use audio_tester_rs::playback::{BeepCountdown, PulseCursor};

#[test]
fn pulse_plays_once_per_trigger() {
    let mut c = PulseCursor::new(10);
    assert_eq!(c.render(false, 4), (0, 0));
    assert_eq!(c.render(true, 4), (0, 4));
    assert_eq!(c.render(false, 4), (4, 4));
    assert!(c.is_active());
    assert_eq!(c.render(false, 4), (8, 2));
    assert!(!c.is_active());
    assert_eq!(c.render(false, 4), (10, 0));
    assert_eq!(c.position(), 10);
}

#[test]
fn pulse_ending_on_callback_boundary_stops_next_callback() {
    let mut c = PulseCursor::new(8);
    assert_eq!(c.render(true, 8), (0, 8));
    assert!(c.is_active());
    assert_eq!(c.render(false, 8), (8, 0));
    assert!(!c.is_active());
}

#[test]
fn retrigger_restarts_pulse() {
    let mut c = PulseCursor::new(10);
    c.render(true, 6);
    assert_eq!(c.render(true, 6), (0, 6));
    assert_eq!(c.position(), 6);
}

#[test]
fn beep_counts_down_across_callbacks() {
    let mut b = BeepCountdown::new();
    assert_eq!(b.render(None, 100), 0);
    assert_eq!(b.render(Some(3840), 1024), 1024);
    assert_eq!(b.remaining(), 2816);
    assert_eq!(b.render(None, 1024), 1024);
    assert_eq!(b.render(None, 1024), 1024);
    assert_eq!(b.render(None, 1024), 768);
    assert_eq!(b.remaining(), 0);
    assert_eq!(b.render(None, 1024), 0);
}

#[test]
fn beep_reload_replaces_remaining() {
    let mut b = BeepCountdown::new();
    b.render(Some(10), 4);
    assert_eq!(b.render(Some(5), 4), 4);
    assert_eq!(b.remaining(), 1);
}

#[test]
fn pulse_split_over_callbacks_matches_one_callback() {
    let mut whole = PulseCursor::new(100);
    let (_, n_whole) = whole.render(true, 70);
    let mut split = PulseCursor::new(100);
    let (_, n1) = split.render(true, 30);
    let (first2, n2) = split.render(false, 40);
    assert_eq!(first2, 30);
    assert_eq!(n1 + n2, n_whole);
    assert_eq!(split.position(), whole.position());
}

#[test]
fn beep_split_over_callbacks_matches_one_callback() {
    let mut whole = BeepCountdown::new();
    let t_whole = whole.render(Some(50), 70);
    let mut split = BeepCountdown::new();
    let t1 = split.render(Some(50), 30);
    let t2 = split.render(None, 40);
    assert_eq!(t1 + t2, t_whole);
    assert_eq!(split.remaining(), whole.remaining());
}
