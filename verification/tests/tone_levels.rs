use audio_tester_rs::levels::{read_size, PeakHold, HOLD_FRAMES};
use audio_tester_rs::tone::{Waveform, WAVEFORM_COUNT};

#[test]
fn waveform_selector_order() {
    let labels: Vec<&str> = (0..WAVEFORM_COUNT).map(|i| Waveform::from_index(i).label()).collect();
    assert_eq!(labels, vec!["Sine", "Square", "Saw", "Triangle", "Noise", "Sweep"]);
    for i in 0..WAVEFORM_COUNT {
        assert_eq!(Waveform::from_index(i).index(), i);
    }
    assert_eq!(Waveform::from_index(17), Waveform::Sweep);
    assert!(Waveform::Sweep.is_sweep());
    assert!(!Waveform::Sine.is_sweep());
}

#[test]
fn read_sizes() {
    assert_eq!(read_size(0), None);
    assert_eq!(read_size(255), None);
    assert_eq!(read_size(256), Some(256));
    assert_eq!(read_size(1000), Some(1000));
    assert_eq!(read_size(4096), Some(4096));
    assert_eq!(read_size(10_000), Some(4096));
}

#[test]
fn peak_is_held_for_sixty_frames() {
    let mut h = PeakHold::new();
    assert!(h.tick(false));
    assert!(!h.tick(true));
    let mut held: u32 = 1;
    while !h.tick(false) {
        held += 1;
    }
    assert_eq!(held, HOLD_FRAMES);
    assert!(h.tick(false));
    // a new peak restarts the hold
    assert!(!h.tick(true));
}
