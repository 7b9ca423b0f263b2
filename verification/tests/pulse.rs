use audio_tester_rs::pulse::{coarse_lags, fine_window, generate_white_noise_pulse};

#[test]
fn pulse_has_requested_length() {
    assert_eq!(generate_white_noise_pulse(0).len(), 0);
    assert_eq!(generate_white_noise_pulse(12000).len(), 12000);
    assert_eq!(generate_white_noise_pulse(105).len(), 105);
}

#[test]
fn short_pulse_is_silent() {
    // fewer than ten samples: the blocks are empty
    assert_eq!(generate_white_noise_pulse(9), vec![0i16; 9]);
}

#[test]
fn pulse_levels_follow_the_generator() {
    let p = generate_white_noise_pulse(100);
    // block 0 (on), seeded 12345
    assert_eq!(&p[0..3], &[5084, -6396, 5733]);
    // blocks 1 and 2 are off
    assert!(p[10..30].iter().all(|&x| x == 0));
    // block 3 (on), seeded 12348
    assert_eq!(&p[30..33], &[-9937, 12011, 6110]);
    // blocks 5, 6, 7 and 9 are off
    assert!(p[50..80].iter().all(|&x| x == 0));
    assert!(p[90..100].iter().all(|&x| x == 0));
    assert!(p[80..90].iter().any(|&x| x != 0));
}

#[test]
fn remainder_after_blocks_is_silent() {
    let p = generate_white_noise_pulse(107);
    assert!(p[100..107].iter().all(|&x| x == 0));
    assert_eq!(&p[0..3], &[5084, -6396, 5733]);
}

#[test]
fn pulse_levels_are_in_range() {
    let p = generate_white_noise_pulse(12000);
    assert!(p.iter().all(|&x| (-16384..16384).contains(&x)));
    // as amplitudes the pulse stays within half of full scale
    assert!(p.iter().all(|&x| (x as f32 / 32768.0).abs() <= 0.5));
}

#[test]
fn coarse_lags_step_by_stride() {
    assert_eq!(coarse_lags(100, 100), Vec::<usize>::new());
    assert_eq!(coarse_lags(101, 100), vec![0]);
    assert_eq!(coarse_lags(148, 100), vec![0, 16, 32]);
    assert_eq!(coarse_lags(149, 100), vec![0, 16, 32, 48]);
}

#[test]
fn fine_window_is_centred_and_cut() {
    assert_eq!(fine_window(1000, 10000, 100), (936, 1064));
    assert_eq!(fine_window(10, 10000, 100), (0, 128));
    assert_eq!(fine_window(9880, 10000, 100), (9816, 9900));
    assert_eq!(fine_window(0, 150, 100), (0, 50));
}
