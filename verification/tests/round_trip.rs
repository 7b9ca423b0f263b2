use audio_tester_rs::round_trip::{
    analysis_outcome, has_background_window, has_enough_audio, RtAction, RtOutcome, RtState,
    ROUND_TRIP_PULSE_LEN,
};

#[test]
fn measurement_runs_through_its_stages() {
    let s = RtState::Idle.start();
    assert_eq!(s, RtState::Background);
    assert_eq!(s.stage_limit_ms(), Some(500));
    assert_eq!(s.tick(false), (RtState::Background, RtAction::Wait));
    let (s, a) = s.tick(true);
    assert_eq!((s, a), (RtState::Playing, RtAction::FirePulse));
    assert_eq!(s.stage_limit_ms(), Some(600));
    let (s, a) = s.tick(true);
    assert_eq!((s, a), (RtState::Collecting, RtAction::StartCollecting));
    assert_eq!(s.stage_limit_ms(), Some(400));
    let (s, a) = s.tick(true);
    assert_eq!((s, a), (RtState::Done, RtAction::Analyze));
    assert_eq!(s.stage_limit_ms(), None);
    assert_eq!(s.tick(true), (RtState::Done, RtAction::Wait));
}

#[test]
fn start_restarts_from_background() {
    assert!(RtState::Idle.can_start());
    assert!(RtState::Done.can_start());
    assert!(!RtState::Playing.can_start());
    assert_eq!(RtState::Done.start(), RtState::Background);
    assert_eq!(RtState::Collecting.start(), RtState::Background);
    assert_eq!(RtState::Playing.start(), RtState::Background);
    assert_eq!(RtState::Idle.tick(true), (RtState::Idle, RtAction::Wait));
}

#[test]
fn background_window() {
    assert!(!has_background_window(11_999));
    assert!(has_background_window(12_000));
}

#[test]
fn round_trip_outcome_classification() {
    let p = ROUND_TRIP_PULSE_LEN;
    assert!(!has_enough_audio(5_999, p));
    assert!(has_enough_audio(6_000, p));
    assert_eq!(analysis_outcome(5_999, p, Some(10), false), RtOutcome::NotEnoughAudio);
    assert_eq!(analysis_outcome(30_000, p, Some(1_234), true), RtOutcome::Latency(1_234));
    assert_eq!(analysis_outcome(30_000, p, None, true), RtOutcome::BackgroundTooQuiet);
    assert_eq!(analysis_outcome(30_000, p, None, false), RtOutcome::NoPeak);
}
