use audio_tester_rs::tap_to_tone::{
    analysis_window, tap_outcome, AnalysisPhase, DetectionStage, TapOutcome, TapSession,
    BEEP_WAIT_MS,
};

#[test]
fn fresh_session_is_idle() {
    let s = TapSession::new();
    assert_eq!(s.phase(), AnalysisPhase::Idle);
    assert!(!s.is_measuring());
    assert_eq!(s.trigger_pos(), None);
    assert_eq!(s.outcome(), None);
    assert_eq!(s.measurement_count(), 0);
}

#[test]
fn full_measurement_cycle() {
    let mut s = TapSession::new();
    assert!(s.trigger_measurement(5000));
    assert_eq!(s.phase(), AnalysisPhase::WaitingForBeep);
    assert!(s.is_measuring());
    assert_eq!(s.trigger_pos(), Some(5000));
    assert!(s.schedule_analysis(true));
    assert_eq!(s.phase(), AnalysisPhase::Scheduled);
    assert!(s.is_measuring());
    s.finish_analysis(Some(TapOutcome::Latency(480)));
    assert_eq!(s.phase(), AnalysisPhase::Done);
    assert!(!s.is_measuring());
    assert_eq!(s.outcome(), Some(TapOutcome::Latency(480)));
    assert_eq!(s.measurement_count(), 1);
}

#[test]
fn cannot_trigger_while_measuring() {
    let mut s = TapSession::new();
    assert!(s.trigger_measurement(10));
    assert!(!s.trigger_measurement(20));
    assert_eq!(s.trigger_pos(), Some(10));
    assert!(s.schedule_analysis(true));
    assert!(!s.trigger_measurement(30));
    assert_eq!(s.phase(), AnalysisPhase::Scheduled);
}

#[test]
fn schedule_only_when_waiting() {
    let mut s = TapSession::new();
    assert!(!s.schedule_analysis(true));
    assert_eq!(s.phase(), AnalysisPhase::Idle);
    s.trigger_measurement(7);
    assert!(!s.schedule_analysis(false));
    assert_eq!(s.phase(), AnalysisPhase::WaitingForBeep);
    assert!(s.schedule_analysis(true));
    assert_eq!(s.phase(), AnalysisPhase::Scheduled);
}

#[test]
fn render_step_never_leaves_analysis_scheduled() {
    let mut s = TapSession::new();
    s.trigger_measurement(0);
    if s.schedule_analysis(true) {
        s.finish_analysis(Some(TapOutcome::NoEdges));
    }
    assert_eq!(s.phase(), AnalysisPhase::Done);
    assert!(!s.is_measuring());
    assert_eq!(BEEP_WAIT_MS, 1200);
}

#[test]
fn detection_stages_stop_at_two_onsets() {
    assert_eq!(DetectionStage::HighPass.next(2), None);
    assert_eq!(DetectionStage::HighPass.next(1), Some(DetectionStage::Outliers));
    assert_eq!(DetectionStage::HighPass.next(3), Some(DetectionStage::Outliers));
    assert_eq!(DetectionStage::Outliers.next(0), Some(DetectionStage::GentleHighPass));
    assert_eq!(DetectionStage::Outliers.next(2), None);
    assert_eq!(DetectionStage::GentleHighPass.next(5), None);
    assert_eq!(DetectionStage::GentleHighPass.next(2), None);
}

#[test]
fn failed_outcomes_are_not_counted() {
    let mut s = TapSession::new();
    s.trigger_measurement(0);
    s.schedule_analysis(true);
    s.finish_analysis(Some(TapOutcome::OneEdge));
    assert_eq!(s.measurement_count(), 0);
    assert_eq!(s.outcome(), Some(TapOutcome::OneEdge));
    // a new measurement clears the outcome
    assert!(s.trigger_measurement(1));
    assert_eq!(s.outcome(), None);
    s.schedule_analysis(true);
    s.finish_analysis(None);
    assert_eq!(s.outcome(), None);
    assert_eq!(s.phase(), AnalysisPhase::Done);
}

#[test]
fn reset_forgets_results_only() {
    let mut s = TapSession::new();
    s.trigger_measurement(3);
    s.schedule_analysis(true);
    s.finish_analysis(Some(TapOutcome::Latency(100)));
    s.trigger_measurement(4);
    s.reset();
    assert_eq!(s.measurement_count(), 0);
    assert_eq!(s.outcome(), None);
    assert_eq!(s.phase(), AnalysisPhase::WaitingForBeep);
    assert!(s.is_measuring());
}

#[test]
fn window_at_48k() {
    assert_eq!(analysis_window(100_000, 48000), Some((90_400, 67_200)));
    assert_eq!(analysis_window(5_000, 48000), Some((0, 67_200)));
    assert_eq!(analysis_window(5_000, 0), None);
    assert_eq!(analysis_window(1_000, 44100), Some((0, 8820 + 52920)));
}

#[test]
fn window_matches_float_formula() {
    for sr in [8000u32, 11025, 22050, 44100, 48000, 88200, 96000, 192000, 7, 12345] {
        let sr_f = sr as f64;
        let pre = (sr_f * 0.2) as usize;
        let post = (sr_f * 1.2) as usize;
        let (from, count) = analysis_window(1_000_000, sr).unwrap();
        assert_eq!(from, 1_000_000 - pre as u64);
        assert_eq!(count, pre + post);
    }
}

#[test]
fn tap_outcome_classification() {
    assert_eq!(tap_outcome(1023, &vec![10, 20]), TapOutcome::TooShort);
    assert_eq!(tap_outcome(1024, &vec![]), TapOutcome::NoEdges);
    assert_eq!(tap_outcome(2000, &vec![300]), TapOutcome::OneEdge);
    assert_eq!(tap_outcome(2000, &vec![300, 780]), TapOutcome::Latency(480));
    assert_eq!(tap_outcome(2000, &vec![300, 780, 900]), TapOutcome::Latency(480));
}
