//! The round-trip measurement: the background noise is recorded for a
//! while, then the test pulse is played and recorded, then the tail of the
//! recording is collected, and the lag of the pulse in it is the latency.
use vstd::prelude::*;

verus! {

/// The sample rate the round-trip test is set up for.
pub const ROUND_TRIP_SAMPLE_RATE: usize = 48000;

/// The length of the round-trip pulse: a quarter of a second.
pub const ROUND_TRIP_PULSE_LEN: usize = 12000;

/// How many samples of background are needed to estimate its level.
pub const BACKGROUND_MIN_SAMPLES: usize = 12000;

/// The stages of a round-trip measurement.
#[derive(Clone, Copy, PartialEq, Eq, Structural, Debug)]
pub enum RtState {
    Idle,
    /// Recording the background noise, output silent.
    Background,
    /// The pulse is playing and being recorded.
    Playing,
    /// The pulse is over; the tail of the recording is still collected.
    Collecting,
    Done,
}

/// What to do when the current stage ends.
#[derive(Clone, Copy, PartialEq, Eq, Structural, Debug)]
pub enum RtAction {
    /// Nothing yet.
    Wait,
    /// Estimate the background from what was recorded (when there is enough
    /// of it), clear the recording, note the recording position, fire the
    /// pulse and restart the stage timer.
    FirePulse,
    /// Restart the stage timer.
    StartCollecting,
    /// Analyse the recording.
    Analyze,
}

/// What the analysis of a round-trip recording found.
#[derive(Clone, Copy, PartialEq, Eq, Structural, Debug)]
pub enum RtOutcome {
    /// Less than half a pulse was recorded.
    NotEnoughAudio,
    /// No correlation peak, and the background was nearly silent.
    BackgroundTooQuiet,
    /// No correlation peak.
    NoPeak,
    /// The pulse was found this many samples into the recording.
    Latency(usize),
}

/// The stage that follows `s` once its time is up, with the action to take.
pub open spec fn next_stage(s: RtState) -> (RtState, RtAction) {
    match s {
        RtState::Background => (RtState::Playing, RtAction::FirePulse),
        RtState::Playing => (RtState::Collecting, RtAction::StartCollecting),
        RtState::Collecting => (RtState::Done, RtAction::Analyze),
        _ => (s, RtAction::Wait),
    }
}

/// Whether a new measurement may start from `s`.
pub open spec fn idle_or_done(s: RtState) -> bool {
    s == RtState::Idle || s == RtState::Done
}

impl RtState {
    /// Whether a new measurement may start.
    pub fn can_start(self) -> (r: bool)
        ensures
            r == idle_or_done(self),
    {
        self == RtState::Idle || self == RtState::Done
    }

    /// Starts a measurement: whatever stage it is called in, the
    /// measurement restarts from the background stage. Callers that must not
    /// interrupt a running measurement check [`RtState::can_start`] first.
    pub fn start(self) -> (r: RtState)
        ensures
            r == RtState::Background,
    {
        RtState::Background
    }

    /// How long the stage lasts, in milliseconds; `None` outside a
    /// measurement.
    pub fn stage_limit_ms(self) -> (r: Option<u32>)
        ensures
            r == (match self {
                RtState::Background => Some(500u32),
                RtState::Playing => Some(600u32),
                RtState::Collecting => Some(400u32),
                _ => None::<u32>,
            }),
            r is None <==> idle_or_done(self),
    {
        match self {
            RtState::Background => Some(500),
            RtState::Playing => Some(600),
            RtState::Collecting => Some(400),
            _ => None,
        }
    }

    /// One tick of the measurement: when the stage's time is up
    /// (`stage_over`), moves to the next stage and says what to do.
    pub fn tick(self, stage_over: bool) -> (r: (RtState, RtAction))
        ensures
            r == (if stage_over {
                next_stage(self)
            } else {
                (self, RtAction::Wait)
            }),
    {
        if !stage_over {
            return (self, RtAction::Wait);
        }
        match self {
            RtState::Background => (RtState::Playing, RtAction::FirePulse),
            RtState::Playing => (RtState::Collecting, RtAction::StartCollecting),
            RtState::Collecting => (RtState::Done, RtAction::Analyze),
            _ => (self, RtAction::Wait),
        }
    }
}

/// Whether enough background was recorded to estimate its level.
pub fn has_background_window(recorded_len: usize) -> (r: bool)
    ensures
        r == (recorded_len >= BACKGROUND_MIN_SAMPLES),
{
    recorded_len >= BACKGROUND_MIN_SAMPLES
}

/// Whether the recording is long enough to look for the pulse in it.
pub fn has_enough_audio(recorded_len: usize, pulse_len: usize) -> (r: bool)
    ensures
        r == (recorded_len >= pulse_len / 2),
{
    recorded_len >= pulse_len / 2
}

/// The outcome of a round-trip analysis.
pub open spec fn outcome_of(
    recorded_len: nat,
    pulse_len: nat,
    lag: Option<usize>,
    background_quiet: bool,
) -> RtOutcome {
    if recorded_len < pulse_len / 2 {
        RtOutcome::NotEnoughAudio
    } else {
        match lag {
            Some(l) => RtOutcome::Latency(l),
            None => if background_quiet {
                RtOutcome::BackgroundTooQuiet
            } else {
                RtOutcome::NoPeak
            },
        }
    }
}

/// Classifies a round-trip analysis from the recording length, the lag of
/// the pulse found in it (`None` when there was no clear peak; not looked at
/// when the recording is too short) and whether the background was nearly
/// silent.
pub fn analysis_outcome(
    recorded_len: usize,
    pulse_len: usize,
    lag: Option<usize>,
    background_quiet: bool,
) -> (r: RtOutcome)
    ensures
        r == outcome_of(recorded_len as nat, pulse_len as nat, lag, background_quiet),
{
    if !has_enough_audio(recorded_len, pulse_len) {
        return RtOutcome::NotEnoughAudio;
    }
    match lag {
        Some(l) => RtOutcome::Latency(l),
        None => if background_quiet {
            RtOutcome::BackgroundTooQuiet
        } else {
            RtOutcome::NoPeak
        },
    }
}

/// The stage reached from `s` after `n` stage ends.
pub open spec fn stage_after(s: RtState, n: nat) -> RtState
    decreases n,
{
    if n == 0 {
        s
    } else {
        next_stage(stage_after(s, (n - 1) as nat)).0
    }
}

/// A measurement passes through the background, playing and collecting
/// stages in that order, asking for the pulse on leaving the background and
/// for the analysis on leaving the collection; it is then done, and stays
/// done however many more ticks come.
pub proof fn lemma_measurement_cycle(extra: nat)
    ensures
        next_stage(RtState::Background) == (RtState::Playing, RtAction::FirePulse),
        next_stage(RtState::Playing) == (RtState::Collecting, RtAction::StartCollecting),
        next_stage(RtState::Collecting) == (RtState::Done, RtAction::Analyze),
        stage_after(RtState::Background, 3 + extra) == RtState::Done,
    decreases extra,
{
    if extra == 0 {
        assert(stage_after(RtState::Background, 0) == RtState::Background);
        assert(stage_after(RtState::Background, 1) == RtState::Playing);
        assert(stage_after(RtState::Background, 2) == RtState::Collecting);
        assert(stage_after(RtState::Background, 3) == RtState::Done);
    } else {
        lemma_measurement_cycle((extra - 1) as nat);
        assert(stage_after(RtState::Background, 3 + extra) == next_stage(
            stage_after(RtState::Background, (3 + extra - 1) as nat),
        ).0);
    }
}

/// The outcome of a round trip: too little audio below half a pulse, whatever
/// else was found; otherwise the lag of the pulse when one was found, and when
/// none was, a quiet background is reported apart from a missing peak.
pub proof fn lemma_outcome_cases(recorded_len: nat, pulse_len: nat, lag: Option<usize>, quiet: bool)
    ensures
        2 * recorded_len + 1 < pulse_len ==> outcome_of(recorded_len, pulse_len, lag, quiet)
            == RtOutcome::NotEnoughAudio,
        2 * recorded_len >= pulse_len && lag is Some ==> outcome_of(recorded_len, pulse_len, lag, quiet)
            == RtOutcome::Latency(lag->0),
        2 * recorded_len >= pulse_len && lag is None && quiet ==> outcome_of(
            recorded_len,
            pulse_len,
            lag,
            quiet,
        ) == RtOutcome::BackgroundTooQuiet,
        2 * recorded_len >= pulse_len && lag is None && !quiet ==> outcome_of(
            recorded_len,
            pulse_len,
            lag,
            quiet,
        ) == RtOutcome::NoPeak,
{
}

} // verus!
