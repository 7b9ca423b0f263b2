//! The tap-to-tone measurement: a tap is heard by the microphone, a beep is
//! played at once, and the latency is the distance between the two sound
//! onsets found in the recording around the moment of the tap.
use vstd::prelude::*;

verus! {

/// Where a tap-to-tone measurement stands.
#[derive(Clone, Copy, PartialEq, Eq, Structural, Debug)]
pub enum AnalysisPhase {
    Idle,
    WaitingForBeep,
    Scheduled,
    Done,
}

/// What the analysis of one measurement found.
#[derive(Clone, Copy, PartialEq, Eq, Structural, Debug)]
pub enum TapOutcome {
    /// Fewer than [`MIN_ANALYSIS_SAMPLES`] samples could be read back.
    TooShort,
    /// No sound onset was found.
    NoEdges,
    /// Only one onset (the tap or the beep) was found.
    OneEdge,
    /// The beep onset followed the tap onset by this many samples.
    Latency(usize),
}

/// The fewest samples worth analysing.
pub const MIN_ANALYSIS_SAMPLES: usize = 1024;

/// Whether a measurement is under way in `phase`.
pub open spec fn in_progress(phase: AnalysisPhase) -> bool {
    phase == AnalysisPhase::WaitingForBeep || phase == AnalysisPhase::Scheduled
}

/// Whether a new measurement may start in `phase`.
pub open spec fn may_start(phase: AnalysisPhase) -> bool {
    phase == AnalysisPhase::Idle || phase == AnalysisPhase::Done
}

/// The abstract state of a [`TapSession`].
pub struct TapState {
    pub phase: AnalysisPhase,
    pub measuring: bool,
    pub trigger_pos: Option<u64>,
    pub outcome: Option<TapOutcome>,
    pub measurement_count: nat,
}

/// How long to wait after the trigger for the beep to have sounded before
/// the recording is analysed, in milliseconds.
pub const BEEP_WAIT_MS: u32 = 1200;

/// The state after a render step checks whether the beep wait is over.
pub open spec fn after_schedule(s: TapState, wait_over: bool) -> TapState {
    if wait_over && s.phase == AnalysisPhase::WaitingForBeep {
        TapState { phase: AnalysisPhase::Scheduled, ..s }
    } else {
        s
    }
}

/// The state after the scheduled analysis ends with `outcome`.
pub open spec fn after_finish(s: TapState, outcome: Option<TapOutcome>) -> TapState {
    TapState {
        phase: AnalysisPhase::Done,
        measuring: false,
        trigger_pos: s.trigger_pos,
        outcome: match outcome {
            Some(o) => Some(o),
            None => s.outcome,
        },
        measurement_count: s.measurement_count + (if outcome matches Some(TapOutcome::Latency(_)) {
            1nat
        } else {
            0nat
        }),
    }
}

/// One render step of the test: the beep wait is checked and, when that
/// schedules the analysis, the analysis runs to its end with `outcome`.
pub open spec fn render_step(s: TapState, wait_over: bool, outcome: Option<TapOutcome>) -> TapState {
    let s1 = after_schedule(s, wait_over);
    if s1.phase == AnalysisPhase::Scheduled {
        after_finish(s1, outcome)
    } else {
        s1
    }
}

/// The bookkeeping of a tap-to-tone test: its phase, the recording position
/// at which the last measurement was triggered, the last outcome, and how
/// many latencies were measured since the last reset.
pub struct TapSession {
    phase: AnalysisPhase,
    measuring: bool,
    trigger_pos: Option<u64>,
    outcome: Option<TapOutcome>,
    measurement_count: usize,
}

impl TapSession {
    pub closed spec fn view(&self) -> TapState {
        TapState {
            phase: self.phase,
            measuring: self.measuring,
            trigger_pos: self.trigger_pos,
            outcome: self.outcome,
            measurement_count: self.measurement_count as nat,
        }
    }

    #[verifier::type_invariant]
    closed spec fn inv(&self) -> bool {
        self.measuring == in_progress(self.phase)
    }

    /// The session is flagged as measuring exactly while a measurement is
    /// under way.
    pub open spec fn consistent(&self) -> bool {
        self.view().measuring == in_progress(self.view().phase)
    }

    /// A fresh session: idle, nothing measured.
    pub fn new() -> (r: Self)
        ensures
            r.view() == (TapState {
                phase: AnalysisPhase::Idle,
                measuring: false,
                trigger_pos: None,
                outcome: None,
                measurement_count: 0,
            }),
            r.consistent(),
    {
        TapSession {
            phase: AnalysisPhase::Idle,
            measuring: false,
            trigger_pos: None,
            outcome: None,
            measurement_count: 0,
        }
    }

    /// Starts a measurement triggered at recording position `position`,
    /// unless one is already under way; returns whether it started.
    pub fn trigger_measurement(&mut self, position: u64) -> (started: bool)
        ensures
            started == may_start(old(self).view().phase),
            started ==> final(self).view() == (TapState {
                phase: AnalysisPhase::WaitingForBeep,
                measuring: true,
                trigger_pos: Some(position),
                outcome: None,
                measurement_count: old(self).view().measurement_count,
            }),
            !started ==> final(self).view() == old(self).view(),
            final(self).consistent(),
    {
        proof {
            use_type_invariant(&*self);
        }
        if self.phase != AnalysisPhase::Idle && self.phase != AnalysisPhase::Done {
            return false;
        }
        *self = TapSession {
            phase: AnalysisPhase::WaitingForBeep,
            measuring: true,
            trigger_pos: Some(position),
            outcome: None,
            measurement_count: self.measurement_count,
        };
        true
    }

    /// Once the beep has had time to sound (`wait_over`), moves a waiting
    /// measurement on to its analysis; returns whether the analysis is now
    /// due.
    pub fn schedule_analysis(&mut self, wait_over: bool) -> (due: bool)
        ensures
            due == (wait_over && old(self).view().phase == AnalysisPhase::WaitingForBeep),
            final(self).view() == after_schedule(old(self).view(), wait_over),
            final(self).consistent(),
    {
        proof {
            use_type_invariant(&*self);
        }
        if wait_over && self.phase == AnalysisPhase::WaitingForBeep {
            *self = TapSession { phase: AnalysisPhase::Scheduled, ..*self };
            true
        } else {
            false
        }
    }

    /// Ends the scheduled analysis with what it found (`None` when nothing
    /// could be analysed); a measured latency is counted.
    pub fn finish_analysis(&mut self, outcome: Option<TapOutcome>)
        requires
            old(self).view().phase == AnalysisPhase::Scheduled,
            outcome matches Some(TapOutcome::Latency(_)) ==> old(self).view().measurement_count
                < usize::MAX,
        ensures
            final(self).view() == after_finish(old(self).view(), outcome),
            final(self).consistent(),
    {
        let mut last = self.outcome;
        let mut count = self.measurement_count;
        match outcome {
            Some(o) => {
                last = Some(o);
                if let TapOutcome::Latency(_) = o {
                    count = count + 1;
                }
            },
            None => {},
        }
        *self = TapSession {
            phase: AnalysisPhase::Done,
            measuring: false,
            trigger_pos: self.trigger_pos,
            outcome: last,
            measurement_count: count,
        };
    }

    /// Forgets the measured latencies and the last outcome.
    pub fn reset(&mut self)
        ensures
            final(self).view() == (TapState {
                outcome: None,
                measurement_count: 0,
                ..old(self).view()
            }),
            final(self).consistent(),
    {
        proof {
            use_type_invariant(&*self);
        }
        *self = TapSession { outcome: None, measurement_count: 0, ..*self };
    }

    pub fn phase(&self) -> (r: AnalysisPhase)
        ensures
            r == self.view().phase,
    {
        self.phase
    }

    pub fn is_measuring(&self) -> (r: bool)
        ensures
            r == self.view().measuring,
    {
        self.measuring
    }

    pub fn trigger_pos(&self) -> (r: Option<u64>)
        ensures
            r == self.view().trigger_pos,
    {
        self.trigger_pos
    }

    pub fn outcome(&self) -> (r: Option<TapOutcome>)
        ensures
            r == self.view().outcome,
    {
        self.outcome
    }

    pub fn measurement_count(&self) -> (r: usize)
        ensures
            r == self.view().measurement_count,
    {
        self.measurement_count
    }
}

/// A render step never leaves a measurement scheduled, and once the beep
/// wait is over a waiting measurement is done and no longer measuring;
/// every step keeps the measuring flag in line with the phase.
pub proof fn lemma_render_step(s: TapState, wait_over: bool, outcome: Option<TapOutcome>)
    ensures
        render_step(s, wait_over, outcome).phase != AnalysisPhase::Scheduled,
        s.phase == AnalysisPhase::WaitingForBeep && wait_over ==> {
            &&& render_step(s, wait_over, outcome).phase == AnalysisPhase::Done
            &&& !render_step(s, wait_over, outcome).measuring
        },
        !(s.phase == AnalysisPhase::WaitingForBeep && wait_over) && s.phase
            != AnalysisPhase::Scheduled ==> render_step(s, wait_over, outcome) == s,
        s.measuring == in_progress(s.phase) ==> render_step(s, wait_over, outcome).measuring
            == in_progress(render_step(s, wait_over, outcome).phase),
{
}

/// The stages of onset detection, tried in this order until one finds
/// exactly two onsets (the tap and the beep).
#[derive(Clone, Copy, PartialEq, Eq, Structural, Debug)]
pub enum DetectionStage {
    /// The recording through a steep high-pass filter.
    HighPass,
    /// The high-passed recording with all but its outliers silenced.
    Outliers,
    /// The recording through a gentler high-pass filter.
    GentleHighPass,
}

/// The stage to try after `stage` found `onsets` onsets; `None` when the
/// search stops there: on exactly two onsets, or after the last stage.
pub open spec fn next_detection(stage: DetectionStage, onsets: nat) -> Option<DetectionStage> {
    if onsets == 2 {
        None
    } else {
        match stage {
            DetectionStage::HighPass => Some(DetectionStage::Outliers),
            DetectionStage::Outliers => Some(DetectionStage::GentleHighPass),
            DetectionStage::GentleHighPass => None,
        }
    }
}

/// The stage whose onsets are used when the stages find `c0`, `c1` and `c2`
/// onsets: the first with exactly two, else the last.
pub open spec fn chosen_detection(c0: nat, c1: nat, c2: nat) -> DetectionStage {
    if c0 == 2 {
        DetectionStage::HighPass
    } else if c1 == 2 {
        DetectionStage::Outliers
    } else {
        DetectionStage::GentleHighPass
    }
}

impl DetectionStage {
    /// The stage to try after this one found `onsets` onsets, or `None` when
    /// this stage's onsets are the ones to use.
    pub fn next(self, onsets: usize) -> (r: Option<DetectionStage>)
        ensures
            r == next_detection(self, onsets as nat),
    {
        if onsets == 2 {
            return None;
        }
        match self {
            DetectionStage::HighPass => Some(DetectionStage::Outliers),
            DetectionStage::Outliers => Some(DetectionStage::GentleHighPass),
            DetectionStage::GentleHighPass => None,
        }
    }
}

/// Trying the stages in order from the high-pass stage stops at the first
/// stage that finds exactly two onsets, or at the last stage.
pub proof fn lemma_detection_order(c0: nat, c1: nat, c2: nat)
    ensures
        next_detection(DetectionStage::HighPass, c0) is None ==> chosen_detection(c0, c1, c2)
            == DetectionStage::HighPass,
        next_detection(DetectionStage::HighPass, c0) == Some(DetectionStage::Outliers)
            && next_detection(DetectionStage::Outliers, c1) is None ==> chosen_detection(c0, c1, c2)
            == DetectionStage::Outliers,
        next_detection(DetectionStage::HighPass, c0) == Some(DetectionStage::Outliers)
            && next_detection(DetectionStage::Outliers, c1) == Some(DetectionStage::GentleHighPass)
            ==> next_detection(DetectionStage::GentleHighPass, c2) is None && chosen_detection(c0, c1, c2)
            == DetectionStage::GentleHighPass,
{
}

/// Finishing counts measured latencies one by one: an outcome that is a
/// latency adds exactly one to the count, any other outcome (or none) leaves
/// it as it was; either way the measurement is done and no longer measuring,
/// and the outcome found replaces the last one.
pub proof fn lemma_finish_counts(s: TapState, outcome: Option<TapOutcome>, samples: usize)
    ensures
        after_finish(s, Some(TapOutcome::Latency(samples))).measurement_count == s.measurement_count + 1,
        !(outcome matches Some(TapOutcome::Latency(_))) ==> after_finish(s, outcome).measurement_count
            == s.measurement_count,
        after_finish(s, outcome).phase == AnalysisPhase::Done,
        !after_finish(s, outcome).measuring,
        after_finish(s, outcome).trigger_pos == s.trigger_pos,
        outcome is Some ==> after_finish(s, outcome).outcome == outcome,
        outcome is None ==> after_finish(s, outcome).outcome == s.outcome,
        after_finish(after_finish(s, Some(TapOutcome::Latency(samples))), Some(TapOutcome::Latency(samples))).measurement_count
            == s.measurement_count + 2,
{
}

/// The detection stages are tried in order and none is skipped: whatever the
/// onset count, two onsets stop the search, and any other count moves from the
/// high-pass stage to the outlier stage, from the outlier stage to the gentle
/// high-pass stage, and ends after the gentle one.
pub proof fn lemma_detection_stages(onsets: nat)
    ensures
        onsets == 2 ==> next_detection(DetectionStage::HighPass, onsets) is None
            && next_detection(DetectionStage::Outliers, onsets) is None
            && next_detection(DetectionStage::GentleHighPass, onsets) is None,
        onsets != 2 ==> next_detection(DetectionStage::HighPass, onsets) == Some(DetectionStage::Outliers),
        onsets != 2 ==> next_detection(DetectionStage::Outliers, onsets) == Some(
            DetectionStage::GentleHighPass,
        ),
        next_detection(DetectionStage::GentleHighPass, onsets) is None,
{
}

/// The outcome of a measurement: too short below the minimum number of
/// samples; otherwise the distance from the first to the second onset when
/// there are two or more, one edge for a single onset, no edges for none.
pub proof fn lemma_outcome_cases(samples_len: nat, edges: Seq<usize>)
    ensures
        samples_len < 1024 ==> outcome_of(samples_len, edges) == TapOutcome::TooShort,
        samples_len >= 1024 && edges.len() >= 2 && edges[0] <= edges[1] ==> outcome_of(
            samples_len,
            edges,
        ) == TapOutcome::Latency((edges[1] - edges[0]) as usize) && edges[0] + (outcome_of(
            samples_len,
            edges,
        )->Latency_0) == edges[1],
        samples_len >= 1024 && edges.len() == 1 ==> outcome_of(samples_len, edges) == TapOutcome::OneEdge,
        samples_len >= 1024 && edges.len() == 0 ==> outcome_of(samples_len, edges) == TapOutcome::NoEdges,
{
}

/// The stretch of recording analysed for a measurement triggered at
/// `trigger_pos`: from a fifth of a second before it (or the stream start)
/// for one and two fifths of a second, as `(from, count)`; `None` when the
/// sample rate is unknown (zero).
pub fn analysis_window(trigger_pos: u64, sample_rate: u32) -> (r: Option<(u64, usize)>)
    requires
        sample_rate / 5 + sample_rate * 6 / 5 <= usize::MAX,
    ensures
        sample_rate == 0 <==> r is None,
        r matches Some((from, count)) ==> {
            &&& from == (if trigger_pos >= sample_rate / 5 {
                trigger_pos - sample_rate / 5
            } else {
                0
            })
            &&& count == sample_rate / 5 + sample_rate * 6 / 5
        },
{
    if sample_rate == 0 {
        return None;
    }
    let pre: u64 = sample_rate as u64 / 5;
    let post: u64 = sample_rate as u64 * 6 / 5;
    let from: u64 = trigger_pos.saturating_sub(pre);
    let count: usize = (pre + post) as usize;
    Some((from, count))
}

/// The outcome for `samples_len` samples read back, in which the onsets at
/// sample indices `edges` were found.
pub open spec fn outcome_of(samples_len: nat, edges: Seq<usize>) -> TapOutcome {
    if samples_len < MIN_ANALYSIS_SAMPLES {
        TapOutcome::TooShort
    } else if edges.len() >= 2 {
        TapOutcome::Latency((edges[1] - edges[0]) as usize)
    } else if edges.len() == 1 {
        TapOutcome::OneEdge
    } else {
        TapOutcome::NoEdges
    }
}

/// Classifies a measurement from the number of samples read back and the
/// onsets found in them (in increasing order; only the first two count).
pub fn tap_outcome(samples_len: usize, edges: &Vec<usize>) -> (r: TapOutcome)
    requires
        samples_len >= MIN_ANALYSIS_SAMPLES && edges@.len() >= 2 ==> edges@[0] <= edges@[1],
    ensures
        r == outcome_of(samples_len as nat, edges@),
{
    if samples_len < MIN_ANALYSIS_SAMPLES {
        TapOutcome::TooShort
    } else if edges.len() >= 2 {
        TapOutcome::Latency(edges[1] - edges[0])
    } else if edges.len() == 1 {
        TapOutcome::OneEdge
    } else {
        TapOutcome::NoEdges
    }
}

} // verus!
