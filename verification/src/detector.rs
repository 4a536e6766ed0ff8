use vstd::prelude::*;
use crate::config::{EngineOptions, CONFIDENCE_SCALE};
use crate::feature::FeatureVector;

verus! {

/// The injected scoring model failed on one window. Recovered locally: the
/// detector treats the frame as zero confidence and carries on; the failure
/// is never surfaced to the host.
#[derive(Clone, Copy, PartialEq, Eq, Structural, Debug)]
pub struct ScoringError {}

/// Raised once per trigger: the stamp of the frame that completed the
/// detection and the confidence the model reported for it.
#[derive(Clone, Copy, PartialEq, Eq, Structural, Debug)]
pub struct DetectionEvent {
    /// Stamp of the triggering frame.
    pub timestamp: u64,
    /// Confidence at the trigger, on the scale `0 ..= CONFIDENCE_SCALE`.
    pub confidence: u32,
}

/// The model's verdict brought onto the confidence scale: an error counts as
/// zero confidence, and a verdict above the scale is read as full confidence.
pub open spec fn clamped_score(score: Result<u32, ScoringError>) -> int {
    match score {
        Ok(c) => if c > CONFIDENCE_SCALE {
            CONFIDENCE_SCALE as int
        } else {
            c as int
        },
        Err(_) => 0,
    }
}

/// Mathematical state of the keyword detector: the sliding window of feature
/// vectors, the debounce counter of consecutive hits, the cooldown timer, and
/// the configuration it runs under.
pub struct DetectorModel {
    /// How many vectors a full window holds.
    pub window_frames: int,
    /// Scores at or above this are hits.
    pub threshold: int,
    /// How many consecutive hits trigger.
    pub min_consecutive: int,
    /// How many frames are ignored after a trigger.
    pub cooldown_frames: int,
    /// The vectors seen most recently, oldest first.
    pub window: Seq<FeatureVector>,
    /// Hits in a row so far.
    pub consecutive: int,
    /// Frames still to ignore after the last trigger.
    pub cooldown_left: int,
}

impl DetectorModel {
    /// The detector's invariant: configuration in range, window bounded, the
    /// debounce counter strictly below its goal, the cooldown timer within
    /// its span, no window or debounce progress while cooling down, and
    /// debounce progress only on a full window.
    pub open spec fn wf(self) -> bool {
        &&& 1 <= self.window_frames
        &&& 0 <= self.threshold <= CONFIDENCE_SCALE
        &&& 1 <= self.min_consecutive
        &&& 0 <= self.cooldown_frames
        &&& self.window.len() <= self.window_frames
        &&& 0 <= self.consecutive < self.min_consecutive
        &&& 0 <= self.cooldown_left <= self.cooldown_frames
        &&& (self.cooldown_left > 0 ==> self.window.len() == 0 && self.consecutive == 0)
        &&& (self.consecutive > 0 ==> self.window.len() == self.window_frames)
    }

    /// The sliding window after absorbing `v`: appended, dropping the oldest
    /// vector when the window is already full.
    pub open spec fn absorbed(self, v: FeatureVector) -> Seq<FeatureVector> {
        if self.window.len() >= self.window_frames {
            self.window.drop_first().push(v)
        } else {
            self.window.push(v)
        }
    }

    /// Whether the next vector is judged by the model: the detector is not
    /// cooling down and the window is full once that vector arrives.
    pub open spec fn judges_next(self) -> bool {
        self.cooldown_left == 0 && self.window.len() + 1 >= self.window_frames
    }

    /// A judged frame whose confidence clears the threshold.
    pub open spec fn hit(self, score: Result<u32, ScoringError>) -> bool {
        self.judges_next() && clamped_score(score) >= self.threshold
    }

    /// A hit that completes the debounce run and so triggers.
    pub open spec fn fires(self, v: FeatureVector, score: Result<u32, ScoringError>) -> bool {
        self.hit(score) && self.consecutive + 1 >= self.min_consecutive
    }

    /// The state after one frame. Cooling down: the vector is ignored and the
    /// timer counts down. Triggering: the window clears and the cooldown
    /// starts. A plain hit advances the debounce counter; anything else
    /// resets it. Outside cooldown the window always slides.
    pub open spec fn stepped(self, v: FeatureVector, score: Result<u32, ScoringError>)
        -> DetectorModel {
        if self.cooldown_left > 0 {
            DetectorModel { cooldown_left: self.cooldown_left - 1, ..self }
        } else if self.fires(v, score) {
            DetectorModel {
                window: Seq::<FeatureVector>::empty(),
                consecutive: 0,
                cooldown_left: self.cooldown_frames,
                ..self
            }
        } else if self.hit(score) {
            DetectorModel { window: self.absorbed(v), consecutive: self.consecutive + 1, ..self }
        } else {
            DetectorModel { window: self.absorbed(v), consecutive: 0, ..self }
        }
    }

    /// What one frame emits: exactly one event at the moment of the trigger,
    /// stamped with the triggering frame, and nothing otherwise.
    pub open spec fn emitted(self, v: FeatureVector, score: Result<u32, ScoringError>)
        -> Option<DetectionEvent> {
        if self.fires(v, score) {
            Some(DetectionEvent { timestamp: v.timestamp, confidence: clamped_score(score) as u32 })
        } else {
            None
        }
    }
}

/// One step keeps the detector's invariant.
pub proof fn lemma_step_preserves_wf(
    m: DetectorModel,
    v: FeatureVector,
    score: Result<u32, ScoringError>,
)
    requires
        m.wf(),
    ensures
        m.stepped(v, score).wf(),
{
}

/// The stateful sliding-window scorer: it consumes feature vectors together
/// with the injected model's verdicts and decides when a detection event is
/// raised, debouncing single-frame spikes and enforcing a cooldown after each
/// trigger. A scoring failure counts as zero confidence and never stops the
/// pipeline.
pub struct KeywordDetector {
    options: EngineOptions,
    window: Vec<FeatureVector>,
    consecutive: u32,
    cooldown_left: u32,
}

impl View for KeywordDetector {
    type V = DetectorModel;

    closed spec fn view(&self) -> DetectorModel {
        DetectorModel {
            window_frames: self.options.window_frames as int,
            threshold: self.options.confidence_threshold as int,
            min_consecutive: self.options.min_consecutive_frames as int,
            cooldown_frames: self.options.cooldown_frames as int,
            window: self.window@,
            consecutive: self.consecutive as int,
            cooldown_left: self.cooldown_left as int,
        }
    }
}

impl KeywordDetector {
    /// The options this detector was built with.
    pub closed spec fn options_spec(self) -> EngineOptions {
        self.options
    }

    /// Invariant of the running detector: its model state is well formed and
    /// mirrors its options.
    pub open spec fn wf(self) -> bool {
        &&& self@.wf()
        &&& self@.window_frames == self.options_spec().window_frames as int
        &&& self@.threshold == self.options_spec().confidence_threshold as int
        &&& self@.min_consecutive == self.options_spec().min_consecutive_frames as int
        &&& self@.cooldown_frames == self.options_spec().cooldown_frames as int
    }

    /// A fresh detector: empty window, no debounce progress, no cooldown.
    pub fn new(options: EngineOptions) -> (d: KeywordDetector)
        requires
            options.wf(),
        ensures
            d.wf(),
            d.options_spec() == options,
            d@.window == Seq::<FeatureVector>::empty(),
            d@.consecutive == 0,
            d@.cooldown_left == 0,
    {
        KeywordDetector { options, window: Vec::new(), consecutive: 0, cooldown_left: 0 }
    }

    /// Whether the next frame will be judged by the model. While this is
    /// false (window still filling, or cooling down) the host may skip the
    /// scoring call: the verdict is ignored.
    pub fn needs_score(&self) -> (r: bool)
        requires
            self.wf(),
        ensures
            r == self@.judges_next(),
    {
        self.cooldown_left == 0 && self.window.len() >= self.options.window_frames - 1
    }

    /// Frames still ignored before scoring resumes.
    pub fn cooldown_remaining(&self) -> (n: u32)
        ensures
            n as int == self@.cooldown_left,
    {
        self.cooldown_left
    }

    /// The sliding window as gathered so far, oldest vector first. The host
    /// hands this, with the newest vector, to the scoring model.
    pub fn window(&self) -> (w: &Vec<FeatureVector>)
        ensures
            w@ == self@.window,
    {
        &self.window
    }

    /// The options this detector runs under.
    pub fn options(&self) -> (o: &EngineOptions)
        ensures
            *o == self.options_spec(),
    {
        &self.options
    }

    /// Consumes one feature vector together with the injected model's verdict
    /// for the window that vector completes, and returns the event to raise,
    /// if any. The verdict is consulted only when the detector judges this
    /// frame (`needs_score`); a `ScoringError` counts as zero confidence and
    /// is never surfaced. The state moves exactly as `stepped` says and the
    /// result is exactly `emitted`.
    pub fn step(&mut self, v: FeatureVector, score: Result<u32, ScoringError>)
        -> (ev: Option<DetectionEvent>)
        requires
            old(self).wf(),
        ensures
            final(self).wf(),
            final(self)@ == old(self)@.stepped(v, score),
            ev == old(self)@.emitted(v, score),
            final(self).options_spec() == old(self).options_spec(),
    {
        proof {
            lemma_step_preserves_wf(old(self)@, v, score);
        }
        if self.cooldown_left > 0 {
            self.cooldown_left = self.cooldown_left - 1;
            return None;
        }
        let ts = v.timestamp;
        if self.window.len() == self.options.window_frames {
            let _oldest = self.window.remove(0);
            proof {
                assert(self.window@ =~= old(self).window@.drop_first());
            }
        }
        self.window.push(v);
        let judged = self.window.len() == self.options.window_frames;
        let c: u32 = match score {
            Ok(raw) => if raw > CONFIDENCE_SCALE {
                CONFIDENCE_SCALE
            } else {
                raw
            },
            Err(_) => 0,
        };
        if judged && c >= self.options.confidence_threshold {
            if self.consecutive + 1 >= self.options.min_consecutive_frames {
                self.window.clear();
                self.consecutive = 0;
                self.cooldown_left = self.options.cooldown_frames;
                Some(DetectionEvent { timestamp: ts, confidence: c })
            } else {
                self.consecutive = self.consecutive + 1;
                None
            }
        } else {
            self.consecutive = 0;
            None
        }
    }
}

/// The model state after feeding a whole run of frames, each a feature
/// vector paired with the model's verdict, oldest first.
pub open spec fn run_stepped(
    m: DetectorModel,
    inputs: Seq<(FeatureVector, Result<u32, ScoringError>)>,
) -> DetectorModel
    decreases inputs.len(),
{
    if inputs.len() == 0 {
        m
    } else {
        run_stepped(m.stepped(inputs.first().0, inputs.first().1), inputs.drop_first())
    }
}

/// How many detection events such a run emits.
pub open spec fn run_event_count(
    m: DetectorModel,
    inputs: Seq<(FeatureVector, Result<u32, ScoringError>)>,
) -> int
    decreases inputs.len(),
{
    if inputs.len() == 0 {
        0
    } else {
        (if m.emitted(inputs.first().0, inputs.first().1) is Some {
            1int
        } else {
            0int
        }) + run_event_count(m.stepped(inputs.first().0, inputs.first().1), inputs.drop_first())
    }
}

/// Cooldown suppression: as long as the cooldown timer covers the run, no
/// event is emitted, whatever the confidences are.
pub proof fn lemma_cooldown_suppresses(
    m: DetectorModel,
    inputs: Seq<(FeatureVector, Result<u32, ScoringError>)>,
)
    requires
        m.wf(),
        inputs.len() <= m.cooldown_left,
    ensures
        run_event_count(m, inputs) == 0,
    decreases inputs.len(),
{
    if inputs.len() > 0 {
        lemma_step_preserves_wf(m, inputs.first().0, inputs.first().1);
        lemma_cooldown_suppresses(m.stepped(inputs.first().0, inputs.first().1),
            inputs.drop_first());
    }
}

/// After a trigger, no further event is emitted for `cooldown_frames`
/// subsequent frames, even if confidence stays at its maximum throughout.
pub proof fn lemma_post_trigger_quiet(
    m: DetectorModel,
    v: FeatureVector,
    score: Result<u32, ScoringError>,
    inputs: Seq<(FeatureVector, Result<u32, ScoringError>)>,
)
    requires
        m.wf(),
        m.fires(v, score),
        inputs.len() <= m.cooldown_frames,
    ensures
        run_event_count(m.stepped(v, score), inputs) == 0,
{
    lemma_step_preserves_wf(m, v, score);
    lemma_cooldown_suppresses(m.stepped(v, score), inputs);
}

/// Debounce, triggering half: from a quiescent full window, a run of hits
/// that completes the debounce length emits exactly one event, and that
/// event comes on the run's last frame.
pub proof fn lemma_debounce_run_fires_once(
    m: DetectorModel,
    inputs: Seq<(FeatureVector, Result<u32, ScoringError>)>,
)
    requires
        m.wf(),
        m.cooldown_left == 0,
        m.window.len() == m.window_frames,
        m.consecutive + inputs.len() == m.min_consecutive,
        forall|i: int| 0 <= i < inputs.len() ==> clamped_score((#[trigger] inputs[i]).1)
            >= m.threshold,
    ensures
        run_event_count(m, inputs) == 1,
        run_event_count(m, inputs.take(inputs.len() - 1)) == 0,
    decreases inputs.len(),
{
    let v0 = inputs.first().0;
    let s0 = inputs.first().1;
    assert(clamped_score(inputs[0].1) >= m.threshold);
    assert(m.hit(s0));
    lemma_step_preserves_wf(m, v0, s0);
    let m1 = m.stepped(v0, s0);
    if inputs.len() == 1 {
        assert(m.fires(v0, s0));
        assert(run_event_count(m1, inputs.drop_first()) == 0);
        assert(inputs.take(0) =~= Seq::<(FeatureVector, Result<u32, ScoringError>)>::empty());
    } else {
        assert(!m.fires(v0, s0));
        assert(m1.window.len() == m1.window_frames);
        assert(forall|i: int| 0 <= i < inputs.drop_first().len()
            ==> clamped_score((#[trigger] inputs.drop_first()[i]).1) >= m.threshold);
        lemma_debounce_run_fires_once(m1, inputs.drop_first());
        let head = inputs.take(inputs.len() - 1);
        assert(head.first() == inputs.first());
        assert(head.drop_first() =~= inputs.drop_first().take(inputs.drop_first().len() - 1));
    }
}

/// Debounce, silent half: a run of hits too short to complete the debounce,
/// closed by one frame below the threshold, emits nothing at all and leaves
/// the debounce counter reset.
pub proof fn lemma_debounce_short_run_is_silent(
    m: DetectorModel,
    inputs: Seq<(FeatureVector, Result<u32, ScoringError>)>,
)
    requires
        m.wf(),
        m.cooldown_left == 0,
        m.window.len() == m.window_frames,
        1 <= inputs.len(),
        m.consecutive + inputs.len() <= m.min_consecutive,
        forall|i: int| 0 <= i < inputs.len() - 1 ==> clamped_score((#[trigger] inputs[i]).1)
            >= m.threshold,
        clamped_score(inputs.last().1) < m.threshold,
    ensures
        run_event_count(m, inputs) == 0,
        run_stepped(m, inputs).consecutive == 0,
    decreases inputs.len(),
{
    let v0 = inputs.first().0;
    let s0 = inputs.first().1;
    lemma_step_preserves_wf(m, v0, s0);
    let m1 = m.stepped(v0, s0);
    if inputs.len() == 1 {
        assert(!m.hit(s0));
        assert(!m.fires(v0, s0));
        assert(inputs.drop_first().len() == 0);
        assert(run_event_count(m1, inputs.drop_first()) == 0);
        assert(run_stepped(m1, inputs.drop_first()) == m1);
        assert(m1.consecutive == 0);
    } else {
        assert(clamped_score(inputs[0].1) >= m.threshold);
        assert(m.hit(s0));
        assert(!m.fires(v0, s0));
        assert(m1.window.len() == m1.window_frames);
        assert(inputs.drop_first().last() == inputs.last());
        assert(forall|i: int| 0 <= i < inputs.drop_first().len() - 1
            ==> clamped_score((#[trigger] inputs.drop_first()[i]).1) >= m.threshold);
        lemma_debounce_short_run_is_silent(m1, inputs.drop_first());
    }
}

/// Failure containment: a scoring error on a frame moves the detector
/// exactly as a zero-confidence verdict would — no event, no error to the
/// host, and the next frame is processed normally.
pub proof fn lemma_scoring_error_is_zero_confidence(
    m: DetectorModel,
    v: FeatureVector,
    e: ScoringError,
)
    ensures
        m.stepped(v, Err(e)) == m.stepped(v, Ok(0u32)),
        m.emitted(v, Err(e)) == m.emitted(v, Ok(0u32)),
        m.threshold > 0 ==> m.emitted(v, Err(e)) is None,
{
}

} // verus!
