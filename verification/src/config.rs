use vstd::prelude::*;

verus! {

/// Fixed-point scale for confidence values: a score of `CONFIDENCE_SCALE`
/// stands for full certainty, `0` for none. A threshold of `850` therefore
/// means a confidence of at least 85 percent.
pub const CONFIDENCE_SCALE: u32 = 1000;

/// Largest frame the feature extractor accepts, chosen so that the scaled
/// energy sums below stay inside `u64` arithmetic. At 16 kHz this is well
/// over a quarter hour of audio in one frame, far beyond any real frame.
pub const MAX_FRAME_SAMPLES: usize = 16777216;

/// Everything the engine is configured with, supplied once at construction.
///
/// Confidence values (`confidence_threshold`) are fixed-point on the scale
/// `0 ..= CONFIDENCE_SCALE`. `model_path` names the injected scoring model;
/// the engine itself never reads it, the host loads the model from it.
pub struct EngineOptions {
    /// Samples per second of the capture source, e.g. 16000.
    pub sample_rate: u32,
    /// Length of one captured frame in milliseconds, e.g. 20.
    pub frame_size_ms: u32,
    /// How many bins one feature vector holds.
    pub feature_bins: usize,
    /// How many feature vectors the detector's sliding window holds.
    pub window_frames: usize,
    /// Scores at or above this trigger (after debounce), on the scale above.
    pub confidence_threshold: u32,
    /// How many consecutive scoring frames must clear the threshold.
    pub min_consecutive_frames: u32,
    /// How many frames are ignored after a trigger.
    pub cooldown_frames: u32,
    /// Where the host finds the scoring model.
    pub model_path: String,
}

impl EngineOptions {
    /// Options the engine can run with: nonempty frames and windows, at least
    /// one frame of debounce, and a threshold inside the confidence scale.
    pub open spec fn wf(self) -> bool {
        &&& 1 <= self.sample_rate
        &&& 1 <= self.frame_size_ms
        &&& 1 <= self.feature_bins
        &&& 1 <= self.window_frames
        &&& self.confidence_threshold <= CONFIDENCE_SCALE
        &&& 1 <= self.min_consecutive_frames
    }

    /// Whether these options are ones the engine can run with.
    pub fn validate(&self) -> (ok: bool)
        ensures
            ok == self.wf(),
    {
        1 <= self.sample_rate && 1 <= self.frame_size_ms && 1 <= self.feature_bins
            && 1 <= self.window_frames && self.confidence_threshold <= CONFIDENCE_SCALE
            && 1 <= self.min_consecutive_frames
    }

    /// Samples in one captured frame at this rate and frame length.
    pub fn frame_samples(&self) -> (n: u64)
        ensures
            n as int == self.sample_rate as int * self.frame_size_ms as int / 1000,
    {
        proof {
            assert(self.sample_rate as int * self.frame_size_ms as int
                <= 0xffff_ffff * 0xffff_ffff) by (nonlinear_arith)
                requires self.sample_rate <= 0xffff_ffffu32 && self.frame_size_ms <= 0xffff_ffffu32;
        }
        (self.sample_rate as u64) * (self.frame_size_ms as u64) / 1000
    }
}

impl Default for EngineOptions {
    /// A sensible starting point: 16 kHz capture in 20 ms frames, 16 feature
    /// bins over a 30-frame window, an 85 percent threshold held for 3
    /// consecutive frames, and a 50-frame cooldown (about one second).
    fn default() -> (d: Self)
        ensures
            d.wf(),
            d.sample_rate == 16000,
            d.frame_size_ms == 20,
            d.feature_bins == 16,
            d.window_frames == 30,
            d.confidence_threshold == 850,
            d.min_consecutive_frames == 3,
            d.cooldown_frames == 50,
            d.model_path@ == Seq::<char>::empty(),
    {
        let d = EngineOptions {
            sample_rate: 16000,
            frame_size_ms: 20,
            feature_bins: 16,
            window_frames: 30,
            confidence_threshold: 850,
            min_consecutive_frames: 3,
            cooldown_frames: 50,
            model_path: "".to_owned(),
        };
        proof {
            reveal_strlit("");
            assert(d.model_path@ =~= Seq::<char>::empty());
        }
        d
    }
}

} // verus!
