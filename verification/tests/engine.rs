use wake_word_engine::config::{EngineOptions, CONFIDENCE_SCALE};
use wake_word_engine::controller::{DetectionController, EnableOutcome, StartupError};
use wake_word_engine::detector::{DetectionEvent, KeywordDetector, ScoringError};
use wake_word_engine::feature::{extract, FeatureVector};
use wake_word_engine::frame::AudioFrame;
use wake_word_engine::ring_buffer::RingBuffer;

fn frame(timestamp: u64, samples: Vec<i16>) -> AudioFrame {
    AudioFrame { timestamp, samples }
}

fn vector(timestamp: u64) -> FeatureVector {
    FeatureVector { timestamp, bins: vec![0, 0] }
}

fn options(
    window_frames: usize,
    threshold: u32,
    min_consecutive: u32,
    cooldown: u32,
) -> EngineOptions {
    EngineOptions {
        sample_rate: 16000,
        frame_size_ms: 20,
        feature_bins: 2,
        window_frames,
        confidence_threshold: threshold,
        min_consecutive_frames: min_consecutive,
        cooldown_frames: cooldown,
        model_path: String::new(),
    }
}

#[test]
fn ring_buffer_starts_empty() {
    let mut rb = RingBuffer::new(3);
    assert_eq!(rb.capacity(), 3);
    assert_eq!(rb.len(), 0);
    assert_eq!(rb.dropped_frames(), 0);
    assert!(rb.pop().is_none());
}

#[test]
fn ring_buffer_overflow_keeps_most_recent_in_order() {
    let mut rb = RingBuffer::new(3);
    for ts in 1..=5u64 {
        rb.push(frame(ts, vec![ts as i16]));
    }
    assert_eq!(rb.len(), 3);
    assert_eq!(rb.dropped_frames(), 2);
    let timestamps: Vec<u64> = [rb.pop(), rb.pop(), rb.pop()]
        .into_iter()
        .map(|f| f.unwrap().timestamp)
        .collect();
    assert_eq!(timestamps, vec![3, 4, 5]);
    assert!(rb.pop().is_none());
}

#[test]
fn ring_buffer_capacity_one_holds_newest() {
    let mut rb = RingBuffer::new(1);
    rb.push(frame(1, vec![1]));
    rb.push(frame(2, vec![2]));
    rb.push(frame(3, vec![3]));
    assert_eq!(rb.dropped_frames(), 2);
    let last = rb.pop().unwrap();
    assert_eq!(last.timestamp, 3);
    assert_eq!(last.samples, vec![3]);
    assert!(rb.pop().is_none());
}

#[test]
fn ring_buffer_preserves_order_without_overflow() {
    let mut rb = RingBuffer::new(4);
    rb.push(frame(10, vec![0]));
    rb.push(frame(11, vec![0]));
    assert_eq!(rb.dropped_frames(), 0);
    assert_eq!(rb.pop().unwrap().timestamp, 10);
    assert_eq!(rb.pop().unwrap().timestamp, 11);
}

#[test]
fn extract_constant_amplitude_is_exact() {
    // Two bins over four samples of magnitude 16384: each bin sums to 32768
    // over a chunk of 2, so each holds 32768 * 1000 / (2 * 32768) = 500.
    let f = frame(7, vec![16384, 16384, -16384, 16384]);
    let fv = extract(&f, 2);
    assert_eq!(fv.timestamp, 7);
    assert_eq!(fv.bins, vec![500, 500]);
}

#[test]
fn extract_silence_is_zero() {
    let f = frame(1, vec![0; 320]);
    let fv = extract(&f, 16);
    assert_eq!(fv.bins, vec![0; 16]);
}

#[test]
fn extract_full_scale_saturates_the_scale() {
    // Magnitude 32768 everywhere: every bin is exactly CONFIDENCE_SCALE.
    let f = frame(2, vec![i16::MIN; 8]);
    let fv = extract(&f, 4);
    assert_eq!(fv.bins, vec![CONFIDENCE_SCALE; 4]);
}

#[test]
fn extract_short_frame_yields_zero_bins() {
    // Fewer samples than bins: chunks are empty, every bin is zero.
    let f = frame(3, vec![1000, -1000]);
    let fv = extract(&f, 5);
    assert_eq!(fv.bins, vec![0; 5]);
}

#[test]
fn extract_is_deterministic() {
    let f = frame(4, vec![100, -200, 300, -400, 500, -600]);
    let a = extract(&f, 3);
    let b = extract(&f, 3);
    assert_eq!(a.bins, b.bins);
    assert_eq!(a.timestamp, b.timestamp);
}

#[test]
fn detector_concrete_scenario_fires_once_then_cools() {
    // Options {min_consecutive: 3, cooldown: 5, threshold: 0.8}; confidence
    // sequence [0.9, 0.9, 0.9, 0.2, 0.9, 0.9, 0.9] in fixed point: exactly
    // one event, at the third frame; none thereafter, the cooldown of 5 not
    // yet elapsed by frame 7.
    let mut det = KeywordDetector::new(options(1, 800, 3, 5));
    let scores = [900u32, 900, 900, 200, 900, 900, 900];
    let mut events: Vec<DetectionEvent> = Vec::new();
    for (i, &score) in scores.iter().enumerate() {
        let ts = (i + 1) as u64;
        if let Some(ev) = det.step(vector(ts), Ok(score)) {
            events.push(ev);
        }
    }
    assert_eq!(events.len(), 1);
    assert_eq!(events[0].timestamp, 3);
    assert_eq!(events[0].confidence, 900);
}

#[test]
fn detector_debounce_exact_length_fires_once() {
    // Holding confidence at the threshold for exactly min_consecutive frames
    // triggers exactly one event.
    let mut det = KeywordDetector::new(options(1, 800, 3, 10));
    let mut events = 0;
    for ts in 1..=3u64 {
        if det.step(vector(ts), Ok(800)).is_some() {
            events += 1;
        }
    }
    assert_eq!(events, 1);
}

#[test]
fn detector_debounce_too_short_is_silent() {
    // Holding for min_consecutive - 1 frames and then dropping below the
    // threshold emits nothing.
    let mut det = KeywordDetector::new(options(1, 800, 3, 10));
    let mut events = 0;
    for ts in 1..=2u64 {
        if det.step(vector(ts), Ok(999)).is_some() {
            events += 1;
        }
    }
    if det.step(vector(3), Ok(100)).is_some() {
        events += 1;
    }
    assert_eq!(events, 0);
}

#[test]
fn detector_cooldown_suppresses_even_full_confidence() {
    // After a trigger, no further event for cooldown_frames frames even at
    // confidence 1.0 throughout.
    let cooldown = 5u32;
    let mut det = KeywordDetector::new(options(1, 800, 1, cooldown));
    let first = det.step(vector(1), Ok(CONFIDENCE_SCALE));
    assert!(first.is_some());
    for i in 0..cooldown {
        let ts = 2 + i as u64;
        assert_eq!(det.cooldown_remaining(), cooldown - i);
        assert!(det.step(vector(ts), Ok(CONFIDENCE_SCALE)).is_none());
    }
    assert_eq!(det.cooldown_remaining(), 0);
    // The very next judged frame may trigger again.
    let again = det.step(vector(100), Ok(CONFIDENCE_SCALE));
    assert!(again.is_some());
    assert_eq!(again.unwrap().timestamp, 100);
}

#[test]
fn detector_scoring_error_is_recovered_locally() {
    // A scoring failure is a zero-confidence frame: no event, no panic, and
    // the next frames are processed normally.
    let mut det = KeywordDetector::new(options(1, 500, 2, 10));
    assert!(det.step(vector(1), Ok(600)).is_none());
    assert!(det.step(vector(2), Err(ScoringError {})).is_none());
    // The error reset the debounce run, so a full run is needed again.
    assert!(det.step(vector(3), Ok(600)).is_none());
    let ev = det.step(vector(4), Ok(600));
    assert!(ev.is_some());
    assert_eq!(ev.unwrap().timestamp, 4);
}

#[test]
fn detector_window_fills_before_scoring() {
    // With a window of 3 vectors, the first two frames only gather; the
    // model's verdict is not consulted for them.
    let mut det = KeywordDetector::new(options(3, 500, 1, 0));
    assert!(!det.needs_score());
    assert!(det.step(vector(1), Ok(CONFIDENCE_SCALE)).is_none());
    assert!(!det.needs_score());
    assert!(det.step(vector(2), Ok(CONFIDENCE_SCALE)).is_none());
    assert!(det.needs_score());
    assert_eq!(det.window().len(), 2);
    let ev = det.step(vector(3), Ok(CONFIDENCE_SCALE));
    assert!(ev.is_some());
    assert_eq!(ev.unwrap().timestamp, 3);
}

#[test]
fn detector_window_slides_oldest_out() {
    let mut det = KeywordDetector::new(options(2, CONFIDENCE_SCALE, 1, 0));
    det.step(vector(1), Ok(0));
    det.step(vector(2), Ok(0));
    det.step(vector(3), Ok(0));
    let stamps: Vec<u64> = det.window().iter().map(|v| v.timestamp).collect();
    assert_eq!(stamps, vec![2, 3]);
}

#[test]
fn controller_enable_twice_starts_one_pipeline() {
    // Idempotence: two enables without an intervening disable start exactly
    // one background pipeline.
    let mut ctrl = DetectionController::new();
    let first = ctrl.enable(Ok(()));
    let second = ctrl.enable(Ok(()));
    assert_eq!(first, EnableOutcome::Started(1));
    assert_eq!(second, EnableOutcome::AlreadyEnabled);
    assert!(ctrl.is_detection_enabled());
    let started = [first, second]
        .iter()
        .filter(|o| matches!(o, EnableOutcome::Started(_)))
        .count();
    assert_eq!(started, 1);
}

#[test]
fn controller_disable_then_enable_has_one_live_pipeline() {
    // Resource cleanliness: after disable and an immediate enable, exactly
    // one token continues — the fresh one; the old pipeline's token is stale,
    // so it exits and releases the device on its next poll.
    let mut ctrl = DetectionController::new();
    let first = ctrl.enable(Ok(()));
    assert_eq!(first, EnableOutcome::Started(1));
    assert!(ctrl.disable());
    assert!(!ctrl.is_detection_enabled());
    let second = ctrl.enable(Ok(()));
    assert_eq!(second, EnableOutcome::Started(2));
    assert!(!ctrl.should_continue(1));
    assert!(ctrl.should_continue(2));
    assert!(ctrl.is_detection_enabled());
}

#[test]
fn controller_failed_enable_stays_disabled() {
    let mut ctrl = DetectionController::new();
    let outcome = ctrl.enable(Err(StartupError::DeviceUnavailable));
    assert_eq!(outcome, EnableOutcome::Unavailable(StartupError::DeviceUnavailable));
    assert!(!ctrl.is_detection_enabled());
    let outcome = ctrl.enable(Err(StartupError::PermissionDenied));
    assert_eq!(outcome, EnableOutcome::Unavailable(StartupError::PermissionDenied));
    let outcome = ctrl.enable(Err(StartupError::ModelLoadError));
    assert_eq!(outcome, EnableOutcome::Unavailable(StartupError::ModelLoadError));
    assert!(!ctrl.is_detection_enabled());
    // A later successful attempt still works and issues a fresh token.
    assert_eq!(ctrl.enable(Ok(())), EnableOutcome::Started(1));
}

#[test]
fn controller_disable_when_disabled_is_a_no_op() {
    let mut ctrl = DetectionController::new();
    assert!(!ctrl.disable());
    assert!(!ctrl.is_detection_enabled());
    assert!(!ctrl.should_continue(0));
    assert!(!ctrl.should_continue(1));
}

#[test]
fn startup_error_reasons_are_clear() {
    assert_eq!(
        StartupError::DeviceUnavailable.reason(),
        "no audio input device is available"
    );
    assert_eq!(StartupError::PermissionDenied.reason(), "microphone access was denied");
    assert_eq!(
        StartupError::ModelLoadError.reason(),
        "the scoring model could not be loaded"
    );
}

#[test]
fn options_default_and_validation() {
    let d = EngineOptions::default();
    assert!(d.validate());
    assert_eq!(d.sample_rate, 16000);
    assert_eq!(d.frame_size_ms, 20);
    assert_eq!(d.confidence_threshold, 850);
    assert_eq!(d.min_consecutive_frames, 3);
    assert_eq!(d.cooldown_frames, 50);
    assert_eq!(d.frame_samples(), 320);

    let mut bad = EngineOptions::default();
    bad.window_frames = 0;
    assert!(!bad.validate());
    let mut bad = EngineOptions::default();
    bad.confidence_threshold = CONFIDENCE_SCALE + 1;
    assert!(!bad.validate());
    let mut bad = EngineOptions::default();
    bad.min_consecutive_frames = 0;
    assert!(!bad.validate());
}
