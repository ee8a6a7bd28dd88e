use sherpa_rs_next::capability::{
    ObservedDetector, ObservedRecognizer, RecognitionError, Recognizer, SpeechSegment,
    VoiceActivityDetector,
};
use sherpa_rs_next::driver::{PartialOutcome, SegmentOutcome};
use sherpa_rs_next::resample::{RateConverter, TARGET_RATE};
use sherpa_rs_next::segmenter::Segmenter;

/// Reports speech from a given window on, and completes a segment after a
/// given number of windows, if any; `flush` completes the speech under way.
struct ScriptedVad {
    windows_seen: usize,
    speech_from: usize,
    complete_after: Option<usize>,
    completed: Vec<SpeechSegment<f32>>,
    fed: Vec<f32>,
    flushed: usize,
}

impl ScriptedVad {
    fn new(speech_from: usize, complete_after: Option<usize>) -> Self {
        ScriptedVad {
            windows_seen: 0,
            speech_from,
            complete_after,
            completed: Vec::new(),
            fed: Vec::new(),
            flushed: 0,
        }
    }

    fn with_segment(mut self, samples: Vec<f32>) -> Self {
        self.completed.push(SpeechSegment { start: 0, samples });
        self
    }

    fn complete_speech(&mut self) {
        let start = (self.speech_from * 512).min(self.fed.len());
        self.completed.push(SpeechSegment { start: start as i32, samples: self.fed[start..].to_vec() });
    }
}

impl VoiceActivityDetector<f32> for ScriptedVad {
    fn accept_window(&mut self, samples: &Vec<f32>) {
        assert_eq!(samples.len(), 512);
        self.fed.extend_from_slice(samples);
        self.windows_seen += 1;
        if self.complete_after == Some(self.windows_seen) {
            self.complete_speech();
        }
    }

    fn is_speech_detected(&mut self) -> bool {
        self.windows_seen > self.speech_from
    }

    fn has_completed_segment(&mut self) -> bool {
        !self.completed.is_empty()
    }

    fn pop_completed_segment(&mut self) -> Option<SpeechSegment<f32>> {
        Some(self.completed.remove(0))
    }

    fn flush(&mut self) {
        self.flushed += 1;
        if self.windows_seen > self.speech_from {
            self.complete_speech();
        }
    }

    fn reset(&mut self) {
        self.windows_seen = 0;
        self.completed.clear();
    }
}

/// Names the audio it was given by its length.
struct CountingRecognizer {
    calls: Vec<Vec<f32>>,
}

impl Recognizer<f32> for CountingRecognizer {
    fn transcribe(&mut self, sample_rate: u32, samples: &Vec<f32>) -> Result<String, RecognitionError> {
        assert_eq!(sample_rate, 16000);
        self.calls.push(samples.clone());
        Ok(format!("heard {}", samples.len()))
    }
}

struct FailingRecognizer;

impl Recognizer<f32> for FailingRecognizer {
    fn transcribe(&mut self, _: u32, _: &Vec<f32>) -> Result<String, RecognitionError> {
        Err(RecognitionError)
    }
}

struct FixedRecognizer;

impl Recognizer<f32> for FixedRecognizer {
    fn transcribe(&mut self, _: u32, _: &Vec<f32>) -> Result<String, RecognitionError> {
        Ok("same".to_string())
    }
}

fn counting() -> ObservedRecognizer<f32, CountingRecognizer> {
    ObservedRecognizer::new(CountingRecognizer { calls: Vec::new() })
}

fn lerp(a: f32, b: f32, num: u32, den: u32) -> f32 {
    let frac = num as f32 / den as f32;
    a * (1.0 - frac) + b * frac
}

fn distinct(n: usize, from: usize) -> Vec<f32> {
    (from..from + n).map(|i| i as f32).collect()
}

fn lens(calls: &[Vec<f32>]) -> Vec<usize> {
    calls.iter().map(|c| c.len()).collect()
}

#[test]
fn speech_from_third_window_gives_partials_and_no_final() {
    let conv = RateConverter::new(16000, TARGET_RATE).unwrap();
    let mut seg: Segmenter<f32> = Segmenter::new();
    let mut vad = ObservedDetector::new(ScriptedVad::new(2, None));
    let mut rec = counting();
    let mut partials = Vec::new();
    let mut finals = 0;
    let mut sent = Vec::new();
    for k in 0..3u64 {
        let now = k * 300;
        let raw = distinct(1600, 1600 * k as usize);
        sent.extend_from_slice(&raw);
        let chunk = conv.resample(&raw, 0.0, &lerp);
        assert_eq!(chunk, raw);
        if let PartialOutcome::Shown(r) = seg.process_chunk(&chunk, &mut vad, &mut rec, 16000, now) {
            assert!(!r.is_final);
            partials.push(r.text);
        }
        for out in seg.drain_segments(&mut vad, &mut rec, 16000, usize::MAX) {
            if let SegmentOutcome::Final(_) = out {
                finals += 1;
            }
        }
    }
    // Nine windows went to the detector, the sent samples in order; the
    // last 192 wait.
    assert_eq!(vad.inner().windows_seen, 9);
    assert_eq!(vad.inner().fed, sent[..4608].to_vec());
    // Speech begins at the third window: buffer index 1024.
    assert!(seg.speech().active);
    assert_eq!(seg.speech().start_index, 1024);
    assert_eq!(seg.offset(), 4608);
    assert_eq!(finals, 0);
    // At 300 ms and at 600 ms the partial covers the buffer from 1024 on.
    assert_eq!(lens(&rec.inner().calls), vec![2176, 3776]);
    assert_eq!(rec.inner().calls[1], sent[1024..].to_vec());
    assert_eq!(partials, vec!["heard 2176".to_string(), "heard 3776".to_string()]);
}

#[test]
fn stereo_48k_chunk_stays_pending_below_one_window() {
    let conv = RateConverter::new(48000, TARGET_RATE).unwrap();
    let mono = vec![0.25f32; 1440];
    let chunk = conv.resample(&mono, 0.0, &lerp);
    assert_eq!(chunk.len(), 480);
    let mut seg: Segmenter<f32> = Segmenter::new();
    let mut vad = ObservedDetector::new(ScriptedVad::new(0, None));
    let mut rec = counting();
    let out = seg.process_chunk(&chunk, &mut vad, &mut rec, 16000, 0);
    assert!(matches!(out, PartialOutcome::NotDue));
    assert_eq!(vad.inner().windows_seen, 0);
    assert_eq!(seg.buffer_len(), 480);
    assert_eq!(seg.offset(), 0);
}

#[test]
fn segment_completed_right_after_start_resets_for_a_fresh_utterance() {
    let mut seg: Segmenter<f32> = Segmenter::new();
    let mut vad = ObservedDetector::new(ScriptedVad::new(1, Some(2)));
    let mut rec = counting();
    seg.append(&vec![0.2f32; 1100]);
    seg.feed_windows(&mut vad, 0);
    assert!(seg.speech().active);
    assert_eq!(seg.speech().start_index, 512);
    let mut finals = Vec::new();
    for out in seg.drain_segments(&mut vad, &mut rec, 16000, usize::MAX) {
        match out {
            SegmentOutcome::Final(r) => {
                assert!(r.is_final);
                finals.push(r.text);
            }
            other => panic!("unexpected {:?}", other),
        }
    }
    assert_eq!(finals, vec!["heard 588".to_string()]);
    assert_eq!(seg.buffer_len(), 0);
    assert_eq!(seg.offset(), 0);
    assert!(!seg.speech().active);
    assert_eq!(seg.last_partial(), "");
    // The next utterance is counted from the cleared buffer, on new audio only.
    let fresh = distinct(1024, 5000);
    seg.append(&fresh);
    seg.feed_windows(&mut vad, 1000);
    assert_eq!(vad.inner().fed[1024..].to_vec(), fresh);
    assert!(seg.speech().active);
    assert_eq!(seg.speech().start_index, 0);
    assert_eq!(seg.speech().started_at, 1000);
    match seg.run_partial(&mut rec, 16000, 1200) {
        PartialOutcome::Shown(r) => assert_eq!(r.text, "heard 1024"),
        other => panic!("unexpected {:?}", other),
    }
    assert_eq!(rec.inner().calls[1], fresh);
}

#[test]
fn empty_buffer_falls_back_to_the_segment_samples() {
    let mut seg: Segmenter<f32> = Segmenter::new();
    let mut vad = ObservedDetector::new(ScriptedVad::new(0, None).with_segment(vec![0.5; 700]));
    let mut rec = counting();
    match seg.drain_segment(&mut vad, &mut rec, 16000) {
        SegmentOutcome::Final(r) => assert_eq!(r.text, "heard 700"),
        other => panic!("unexpected {:?}", other),
    }
    assert!(matches!(seg.drain_segment(&mut vad, &mut rec, 16000), SegmentOutcome::NoneWaiting));
}

#[test]
fn each_waiting_segment_is_drained_once() {
    let mut seg: Segmenter<f32> = Segmenter::new();
    let vad = ScriptedVad::new(0, None)
        .with_segment(vec![0.5; 10])
        .with_segment(vec![0.5; 20])
        .with_segment(vec![0.5; 30]);
    let mut vad = ObservedDetector::new(vad);
    let mut rec = counting();
    seg.append(&vec![0.1f32; 100]);
    let outs = seg.drain_segments(&mut vad, &mut rec, 16000, usize::MAX);
    assert_eq!(outs.len(), 3);
    // The buffer first; after the reset, each segment's own samples.
    assert_eq!(lens(&rec.inner().calls), vec![100, 20, 30]);
    assert!(vad.into_inner().completed.is_empty());
    // A limit stops the drain early.
    let vad = ScriptedVad::new(0, None).with_segment(vec![0.5; 10]).with_segment(vec![0.5; 20]);
    let mut vad = ObservedDetector::new(vad);
    let outs = seg.drain_segments(&mut vad, &mut rec, 16000, 1);
    assert_eq!(outs.len(), 1);
    assert_eq!(vad.inner().completed.len(), 1);
}

#[test]
fn cancellation_flushes_speech_under_way() {
    let mut seg: Segmenter<f32> = Segmenter::new();
    let mut vad = ObservedDetector::new(ScriptedVad::new(0, None));
    let mut rec = counting();
    seg.process_chunk(&vec![0.1f32; 1024], &mut vad, &mut rec, 16000, 0);
    assert!(seg.drain_segments(&mut vad, &mut rec, 16000, usize::MAX).is_empty());
    let outs = seg.flush_and_drain(&mut vad, &mut rec, 16000, usize::MAX);
    assert_eq!(vad.inner().flushed, 1);
    assert_eq!(outs.len(), 1);
    match &outs[0] {
        SegmentOutcome::Final(r) => assert_eq!(r.text, "heard 1024"),
        other => panic!("unexpected {:?}", other),
    }
    assert_eq!(seg.buffer_len(), 0);
}

#[test]
fn failed_recognition_skips_the_attempt_but_resets_the_timer() {
    let mut seg: Segmenter<f32> = Segmenter::new();
    let mut vad = ObservedDetector::new(ScriptedVad::new(0, Some(1)));
    let mut rec = ObservedRecognizer::new(FailingRecognizer);
    seg.append(&vec![0.1f32; 600]);
    seg.feed_windows(&mut vad, 0);
    assert!(matches!(seg.run_partial(&mut rec, 16000, 500), PartialOutcome::Failed));
    assert_eq!(seg.speech().started_at, 500);
    assert!(matches!(seg.run_partial(&mut rec, 16000, 600), PartialOutcome::NotDue));
    assert!(matches!(seg.drain_segment(&mut vad, &mut rec, 16000), SegmentOutcome::RecognitionFailed));
    assert_eq!(seg.buffer_len(), 0);
    assert!(!seg.speech().active);
}

#[test]
fn partial_runs_at_exactly_the_interval() {
    let mut seg: Segmenter<f32> = Segmenter::new();
    let mut vad = ObservedDetector::new(ScriptedVad::new(0, None));
    let mut rec = counting();
    seg.process_chunk(&vec![0.1f32; 512], &mut vad, &mut rec, 16000, 1000);
    assert!(matches!(seg.run_partial(&mut rec, 16000, 1199), PartialOutcome::NotDue));
    assert!(matches!(seg.run_partial(&mut rec, 16000, 1200), PartialOutcome::Shown(_)));
}

#[test]
fn repeated_partial_text_is_not_shown_again() {
    let mut seg: Segmenter<f32> = Segmenter::new();
    let mut vad = ObservedDetector::new(ScriptedVad::new(0, None));
    let mut rec = ObservedRecognizer::new(FixedRecognizer);
    seg.append(&vec![0.1f32; 600]);
    seg.feed_windows(&mut vad, 0);
    assert!(matches!(seg.run_partial(&mut rec, 16000, 300), PartialOutcome::Shown(_)));
    assert!(matches!(seg.run_partial(&mut rec, 16000, 600), PartialOutcome::Unchanged));
    assert_eq!(seg.last_partial(), "same");
}

/// Always has a segment waiting, and every one is malformed.
struct BrokenVad {
    pops: usize,
}

impl VoiceActivityDetector<f32> for BrokenVad {
    fn accept_window(&mut self, _: &Vec<f32>) {}

    fn is_speech_detected(&mut self) -> bool {
        true
    }

    fn has_completed_segment(&mut self) -> bool {
        self.pops < 2
    }

    fn pop_completed_segment(&mut self) -> Option<SpeechSegment<f32>> {
        self.pops += 1;
        None
    }

    fn flush(&mut self) {}

    fn reset(&mut self) {}
}

#[test]
fn malformed_segment_is_skipped_and_state_kept() {
    let mut seg: Segmenter<f32> = Segmenter::new();
    let mut vad = ObservedDetector::new(BrokenVad { pops: 0 });
    let mut rec = counting();
    seg.append(&vec![0.1f32; 700]);
    seg.feed_windows(&mut vad, 0);
    assert!(seg.speech().active);
    let outs = seg.drain_segments(&mut vad, &mut rec, 16000, usize::MAX);
    assert_eq!(outs.len(), 2);
    assert!(outs.iter().all(|o| matches!(o, SegmentOutcome::Malformed)));
    assert!(rec.inner().calls.is_empty());
    assert_eq!(seg.buffer_len(), 700);
    assert_eq!(seg.offset(), 512);
    assert!(seg.speech().active);
}

#[test]
fn one_iteration_feeds_trims_and_recognizes() {
    let mut seg: Segmenter<f32> = Segmenter::new();
    let mut vad = ObservedDetector::new(ScriptedVad::new(100, None));
    let mut rec = counting();
    // Long silence: the buffer is trimmed to ten windows, nothing recognized.
    let out = seg.process_chunk(&distinct(6000, 0), &mut vad, &mut rec, 16000, 0);
    assert!(matches!(out, PartialOutcome::NotDue));
    assert_eq!(vad.inner().windows_seen, 11);
    assert_eq!(seg.buffer_len(), 5120);
    assert_eq!(seg.offset(), 0);
    // The next windows start at index 0 of the kept audio plus the new chunk.
    seg.process_chunk(&distinct(100, 6000), &mut vad, &mut rec, 16000, 10);
    assert_eq!(vad.inner().fed[11 * 512..12 * 512].to_vec(), distinct(512, 880));
    // Speech from the start, recognized once the interval has passed.
    let mut seg: Segmenter<f32> = Segmenter::new();
    let mut vad = ObservedDetector::new(ScriptedVad::new(0, None));
    let out = seg.process_chunk(&vec![0.1f32; 1600], &mut vad, &mut rec, 16000, 0);
    assert!(matches!(out, PartialOutcome::NotDue));
    let out = seg.process_chunk(&vec![0.1f32; 1600], &mut vad, &mut rec, 16000, 250);
    match out {
        PartialOutcome::Shown(r) => assert_eq!(r.text, "heard 3200"),
        other => panic!("unexpected {:?}", other),
    }
    assert_eq!(seg.offset(), 3072);
}
