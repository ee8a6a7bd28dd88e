//! The two capabilities the pipeline consumes, a voice-activity detector and
//! a recognizer, and recorders around them. A recorder passes every call
//! through and keeps a ghost log of what it handed over and what came back;
//! the log grows only by those calls, so contracts over it say exactly what
//! reached the capability.
use crate::segmenter::WINDOW_SIZE;
use vstd::prelude::*;

verus! {

/// A stretch of speech that the detector has judged complete.
#[derive(Debug)]
pub struct SpeechSegment<T> {
    /// Where the segment began, in samples, on the detector's count.
    pub start: i32,
    pub samples: Vec<T>,
}

/// The recognizer could not produce a result.
#[derive(Clone, Copy, Debug, PartialEq, Eq, Structural)]
pub struct RecognitionError;

/// A voice-activity detector fed fixed windows of samples.
pub trait VoiceActivityDetector<T> {
    /// Feeds one window of `WINDOW_SIZE` samples.
    fn accept_window(&mut self, samples: &Vec<T>)
        requires
            samples.len() == WINDOW_SIZE,
    ;

    /// Whether the detector currently hears speech.
    fn is_speech_detected(&mut self) -> bool;

    /// Whether a completed segment waits to be taken.
    fn has_completed_segment(&mut self) -> bool;

    /// Takes the oldest completed segment; `None` where the detector
    /// handed out a malformed one.
    fn pop_completed_segment(&mut self) -> Option<SpeechSegment<T>>;

    /// Ends the speech under way, so that it becomes a completed segment.
    fn flush(&mut self);

    /// Forgets all internal state.
    fn reset(&mut self);
}

/// A speech recognizer over a whole sequence of samples.
pub trait Recognizer<T> {
    fn transcribe(&mut self, sample_rate: u32, samples: &Vec<T>) -> Result<String, RecognitionError>;
}

/// The samples a popped segment carries, if it was well formed.
pub open spec fn spec_samples_of<T>(r: Option<SpeechSegment<T>>) -> Option<Seq<T>> {
    match r {
        Some(s) => Some(s.samples@),
        None => None,
    }
}

/// A detector together with the log of its calls.
pub struct ObservedDetector<T, V> {
    inner: V,
    windows: Ghost<Seq<Seq<T>>>,
    verdicts: Ghost<Seq<bool>>,
    waiting: Ghost<Seq<bool>>,
    popped: Ghost<Seq<Option<Seq<T>>>>,
    flushes: Ghost<nat>,
}

impl<T, V: VoiceActivityDetector<T>> ObservedDetector<T, V> {
    /// Every window fed, oldest first.
    pub closed spec fn windows(&self) -> Seq<Seq<T>> {
        self.windows@
    }

    /// Every answer to `is_speech_detected`, oldest first.
    pub closed spec fn verdicts(&self) -> Seq<bool> {
        self.verdicts@
    }

    /// Every answer to `has_completed_segment`, oldest first.
    pub closed spec fn waiting(&self) -> Seq<bool> {
        self.waiting@
    }

    /// The samples of every segment taken (`None` for a malformed one).
    pub closed spec fn popped(&self) -> Seq<Option<Seq<T>>> {
        self.popped@
    }

    /// How many times the detector was flushed.
    pub closed spec fn flushes(&self) -> nat {
        self.flushes@
    }

    /// The log is the same in both.
    pub open spec fn same_log(&self, other: &Self) -> bool {
        &&& self.windows() == other.windows()
        &&& self.verdicts() == other.verdicts()
        &&& self.waiting() == other.waiting()
        &&& self.popped() == other.popped()
        &&& self.flushes() == other.flushes()
    }

    /// Starts observing `inner`, with an empty log.
    pub fn new(inner: V) -> (d: Self)
        ensures
            d.windows() == Seq::<Seq<T>>::empty(),
            d.verdicts() == Seq::<bool>::empty(),
            d.waiting() == Seq::<bool>::empty(),
            d.popped() == Seq::<Option<Seq<T>>>::empty(),
            d.flushes() == 0,
    {
        ObservedDetector {
            inner,
            windows: Ghost(Seq::empty()),
            verdicts: Ghost(Seq::empty()),
            waiting: Ghost(Seq::empty()),
            popped: Ghost(Seq::empty()),
            flushes: Ghost(0),
        }
    }

    /// The detector observed.
    pub fn inner(&self) -> &V {
        &self.inner
    }

    /// Gives the detector back.
    pub fn into_inner(self) -> V {
        self.inner
    }

    pub fn accept_window(&mut self, samples: &Vec<T>)
        requires
            samples.len() == WINDOW_SIZE,
        ensures
            final(self).windows() == old(self).windows().push(samples@),
            final(self).verdicts() == old(self).verdicts(),
            final(self).waiting() == old(self).waiting(),
            final(self).popped() == old(self).popped(),
            final(self).flushes() == old(self).flushes(),
    {
        self.inner.accept_window(samples);
        proof {
            self.windows@ = self.windows@.push(samples@);
        }
    }

    pub fn is_speech_detected(&mut self) -> (r: bool)
        ensures
            final(self).verdicts() == old(self).verdicts().push(r),
            final(self).windows() == old(self).windows(),
            final(self).waiting() == old(self).waiting(),
            final(self).popped() == old(self).popped(),
            final(self).flushes() == old(self).flushes(),
    {
        let r = self.inner.is_speech_detected();
        proof {
            self.verdicts@ = self.verdicts@.push(r);
        }
        r
    }

    pub fn has_completed_segment(&mut self) -> (r: bool)
        ensures
            final(self).waiting() == old(self).waiting().push(r),
            final(self).windows() == old(self).windows(),
            final(self).verdicts() == old(self).verdicts(),
            final(self).popped() == old(self).popped(),
            final(self).flushes() == old(self).flushes(),
    {
        let r = self.inner.has_completed_segment();
        proof {
            self.waiting@ = self.waiting@.push(r);
        }
        r
    }

    pub fn pop_completed_segment(&mut self) -> (r: Option<SpeechSegment<T>>)
        ensures
            final(self).popped() == old(self).popped().push(spec_samples_of(r)),
            final(self).windows() == old(self).windows(),
            final(self).verdicts() == old(self).verdicts(),
            final(self).waiting() == old(self).waiting(),
            final(self).flushes() == old(self).flushes(),
    {
        let r = self.inner.pop_completed_segment();
        proof {
            self.popped@ = self.popped@.push(spec_samples_of(r));
        }
        r
    }

    pub fn flush(&mut self)
        ensures
            final(self).flushes() == old(self).flushes() + 1,
            final(self).windows() == old(self).windows(),
            final(self).verdicts() == old(self).verdicts(),
            final(self).waiting() == old(self).waiting(),
            final(self).popped() == old(self).popped(),
    {
        self.inner.flush();
        proof {
            self.flushes@ = self.flushes@ + 1;
        }
    }
}

/// The text a recognizer result carries, if it succeeded.
pub open spec fn spec_text_of(r: Result<String, RecognitionError>) -> Option<Seq<char>> {
    match r {
        Ok(t) => Some(t@),
        Err(_) => None,
    }
}

/// A recognizer together with the log of its calls.
pub struct ObservedRecognizer<T, R> {
    inner: R,
    calls: Ghost<Seq<Seq<T>>>,
    rates: Ghost<Seq<u32>>,
    results: Ghost<Seq<Option<Seq<char>>>>,
}

impl<T, R: Recognizer<T>> ObservedRecognizer<T, R> {
    /// The audio of every call, oldest first.
    pub closed spec fn calls(&self) -> Seq<Seq<T>> {
        self.calls@
    }

    /// The sample rate of every call.
    pub closed spec fn rates(&self) -> Seq<u32> {
        self.rates@
    }

    /// The text of every call (`None` for a failure).
    pub closed spec fn results(&self) -> Seq<Option<Seq<char>>> {
        self.results@
    }

    /// The log is the same in both.
    pub open spec fn same_log(&self, other: &Self) -> bool {
        &&& self.calls() == other.calls()
        &&& self.rates() == other.rates()
        &&& self.results() == other.results()
    }

    /// Starts observing `inner`, with an empty log.
    pub fn new(inner: R) -> (r: Self)
        ensures
            r.calls() == Seq::<Seq<T>>::empty(),
            r.rates() == Seq::<u32>::empty(),
            r.results() == Seq::<Option<Seq<char>>>::empty(),
    {
        ObservedRecognizer {
            inner,
            calls: Ghost(Seq::empty()),
            rates: Ghost(Seq::empty()),
            results: Ghost(Seq::empty()),
        }
    }

    /// The recognizer observed.
    pub fn inner(&self) -> &R {
        &self.inner
    }

    /// Gives the recognizer back.
    pub fn into_inner(self) -> R {
        self.inner
    }

    pub fn transcribe(&mut self, sample_rate: u32, samples: &Vec<T>) -> (r: Result<String, RecognitionError>)
        ensures
            final(self).calls() == old(self).calls().push(samples@),
            final(self).rates() == old(self).rates().push(sample_rate),
            final(self).results() == old(self).results().push(spec_text_of(r)),
    {
        let r = self.inner.transcribe(sample_rate, samples);
        proof {
            self.calls@ = self.calls@.push(samples@);
            self.rates@ = self.rates@.push(sample_rate);
            self.results@ = self.results@.push(spec_text_of(r));
        }
        r
    }
}

} // verus!
