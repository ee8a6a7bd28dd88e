//! The growing sample buffer, the windowed speech-activity state machine
//! over it, and the partial / final transcription policy.
use vstd::prelude::*;

verus! {

/// Samples the detector consumes per window, at the target rate.
pub const WINDOW_SIZE: usize = 512;

/// Samples kept while idle: ten windows of history.
pub const IDLE_KEEP: usize = 10 * WINDOW_SIZE;

/// Least time between two partial recognitions, in milliseconds.
pub const PARTIAL_INTERVAL_MS: u64 = 200;

/// Whether speech is under way, where in the buffer it began, and when the
/// last recognition attempt (or the start of speech) happened, in
/// milliseconds on the caller's clock.
#[derive(Clone, Copy, Debug, PartialEq, Eq, Structural)]
pub struct SpeechState {
    pub active: bool,
    pub start_index: usize,
    pub started_at: u64,
}

/// A piece of recognized text; `is_final` marks the result for a whole
/// completed segment.
#[derive(Debug)]
pub struct TranscriptionResult {
    pub text: String,
    pub is_final: bool,
}

/// The abstract state of a segmenter.
pub ghost struct SegmenterView<T> {
    pub buffer: Seq<T>,
    pub offset: nat,
    pub speech: SpeechState,
    pub last_partial: Seq<char>,
}

/// The idle state: nothing buffered, nothing fed to the detector.
pub open spec fn spec_idle() -> SpeechState {
    SpeechState { active: false, start_index: 0, started_at: 0 }
}

/// Whether a partial text is shown: it is not empty and differs from the
/// last one shown.
pub open spec fn spec_partial_emits(last: Seq<char>, text: Seq<char>) -> bool {
    text.len() > 0 && text != last
}

/// The last shown partial text after `text` came back.
pub open spec fn spec_last_after(last: Seq<char>, text: Seq<char>) -> Seq<char> {
    if spec_partial_emits(last, text) {
        text
    } else {
        last
    }
}

/// The audio of the current utterance: from the start of speech to the end
/// of the buffer (the whole buffer while idle, where the start is 0).
pub open spec fn spec_speech_region<T>(v: SegmenterView<T>) -> Seq<T> {
    v.buffer.subrange(v.speech.start_index as int, v.buffer.len() as int)
}

/// Whether a partial recognition is due at time `now`.
pub open spec fn spec_partial_due<T>(v: SegmenterView<T>, now: int) -> bool {
    v.speech.active && now >= v.speech.started_at + PARTIAL_INTERVAL_MS && v.buffer.len() > 0
}

/// The audio for the final recognition of a completed segment: the
/// buffer's speech region where the buffer holds anything, else the
/// detector's own copy of the segment.
pub open spec fn spec_final_audio<T>(v: SegmenterView<T>, segment: Seq<T>) -> Seq<T> {
    if v.buffer.len() > 0 {
        spec_speech_region(v)
    } else {
        segment
    }
}

fn copy_range<T: Copy>(v: &Vec<T>, lo: usize, hi: usize) -> (r: Vec<T>)
    requires
        lo <= hi <= v.len(),
    ensures
        r@ == v@.subrange(lo as int, hi as int),
{
    let mut r: Vec<T> = Vec::with_capacity(hi - lo);
    let mut j: usize = lo;
    while j < hi
        invariant
            lo <= j <= hi <= v.len(),
            r@ == v@.subrange(lo as int, j as int),
        decreases hi - j,
    {
        r.push(v[j]);
        j += 1;
        assert(r@ =~= v@.subrange(lo as int, j as int));
    }
    r
}

/// Owns the sample buffer and the speech bookkeeping of one run.
pub struct Segmenter<T> {
    buffer: Vec<T>,
    offset: usize,
    speech: SpeechState,
    last_partial: String,
}

impl<T> View for Segmenter<T> {
    type V = SegmenterView<T>;

    closed spec fn view(&self) -> SegmenterView<T> {
        SegmenterView {
            buffer: self.buffer@,
            offset: self.offset as nat,
            speech: self.speech,
            last_partial: self.last_partial@,
        }
    }
}

impl<T: Copy> Segmenter<T> {
    /// The cursor lies within the buffer, and so does the start of speech
    /// while speech is active.
    pub open spec fn wf(&self) -> bool {
        &&& self@.offset <= self@.buffer.len()
        &&& self@.speech.active ==> self@.speech.start_index <= self@.buffer.len()
        &&& !self@.speech.active ==> self@.speech.start_index == 0
    }

    /// An empty, idle segmenter.
    pub fn new() -> (s: Segmenter<T>)
        ensures
            s.wf(),
            s@.buffer == Seq::<T>::empty(),
            s@.offset == 0,
            s@.speech == spec_idle(),
            s@.last_partial == Seq::<char>::empty(),
    {
        Segmenter { buffer: Vec::new(), offset: 0, speech: SpeechState { active: false, start_index: 0, started_at: 0 }, last_partial: String::new() }
    }

    /// Number of buffered samples.
    pub fn buffer_len(&self) -> (r: usize)
        ensures
            r == self@.buffer.len(),
    {
        self.buffer.len()
    }

    /// How much of the buffer has been fed to the detector.
    pub fn offset(&self) -> (r: usize)
        ensures
            r == self@.offset,
    {
        self.offset
    }

    /// The speech state.
    pub fn speech(&self) -> (r: SpeechState)
        ensures
            r == self@.speech,
    {
        self.speech
    }

    /// The last partial text shown.
    pub fn last_partial(&self) -> (r: &String)
        ensures
            r@ == self@.last_partial,
    {
        &self.last_partial
    }

    /// Appends converted samples to the buffer, in arrival order.
    pub fn append(&mut self, samples: &Vec<T>)
        requires
            old(self).wf(),
        ensures
            final(self).wf(),
            final(self)@ == (SegmenterView { buffer: old(self)@.buffer + samples@, ..old(self)@ }),
    {
        let n = samples.len();
        let mut k: usize = 0;
        while k < n
            invariant
                n == samples.len(),
                k <= n,
                self.wf(),
                self@ == (SegmenterView { buffer: old(self)@.buffer + samples@.subrange(0, k as int), ..old(self)@ }),
            decreases n - k,
        {
            self.buffer.push(samples[k]);
            k += 1;
            assert(self@.buffer =~= old(self)@.buffer + samples@.subrange(0, k as int));
        }
        assert(samples@.subrange(0, n as int) =~= samples@);
    }

    /// The next full window after the cursor, if the buffer holds one.
    /// A partial trailing window waits for more samples.
    pub fn next_window(&self) -> (w: Option<Vec<T>>)
        requires
            self.wf(),
        ensures
            match w {
                Some(win) => self@.offset + WINDOW_SIZE <= self@.buffer.len() && win@
                    == self@.buffer.subrange(
                    self@.offset as int,
                    self@.offset + WINDOW_SIZE,
                ),
                None => self@.buffer.len() < self@.offset + WINDOW_SIZE,
            },
    {
        let len = self.buffer.len();
        if len >= WINDOW_SIZE && self.offset <= len - WINDOW_SIZE {
            Some(copy_range(&self.buffer, self.offset, self.offset + WINDOW_SIZE))
        } else {
            None
        }
    }

    /// Records the detector's verdict on the window at the cursor and moves
    /// the cursor past it. The first window judged to be speech while idle
    /// starts an utterance at the cursor's old place and resets the partial
    /// timer to `now`; `true` is returned exactly then.
    pub fn record_window(&mut self, speech_detected: bool, now: u64) -> (started: bool)
        requires
            old(self).wf(),
            old(self)@.offset + WINDOW_SIZE <= old(self)@.buffer.len(),
        ensures
            final(self).wf(),
            started == (!old(self)@.speech.active && speech_detected),
            final(self)@.buffer == old(self)@.buffer,
            final(self)@.offset == old(self)@.offset + WINDOW_SIZE,
            final(self)@.last_partial == old(self)@.last_partial,
            started ==> final(self)@.speech.active && final(self)@.speech.start_index
                == old(self)@.offset && final(self)@.speech.started_at == now,
            !started ==> final(self)@.speech == old(self)@.speech,
    {
        let started = !self.speech.active && speech_detected;
        let len = self.buffer.len();
        assert(self.offset + WINDOW_SIZE <= len);
        if started {
            self.speech = SpeechState { active: true, start_index: self.offset, started_at: now };
        }
        self.offset = self.offset + WINDOW_SIZE;
        started
    }

    /// While idle, keeps only the newest `IDLE_KEEP` samples and rewinds the
    /// cursor; returns whether it trimmed. Never trims during speech.
    pub fn trim_idle(&mut self) -> (trimmed: bool)
        requires
            old(self).wf(),
        ensures
            final(self).wf(),
            trimmed == (!old(self)@.speech.active && old(self)@.buffer.len() > IDLE_KEEP),
            trimmed ==> final(self)@ == (SegmenterView {
                buffer: old(self)@.buffer.subrange(
                    old(self)@.buffer.len() - IDLE_KEEP,
                    old(self)@.buffer.len() as int,
                ),
                offset: 0,
                ..old(self)@
            }),
            !trimmed ==> final(self)@ == old(self)@,
            !final(self)@.speech.active ==> final(self)@.buffer.len() <= IDLE_KEEP,
    {
        let len = self.buffer.len();
        if !self.speech.active && len > IDLE_KEEP {
            self.buffer = copy_range(&self.buffer, len - IDLE_KEEP, len);
            self.offset = 0;
            true
        } else {
            false
        }
    }

    /// The audio from the start of speech to the end of the buffer.
    pub fn speech_region(&self) -> (r: Vec<T>)
        requires
            self.wf(),
        ensures
            r@ == spec_speech_region(self@),
    {
        let len = self.buffer.len();
        copy_range(&self.buffer, self.speech.start_index, len)
    }

    /// Whether a partial recognition is due at `now`: speech is active, at
    /// least `PARTIAL_INTERVAL_MS` have passed since the last attempt,
    /// and the buffer holds samples.
    pub fn partial_due(&self, now: u64) -> (r: bool)
        ensures
            r == spec_partial_due(self@, now as int),
    {
        self.speech.active && now >= self.speech.started_at && now - self.speech.started_at
            >= PARTIAL_INTERVAL_MS && self.buffer.len() > 0
    }

    /// Starts a partial recognition if one is due at `now`: returns the
    /// audio to recognize and resets the timer to `now`, whether or not the
    /// recognition will succeed. Otherwise returns `None` and changes
    /// nothing.
    pub fn begin_partial(&mut self, now: u64) -> (r: Option<Vec<T>>)
        requires
            old(self).wf(),
        ensures
            final(self).wf(),
            spec_partial_due(old(self)@, now as int) ==> r is Some && r->Some_0@
                == spec_speech_region(old(self)@) && final(self)@ == (SegmenterView {
                speech: SpeechState { started_at: now, ..old(self)@.speech },
                ..old(self)@
            }),
            !spec_partial_due(old(self)@, now as int) ==> r is None && final(self)@ == old(self)@,
    {
        if self.partial_due(now) {
            let audio = self.speech_region();
            self.speech.started_at = now;
            Some(audio)
        } else {
            None
        }
    }

    /// Takes the text of a partial recognition. It is shown, and becomes
    /// the last partial text, exactly when it is not empty and differs from
    /// the last one shown; a partial result is never final.
    pub fn accept_partial(&mut self, text: String) -> (r: Option<TranscriptionResult>)
        requires
            old(self).wf(),
        ensures
            final(self).wf(),
            r is Some == spec_partial_emits(old(self)@.last_partial, text@),
            r is Some ==> r->Some_0.text@ == text@ && !r->Some_0.is_final,
            final(self)@ == (SegmenterView {
                last_partial: spec_last_after(old(self)@.last_partial, text@),
                ..old(self)@
            }),
    {
        if !text.as_str().is_empty() && text != self.last_partial {
            self.last_partial = text.clone();
            Some(TranscriptionResult { text, is_final: false })
        } else {
            None
        }
    }

    /// The audio for the final recognition of a completed segment: the
    /// speech region of the buffer, or `segment` where the buffer is empty.
    pub fn final_audio(&self, segment: &Vec<T>) -> (r: Vec<T>)
        requires
            self.wf(),
        ensures
            r@ == spec_final_audio(self@, segment@),
    {
        if self.buffer.len() > 0 {
            self.speech_region()
        } else {
            copy_range(segment, 0, segment.len())
        }
    }

    /// Closes a completed segment: empties the buffer, rewinds the cursor,
    /// returns to idle and forgets the last partial text. `text` is the
    /// final recognition, if it succeeded; it is returned as a final result
    /// whatever it holds, even when empty.
    pub fn finish_segment(&mut self, text: Option<String>) -> (r: Option<TranscriptionResult>)
        requires
            old(self).wf(),
        ensures
            final(self).wf(),
            final(self)@.buffer.len() == 0,
            final(self)@.offset == 0,
            final(self)@.speech == spec_idle(),
            final(self)@.last_partial.len() == 0,
            r is Some == text is Some,
            r is Some ==> r->Some_0.text@ == text->Some_0@ && r->Some_0.is_final,
    {
        self.buffer = Vec::new();
        self.offset = 0;
        self.speech = SpeechState { active: false, start_index: 0, started_at: 0 };
        self.last_partial = String::new();
        match text {
            Some(t) => Some(TranscriptionResult { text: t, is_final: true }),
            None => None,
        }
    }
}

/// The same non-empty partial text coming back twice in a row is shown
/// once: the first time, where it differs from what was shown before, and
/// not the second time.
pub proof fn lemma_repeated_partial_shown_once(last: Seq<char>, text: Seq<char>)
    requires
        text.len() > 0,
        text != last,
    ensures
        spec_partial_emits(last, text),
        !spec_partial_emits(spec_last_after(last, text), text),
{
}

} // verus!
