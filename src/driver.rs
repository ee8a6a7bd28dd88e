//! One iteration's work against the detector and the recognizer, stated
//! over the logs of their recorders: which windows and which audio reached
//! them, and what the segmenter made of their answers.
use crate::capability::{
    ObservedDetector, ObservedRecognizer, Recognizer, VoiceActivityDetector,
};
use crate::segmenter::{
    spec_final_audio, spec_idle, spec_last_after, spec_partial_due, spec_partial_emits,
    spec_speech_region, Segmenter, SegmenterView, SpeechState, TranscriptionResult, IDLE_KEEP,
    WINDOW_SIZE,
};
use vstd::prelude::*;

verus! {

/// What a partial-recognition check came to.
#[derive(Debug)]
pub enum PartialOutcome {
    /// No recognition was due.
    NotDue,
    /// The recognizer ran; its text is shown.
    Shown(TranscriptionResult),
    /// The recognizer ran; its text was empty or repeated the last one.
    Unchanged,
    /// The recognizer failed; the attempt is skipped.
    Failed,
}

/// What draining one completed segment came to.
#[derive(Debug)]
pub enum SegmentOutcome {
    /// No completed segment was waiting.
    NoneWaiting,
    /// The segment was recognized; its text is the final result.
    Final(TranscriptionResult),
    /// The segment was closed but its recognition failed.
    RecognitionFailed,
    /// The detector handed out a malformed segment; it is skipped.
    Malformed,
}

/// The `k` consecutive full windows of `buf` from `offset` on.
pub open spec fn spec_windows<T>(buf: Seq<T>, offset: int, k: nat) -> Seq<Seq<T>> {
    Seq::new(
        k,
        |j: int| buf.subrange(offset + j * WINDOW_SIZE, offset + j * WINDOW_SIZE + WINDOW_SIZE),
    )
}

/// Consecutive windows cover the buffer without gap or overlap: taken
/// together, the `k` windows from `offset` are exactly the samples
/// `[offset, offset + k * WINDOW_SIZE)`, each once and in order.
pub proof fn lemma_windows_cover<T>(buf: Seq<T>, offset: int, k: nat)
    requires
        0 <= offset,
        offset + k * WINDOW_SIZE <= buf.len(),
    ensures
        spec_windows(buf, offset, k).flatten() == buf.subrange(offset, offset + k * WINDOW_SIZE),
    decreases k,
{
    if k == 0 {
        assert(spec_windows(buf, offset, 0) =~= Seq::<Seq<T>>::empty());
        assert(buf.subrange(offset, offset) =~= Seq::<T>::empty());
    } else {
        let j = (k - 1) as nat;
        lemma_windows_cover(buf, offset, j);
        let last = buf.subrange(offset + j * WINDOW_SIZE, offset + j * WINDOW_SIZE + WINDOW_SIZE);
        assert(spec_windows(buf, offset, k) =~= spec_windows(buf, offset, j).push(last));
        spec_windows(buf, offset, j).lemma_flatten_push(last);
        assert(buf.subrange(offset, offset + j * WINDOW_SIZE) + last =~= buf.subrange(
            offset,
            offset + k * WINDOW_SIZE,
        ));
    }
}

/// Number of full windows between the cursor and the end of the buffer.
pub open spec fn spec_window_count<T>(v: SegmenterView<T>) -> nat {
    ((v.buffer.len() - v.offset) / (WINDOW_SIZE as int)) as nat
}

/// The speech state after the detector judged the windows from `offset`
/// on: the first window judged speech while idle starts an utterance there.
pub open spec fn spec_speech_after(s: SpeechState, offset: int, verdicts: Seq<bool>, now: u64) -> SpeechState
    decreases verdicts.len(),
{
    if verdicts.len() == 0 {
        s
    } else {
        let p = spec_speech_after(s, offset, verdicts.drop_last(), now);
        if !p.active && verdicts.last() {
            SpeechState {
                active: true,
                start_index: (offset + (verdicts.len() - 1) * WINDOW_SIZE) as usize,
                started_at: now,
            }
        } else {
            p
        }
    }
}

/// The segmenter after feeding windows judged `verdicts`.
pub open spec fn spec_after_windows<T>(v: SegmenterView<T>, verdicts: Seq<bool>, now: u64) -> SegmenterView<T> {
    SegmenterView {
        offset: (v.offset + verdicts.len() * WINDOW_SIZE) as nat,
        speech: spec_speech_after(v.speech, v.offset as int, verdicts, now),
        ..v
    }
}

/// The idle trim: while idle, only the newest `IDLE_KEEP` samples stay and
/// the cursor goes back to 0.
pub open spec fn spec_trimmed<T>(v: SegmenterView<T>) -> SegmenterView<T> {
    if !v.speech.active && v.buffer.len() > IDLE_KEEP {
        SegmenterView {
            buffer: v.buffer.subrange(v.buffer.len() - IDLE_KEEP, v.buffer.len() as int),
            offset: 0,
            ..v
        }
    } else {
        v
    }
}

/// The state after a completed segment: nothing buffered, nothing fed,
/// idle, no partial text remembered.
pub open spec fn spec_reset<T>(v: SegmenterView<T>) -> bool {
    &&& v.buffer.len() == 0
    &&& v.offset == 0
    &&& v.speech == spec_idle()
    &&& v.last_partial.len() == 0
}

/// Feeding every full window of `s0` to the detector: exactly those
/// windows reach it, in order, and the segmenter follows its verdicts.
pub open spec fn spec_feed_step<T, V: VoiceActivityDetector<T>>(
    s0: SegmenterView<T>,
    s1: SegmenterView<T>,
    d0: ObservedDetector<T, V>,
    d1: ObservedDetector<T, V>,
    now: u64,
) -> bool {
    let k = spec_window_count(s0);
    let n0 = d0.verdicts().len();
    &&& d1.windows() == d0.windows() + spec_windows(s0.buffer, s0.offset as int, k)
    &&& d1.verdicts().len() == n0 + k
    &&& d1.verdicts().subrange(0, n0 as int) == d0.verdicts()
    &&& s1 == spec_after_windows(s0, d1.verdicts().subrange(n0 as int, (n0 + k) as int), now)
    &&& d1.waiting() == d0.waiting()
    &&& d1.popped() == d0.popped()
    &&& d1.flushes() == d0.flushes()
}

/// A partial-recognition check at `now`: when due, the recognizer gets the
/// audio of the utterance, the timer is reset whatever it answers, and its
/// text is shown unless empty or repeated; otherwise nothing happens.
pub open spec fn spec_partial_step<T, R: Recognizer<T>>(
    s0: SegmenterView<T>,
    s1: SegmenterView<T>,
    r0: ObservedRecognizer<T, R>,
    r1: ObservedRecognizer<T, R>,
    sample_rate: u32,
    now: u64,
    out: PartialOutcome,
) -> bool {
    if spec_partial_due(s0, now as int) {
        let text = r1.results().last();
        &&& r1.calls() == r0.calls().push(spec_speech_region(s0))
        &&& r1.rates() == r0.rates().push(sample_rate)
        &&& r1.results() == r0.results().push(text)
        &&& s1 == (SegmenterView {
            speech: SpeechState { started_at: now, ..s0.speech },
            last_partial: match text {
                Some(t) => spec_last_after(s0.last_partial, t),
                None => s0.last_partial,
            },
            ..s0
        })
        &&& match text {
            None => out is Failed,
            Some(t) => if spec_partial_emits(s0.last_partial, t) {
                out is Shown && out->Shown_0.text@ == t && !out->Shown_0.is_final
            } else {
                out is Unchanged
            },
        }
    } else {
        out is NotDue && s1 == s0 && r1.same_log(&r0)
    }
}

/// Draining one completed segment: the detector is asked whether one
/// waits; if so it is taken, a well-formed one is recognized on the
/// buffer's speech region (or its own samples where the buffer is empty)
/// and the segmenter is reset whatever the recognizer answers.
pub open spec fn spec_drain_step<T, V: VoiceActivityDetector<T>, R: Recognizer<T>>(
    s0: SegmenterView<T>,
    s1: SegmenterView<T>,
    d0: ObservedDetector<T, V>,
    d1: ObservedDetector<T, V>,
    r0: ObservedRecognizer<T, R>,
    r1: ObservedRecognizer<T, R>,
    sample_rate: u32,
    out: SegmentOutcome,
) -> bool {
    let w = d1.waiting().last();
    &&& d1.waiting() == d0.waiting().push(w)
    &&& d1.windows() == d0.windows()
    &&& d1.verdicts() == d0.verdicts()
    &&& d1.flushes() == d0.flushes()
    &&& if !w {
        out is NoneWaiting && s1 == s0 && d1.popped() == d0.popped() && r1.same_log(&r0)
    } else {
        let p = d1.popped().last();
        &&& d1.popped() == d0.popped().push(p)
        &&& match p {
            None => out is Malformed && s1 == s0 && r1.same_log(&r0),
            Some(seg) => {
                let text = r1.results().last();
                &&& r1.calls() == r0.calls().push(spec_final_audio(s0, seg))
                &&& r1.rates() == r0.rates().push(sample_rate)
                &&& r1.results() == r0.results().push(text)
                &&& spec_reset(s1)
                &&& match text {
                    Some(t) => out is Final && out->Final_0.text@ == t && out->Final_0.is_final,
                    None => out is RecognitionFailed,
                }
            },
        }
    }
}

/// `spec_drained` part way: every outcome so far answered a waiting
/// segment.
pub open spec fn spec_drained_so_far<T, V: VoiceActivityDetector<T>, R: Recognizer<T>>(
    s0: SegmenterView<T>,
    s1: SegmenterView<T>,
    d0: ObservedDetector<T, V>,
    d1: ObservedDetector<T, V>,
    r0: ObservedRecognizer<T, R>,
    r1: ObservedRecognizer<T, R>,
    outs: Seq<SegmentOutcome>,
) -> bool {
    let n = outs.len();
    let w0 = d0.waiting().len();
    let p0 = d0.popped().len();
    &&& forall|i: int| 0 <= i < n ==> !(#[trigger] outs[i] is NoneWaiting)
    &&& d1.waiting().len() == w0 + n
    &&& d1.waiting().subrange(0, w0 as int) == d0.waiting()
    &&& forall|i: int| w0 <= i < w0 + n ==> #[trigger] d1.waiting()[i]
    &&& d1.popped().len() == p0 + n
    &&& d1.popped().subrange(0, p0 as int) == d0.popped()
    &&& forall|i: int| 0 <= i < n ==> ((#[trigger] outs[i] is Malformed) <==> d1.popped()[p0 + i] is None)
    &&& d1.windows() == d0.windows()
    &&& d1.verdicts() == d0.verdicts()
    &&& r1.calls().len() == r0.calls().len() + spec_recognized(outs)
    &&& spec_recognized(outs) == 0 ==> s1 == s0
    &&& spec_recognized(outs) > 0 ==> spec_reset(s1)
}

/// Number of outcomes for which the recognizer was called.
pub open spec fn spec_recognized(outs: Seq<SegmentOutcome>) -> nat
    decreases outs.len(),
{
    if outs.len() == 0 {
        0
    } else {
        spec_recognized(outs.drop_last()) + if outs.last() is Final || outs.last() is RecognitionFailed {
            1nat
        } else {
            0nat
        }
    }
}

/// Draining up to `limit` completed segments: each outcome answers one
/// "a segment waits" from the detector, and fewer than `limit` outcomes
/// means the detector then said none waits. Every segment taken that was
/// well formed cost one recognizer call and reset the segmenter.
pub open spec fn spec_drained<T, V: VoiceActivityDetector<T>, R: Recognizer<T>>(
    s0: SegmenterView<T>,
    s1: SegmenterView<T>,
    d0: ObservedDetector<T, V>,
    d1: ObservedDetector<T, V>,
    r0: ObservedRecognizer<T, R>,
    r1: ObservedRecognizer<T, R>,
    outs: Seq<SegmentOutcome>,
    limit: usize,
) -> bool {
    let n = outs.len();
    let w0 = d0.waiting().len();
    let p0 = d0.popped().len();
    &&& n <= limit
    &&& forall|i: int| 0 <= i < n ==> !(#[trigger] outs[i] is NoneWaiting)
    &&& d1.waiting().len() == w0 + n + (if n < limit { 1nat } else { 0nat })
    &&& d1.waiting().subrange(0, w0 as int) == d0.waiting()
    &&& forall|i: int| w0 <= i < w0 + n ==> #[trigger] d1.waiting()[i]
    &&& n < limit ==> !d1.waiting().last()
    &&& d1.popped().len() == p0 + n
    &&& d1.popped().subrange(0, p0 as int) == d0.popped()
    &&& forall|i: int| 0 <= i < n ==> ((#[trigger] outs[i] is Malformed) <==> d1.popped()[p0 + i] is None)
    &&& d1.windows() == d0.windows()
    &&& d1.verdicts() == d0.verdicts()
    &&& r1.calls().len() == r0.calls().len() + spec_recognized(outs)
    &&& spec_recognized(outs) == 0 ==> s1 == s0
    &&& spec_recognized(outs) > 0 ==> spec_reset(s1)
}

impl<T: Copy> Segmenter<T> {
    /// Feeds every full window after the cursor to `vad`, in order, and
    /// records after each whether speech began (see `record_window`).
    pub fn feed_windows<V: VoiceActivityDetector<T>>(&mut self, vad: &mut ObservedDetector<T, V>, now: u64)
        requires
            old(self).wf(),
        ensures
            final(self).wf(),
            spec_feed_step(old(self)@, final(self)@, *old(vad), *final(vad), now),
            final(self)@.buffer.len() < final(self)@.offset + WINDOW_SIZE,
    {
        let ghost s0 = self@;
        let ghost d0 = *vad;
        let ghost n0 = vad.verdicts().len();
        let ghost mut i: nat = 0;
        loop
            invariant
                self.wf(),
                self@.offset == s0.offset + i * WINDOW_SIZE,
                self@.offset <= s0.buffer.len(),
                vad.windows() == d0.windows() + spec_windows(s0.buffer, s0.offset as int, i),
                vad.verdicts().len() == n0 + i,
                vad.verdicts().subrange(0, n0 as int) == d0.verdicts(),
                self@ == spec_after_windows(s0, vad.verdicts().subrange(n0 as int, (n0 + i) as int), now),
                vad.waiting() == d0.waiting(),
                vad.popped() == d0.popped(),
                vad.flushes() == d0.flushes(),
            ensures
                self.wf(),
                spec_feed_step(s0, self@, d0, *vad, now),
                self@.buffer.len() < self@.offset + WINDOW_SIZE,
            decreases self@.buffer.len() - self@.offset,
        {
            let window = match self.next_window() {
                Some(w) => w,
                None => {
                    proof {
                        let len = s0.buffer.len() as int;
                        let off = s0.offset as int;
                        let ii = i as int;
                        assert((len - off) / 512 == ii) by (nonlinear_arith)
                            requires off + ii * 512 <= len, len < off + ii * 512 + 512, ii >= 0;
                    }
                    break;
                },
            };
            let ghost vs = vad.verdicts().subrange(n0 as int, (n0 + i) as int);
            let ghost before = self@;
            vad.accept_window(&window);
            let speech = vad.is_speech_detected();
            self.record_window(speech, now);
            proof {
                let vs1 = vad.verdicts().subrange(n0 as int, (n0 + i + 1) as int);
                assert(vs1.drop_last() =~= vs);
                assert(vs1.last() == speech);
                assert(vad.verdicts().subrange(0, n0 as int) =~= d0.verdicts());
                assert(spec_windows(s0.buffer, s0.offset as int, i + 1) =~= spec_windows(
                    s0.buffer,
                    s0.offset as int,
                    i,
                ).push(window@));
                i = i + 1;
                assert(self@ == spec_after_windows(s0, vs1, now));
            }
        }
    }

    /// Runs a partial recognition if one is due at `now`, on the audio of
    /// the current utterance at `sample_rate`, and shows its text unless it
    /// is empty or repeats the last one. The timer is reset on every
    /// attempt, whether the recognizer succeeds or not.
    pub fn run_partial<R: Recognizer<T>>(
        &mut self,
        recognizer: &mut ObservedRecognizer<T, R>,
        sample_rate: u32,
        now: u64,
    ) -> (r: PartialOutcome)
        requires
            old(self).wf(),
        ensures
            final(self).wf(),
            spec_partial_step(old(self)@, final(self)@, *old(recognizer), *final(recognizer), sample_rate, now, r),
    {
        match self.begin_partial(now) {
            None => PartialOutcome::NotDue,
            Some(audio) => match recognizer.transcribe(sample_rate, &audio) {
                Err(_) => PartialOutcome::Failed,
                Ok(text) => match self.accept_partial(text) {
                    Some(result) => PartialOutcome::Shown(result),
                    None => PartialOutcome::Unchanged,
                },
            },
        }
    }

    /// Takes one completed segment from `vad`, if any, and recognizes the
    /// audio of its utterance (the buffer first, the segment's own samples
    /// where the buffer is empty). Whether that succeeds or not, the
    /// segment is then closed: buffer emptied, cursor rewound, idle, no
    /// partial text remembered. A malformed segment is skipped.
    pub fn drain_segment<V: VoiceActivityDetector<T>, R: Recognizer<T>>(
        &mut self,
        vad: &mut ObservedDetector<T, V>,
        recognizer: &mut ObservedRecognizer<T, R>,
        sample_rate: u32,
    ) -> (r: SegmentOutcome)
        requires
            old(self).wf(),
        ensures
            final(self).wf(),
            spec_drain_step(old(self)@, final(self)@, *old(vad), *final(vad), *old(recognizer), *final(recognizer), sample_rate, r),
    {
        if !vad.has_completed_segment() {
            return SegmentOutcome::NoneWaiting;
        }
        match vad.pop_completed_segment() {
            None => SegmentOutcome::Malformed,
            Some(segment) => {
                let audio = self.final_audio(&segment.samples);
                let result = recognizer.transcribe(sample_rate, &audio);
                let text = match result {
                    Ok(t) => Some(t),
                    Err(_) => None,
                };
                match self.finish_segment(text) {
                    Some(result) => SegmentOutcome::Final(result),
                    None => SegmentOutcome::RecognitionFailed,
                }
            },
        }
    }

    /// Drains completed segments one at a time until the detector reports
    /// none waiting, or `limit` segments have been taken.
    pub fn drain_segments<V: VoiceActivityDetector<T>, R: Recognizer<T>>(
        &mut self,
        vad: &mut ObservedDetector<T, V>,
        recognizer: &mut ObservedRecognizer<T, R>,
        sample_rate: u32,
        limit: usize,
    ) -> (outs: Vec<SegmentOutcome>)
        requires
            old(self).wf(),
        ensures
            final(self).wf(),
            spec_drained(old(self)@, final(self)@, *old(vad), *final(vad), *old(recognizer), *final(recognizer), outs@, limit),
            final(vad).flushes() == old(vad).flushes(),
    {
        let ghost s0 = self@;
        let ghost d0 = *vad;
        let ghost r0 = *recognizer;
        let mut outs: Vec<SegmentOutcome> = Vec::new();
        proof {
            assert(vad.waiting().subrange(0, d0.waiting().len() as int) =~= d0.waiting());
            assert(vad.popped().subrange(0, d0.popped().len() as int) =~= d0.popped());
            assert(spec_recognized(outs@) == 0);
        }
        loop
            invariant_except_break
                spec_drained_so_far(s0, self@, d0, *vad, r0, *recognizer, outs@),
            invariant
                self.wf(),
                outs.len() <= limit,
                vad.flushes() == d0.flushes(),
            ensures
                self.wf(),
                spec_drained(s0, self@, d0, *vad, r0, *recognizer, outs@, limit),
                vad.flushes() == d0.flushes(),
            decreases limit - outs.len(),
        {
            if outs.len() >= limit {
                break;
            }
            let ghost sb = self@;
            let ghost db = *vad;
            let ghost rb = *recognizer;
            let ghost ob = outs@;
            let out = self.drain_segment(vad, recognizer, sample_rate);
            if let SegmentOutcome::NoneWaiting = out {
                proof {
                    let w0 = d0.waiting().len() as int;
                    assert(vad.waiting().subrange(0, w0) =~= db.waiting().subrange(0, w0));
                    assert forall|i: int| w0 <= i < w0 + outs@.len() implies #[trigger] vad.waiting()[i] by {
                        assert(vad.waiting()[i] == db.waiting()[i]);
                    }
                }
                break;
            }
            outs.push(out);
            proof {
                let w0 = d0.waiting().len() as int;
                let p0 = d0.popped().len() as int;
                assert(outs@.drop_last() =~= ob);
                assert(vad.waiting().subrange(0, w0) =~= db.waiting().subrange(0, w0));
                assert(vad.popped().subrange(0, p0) =~= db.popped().subrange(0, p0));
                assert forall|i: int| 0 <= i < outs@.len() implies ((#[trigger] outs@[i] is Malformed) <==> vad.popped()[p0 + i] is None) by {
                    if i < ob.len() {
                        assert(outs@[i] == ob[i]);
                        assert(vad.popped()[p0 + i] == db.popped()[p0 + i]);
                    }
                }
                assert forall|i: int| 0 <= i < outs@.len() implies !(#[trigger] outs@[i] is NoneWaiting) by {
                    if i < ob.len() {
                        assert(outs@[i] == ob[i]);
                    }
                }
                assert forall|i: int| w0 <= i < w0 + outs@.len() implies #[trigger] vad.waiting()[i] by {
                    if i < w0 + ob.len() {
                        assert(vad.waiting()[i] == db.waiting()[i]);
                    }
                }
            }
        }
        outs
    }

    /// On cancellation: asks the detector to end the speech under way, then
    /// drains completed segments as `drain_segments` does.
    pub fn flush_and_drain<V: VoiceActivityDetector<T>, R: Recognizer<T>>(
        &mut self,
        vad: &mut ObservedDetector<T, V>,
        recognizer: &mut ObservedRecognizer<T, R>,
        sample_rate: u32,
        limit: usize,
    ) -> (outs: Vec<SegmentOutcome>)
        requires
            old(self).wf(),
        ensures
            final(self).wf(),
            final(vad).flushes() == old(vad).flushes() + 1,
            spec_drained(old(self)@, final(self)@, *old(vad), *final(vad), *old(recognizer), *final(recognizer), outs@, limit),
    {
        vad.flush();
        self.drain_segments(vad, recognizer, sample_rate, limit)
    }

    /// The work of one iteration on a chunk already at the target rate:
    /// append it, feed every full window to `vad`, trim while idle, and run
    /// a partial recognition if one is due at `now`. Completed segments are
    /// then drained with `drain_segments`.
    pub fn process_chunk<V: VoiceActivityDetector<T>, R: Recognizer<T>>(
        &mut self,
        samples: &Vec<T>,
        vad: &mut ObservedDetector<T, V>,
        recognizer: &mut ObservedRecognizer<T, R>,
        sample_rate: u32,
        now: u64,
    ) -> (r: PartialOutcome)
        requires
            old(self).wf(),
        ensures
            final(self).wf(),
            ({
                let grown = SegmenterView { buffer: old(self)@.buffer + samples@, ..old(self)@ };
                let k = spec_window_count(grown);
                let n0 = old(vad).verdicts().len();
                let fed = spec_after_windows(
                    grown,
                    final(vad).verdicts().subrange(n0 as int, (n0 + k) as int),
                    now,
                );
                &&& final(vad).windows() == old(vad).windows() + spec_windows(grown.buffer, grown.offset as int, k)
                &&& final(vad).verdicts().len() == n0 + k
                &&& final(vad).verdicts().subrange(0, n0 as int) == old(vad).verdicts()
                &&& final(vad).waiting() == old(vad).waiting()
                &&& final(vad).popped() == old(vad).popped()
                &&& final(vad).flushes() == old(vad).flushes()
                &&& spec_partial_step(spec_trimmed(fed), final(self)@, *old(recognizer), *final(recognizer), sample_rate, now, r)
            }),
            !final(self)@.speech.active ==> final(self)@.buffer.len() <= IDLE_KEEP,
    {
        self.append(samples);
        let ghost s1 = self@;
        self.feed_windows(vad, now);
        let ghost s2 = self@;
        self.trim_idle();
        proof {
            assert(self@ == spec_trimmed(s2));
        }
        self.run_partial(recognizer, sample_rate, now)
    }
}

} // verus!
