//! Grouping interleaved capture data into frames, one frame per instant.
use vstd::prelude::*;

verus! {

/// Number of frames in `len` interleaved samples of `channels` channels; a
/// trailing partial frame counts as one.
pub open spec fn spec_frame_count(len: int, channels: int) -> int {
    (len + channels - 1) / channels
}

/// Frame `k` of `data`: the samples `[k * channels, (k + 1) * channels)`,
/// cut short at the end of the data.
pub open spec fn spec_frame<T>(data: Seq<T>, channels: int, k: int) -> Seq<T> {
    let start = k * channels;
    let end = if (k + 1) * channels <= data.len() { (k + 1) * channels } else { data.len() as int };
    data.subrange(start, end)
}

/// Splits interleaved samples into frames of `channels` samples each. A
/// frame is then mixed down to one mono sample by the caller.
pub fn split_frames<T: Copy>(data: &Vec<T>, channels: usize) -> (frames: Vec<Vec<T>>)
    requires
        channels >= 1,
    ensures
        frames.len() == spec_frame_count(data.len() as int, channels as int),
        forall|k: int|
            0 <= k < frames.len() ==> (#[trigger] frames@[k])@ == spec_frame(
                data@,
                channels as int,
                k,
            ),
{
    let n = data.len();
    let mut frames: Vec<Vec<T>> = Vec::new();
    let mut start: usize = 0;
    proof {
        let c = channels as int;
        assert(frames.len() == 0);
        assert(0 * c == 0);
        assert((c - 1) / c == 0) by (nonlinear_arith)
            requires c >= 1;
    }
    while start < n
        invariant
            n == data.len(),
            channels >= 1,
            start <= n,
            start < n ==> start == frames.len() * channels,
            frames.len() == spec_frame_count(start as int, channels as int),
            forall|k: int|
                0 <= k < frames.len() ==> (#[trigger] frames@[k])@ == spec_frame(
                    data@,
                    channels as int,
                    k,
                ),
        decreases n - start,
    {
        let end: usize = if n - start >= channels { start + channels } else { n };
        let mut frame: Vec<T> = Vec::with_capacity(end - start);
        let mut j: usize = start;
        while j < end
            invariant
                start <= j <= end <= n,
                n == data.len(),
                frame@ == data@.subrange(start as int, j as int),
            decreases end - j,
        {
            frame.push(data[j]);
            j += 1;
            assert(frame@ =~= data@.subrange(start as int, j as int));
        }
        proof {
            let k = frames.len() as int;
            let c = channels as int;
            assert((k + 1) * c == start + c) by (nonlinear_arith)
                requires k * c == start;
            assert(spec_frame_count(end as int, c) == k + 1) by (nonlinear_arith)
                requires k * c == start, start < end, end <= start + c, c >= 1, k >= 0;
        }
        frames.push(frame);
        start = end;
    }
    frames
}

} // verus!
