//! Linear-interpolation rate conversion, stated over exact integer positions.
use vstd::prelude::*;

verus! {

/// The rate that the detector and the recognizer expect, in Hz.
pub const TARGET_RATE: u32 = 16000;

/// Where one output sample comes from.
#[derive(Clone, Copy, Debug, PartialEq, Eq, Structural)]
pub enum Tap {
    /// Blend `input[index]` and `input[index + 1]`, the second weighted
    /// `frac_num / frac_den`.
    Blend { index: usize, frac_num: u32, frac_den: u32 },
    /// Take `input[index]` unchanged.
    Copy { index: usize },
    /// The position lies past the input: silence.
    Silence,
}

/// Rates within one hertz of each other are treated as equal.
pub open spec fn spec_bypasses(src_rate: int, target_rate: int) -> bool {
    -1 <= src_rate - target_rate <= 1
}

/// Length of the converted sequence for `n` input samples.
pub open spec fn spec_output_len(n: int, src_rate: int, target_rate: int) -> int {
    if spec_bypasses(src_rate, target_rate) {
        n
    } else {
        n * target_rate / src_rate
    }
}

/// The tap for output sample `i`: its source position is
/// `i * src_rate / target_rate`, split into a whole index and a fraction.
pub open spec fn spec_tap(i: int, n: int, src_rate: int, target_rate: int) -> Tap {
    let index = (i * src_rate) / target_rate;
    let frac_num = (i * src_rate) % target_rate;
    if index + 1 < n {
        Tap::Blend { index: index as usize, frac_num: frac_num as u32, frac_den: target_rate as u32 }
    } else if index < n {
        Tap::Copy { index: index as usize }
    } else {
        Tap::Silence
    }
}

proof fn lemma_product_fits(a: int, b: int)
    requires
        0 <= a <= u64::MAX,
        0 <= b <= u32::MAX,
    ensures
        0 <= a * b <= u64::MAX * u32::MAX,
{
    assert(0 <= a * b <= u64::MAX * u32::MAX) by (nonlinear_arith)
        requires
            0 <= a <= u64::MAX,
            0 <= b <= u32::MAX,
    ;
}

/// What a tap makes of `input`: `sample` is the value it stands for.
pub open spec fn tap_yields<T, F: Fn(T, T, u32, u32) -> T>(
    tap: Tap,
    input: Seq<T>,
    zero: T,
    blend: F,
    sample: T,
) -> bool {
    match tap {
        Tap::Blend { index, frac_num, frac_den } => blend.ensures(
            (input[index as int], input[index + 1], frac_num, frac_den),
            sample,
        ),
        Tap::Copy { index } => sample == input[index as int],
        Tap::Silence => sample == zero,
    }
}

/// Converts sample sequences from a device rate to a target rate.
#[derive(Clone, Copy, Debug, PartialEq, Eq, Structural)]
pub struct RateConverter {
    pub src_rate: u32,
    pub target_rate: u32,
}

impl RateConverter {
    pub open spec fn valid(&self) -> bool {
        self.src_rate > 0 && self.target_rate > 0
    }

    /// A converter from `src_rate`; `None` where either rate is zero.
    pub fn new(src_rate: u32, target_rate: u32) -> (r: Option<RateConverter>)
        ensures
            r == (if src_rate > 0 && target_rate > 0 {
                Some(RateConverter { src_rate, target_rate })
            } else {
                None::<RateConverter>
            }),
    {
        if src_rate > 0 && target_rate > 0 {
            Some(RateConverter { src_rate, target_rate })
        } else {
            None
        }
    }

    /// Whether input passes through unchanged.
    pub fn bypasses(&self) -> (r: bool)
        ensures
            r == spec_bypasses(self.src_rate as int, self.target_rate as int),
    {
        (self.src_rate as u64) <= (self.target_rate as u64) + 1 && (self.target_rate as u64) <= (self.src_rate as u64) + 1
    }

    /// Number of output samples for `n` input samples.
    pub fn output_len(&self, n: usize) -> (r: usize)
        requires
            self.valid(),
            spec_output_len(n as int, self.src_rate as int, self.target_rate as int) <= usize::MAX,
        ensures
            r == spec_output_len(n as int, self.src_rate as int, self.target_rate as int),
    {
        if self.bypasses() {
            n
        } else {
            proof {
                lemma_product_fits(n as int, self.target_rate as int);
            }
            let scaled: u128 = (n as u128) * (self.target_rate as u128);
            (scaled / (self.src_rate as u128)) as usize
        }
    }

    /// The tap of output sample `i` for an input of `n` samples.
    pub fn tap(&self, i: usize, n: usize) -> (r: Tap)
        requires
            self.valid(),
        ensures
            r == spec_tap(i as int, n as int, self.src_rate as int, self.target_rate as int),
    {
        proof {
            lemma_product_fits(i as int, self.src_rate as int);
        }
        let pos: u128 = (i as u128) * (self.src_rate as u128);
        let den: u128 = self.target_rate as u128;
        let index: u128 = pos / den;
        let frac_num: u128 = pos % den;
        if index + 1 < n as u128 {
            Tap::Blend { index: index as usize, frac_num: frac_num as u32, frac_den: self.target_rate }
        } else if index < n as u128 {
            Tap::Copy { index: index as usize }
        } else {
            Tap::Silence
        }
    }

    /// Converts `input` to the target rate. Within one hertz the input is
    /// returned as it is; otherwise output sample `i` is made from the tap
    /// `spec_tap(i, ..)`, with `blend(a, b, num, den)` mixing two neighbours
    /// and `zero` standing for silence.
    pub fn resample<T: Copy, F: Fn(T, T, u32, u32) -> T>(
        &self,
        input: &Vec<T>,
        zero: T,
        blend: &F,
    ) -> (out: Vec<T>)
        requires
            self.valid(),
            spec_output_len(input.len() as int, self.src_rate as int, self.target_rate as int)
                <= usize::MAX,
            forall|a: T, b: T, num: u32, den: u32| blend.requires((a, b, num, den)),
        ensures
            spec_bypasses(self.src_rate as int, self.target_rate as int) ==> out@ == input@,
            out.len() == spec_output_len(input.len() as int, self.src_rate as int, self.target_rate as int),
            !spec_bypasses(self.src_rate as int, self.target_rate as int) ==> forall|i: int|
                0 <= i < out.len() ==> tap_yields(
                    spec_tap(i, input.len() as int, self.src_rate as int, self.target_rate as int),
                    input@,
                    zero,
                    *blend,
                    #[trigger] out@[i],
                ),
    {
        let n = input.len();
        if self.bypasses() {
            let mut out: Vec<T> = Vec::with_capacity(n);
            let mut k: usize = 0;
            while k < n
                invariant
                    n == input.len(),
                    k <= n,
                    out@ == input@.subrange(0, k as int),
                decreases n - k,
            {
                out.push(input[k]);
                k += 1;
                assert(out@ =~= input@.subrange(0, k as int));
            }
            assert(out@ =~= input@);
            return out;
        }
        let len = self.output_len(n);
        let mut out: Vec<T> = Vec::with_capacity(len);
        let mut i: usize = 0;
        while i < len
            invariant
                self.valid(),
                !spec_bypasses(self.src_rate as int, self.target_rate as int),
                n == input.len(),
                len == spec_output_len(n as int, self.src_rate as int, self.target_rate as int),
                i <= len,
                out.len() == i,
                forall|a: T, b: T, num: u32, den: u32| blend.requires((a, b, num, den)),
                forall|j: int|
                    0 <= j < i ==> tap_yields(
                        spec_tap(j, n as int, self.src_rate as int, self.target_rate as int),
                        input@,
                        zero,
                        *blend,
                        #[trigger] out@[j],
                    ),
            decreases len - i,
        {
            let t = self.tap(i, n);
            let sample = match t {
                Tap::Blend { index, frac_num, frac_den } => blend(input[index], input[index + 1], frac_num, frac_den),
                Tap::Copy { index } => input[index],
                Tap::Silence => zero,
            };
            out.push(sample);
            i += 1;
        }
        out
    }
}

/// `num / den` rounded to the nearest integer, halves up.
pub open spec fn spec_round(num: int, den: int) -> int {
    (2 * num + den) / (2 * den)
}

/// The converted length is `n * target_rate / src_rate` rounded down, and so
/// lies within one sample of that ratio rounded to nearest. Rates that differ
/// by exactly one hertz are passed through unscaled and are left out.
pub proof fn lemma_output_len_within_one(n: nat, src_rate: u32, target_rate: u32)
    requires
        src_rate > 0,
        target_rate > 0,
        src_rate == target_rate || !spec_bypasses(src_rate as int, target_rate as int),
    ensures
        ({
            let len = spec_output_len(n as int, src_rate as int, target_rate as int);
            let exact = n * target_rate;
            &&& len * src_rate <= exact < (len + 1) * src_rate
            &&& -1 <= len - spec_round(exact, src_rate as int) <= 1
        }),
{
    let len = spec_output_len(n as int, src_rate as int, target_rate as int);
    let exact = n * target_rate;
    let s = src_rate as int;
    if src_rate == target_rate {
        assert(len == n);
        assert(exact == n * s);
        assert(len * s <= exact < (len + 1) * s) by (nonlinear_arith)
            requires len == n, exact == n * s, s > 0;
    } else {
        assert(len == exact / s);
        assert(len * s <= exact < (len + 1) * s) by (nonlinear_arith)
            requires len == exact / s, s > 0, exact >= 0;
    }
    let r = spec_round(exact, s);
    assert(r * (2 * s) <= 2 * exact + s < (r + 1) * (2 * s)) by (nonlinear_arith)
        requires r == (2 * exact + s) / (2 * s), s > 0, exact >= 0;
    assert(-1 <= len - r <= 1) by (nonlinear_arith)
        requires
            len * s <= exact < (len + 1) * s,
            r * (2 * s) <= 2 * exact + s < (r + 1) * (2 * s),
            s > 0;
}

} // verus!
