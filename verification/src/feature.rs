use vstd::prelude::*;
use vstd::arithmetic::div_mod::{
    lemma_div_is_ordered, lemma_div_multiples_vanish, lemma_fundamental_div_mod, lemma_mod_bound,
};
use crate::config::{CONFIDENCE_SCALE, MAX_FRAME_SAMPLES};
use crate::frame::AudioFrame;

verus! {

/// Fixed-size numeric summary of one audio frame: the average absolute
/// amplitude of each of a fixed number of sample bins, normalized to the
/// confidence scale so that detector thresholds are stable across recording
/// hardware. Consumed by the detector immediately, never persisted.
pub struct FeatureVector {
    /// The stamp of the frame this vector was extracted from.
    pub timestamp: u64,
    /// One normalized energy per bin, each in `0 ..= CONFIDENCE_SCALE`.
    pub bins: Vec<u32>,
}

/// The magnitude of one signed 16-bit sample, as a mathematical integer.
pub open spec fn abs_sample(x: i16) -> int {
    if x < 0 {
        -(x as int)
    } else {
        x as int
    }
}

/// Sum of the magnitudes of all samples of `s`.
pub open spec fn sum_abs(s: Seq<i16>) -> int
    decreases s.len(),
{
    if s.len() == 0 {
        0
    } else {
        abs_sample(s.first()) + sum_abs(s.drop_first())
    }
}

/// The normalized energy of bin `i` of `nbins` over `samples`.
///
/// Each bin covers `samples.len() / nbins` consecutive samples; a remainder
/// shorter than one bin at the end of the frame is ignored. The energy is the
/// bin's summed magnitude scaled into `0 ..= CONFIDENCE_SCALE`, where
/// `CONFIDENCE_SCALE` stands for every sample at full amplitude. A frame with
/// fewer samples than bins yields all-zero bins.
pub open spec fn bin_value(samples: Seq<i16>, nbins: int, i: int) -> int {
    let chunk = samples.len() as int / nbins;
    if chunk == 0 {
        0
    } else {
        sum_abs(samples.subrange(i * chunk, i * chunk + chunk)) * (CONFIDENCE_SCALE as int) / (
        chunk * 32768)
    }
}

/// Appending one sample adds its magnitude to the sum.
proof fn lemma_sum_abs_snoc(s: Seq<i16>, x: i16)
    ensures
        sum_abs(s.push(x)) == sum_abs(s) + abs_sample(x),
    decreases s.len(),
{
    let t = s.push(x);
    assert(t.len() == s.len() + 1);
    if s.len() == 0 {
        assert(t[0] == x);
        assert(t.first() == x);
        assert(t.drop_first() =~= Seq::<i16>::empty());
        assert(sum_abs(t.drop_first()) == 0);
        assert(sum_abs(t) == abs_sample(x));
        assert(sum_abs(s) == 0);
    } else {
        assert(t[0] == s[0]);
        assert(t.first() == s.first());
        assert(t.drop_first() =~= s.drop_first().push(x));
        lemma_sum_abs_snoc(s.drop_first(), x);
        assert(sum_abs(t) == abs_sample(t.first()) + sum_abs(t.drop_first()));
        assert(sum_abs(s) == abs_sample(s.first()) + sum_abs(s.drop_first()));
    }
}

/// A magnitude sum is never negative and never exceeds full amplitude on
/// every sample.
proof fn lemma_sum_abs_bounds(s: Seq<i16>)
    ensures
        0 <= sum_abs(s) <= s.len() * 32768,
    decreases s.len(),
{
    if s.len() > 0 {
        lemma_sum_abs_bounds(s.drop_first());
    }
}

/// Bin energies are normalized: every bin value lies on the confidence scale.
pub proof fn lemma_bin_value_normalized(samples: Seq<i16>, nbins: int, i: int)
    requires
        1 <= nbins,
        0 <= i < nbins,
    ensures
        0 <= bin_value(samples, nbins, i) <= CONFIDENCE_SCALE,
{
    let chunk = samples.len() as int / nbins;
    if chunk != 0 {
        lemma_fundamental_div_mod(samples.len() as int, nbins);
        lemma_mod_bound(samples.len() as int, nbins);
        lemma_div_is_ordered(0, samples.len() as int, nbins);
        assert(0 <= i * chunk && i * chunk + chunk <= nbins * chunk) by (nonlinear_arith)
            requires 0 <= i, i + 1 <= nbins, 1 <= chunk;
        let part = samples.subrange(i * chunk, i * chunk + chunk);
        let num = sum_abs(part) * (CONFIDENCE_SCALE as int);
        let den = chunk * 32768;
        lemma_sum_abs_bounds(part);
        assert(den >= 32768) by (nonlinear_arith)
            requires chunk >= 1, den == chunk * 32768;
        assert(num >= 0) by (nonlinear_arith)
            requires sum_abs(part) >= 0, num == sum_abs(part) * (CONFIDENCE_SCALE as int);
        lemma_div_is_ordered(0, num, den);
        assert(num <= den * (CONFIDENCE_SCALE as int)) by (nonlinear_arith)
            requires
                sum_abs(part) <= part.len() * 32768,
                part.len() == chunk,
                den == chunk * 32768,
                num == sum_abs(part) * (CONFIDENCE_SCALE as int),
                chunk >= 1;
        lemma_div_is_ordered(num, den * (CONFIDENCE_SCALE as int), den);
        lemma_div_multiples_vanish(CONFIDENCE_SCALE as int, den);
    }
}

/// Turns one frame into its feature vector: `nbins` normalized bin energies.
///
/// A pure function of its arguments: identical frames give identical vectors,
/// and every bin is stated exactly by `bin_value`.
pub fn extract(frame: &AudioFrame, nbins: usize) -> (fv: FeatureVector)
    requires
        1 <= nbins,
        frame.samples.len() <= MAX_FRAME_SAMPLES,
    ensures
        fv.timestamp == frame.timestamp,
        fv.bins@.len() == nbins,
        forall|i: int|
            0 <= i < nbins ==> fv.bins@[i] as int == bin_value(frame.samples@, nbins as int, i),
        forall|i: int| 0 <= i < nbins ==> fv.bins@[i] <= CONFIDENCE_SCALE,
{
    let len = frame.samples.len();
    let chunk = len / nbins;
    proof {
        lemma_fundamental_div_mod(len as int, nbins as int);
        lemma_mod_bound(len as int, nbins as int);
        assert(nbins as int * chunk as int <= len as int);
        assert(chunk as int <= nbins as int * chunk as int) by (nonlinear_arith)
            requires 1 <= nbins, 0 <= chunk;
    }
    let mut bins: Vec<u32> = Vec::new();
    let mut b: usize = 0;
    while b < nbins
        invariant
            b <= nbins,
            1 <= nbins,
            len == frame.samples@.len(),
            len <= MAX_FRAME_SAMPLES,
            chunk == len as int / nbins as int,
            nbins as int * chunk as int <= len as int,
            chunk <= len,
            bins@.len() == b,
            forall|i: int|
                0 <= i < b ==> bins@[i] as int == bin_value(frame.samples@, nbins as int, i),
            forall|i: int| 0 <= i < b ==> bins@[i] <= CONFIDENCE_SCALE,
        decreases nbins - b,
    {
        proof {
            assert(b as int * chunk as int + chunk as int <= nbins as int * chunk as int)
                by (nonlinear_arith)
                requires b + 1 <= nbins, 0 <= chunk;
        }
        let v: u32 = if chunk == 0 {
            0
        } else {
            let lo = b * chunk;
            let hi = lo + chunk;
            proof {
                assert(frame.samples@.subrange(lo as int, lo as int) =~= Seq::<i16>::empty());
            }
            let mut acc: u64 = 0;
            let mut j = lo;
            while j < hi
                invariant
                    lo <= j <= hi,
                    hi == lo + chunk,
                    1 <= chunk <= MAX_FRAME_SAMPLES,
                    hi <= len,
                    len == frame.samples@.len(),
                    acc as int == sum_abs(frame.samples@.subrange(lo as int, j as int)),
                decreases hi - j,
            {
                let x = frame.samples[j];
                let a: u32 = if x < 0 {
                    (-(x as i32)) as u32
                } else {
                    x as u32
                };
                proof {
                    let pre = frame.samples@.subrange(lo as int, j as int);
                    lemma_sum_abs_bounds(pre);
                    assert((j - lo) * 32768 <= MAX_FRAME_SAMPLES as int * 32768)
                        by (nonlinear_arith)
                        requires 0 <= j - lo <= MAX_FRAME_SAMPLES as int;
                    assert(frame.samples@.subrange(lo as int, j as int + 1)
                        =~= pre.push(frame.samples@[j as int]));
                    lemma_sum_abs_snoc(pre, frame.samples@[j as int]);
                }
                acc = acc + a as u64;
                j = j + 1;
            }
            let ghost part = frame.samples@.subrange(lo as int, hi as int);
            proof {
                lemma_sum_abs_bounds(part);
                assert(part.len() * 32768 <= MAX_FRAME_SAMPLES as int * 32768)
                    by (nonlinear_arith)
                    requires 0 <= part.len() <= MAX_FRAME_SAMPLES as int;
                let num = acc as int * (CONFIDENCE_SCALE as int);
                let den = chunk as int * 32768;
                assert(den <= MAX_FRAME_SAMPLES as int * 32768) by (nonlinear_arith)
                    requires
                        1 <= chunk as int <= MAX_FRAME_SAMPLES as int,
                        den == chunk as int * 32768;
                assert(num <= den * (CONFIDENCE_SCALE as int) && 0 <= num) by (nonlinear_arith)
                    requires
                        0 <= acc as int <= den,
                        num == acc as int * (CONFIDENCE_SCALE as int),
                        1 * 32768 <= den;
                lemma_div_is_ordered(num, den * (CONFIDENCE_SCALE as int), den);
                lemma_div_multiples_vanish(CONFIDENCE_SCALE as int, den);
                lemma_div_is_ordered(0, num, den);
            }
            ((acc * (CONFIDENCE_SCALE as u64)) / ((chunk as u64) * 32768)) as u32
        };
        bins.push(v);
        b = b + 1;
        proof {
            lemma_bin_value_normalized(frame.samples@, nbins as int, b - 1);
        }
    }
    FeatureVector { timestamp: frame.timestamp, bins }
}

} // verus!
