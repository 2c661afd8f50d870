//! Sample-level arithmetic on IEEE 754 single-precision bit patterns.
//!
//! A sample is carried as the `u32` bit pattern of a little-endian 32-bit
//! float.  Magnitudes of finite floats order exactly as the integer order of
//! their bit patterns with the sign bit cleared, so peak metering is integer
//! arithmetic on those patterns; not-a-number patterns contribute nothing to a
//! peak, mirroring how a float maximum ignores them.

use vstd::prelude::*;
use vstd::arithmetic::power2::{
    pow2, lemma2_to64, lemma_pow2_adds, lemma_pow2_strictly_increases,
};
use vstd::arithmetic::div_mod::{lemma_basic_div, lemma_multiply_divide_lt};
use vstd::arithmetic::mul::lemma_mul_inequality;
use vstd::bits::lemma_u64_shr_is_div;

verus! {

/// Bit pattern of the sample's magnitude: the sign bit cleared.
pub open spec fn abs_bits(b: u32) -> u32 {
    b & 0x7fff_ffff
}

/// A pattern whose magnitude bits exceed those of infinity encodes no number.
pub open spec fn is_nan_bits(b: u32) -> bool {
    abs_bits(b) > 0x7f80_0000
}

/// Magnitude bits of one sample as they enter a peak: not-a-number counts as
/// silence.
pub open spec fn peak_contribution(b: u32) -> u32 {
    if is_nan_bits(b) {
        0
    } else {
        abs_bits(b)
    }
}

/// The larger of two magnitudes, as bit patterns.
pub open spec fn peak_max(a: u32, b: u32) -> u32 {
    if a >= b {
        a
    } else {
        b
    }
}

/// Peak over a batch of samples: the largest magnitude bit pattern, with
/// not-a-number patterns ignored, `0` for an empty batch.
pub open spec fn batch_peak(s: Seq<u32>) -> u32
    decreases s.len(),
{
    if s.len() == 0 {
        0
    } else {
        peak_max(batch_peak(s.drop_last()), peak_contribution(s.last()))
    }
}

/// Law: the batch peak is the maximum sample magnitude.  It dominates every
/// sample's contribution, and unless zero it is the contribution of some
/// sample of the batch.
pub proof fn lemma_batch_peak_is_max(s: Seq<u32>)
    ensures
        forall|i: int| 0 <= i < s.len() ==> #[trigger] peak_contribution(s[i]) <= batch_peak(s),
        batch_peak(s) == 0 || exists|i: int|
            0 <= i < s.len() && #[trigger] peak_contribution(s[i]) == batch_peak(s),
    decreases s.len(),
{
    if s.len() > 0 {
        let rest = s.drop_last();
        lemma_batch_peak_is_max(rest);
        assert forall|i: int|
            0 <= i < s.len() implies #[trigger] peak_contribution(s[i]) <= batch_peak(s) by {
            if i < s.len() - 1 {
                assert(rest[i] == s[i]);
            }
        }
        if batch_peak(s) != 0 {
            if batch_peak(s) == peak_contribution(s.last()) {
                assert(peak_contribution(s[s.len() - 1]) == batch_peak(s));
            } else {
                let i = choose|i: int|
                    0 <= i < rest.len() && #[trigger] peak_contribution(rest[i]) == batch_peak(
                        rest,
                    );
                assert(peak_contribution(s[i]) == batch_peak(s));
            }
        }
    }
}

/// Clear a sample's sign bit, giving the bit pattern of its magnitude.
pub fn abs_sample_bits(b: u32) -> (r: u32)
    ensures
        r == abs_bits(b),
{
    b & 0x7fff_ffff
}

/// Compute the peak of a batch of samples: the largest magnitude bit pattern
/// present, ignoring not-a-number patterns.
pub fn compute_batch_peak(samples: &Vec<u32>) -> (r: u32)
    ensures
        r == batch_peak(samples@),
{
    let mut peak: u32 = 0;
    let mut i: usize = 0;
    while i < samples.len()
        invariant
            i <= samples@.len(),
            peak == batch_peak(samples@.take(i as int)),
        decreases samples@.len() - i,
    {
        let s = samples[i];
        let a = s & 0x7fff_ffff;
        if a <= 0x7f80_0000 && a > peak {
            peak = a;
        }
        proof {
            assert(samples@.take(i + 1).drop_last() =~= samples@.take(i as int));
            assert(samples@.take(i + 1).last() == samples@[i as int]);
        }
        i = i + 1;
    }
    proof {
        assert(samples@.take(samples@.len() as int) =~= samples@);
    }
    peak
}

/// The sample at index `i`: four little-endian bytes assembled into one bit
/// pattern.
pub open spec fn le_sample_bits(s: Seq<u8>, i: int) -> u32
    recommends
        0 <= i,
        4 * i + 3 < s.len(),
{
    (s[4 * i] + s[4 * i + 1] * 0x100 + s[4 * i + 2] * 0x1_0000 + s[4 * i + 3] * 0x100_0000) as u32
}

/// All samples carried by a raw byte buffer; trailing bytes that do not fill a
/// whole sample are ignored.
pub open spec fn decoded_samples(s: Seq<u8>) -> Seq<u32> {
    Seq::new(s.len() / 4, |i: int| le_sample_bits(s, i))
}

/// Decode a raw byte buffer into sample bit patterns, four little-endian
/// bytes per sample, ignoring any trailing partial sample.
pub fn decode_samples(data: &Vec<u8>) -> (r: Vec<u32>)
    ensures
        r@ == decoded_samples(data@),
{
    let n: usize = data.len() / 4;
    let mut out: Vec<u32> = Vec::new();
    let mut i: usize = 0;
    while i < n
        invariant
            n == data@.len() / 4,
            data@.len() <= usize::MAX,
            i <= n,
            out@.len() == i,
            forall|j: int| 0 <= j < i ==> out@[j] == le_sample_bits(data@, j),
        decreases n - i,
    {
        proof {
            assert(4 * i + 3 < data@.len());
        }
        let b0 = data[4 * i] as u32;
        let b1 = data[4 * i + 1] as u32;
        let b2 = data[4 * i + 2] as u32;
        let b3 = data[4 * i + 3] as u32;
        out.push(b0 + b1 * 0x100 + b2 * 0x1_0000 + b3 * 0x100_0000);
        i = i + 1;
    }
    proof {
        assert(out@ =~= decoded_samples(data@));
    }
    out
}

/// The exponent field of the bit pattern.
pub open spec fn exp_bits(b: u32) -> u32 {
    (b >> 23) & 0xff
}

/// The fraction field of the bit pattern.
pub open spec fn frac_bits(b: u32) -> u32 {
    b & 0x7f_ffff
}

/// The full significand: the fraction with the implicit leading bit added for
/// normal numbers.
pub open spec fn mantissa_bits(b: u32) -> u32 {
    if exp_bits(b) == 0 {
        frac_bits(b)
    } else {
        frac_bits(b) | 0x80_0000
    }
}

/// The scaling exponent of the significand.  The magnitude of a pattern with
/// exponent field `e > 0` is `mantissa * 2^(e - 150)`; a subnormal pattern
/// (`e == 0`) scales as if `e` were 1.
pub open spec fn scale_exp(b: u32) -> u32 {
    if exp_bits(b) == 0 {
        1
    } else {
        exp_bits(b)
    }
}

/// Whether the sign bit is set.
pub open spec fn is_negative_bits(b: u32) -> bool {
    b >= 0x8000_0000
}

/// For a magnitude below one (exponent field below 127): the magnitude times
/// 32767, truncated to an integer.  The magnitude is
/// `mantissa * 2^(scale - 150)` with `scale <= 126`, so the product truncates
/// to `mantissa * 32767 / 2^(150 - scale)`.
pub open spec fn scaled_magnitude(b: u32) -> int
    recommends
        exp_bits(b) < 127,
{
    (mantissa_bits(b) as int * 32767) / (pow2((150 - scale_exp(b)) as nat) as int)
}

/// A sample converted for a 16-bit integer encoder: clamped to the range
/// minus one to one, multiplied by 32767 and truncated toward zero.  A
/// magnitude of one or more (exponent field 127 or above, infinities
/// included) clamps to plus or minus 32767; a not-a-number pattern converts
/// to 0, as clamping and scaling it yields no number and the integer cast of
/// no number is 0.
pub open spec fn sample_to_i16_spec(b: u32) -> int {
    if is_nan_bits(b) {
        0
    } else if exp_bits(b) >= 127 {
        if is_negative_bits(b) {
            -32767
        } else {
            32767
        }
    } else {
        if is_negative_bits(b) {
            -scaled_magnitude(b)
        } else {
            scaled_magnitude(b)
        }
    }
}

/// Convert one sample to a signed 16-bit value: clamp to the range minus one
/// to one, multiply by 32767, truncate toward zero.
pub fn sample_to_i16(b: u32) -> (r: i16)
    ensures
        r as int == sample_to_i16_spec(b),
{
    let abs = b & 0x7fff_ffff;
    let neg = b >= 0x8000_0000;
    if abs > 0x7f80_0000 {
        0
    } else if abs >= 0x3f80_0000 {
        proof {
            assert((b & 0x7fff_ffff) >= 0x3f80_0000 ==> ((b >> 23) & 0xff) >= 127)
                by (bit_vector);
        }
        if neg {
            -32767
        } else {
            32767
        }
    } else {
        proof {
            assert((b & 0x7fff_ffff) < 0x3f80_0000 ==> ((b >> 23) & 0xff) < 127) by (bit_vector);
        }
        let exp: u32 = (b >> 23) & 0xff;
        let frac: u32 = b & 0x7f_ffff;
        let m: u32 = if exp == 0 {
            frac
        } else {
            frac | 0x80_0000
        };
        let e: u32 = if exp == 0 {
            1
        } else {
            exp
        };
        proof {
            assert((b & 0x7f_ffff) | 0x80_0000 <= 0xff_ffff) by (bit_vector);
            assert((b & 0x7f_ffff) <= 0x7f_ffff) by (bit_vector);
        }
        let shift: u32 = 150 - e;
        let prod: u64 = (m as u64) * 32767;
        proof {
            lemma2_to64();
            lemma_pow2_adds(24, 15);
            assert(prod < pow2(39)) by {
                assert(m < 0x100_0000);
                lemma_mul_inequality(m as int, 0xff_ffff, 32767);
            }
        }
        let mag: u64 = if shift >= 40 {
            proof {
                lemma_pow2_strictly_increases(39, shift as nat);
                lemma_basic_div(prod as int, pow2(shift as nat) as int);
            }
            0
        } else {
            proof {
                lemma_u64_shr_is_div(prod, shift as u64);
            }
            prod >> (shift as u64)
        };
        proof {
            assert(mag == (prod as int) / (pow2(shift as nat) as int));
            assert(mag < 32767) by {
                assert(pow2(24) <= pow2(shift as nat)) by {
                    if shift > 24 {
                        lemma_pow2_strictly_increases(24, shift as nat);
                    }
                }
                assert(prod < pow2(shift as nat) * 32767) by {
                    lemma_mul_inequality(pow2(24) as int, pow2(shift as nat) as int, 32767);
                }
                lemma_multiply_divide_lt(prod as int, pow2(shift as nat) as int, 32767);
            }
        }
        if neg {
            -(mag as i16)
        } else {
            mag as i16
        }
    }
}

/// Convert a whole batch of samples for a 16-bit integer encoder.
pub fn convert_batch(samples: &Vec<u32>) -> (r: Vec<i16>)
    ensures
        r@.len() == samples@.len(),
        forall|i: int| 0 <= i < samples@.len() ==> r@[i] as int == sample_to_i16_spec(samples@[i]),
{
    let mut out: Vec<i16> = Vec::new();
    let mut i: usize = 0;
    while i < samples.len()
        invariant
            i <= samples@.len(),
            out@.len() == i,
            forall|j: int| 0 <= j < i ==> out@[j] as int == sample_to_i16_spec(samples@[j]),
        decreases samples@.len() - i,
    {
        let v = sample_to_i16(samples[i]);
        out.push(v);
        i = i + 1;
    }
    out
}

} // verus!
