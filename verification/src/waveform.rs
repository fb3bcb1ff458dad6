//! The loudness of a voice message over time.
//!
//! A sample is a single-precision number in the IEEE 754 binary32 format, held as the integer that
//! its 32 bits spell.

use vstd::arithmetic::div_mod::*;
use vstd::arithmetic::mul::*;
use vstd::arithmetic::power2::*;
use vstd::bits::*;
use vstd::prelude::*;

use crate::errors::{refusal, FailureText, UploadedVoiceError};
use crate::text::{decimal, decimal_text, join3};

verus! {

/// The largest amplitude of a message's waveform.
pub const MAX_AMPLITUDE: u16 = 1024;

/// The sample that spells the number one.
pub const ONE: u32 = 0x3f80_0000;

/// The sample that spells infinity.
pub const INFINITY: u32 = 0x7f80_0000;

/// The smallest sample with the sign of negative numbers.
pub const SIGN: u32 = 0x8000_0000;

/// The 23 bits below the point that a sample spells out.
pub const FRACTION_UNIT: u32 = 0x0080_0000;

/// The exponent field of a sample.
pub open spec fn exponent(sample: u32) -> nat {
    ((sample / FRACTION_UNIT) % 256) as nat
}

/// Whether a sample is a number, neither infinite nor undefined.
pub open spec fn finite(sample: u32) -> bool {
    exponent(sample) != 255
}

/// The magnitude of a finite sample, in units of 2^-149.
pub open spec fn magnitude(sample: u32) -> nat {
    let fraction = (sample % FRACTION_UNIT) as nat;
    if exponent(sample) == 0 {
        fraction
    } else {
        (fraction + FRACTION_UNIT as nat) * pow2((exponent(sample) - 1) as nat)
    }
}

/// The amplitude of a sample: the number brought into the range from zero to one, times the largest
/// amplitude, rounded down. What is no number is silent.
pub open spec fn amplitude(sample: u32) -> nat {
    if sample >= SIGN || sample > INFINITY {
        0
    } else if sample >= ONE {
        MAX_AMPLITUDE as nat
    } else {
        magnitude(sample) * MAX_AMPLITUDE as nat / pow2(149)
    }
}

fn is_finite(sample: u32) -> (r: bool)
    ensures
        r == finite(sample),
{
    (sample / FRACTION_UNIT) % 256 != 255
}

/// Whether the sample at an index is the first one that is not finite.
pub open spec fn first_not_finite(waveform: Seq<u32>, index: int) -> bool {
    &&& 0 <= index < waveform.len()
    &&& !finite(waveform[index])
    &&& forall|i: int| 0 <= i < index ==> finite(#[trigger] waveform[i])
}

/// What is wrong with a waveform: its first sample that is not finite.
pub open spec fn waveform_problem(waveform: Seq<u32>, field_name: Seq<char>) -> Option<FailureText> {
    if forall|i: int| 0 <= i < waveform.len() ==> finite(#[trigger] waveform[i]) {
        None
    } else {
        let index = choose|index: int| first_not_finite(waveform, index);
        Some(
            refusal(
                field_name + " contains a non-finite value at index "@ + decimal(index as nat),
            ),
        )
    }
}

/// Accepts a waveform whose samples are all finite.
pub fn validate_waveform(waveform: &Vec<u32>, field_name: &str) -> (r: Result<
    (),
    UploadedVoiceError,
>)
    ensures
        match r {
            Ok(_) => waveform_problem(waveform@, field_name@) is None,
            Err(error) => waveform_problem(waveform@, field_name@) == Some(error@),
        },
{
    let mut i: usize = 0;
    while i < waveform.len()
        invariant
            i <= waveform@.len(),
            forall|j: int| 0 <= j < i ==> finite(#[trigger] waveform@[j]),
        decreases waveform@.len() - i,
    {
        if !is_finite(waveform[i]) {
            proof {
                assert(first_not_finite(waveform@, i as int));
                let index = choose|index: int| first_not_finite(waveform@, index);
                assert(!finite(waveform@[index]) && !finite(waveform@[i as int]));
            }
            return Err(
                UploadedVoiceError::validation(
                    join3(
                        field_name,
                        " contains a non-finite value at index ",
                        decimal_text(i as u64).as_str(),
                    ),
                    None,
                ),
            );
        }
        i = i + 1;
    }
    Ok(())
}

/// Below one, the rounded product is the fraction shifted right.
proof fn lemma_amplitude_is_shift(sample: u32)
    requires
        FRACTION_UNIT <= sample < ONE,
    ensures
        1 <= exponent(sample) <= 126,
        amplitude(sample) == (sample % FRACTION_UNIT + FRACTION_UNIT) as nat / pow2(
            (140 - exponent(sample)) as nat,
        ),
{
    let e = exponent(sample);
    let m = (sample % FRACTION_UNIT + FRACTION_UNIT) as nat;
    assert(1 <= sample / FRACTION_UNIT <= 126);
    let low = pow2((e - 1) as nat);
    let high = pow2((140 - e) as nat);
    lemma_pow2_pos((e - 1) as nat);
    lemma_pow2_pos((140 - e) as nat);
    lemma_pow2_pos(10);
    lemma_pow2_adds((e - 1) as nat, (140 - e) as nat);
    lemma_pow2_adds(10, 139);
    assert(pow2(10) == 1024) by {
        lemma2_to64();
    }
    assert(magnitude(sample) * 1024 == pow2(10) * (low * m)) by (nonlinear_arith)
        requires
            magnitude(sample) == m * low,
            pow2(10) == 1024,
    ;
    assert(pow2(149) == pow2(10) * (low * high));
    lemma_div_multiples_vanish_quotient(low as int, m as int, high as int);
    lemma_mul_strictly_positive(low as int, high as int);
    lemma_div_multiples_vanish_quotient(pow2(10) as int, (low * m) as int, (low * high) as int);
}

/// Scales one sample.
fn scale(sample: u32) -> (r: u16)
    ensures
        r == amplitude(sample),
        r <= MAX_AMPLITUDE,
{
    if sample >= SIGN || sample > INFINITY {
        return 0;
    }
    if sample >= ONE {
        return MAX_AMPLITUDE;
    }
    if sample < FRACTION_UNIT {
        proof {
            lemma_tiny(sample);
        }
        return 0;
    }
    let e: u32 = sample / FRACTION_UNIT;
    let m: u32 = sample % FRACTION_UNIT + FRACTION_UNIT;
    let shift: u32 = 140 - e;
    proof {
        lemma_amplitude_is_shift(sample);
        assert(pow2(24) == 0x100_0000 && pow2(14) == 0x4000) by {
            lemma2_to64();
        }
        lemma_pow2_pos(shift as nat);
    }
    if shift >= 24 {
        proof {
            if shift > 24 {
                lemma_pow2_strictly_increases(24, shift as nat);
            }
            lemma_basic_div(m as int, pow2(shift as nat) as int);
        }
        return 0;
    }
    proof {
        lemma_u32_shr_is_div(m, shift);
        if shift > 14 {
            lemma_pow2_strictly_increases(14, shift as nat);
        }
        lemma_div_is_ordered_by_denominator(m as int, 0x4000, pow2(shift as nat) as int);
    }
    (m >> shift) as u16
}

proof fn lemma_tiny(sample: u32)
    requires
        sample < FRACTION_UNIT,
    ensures
        amplitude(sample) == 0,
{
    lemma_pow2_strictly_increases(64, 149);
    assert(pow2(64) == 0x1_0000_0000_0000_0000) by {
        lemma2_to64();
    }
    assert(magnitude(sample) == sample);
    lemma_basic_div((magnitude(sample) * 1024) as int, pow2(149) as int);
}

/// Scales a waveform, sample by sample, into the amplitudes of a message.
pub fn scale_voice_waveform(waveform: &Vec<u32>) -> (r: Vec<u16>)
    ensures
        r@.len() == waveform@.len(),
        forall|i: int| 0 <= i < r@.len() ==> #[trigger] r@[i] == amplitude(waveform@[i]),
        forall|i: int| 0 <= i < r@.len() ==> #[trigger] r@[i] <= MAX_AMPLITUDE,
{
    let mut r: Vec<u16> = Vec::new();
    let mut i: usize = 0;
    while i < waveform.len()
        invariant
            i <= waveform@.len(),
            r@.len() == i,
            forall|j: int| 0 <= j < i ==> #[trigger] r@[j] == amplitude(waveform@[j]),
            forall|j: int| 0 <= j < i ==> #[trigger] r@[j] <= MAX_AMPLITUDE,
        decreases waveform@.len() - i,
    {
        r.push(scale(waveform[i]));
        i = i + 1;
    }
    r
}

proof fn lemma_magnitude_grows(a: u32, b: u32)
    requires
        a <= b < INFINITY,
    ensures
        magnitude(a) <= magnitude(b),
{
    let ea = exponent(a);
    let eb = exponent(b);
    let fa = (a % FRACTION_UNIT) as nat;
    let fb = (b % FRACTION_UNIT) as nat;
    let unit = FRACTION_UNIT as nat;
    assert(ea == a / FRACTION_UNIT && eb == b / FRACTION_UNIT);
    assert(ea <= eb);
    if eb == 0 {
    } else {
        let pb = pow2((eb - 1) as nat);
        lemma_pow2_pos((eb - 1) as nat);
        if ea == eb {
            assert(fa <= fb);
            lemma_mul_inequality((fa + unit) as int, (fb + unit) as int, pb as int);
        } else {
            assert(unit <= unit * pb <= (fb + unit) * pb) by (nonlinear_arith)
                requires
                    pb >= 1,
            ;
            if ea > 0 {
                let pa = pow2((ea - 1) as nat);
                lemma_pow2_adds(1, (ea - 1) as nat);
                assert(pow2(1) == 2) by {
                    lemma2_to64();
                }
                if ea < eb - 1 {
                    lemma_pow2_strictly_increases(ea, (eb - 1) as nat);
                }
                assert((fa + unit) * pa <= unit * pb) by (nonlinear_arith)
                    requires
                        fa < unit,
                        2 * pa <= pb,
                ;
            }
        }
    }
}

/// Among the samples that spell numbers from zero up, a larger number never has a smaller amplitude.
pub proof fn law_amplitude_grows(a: u32, b: u32)
    requires
        a <= b <= INFINITY,
    ensures
        amplitude(a) <= amplitude(b),
        amplitude(b) <= MAX_AMPLITUDE,
{
    lemma_pow2_pos(149);
    law_amplitude_bounded(a);
    law_amplitude_bounded(b);
    if b < ONE {
        lemma_magnitude_grows(a, b);
        lemma_mul_inequality(magnitude(a) as int, magnitude(b) as int, 1024);
        lemma_div_is_ordered(
            (magnitude(a) * 1024) as int,
            (magnitude(b) * 1024) as int,
            pow2(149) as int,
        );
    }
}

/// No amplitude exceeds the largest one, whatever the sample spells; silence and full loudness are
/// kept.
pub proof fn law_amplitude_bounded(sample: u32)
    ensures
        amplitude(sample) <= MAX_AMPLITUDE,
        amplitude(0) == 0,
        amplitude(ONE) == MAX_AMPLITUDE,
{
    lemma_pow2_pos(149);
    lemma_tiny(0);
    if sample < ONE {
        lemma_magnitude_grows(sample, ONE);
        assert(magnitude(ONE) == pow2(149)) by {
            assert(exponent(ONE) == 127);
            lemma_pow2_adds(23, 126);
            assert(pow2(23) == 0x80_0000) by {
                lemma2_to64();
            }
        }
        lemma_mul_inequality(magnitude(sample) as int, pow2(149) as int, 1024);
        lemma_div_is_ordered(
            (magnitude(sample) * 1024) as int,
            (pow2(149) * 1024) as int,
            pow2(149) as int,
        );
        lemma_div_multiples_vanish(1024, pow2(149) as int);
        lemma_mul_is_commutative(1024, pow2(149) as int);
    }
}

/// A waveform is accepted exactly if every sample spells a number, neither infinite nor undefined.
/// Otherwise the first sample that does not is named.
pub proof fn law_first_sample_that_is_no_number_is_named(
    waveform: Vec<u32>,
    field_name: &str,
    r: Result<(), UploadedVoiceError>,
)
    requires
        call_ensures(validate_waveform, (&waveform, field_name), r),
    ensures
        r is Ok <==> forall|i: int|
            0 <= i < waveform@.len() ==> (#[trigger] waveform@[i]) % 0x8000_0000 < 0x7f80_0000,
        r matches Err(error) ==> exists|i: int|
            #![trigger waveform@[i]]
            {
                &&& 0 <= i < waveform@.len()
                &&& waveform@[i] % 0x8000_0000 >= 0x7f80_0000
                &&& forall|j: int|
                    0 <= j < i ==> (#[trigger] waveform@[j]) % 0x8000_0000 < 0x7f80_0000
                &&& error@ == (FailureText::Validation {
                    msg: field_name@ + " contains a non-finite value at index "@ + decimal(
                        i as nat,
                    ),
                    details: None,
                })
            },
{
    assert forall|sample: u32| #[trigger] finite(sample) <==> sample % 0x8000_0000 < 0x7f80_0000 by {
        assert((sample / 0x80_0000) % 256 != 255 <==> sample % 0x8000_0000 < 0x7f80_0000)
            by (bit_vector);
    }
    if r is Ok {
        assert forall|i: int| 0 <= i < waveform@.len() implies (#[trigger] waveform@[i])
            % 0x8000_0000 < 0x7f80_0000 by {
            assert(finite(waveform@[i]));
        }
    } else {
        assert(exists|i: int| first_not_finite(waveform@, i)) by {
            lemma_some_sample_comes_first(waveform@, 0);
        }
        let i = choose|i: int| first_not_finite(waveform@, i);
        assert(!finite(waveform@[i]));
        assert forall|j: int| 0 <= j < i implies (#[trigger] waveform@[j]) % 0x8000_0000
            < 0x7f80_0000 by {
            assert(finite(waveform@[j]));
        }
    }
}

proof fn lemma_some_sample_comes_first(waveform: Seq<u32>, from: int)
    requires
        0 <= from <= waveform.len(),
        forall|i: int| 0 <= i < from ==> finite(#[trigger] waveform[i]),
        !(forall|i: int| 0 <= i < waveform.len() ==> finite(#[trigger] waveform[i])),
    ensures
        exists|i: int| first_not_finite(waveform, i),
    decreases waveform.len() - from,
{
    if from < waveform.len() {
        if finite(waveform[from]) {
            lemma_some_sample_comes_first(waveform, from + 1);
        } else {
            assert(first_not_finite(waveform, from));
        }
    }
}

/// Each amplitude stands for the sample in its place: silence for negative numbers and for what is no
/// number, full loudness from one up, and between zero and one the number times 1024, rounded down. A
/// sample there spells its 24 leading bits, divided by a power of two that its exponent gives.
pub proof fn law_waveform_is_scaled_sample_by_sample(
    waveform: Vec<u32>,
    scaled: Vec<u16>,
    i: int,
)
    requires
        call_ensures(scale_voice_waveform, (&waveform,), scaled),
        0 <= i < waveform@.len(),
    ensures
        scaled@.len() == waveform@.len(),
        ({
            let sample = waveform@[i];
            let leading = (sample % 0x80_0000 + 0x80_0000) as nat;
            &&& sample >= 0x8000_0000 ==> scaled@[i] == 0
            &&& 0x7f80_0000 < sample < 0x8000_0000 ==> scaled@[i] == 0
            &&& 0x3f80_0000 <= sample <= 0x7f80_0000 ==> scaled@[i] == 1024
            &&& 0x80_0000 <= sample < 0x3f80_0000 ==> scaled@[i] == leading / pow2(
                (140 - sample / 0x80_0000) as nat,
            )
            &&& sample < 0x80_0000 ==> scaled@[i] == 0
        }),
{
    let sample = waveform@[i];
    assert(scaled@[i] == amplitude(sample));
    if sample < FRACTION_UNIT {
        lemma_tiny(sample);
    } else if sample < ONE {
        lemma_amplitude_is_shift(sample);
        assert(exponent(sample) == sample / 0x80_0000);
    }
}

} // verus!
