use media_core::rational::Rational64;
use vstd::prelude::*;

verus! {

/// The length of one tick of a clock, in seconds, as a fraction.
#[derive(Clone, Copy, Debug, PartialEq, Eq, Structural)]
pub struct TimeBase {
    pub num: i64,
    pub den: i64,
}

impl TimeBase {
    /// Both parts are positive.
    pub open spec fn wf(self) -> bool {
        0 < self.num && 0 < self.den
    }

    /// Whether `samples` samples at `sample_rate` can be converted into
    /// ticks of this time base in 64 bits: both parts are positive, and
    /// neither `samples * den` nor `sample_rate * num` leaves an `i64`.
    pub open spec fn spec_converts(self, samples: u32, sample_rate: u32) -> bool {
        &&& self.wf()
        &&& samples * self.den <= i64::MAX
        &&& sample_rate * self.num <= i64::MAX
    }

    /// Whether `samples` samples at `sample_rate` can be converted into
    /// ticks of this time base in 64 bits.
    #[verifier::when_used_as_spec(spec_converts)]
    pub fn converts(self, samples: u32, sample_rate: u32) -> (ok: bool)
        ensures
            ok == self.spec_converts(samples, sample_rate),
    {
        if self.num <= 0 || self.den <= 0 {
            return false;
        }
        assert(0 <= samples * self.den <= 0xffff_ffff * 0x7fff_ffff_ffff_ffff) by (nonlinear_arith)
            requires
                0 <= samples <= 0xffff_ffff,
                0 < self.den <= 0x7fff_ffff_ffff_ffff,
        ;
        assert(0 <= sample_rate * self.num <= 0xffff_ffff * 0x7fff_ffff_ffff_ffff)
            by (nonlinear_arith)
            requires
                0 <= sample_rate <= 0xffff_ffff,
                0 < self.num <= 0x7fff_ffff_ffff_ffff,
        ;
        samples as i128 * self.den as i128 <= i64::MAX as i128 && sample_rate as i128
            * self.num as i128 <= i64::MAX as i128
    }

    /// The time base `num / den`, if both parts are positive.
    pub fn new(num: i64, den: i64) -> (r: Option<TimeBase>)
        ensures
            r == if 0 < num && 0 < den {
                Some(TimeBase { num, den })
            } else {
                None
            },
    {
        if 0 < num && 0 < den {
            Some(TimeBase { num, den })
        } else {
            None
        }
    }

    /// The time base in which one tick is one sample.
    pub fn per_sample(sample_rate: u32) -> (r: TimeBase)
        ensures
            r == (TimeBase { num: 1, den: sample_rate as i64 }),
    {
        TimeBase { num: 1, den: sample_rate as i64 }
    }
}

/// How many whole ticks of `num / den` seconds fit into `samples` samples
/// played at `sample_rate` samples per second.
pub open spec fn ticks_for_samples(samples: int, sample_rate: int, num: int, den: int) -> int {
    (samples * den) / (sample_rate * num)
}

/// Divides `samples / sample_rate` by `num / den` with
/// `num_rational::Ratio<i64>` (`Ratio::new`, `Div`, `Ratio::to_integer`), reached
/// through `media_core::rational::Rational64`.
///
/// `Ratio::new` reduces each fraction, the division multiplies the reduced
/// numerator of one by the reduced denominator of the other, and
/// `to_integer` rounds the quotient towards zero. The contract states that
/// quotient for positive operands whose cross products fit in an `i64`, which
/// is where the crate neither panics nor overflows.
#[verifier::external_body]
fn ratio_quotient(samples: i64, sample_rate: i64, num: i64, den: i64) -> (ticks: i64)
    requires
        0 <= samples,
        0 < sample_rate,
        0 < num,
        0 < den,
        samples * den <= i64::MAX,
        sample_rate * num <= i64::MAX,
    ensures
        ticks == ticks_for_samples(samples as int, sample_rate as int, num as int, den as int),
{
    (Rational64::new(samples, sample_rate) / Rational64::new(num, den)).to_integer()
}

/// The duration of `samples` samples at `sample_rate`, and the time base it
/// is expressed in: the caller's time base where one is given, else ticks of
/// one sample.
pub open spec fn spec_chunk_timing(samples: u32, sample_rate: u32, time_base: Option<TimeBase>) -> (
    i64,
    TimeBase,
) {
    match time_base {
        Some(tb) => (
            ticks_for_samples(samples as int, sample_rate as int, tb.num as int, tb.den as int) as i64,
            tb,
        ),
        None => (samples as i64, TimeBase { num: 1, den: sample_rate as i64 }),
    }
}

/// The duration of `samples` samples at `sample_rate`, and the time base it
/// is expressed in.
pub fn chunk_timing(samples: u32, sample_rate: u32, time_base: Option<TimeBase>) -> (r: (
    i64,
    TimeBase,
))
    requires
        sample_rate > 0,
        time_base matches Some(tb) ==> tb.spec_converts(samples, sample_rate),
    ensures
        r == spec_chunk_timing(samples, sample_rate, time_base),
        0 <= r.0,
        r.1.wf(),
{
    match time_base {
        Some(tb) => {
            let ticks = ratio_quotient(samples as i64, sample_rate as i64, tb.num, tb.den);
            proof {
                lemma_ticks_bounds(samples as int, sample_rate as int, tb.num as int, tb.den as int);
            }
            (ticks, tb)
        },
        None => (samples as i64, TimeBase::per_sample(sample_rate)),
    }
}

/// A tick count is never negative and never more than `samples * den`.
pub proof fn lemma_ticks_bounds(samples: int, sample_rate: int, num: int, den: int)
    requires
        0 <= samples,
        0 < sample_rate,
        0 < num,
        0 < den,
    ensures
        0 <= ticks_for_samples(samples, sample_rate, num, den) <= samples * den,
{
    assert(0 <= samples * den) by (nonlinear_arith)
        requires
            0 <= samples,
            0 < den,
    ;
    assert(1 <= sample_rate * num) by (nonlinear_arith)
        requires
            0 < sample_rate,
            0 < num,
    ;
    let a = samples * den;
    let b = sample_rate * num;
    assert(0 <= a / b <= a) by (nonlinear_arith)
        requires
            0 <= a,
            1 <= b,
    ;
}

} // verus!
