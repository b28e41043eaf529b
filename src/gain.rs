//! The gain estimator: exact sums of squares behind the RMS of whole signals,
//! and the power ratio between a measured signal and its reference.
use vstd::prelude::*;

verus! {

/// Sum of the squares of the samples.
pub open spec fn sum_of_squares(s: Seq<i32>) -> int
    decreases s.len(),
{
    if s.len() == 0 {
        0
    } else {
        sum_of_squares(s.drop_last()) + s.last() * s.last()
    }
}

/// Ratio of measured to reference mean square power, as a fraction
/// `(numerator, denominator)`; the voltage gain is `10 * log10` of it in dB.
pub open spec fn power_ratio(reference: Seq<i32>, measured: Seq<i32>) -> (int, int) {
    (sum_of_squares(measured) * reference.len(), sum_of_squares(reference) * measured.len())
}

/// The mean square of a signal, `sum_of_squares / count`; its square root is the RMS.
#[derive(Clone, Copy, Debug, PartialEq, Eq, Structural)]
pub struct MeanSquare {
    pub sum_of_squares: u128,
    pub count: usize,
}

/// The mean squares of a reference and a measured signal, from which the gain
/// `20 * log10(rms(measured) / rms(reference))` dB follows.
#[derive(Clone, Copy, Debug, PartialEq, Eq, Structural)]
pub struct GainRatio {
    pub reference: MeanSquare,
    pub measured: MeanSquare,
}

/// Why no gain can be given.
#[derive(Clone, Copy, Debug, PartialEq, Eq, Structural)]
pub enum GainError {
    /// One of the signals has no samples, so its RMS is undefined.
    EmptySignal,
    /// The reference signal is silent, so the ratio is undefined.
    SilentReference,
}

proof fn lemma_square_bound(x: i32)
    ensures
        0 <= x * x <= 0x4000_0000_0000_0000,
{
    assert(0 <= x * x <= 0x4000_0000_0000_0000) by (nonlinear_arith)
        requires -0x8000_0000 <= x <= 0x7fff_ffff;
}

/// The mean square of `signal`, or `None` when it has no samples.
pub fn find_rms_value(signal: &Vec<i32>) -> (r: Option<MeanSquare>)
    ensures
        r is None <==> signal.len() == 0,
        r is Some ==> r->Some_0.sum_of_squares == sum_of_squares(signal@),
        r is Some ==> r->Some_0.count == signal.len(),
{
    if signal.len() == 0 {
        return None;
    }
    let mut sum: u128 = 0;
    let mut i: usize = 0;
    while i < signal.len()
        invariant
            i <= signal.len(),
            sum == sum_of_squares(signal@.take(i as int)),
            sum <= i * 0x4000_0000_0000_0000,
        decreases signal.len() - i,
    {
        let x = signal[i];
        proof {
            lemma_square_bound(x);
            assert(signal@.take(i + 1).drop_last() == signal@.take(i as int));
        }
        let sq = (x as i64 * x as i64) as u128;
        sum = sum + sq;
        i = i + 1;
    }
    assert(signal@.take(signal.len() as int) == signal@);
    Some(MeanSquare { sum_of_squares: sum, count: signal.len() })
}

/// The gain of `recorded` relative to the reference `generated`, as the pair of
/// mean squares over the whole of each signal.
///
/// Fails with `EmptySignal` when either signal has no samples, and otherwise
/// with `SilentReference` when every reference sample is zero.
pub fn calculate_rms(generated: &Vec<i32>, recorded: &Vec<i32>) -> (r: Result<GainRatio, GainError>)
    ensures
        r == Err::<GainRatio, GainError>(GainError::EmptySignal) <==> (generated.len() == 0 || recorded.len() == 0),
        r == Err::<GainRatio, GainError>(GainError::SilentReference) <==> (generated.len() > 0 && recorded.len() > 0
            && sum_of_squares(generated@) == 0),
        r is Ok ==> {
            let g = r->Ok_0;
            &&& g.reference.sum_of_squares == sum_of_squares(generated@)
            &&& g.reference.count == generated.len()
            &&& g.measured.sum_of_squares == sum_of_squares(recorded@)
            &&& g.measured.count == recorded.len()
        },
{
    let reference = match find_rms_value(generated) {
        Some(m) => m,
        None => return Err(GainError::EmptySignal),
    };
    let measured = match find_rms_value(recorded) {
        Some(m) => m,
        None => return Err(GainError::EmptySignal),
    };
    if reference.sum_of_squares == 0 {
        return Err(GainError::SilentReference);
    }
    Ok(GainRatio { reference, measured })
}

impl GainRatio {
    /// Whether the measured signal is silent, which makes the gain negative infinity.
    pub fn is_negative_infinity(&self) -> (r: bool)
        ensures
            r == (self.measured.sum_of_squares == 0),
    {
        self.measured.sum_of_squares == 0
    }
}

/// A sum of squares is never negative, so neither is the RMS.
pub proof fn lemma_sum_of_squares_nonnegative(s: Seq<i32>)
    ensures
        sum_of_squares(s) >= 0,
    decreases s.len(),
{
    if s.len() > 0 {
        lemma_sum_of_squares_nonnegative(s.drop_last());
        lemma_square_bound(s.last());
    }
}

/// A constant signal of `n` samples of value `v` has sum of squares `n * v * v`,
/// so its mean square is `v * v` and its RMS is `|v|`.
pub proof fn lemma_constant_signal_sum_of_squares(v: i32, n: nat)
    ensures
        sum_of_squares(Seq::new(n, |i: int| v)) == n * (v * v),
    decreases n,
{
    let s = Seq::new(n, |i: int| v);
    if n > 0 {
        assert(s.drop_last() =~= Seq::new((n - 1) as nat, |i: int| v));
        lemma_constant_signal_sum_of_squares(v, (n - 1) as nat);
        assert(s.last() == v);
        assert(sum_of_squares(s) == (n - 1) * (v * v) + v * v);
        assert(n * (v * v) == (n - 1) * (v * v) + v * v) by (nonlinear_arith);
        assert(sum_of_squares(s) == n * (v * v));
    } else {
        assert(s.len() == 0);
    }
}

/// Swapping reference and measured signals inverts the power ratio, so the gain
/// in dB changes sign.
pub proof fn lemma_power_ratio_swap(a: Seq<i32>, b: Seq<i32>)
    ensures
        power_ratio(a, b).0 == power_ratio(b, a).1,
        power_ratio(a, b).1 == power_ratio(b, a).0,
{
}

/// Identical reference and measured signals have a power ratio of one: 0 dB.
pub proof fn lemma_identical_signals_unit_ratio(s: Seq<i32>)
    ensures
        power_ratio(s, s).0 == power_ratio(s, s).1,
{
}

} // verus!
