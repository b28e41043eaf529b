//! The spectral analyzer: picks the dominant bin of a spectrum's lower quarter
//! and maps bins to exact frequencies.
use vstd::prelude::*;
use crate::distortion::{
    analysis_band, analysis_band_end, thd_band_size, tone_band, tone_band_end, tone_band_size,
    tone_band_start, Band,
};

verus! {

/// An exact frequency in hertz, `numerator / denominator`.
#[derive(Clone, Copy, Debug, PartialEq, Eq, Structural)]
pub struct Frequency {
    pub numerator: u128,
    pub denominator: u128,
}

/// Width of one bin, as a fraction: `sample_rate * channels / window_len` hertz.
pub open spec fn bin_width_of(sample_rate: int, channels: int, window_len: int) -> (int, int) {
    (sample_rate * channels, window_len)
}

/// Centre frequency of `bin`, as a fraction: `bin * sample_rate * channels / window_len` hertz.
pub open spec fn bin_frequency_of(bin: int, sample_rate: int, channels: int, window_len: int) -> (int, int) {
    (bin * (sample_rate * channels), window_len)
}

/// `i` is the first index of a largest value among `m[0..n)`.
pub open spec fn is_first_max(m: Seq<u32>, n: int, i: int) -> bool {
    &&& 0 <= i < n <= m.len()
    &&& forall|j: int| 0 <= j < n ==> #[trigger] m[j] <= m[i]
    &&& forall|j: int| 0 <= j < i ==> #[trigger] m[j] < m[i]
}

/// The dominant bin of a spectrum and the bands used to measure its distortion.
#[derive(Clone, Copy, Debug, PartialEq, Eq, Structural)]
pub struct PeakAnalysis {
    /// Index of the dominant bin.
    pub bin: usize,
    /// Magnitude of the dominant bin.
    pub magnitude: u32,
    /// Frequency of the dominant bin.
    pub frequency: Frequency,
    /// Bins whose energy counts as the tone.
    pub tone: Band,
    /// Bins whose energy counts as the whole signal.
    pub total: Band,
}

/// Width of one bin of a spectrum of `window_len` bins taken at `sample_rate`
/// with `channels` interleaved channels.
pub fn bin_width(sample_rate: u32, channels: u16, window_len: usize) -> (r: Frequency)
    requires
        window_len > 0,
    ensures
        r.numerator == bin_width_of(sample_rate as int, channels as int, window_len as int).0,
        r.denominator == bin_width_of(sample_rate as int, channels as int, window_len as int).1,
{
    assert(sample_rate as u128 * channels as u128 <= 0xffff_ffff_u128 * 0xffff_u128) by (nonlinear_arith)
        requires sample_rate <= 0xffff_ffff_u32, channels <= 0xffff_u16;
    Frequency { numerator: sample_rate as u128 * channels as u128, denominator: window_len as u128 }
}

/// Frequency of `bin` in a spectrum of `window_len` bins.
pub fn bin_frequency(bin: usize, sample_rate: u32, channels: u16, window_len: usize) -> (r: Frequency)
    requires
        window_len > 0,
    ensures
        r.numerator == bin_frequency_of(bin as int, sample_rate as int, channels as int, window_len as int).0,
        r.denominator == bin_frequency_of(bin as int, sample_rate as int, channels as int, window_len as int).1,
{
    let w = bin_width(sample_rate, channels, window_len);
    assert(w.numerator <= 0xffff_ffff_u128 * 0xffff_u128) by (nonlinear_arith)
        requires
            w.numerator == sample_rate as int * channels as int,
            sample_rate <= 0xffff_ffff_u32,
            channels <= 0xffff_u16;
    assert(bin as u128 * w.numerator <= 0xffff_ffff_ffff_ffff_u128 * (0xffff_ffff_u128 * 0xffff_u128)) by (nonlinear_arith)
        requires bin <= 0xffff_ffff_ffff_ffff_u64, w.numerator <= 0xffff_ffff_u128 * 0xffff_u128;
    Frequency { numerator: bin as u128 * w.numerator, denominator: w.denominator }
}

/// The first bin of largest magnitude among the lowest quarter of `magnitudes`,
/// or `None` when that quarter is empty.
pub fn find_peak_bin(magnitudes: &Vec<u32>) -> (r: Option<usize>)
    ensures
        r is None <==> magnitudes.len() / 4 == 0,
        r is Some ==> is_first_max(magnitudes@, magnitudes.len() as int / 4, r->Some_0 as int),
{
    let n = magnitudes.len() / 4;
    if n == 0 {
        return None;
    }
    let mut best: usize = 0;
    let mut i: usize = 1;
    while i < n
        invariant
            n == magnitudes.len() / 4,
            0 <= best < i <= n,
            forall|j: int| 0 <= j < i ==> #[trigger] magnitudes@[j] <= magnitudes@[best as int],
            forall|j: int| 0 <= j < best ==> #[trigger] magnitudes@[j] < magnitudes@[best as int],
        decreases n - i,
    {
        if magnitudes[i] > magnitudes[best] {
            best = i;
        }
        i = i + 1;
    }
    Some(best)
}

/// Analyses the magnitudes of a spectrum of a windowed signal, one per bin and
/// truncated to whole numbers, the spectrum being as long as the window: finds the
/// dominant bin of the lowest quarter, its frequency, and the tone and total
/// bands from which THD+N is formed for `target_frequency`. Returns `None`
/// when the lowest quarter is empty (fewer than four bins).
pub fn calculate_peak_frequency(
    magnitudes: &Vec<u32>,
    sample_rate: u32,
    channels: u16,
    target_frequency: usize,
) -> (r: Option<PeakAnalysis>)
    ensures
        r is None <==> magnitudes.len() / 4 == 0,
        r is Some ==> {
            let p = r->Some_0;
            let len = magnitudes.len() as int;
            let size = tone_band_size(target_frequency as int);
            &&& is_first_max(magnitudes@, len / 4, p.bin as int)
            &&& p.magnitude == magnitudes@[p.bin as int]
            &&& p.frequency.numerator == bin_frequency_of(p.bin as int, sample_rate as int, channels as int, len).0
            &&& p.frequency.denominator == bin_frequency_of(p.bin as int, sample_rate as int, channels as int, len).1
            &&& p.tone.start == tone_band_start(p.bin as int, size)
            &&& p.tone.end == tone_band_end(p.bin as int, size, len)
            &&& p.total.start == 0
            &&& p.total.end == analysis_band_end(len)
        },
{
    match find_peak_bin(magnitudes) {
        None => None,
        Some(bin) => {
            let len = magnitudes.len();
            let size = thd_band_size(target_frequency);
            Some(PeakAnalysis {
                bin,
                magnitude: magnitudes[bin],
                frequency: bin_frequency(bin, sample_rate, channels, len),
                tone: tone_band(bin, size, len),
                total: analysis_band(len),
            })
        },
    }
}

/// A peak's frequency is its bin index times the bin width, exactly: as
/// fractions, `bin_frequency == bin * bin_width`.
pub proof fn lemma_bin_frequency_is_bin_times_width(bin: int, sample_rate: int, channels: int, window_len: int)
    requires
        0 <= bin,
        0 < window_len,
    ensures
        ({
            let f = bin_frequency_of(bin, sample_rate, channels, window_len);
            let w = bin_width_of(sample_rate, channels, window_len);
            f.0 * w.1 == bin * w.0 * f.1
        }),
{
    let k = sample_rate * channels;
    assert(bin * k * window_len == bin * k * window_len);
}

} // verus!
