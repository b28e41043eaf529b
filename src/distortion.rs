//! The distortion estimator's band plan: which spectrum bins count as the tone
//! and which as the whole analysis band when THD+N is formed from their energies.
use vstd::prelude::*;

verus! {

/// A half-open span `[start, end)` of spectrum bins.
#[derive(Clone, Copy, Debug, PartialEq, Eq, Structural)]
pub struct Band {
    pub start: usize,
    pub end: usize,
}

/// Number of bins taken as the tone around the peak for a target frequency.
pub open spec fn tone_band_size(target_frequency: int) -> int {
    100 + target_frequency / 200
}

/// First bin of the tone band: centred on the peak, clamped at bin 0.
pub open spec fn tone_band_start(peak: int, size: int) -> int {
    if peak > size / 2 {
        peak - size / 2
    } else {
        0
    }
}

/// End of the tone band: `size` bins from its start, clamped at the spectrum's end.
pub open spec fn tone_band_end(peak: int, size: int, spectrum_len: int) -> int {
    let e = tone_band_start(peak, size) + size;
    if e < spectrum_len {
        e
    } else {
        spectrum_len
    }
}

/// The bins searched for the peak and summed as total energy: the lowest quarter.
pub open spec fn analysis_band_end(spectrum_len: int) -> int {
    spectrum_len / 4
}

/// The tone band width for a target frequency: `100 + target_frequency / 200` bins.
pub fn thd_band_size(target_frequency: usize) -> (r: usize)
    ensures
        r == tone_band_size(target_frequency as int),
{
    100 + target_frequency / 200
}

/// The tone band of `size` bins centred on `peak`, clamped to `[0, spectrum_len)`.
pub fn tone_band(peak: usize, size: usize, spectrum_len: usize) -> (r: Band)
    requires
        peak < spectrum_len,
    ensures
        r.start == tone_band_start(peak as int, size as int),
        r.end == tone_band_end(peak as int, size as int, spectrum_len as int),
        r.start <= peak,
        r.start <= r.end <= spectrum_len,
{
    let half = size / 2;
    let start = if peak > half { peak - half } else { 0 };
    let end = if size < spectrum_len - start { start + size } else { spectrum_len };
    Band { start, end }
}

/// The band over which total energy is taken: bins `[0, spectrum_len / 4)`.
pub fn analysis_band(spectrum_len: usize) -> (r: Band)
    ensures
        r.start == 0,
        r.end == analysis_band_end(spectrum_len as int),
{
    Band { start: 0, end: spectrum_len / 4 }
}

} // verus!
