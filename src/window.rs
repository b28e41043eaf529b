//! The window extractor: trims a signal to a span bounded by zero crossings.
use vstd::prelude::*;

verus! {

/// The sign class used for zero-crossing detection: zero counts as positive.
pub open spec fn non_negative(x: i32) -> bool {
    x >= 0
}

/// `cross` is the first index at or after `from` whose sign differs from the
/// sign at `from`, or the signal's length when there is none.
pub open spec fn is_first_flip(s: Seq<i32>, from: int, cross: int) -> bool {
    &&& from < cross <= s.len()
    &&& forall|k: int| from <= k < cross ==> non_negative(#[trigger] s[k]) == non_negative(s[from])
    &&& cross < s.len() ==> non_negative(s[cross]) != non_negative(s[from])
}

/// A half-open span `[start, end)` of sample indices.
#[derive(Clone, Copy, Debug, PartialEq, Eq, Structural)]
pub struct Window {
    pub start: usize,
    pub end: usize,
}

/// Why a window could not be taken.
#[derive(Clone, Copy, Debug, PartialEq, Eq, Structural)]
pub enum WindowError {
    /// The signal does not reach the nominal start or end of the window.
    OutOfRange,
}

/// The nominal window before snapping to zero crossings, in samples.
#[derive(Clone, Copy, Debug, PartialEq, Eq, Structural)]
pub struct Span {
    pub offset: u64,
    pub size: u64,
}

/// The nominal window for a capture of `capture_seconds` at `sample_rate`:
/// it skips the first half second, and spans the capture less one and a half
/// seconds. `None` when the capture is shorter than one and a half seconds.
pub fn analysis_span(sample_rate: u32, capture_seconds: u32) -> (r: Option<Span>)
    ensures
        r is None <==> (capture_seconds as int) * (sample_rate as int) < 3 * (sample_rate as int) / 2,
        r is Some ==> r->Some_0.offset == sample_rate as int / 2,
        r is Some ==> r->Some_0.size == (capture_seconds as int) * (sample_rate as int) - 3 * (sample_rate as int) / 2,
{
    assert(capture_seconds as u64 * sample_rate as u64 <= 0xffff_ffff_u64 * 0xffff_ffff_u64) by (nonlinear_arith)
        requires capture_seconds <= 0xffff_ffff_u32, sample_rate <= 0xffff_ffff_u32;
    let total = capture_seconds as u64 * sample_rate as u64;
    let margin = 3 * sample_rate as u64 / 2;
    if total < margin {
        return None;
    }
    Some(Span { offset: sample_rate as u64 / 2, size: total - margin })
}

/// Scans forward from `from` to the first sample whose sign differs from the
/// sign at `from`; returns the signal's length when no such sample exists.
fn scan_to_flip(signal: &Vec<i32>, from: usize) -> (r: usize)
    requires
        from < signal.len(),
    ensures
        is_first_flip(signal@, from as int, r as int),
{
    let positive = signal[from] >= 0;
    let mut i: usize = from + 1;
    while i < signal.len()
        invariant
            from < i <= signal.len(),
            positive == non_negative(signal@[from as int]),
            forall|k: int| from <= k < i ==> non_negative(#[trigger] signal@[k]) == positive,
        ensures
            i < signal.len() ==> non_negative(signal@[i as int]) != positive,
        decreases signal.len() - i,
    {
        if (signal[i] >= 0) != positive {
            break;
        }
        i = i + 1;
    }
    i
}

/// Trims `signal` to the span between zero crossings around the nominal window
/// `[offset, offset + size)`: the start moves forward from `offset` to the first
/// sign change, and the end moves forward from `offset + size` to the first sign
/// change; either runs to the end of the signal when no change follows.
///
/// Fails with `OutOfRange` when the signal has no sample at `offset` or at
/// `offset + size`.
pub fn find_zero_crosses(signal: &Vec<i32>, offset: usize, size: usize) -> (r: Result<Window, WindowError>)
    ensures
        r is Err <==> offset + size >= signal.len(),
        r is Ok ==> {
            let w = r->Ok_0;
            &&& is_first_flip(signal@, offset as int, w.start as int)
            &&& is_first_flip(signal@, offset + size, w.end as int)
            &&& w.start <= w.end
        },
{
    if size >= signal.len() || offset >= signal.len() - size {
        return Err(WindowError::OutOfRange);
    }
    let start = scan_to_flip(signal, offset);
    let end = scan_to_flip(signal, offset + size);
    proof {
        if start > offset + size {
            assert(non_negative(signal@[offset + size]) == non_negative(signal@[offset as int]));
            if end < start {
                assert(non_negative(signal@[end as int]) == non_negative(signal@[offset as int]));
            }
        }
    }
    Ok(Window { start, end })
}

/// The zero-crossing property of a window: the sample before its start, and
/// the sample before its end, differ in sign from the sample at that bound
/// whenever the bound lies inside the signal; a bound with no sign change after
/// its nominal position lies at the signal's end.
pub proof fn lemma_window_bounds_are_crossings(s: Seq<i32>, from: int, cross: int)
    requires
        0 <= from,
        is_first_flip(s, from, cross),
    ensures
        cross < s.len() ==> non_negative(s[cross - 1]) != non_negative(s[cross]),
        cross == s.len() <==> forall|k: int| from <= k < s.len() ==> non_negative(#[trigger] s[k]) == non_negative(s[from]),
{
    if cross < s.len() {
        assert(non_negative(s[cross - 1]) == non_negative(s[from]));
    }
}

} // verus!
