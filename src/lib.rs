//! Integer and index logic of an audio round-trip tester: locating a clean
//! analysis window between zero crossings, choosing the dominant spectral bin,
//! planning the tone and total energy bands for THD+N, and the exact sums of
//! squares behind RMS gain.
pub mod distortion;
pub mod gain;
pub mod spectrum;
pub mod window;
