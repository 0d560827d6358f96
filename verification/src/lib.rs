//! A reusable real-valued FFT facility: forward transform of real samples
//! into a complex half-spectrum and the normalized inverse transform back,
//! built around externally planned transform executors with a verified plan
//! lifecycle and scratch-sizing discipline.

mod plans;

pub mod fft;

pub use fft::Fft;
pub use fft::FftModel;
pub use fft::TransformError;
pub use fft::lemma_scratch_serves_both_plans;
