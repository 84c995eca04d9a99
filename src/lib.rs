//! Audio-to-spectrum analysis core of an audio-reactive slime-mold renderer.
//!
//! Samples travel through this library as the IEEE-754 bit patterns of their
//! 32-bit floating-point values: the library records, orders and selects them,
//! while the floating-point arithmetic on them is left to its callers.
use vstd::prelude::*;

pub mod bands;
pub mod collector;
pub mod preset;
pub mod ring;
pub mod stream;
pub mod worker;

verus! {

/// Number of samples kept per channel and fed to one spectrum pass. A power of two.
pub const WINDOW: usize = 2048;

} // verus!
