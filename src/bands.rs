//! The named frequency bands of the spectrum, and the spectrum bins that each band
//! covers at a given sample rate.
use vstd::prelude::*;

use crate::WINDOW;

verus! {

/// Number of magnitude bins of a real spectrum over one window.
pub const SPECTRUM_BINS: usize = WINDOW / 2;

/// Number of frequency bands reported per analysis pass.
pub const NUM_FREQUENCY_RANGES: usize = 6;

/// A band of frequencies `[lo, hi)` in Hz.
#[derive(Clone, Copy, Debug, PartialEq, Eq, Structural)]
pub struct FrequencyRange {
    pub lo: u32,
    pub hi: u32,
}

/// The bands in reporting order: sub-bass, bass, low mids, mids, high mids, highs.
pub open spec fn spec_frequency_ranges() -> Seq<FrequencyRange> {
    seq![
        FrequencyRange { lo: 20, hi: 80 },
        FrequencyRange { lo: 80, hi: 250 },
        FrequencyRange { lo: 250, hi: 500 },
        FrequencyRange { lo: 500, hi: 2000 },
        FrequencyRange { lo: 2000, hi: 6000 },
        FrequencyRange { lo: 6000, hi: 10000 },
    ]
}

/// Band `band` of the table.
pub fn frequency_range(band: usize) -> (r: FrequencyRange)
    requires
        band < NUM_FREQUENCY_RANGES,
    ensures
        r == spec_frequency_ranges()[band as int],
        r.lo <= r.hi <= 10000,
{
    match band {
        0 => FrequencyRange { lo: 20, hi: 80 },
        1 => FrequencyRange { lo: 80, hi: 250 },
        2 => FrequencyRange { lo: 250, hi: 500 },
        3 => FrequencyRange { lo: 500, hi: 2000 },
        4 => FrequencyRange { lo: 2000, hi: 6000 },
        _ => FrequencyRange { lo: 6000, hi: 10000 },
    }
}

/// The last bin of the spectrum.
pub open spec fn last_bin() -> int {
    SPECTRUM_BINS - 1
}

/// `floor(hz / resolution)`, with a resolution of `sample_rate / SPECTRUM_BINS` Hz
/// per bin; a sample rate of zero sends every frequency past the last bin.
pub open spec fn floor_bin(hz: int, sample_rate: int) -> int {
    if sample_rate <= 0 {
        SPECTRUM_BINS as int
    } else {
        (hz * SPECTRUM_BINS) / sample_rate
    }
}

/// `ceil(hz / resolution)`, as for `floor_bin`.
pub open spec fn ceil_bin(hz: int, sample_rate: int) -> int {
    if sample_rate <= 0 {
        SPECTRUM_BINS as int
    } else {
        (hz * SPECTRUM_BINS + sample_rate - 1) / sample_rate
    }
}

/// A bin index clamped into `[0, last_bin()]`.
pub open spec fn clamp_bin(i: int) -> int {
    if i > last_bin() {
        last_bin()
    } else {
        i
    }
}

/// The bins `[start, end)` over which band `r` is averaged at `sample_rate`: from
/// the clamped floor of its lower bound to the clamped ceiling of its upper bound,
/// or the single bin at `start` where that range is empty.
pub open spec fn band_bins(r: FrequencyRange, sample_rate: int) -> (int, int) {
    let start = clamp_bin(floor_bin(r.lo as int, sample_rate));
    let end = clamp_bin(ceil_bin(r.hi as int, sample_rate));
    if end > start {
        (start, end)
    } else {
        (start, start + 1)
    }
}

proof fn lemma_floor_le_ceil(lo: int, hi: int, sample_rate: int)
    requires
        0 <= lo <= hi,
    ensures
        floor_bin(lo, sample_rate) <= ceil_bin(hi, sample_rate),
{
    if sample_rate > 0 {
        let n = SPECTRUM_BINS as int;
        assert(lo * n <= hi * n) by (nonlinear_arith)
            requires
                0 <= lo <= hi,
                n >= 0,
        ;
        assert((lo * n) / sample_rate <= (hi * n + sample_rate - 1) / sample_rate) by (nonlinear_arith)
            requires
                0 <= lo * n <= hi * n,
                sample_rate > 0,
        ;
    }
}

/// Every band's bin range is non-empty and lies within the spectrum, at every
/// sample rate; a band whose lower bound falls at or past the last bin (as it does
/// when the sample rate is pathologically low) collapses onto the last bin alone.
pub proof fn lemma_band_bins_clamped(r: FrequencyRange, sample_rate: int)
    requires
        r.lo <= r.hi,
    ensures
        0 <= band_bins(r, sample_rate).0 < band_bins(r, sample_rate).1 <= SPECTRUM_BINS,
        floor_bin(r.lo as int, sample_rate) >= last_bin() ==> band_bins(r, sample_rate) == (
        last_bin(),
        last_bin() + 1,
        ),
{
    lemma_floor_le_ceil(r.lo as int, r.hi as int, sample_rate);
    if sample_rate > 0 {
        assert((r.lo as int * SPECTRUM_BINS) / sample_rate >= 0) by (nonlinear_arith)
            requires
                r.lo >= 0,
                sample_rate > 0,
        ;
    }
}

fn clamp_to_last_bin(i: u64) -> (r: usize)
    ensures
        r == clamp_bin(i as int),
{
    if i > (SPECTRUM_BINS - 1) as u64 {
        SPECTRUM_BINS - 1
    } else {
        i as usize
    }
}

/// The bins `[start, end)` of the spectrum over which band `band` is averaged at
/// `sample_rate`. However low the sample rate, the range is non-empty and lies
/// within the spectrum: a band beyond it collapses onto the last bin.
pub fn band_bin_range(band: usize, sample_rate: u32) -> (r: (usize, usize))
    requires
        band < NUM_FREQUENCY_RANGES,
    ensures
        (r.0 as int, r.1 as int) == band_bins(spec_frequency_ranges()[band as int], sample_rate as int),
        r.0 < r.1 <= SPECTRUM_BINS,
{
    let range = frequency_range(band);
    let (lo_index, hi_index) = if sample_rate == 0 {
        (SPECTRUM_BINS as u64, SPECTRUM_BINS as u64)
    } else {
        let rate = sample_rate as u64;
        let lo = range.lo as u64 * SPECTRUM_BINS as u64;
        let hi = range.hi as u64 * SPECTRUM_BINS as u64;
        (lo / rate, (hi + rate - 1) / rate)
    };
    let start = clamp_to_last_bin(lo_index);
    let end = clamp_to_last_bin(hi_index);
    if end > start {
        (start, end)
    } else {
        (start, start + 1)
    }
}

/// The bin ranges of all bands at `sample_rate`, in reporting order.
pub fn band_bin_ranges(sample_rate: u32) -> (r: Vec<(usize, usize)>)
    ensures
        r@.len() == NUM_FREQUENCY_RANGES,
        forall|b: int|
            0 <= b < NUM_FREQUENCY_RANGES ==> ((#[trigger] r@[b]).0 as int, r@[b].1 as int)
                == band_bins(spec_frequency_ranges()[b], sample_rate as int),
{
    let mut out: Vec<(usize, usize)> = Vec::new();
    let mut b: usize = 0;
    while b < NUM_FREQUENCY_RANGES
        invariant
            b <= NUM_FREQUENCY_RANGES,
            out@.len() == b,
            forall|k: int|
                0 <= k < b ==> ((#[trigger] out@[k]).0 as int, out@[k].1 as int) == band_bins(
                    spec_frequency_ranges()[k],
                    sample_rate as int,
                ),
        decreases NUM_FREQUENCY_RANGES - b,
    {
        out.push(band_bin_range(b, sample_rate));
        b = b + 1;
    }
    out
}

} // verus!
