//! Reduction of a magnitude spectrum to the bars the visualiser draws.

use vstd::prelude::*;

verus! {

/// Most bars one spectrum frame holds.
pub const MAX_BARS: usize = 100;

/// Lowest frequency, in hertz, that the analysis keeps.
pub const AUDIBLE_LOW_HZ: u32 = 20;

/// Highest frequency, in hertz, that the analysis keeps.
pub const AUDIBLE_HIGH_HZ: u32 = 20000;

/// Number of bars drawn for a spectrum of `bins` magnitudes.
pub open spec fn bar_count(bins: nat) -> nat {
    if bins > MAX_BARS {
        MAX_BARS as nat
    } else {
        bins
    }
}

/// The bars of a spectrum: its first magnitudes, in order, up to `MAX_BARS`.
pub open spec fn bars_of<T>(bins: Seq<T>) -> Seq<T> {
    bins.take(bar_count(bins.len()) as int)
}

/// Truncates the in-range magnitudes of one analysed window to the frame
/// that is published.
pub fn reduce_bars<T>(bins: Vec<T>) -> (r: Vec<T>)
    ensures
        r@ == bars_of(bins@),
{
    let mut bars = bins;
    if bars.len() > MAX_BARS {
        bars.truncate(MAX_BARS);
    }
    proof {
        assert(bars@ =~= bars_of(bins@));
    }
    bars
}

/// A spectrum frame never holds more than `MAX_BARS` bars, and its length
/// depends on the number of magnitudes alone: two windows of the same size,
/// analysed over the same frequency range, give frames of the same length.
pub proof fn frame_length_is_fixed<T>(a: Seq<T>, b: Seq<T>)
    requires
        a.len() == b.len(),
    ensures
        bars_of(a).len() <= MAX_BARS,
        bars_of(a).len() == bars_of(b).len(),
{
}

} // verus!
