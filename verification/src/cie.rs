//! Bin placement for the tabulated color-matching functions.
//!
//! The spectral pipeline converts a sampled wavelength to device-independent
//! tristimulus values by piecewise-linear interpolation over a table of
//! equally spaced rows.  The numeric kernel turns the wavelength into a bin
//! index — the floor of its offset from the table's first wavelength in
//! units of the row spacing — and a fractional remainder; this module
//! decides which interpolation case that index falls in.  The response is
//! zero outside the tabulated range and fades linearly in and out over the
//! half-open boundary bins.

use vstd::prelude::*;

verus! {

/// Where a wavelength's bin index lands relative to the table.
#[derive(Copy, Clone, PartialEq, Eq, Structural, Debug)]
pub enum BinPlacement {
    /// Beyond the fade-in and fade-out bins: the response is zero.
    Outside,
    /// The bin just below the table: scale the first row by the remainder.
    FadeIn,
    /// The table's last bin: scale the last row by one minus the remainder.
    FadeOut,
    /// An interior bin: blend row `bin` with row `bin + 1`, weighted by one
    /// minus the remainder and the remainder.
    Interior { bin: usize },
}

/// The placement of bin `index` in a table of `rows` rows.
pub open spec fn spec_placement(index: int, rows: int) -> BinPlacement {
    if index < -1 || index >= rows {
        BinPlacement::Outside
    } else if index == -1 {
        BinPlacement::FadeIn
    } else if index == rows - 1 {
        BinPlacement::FadeOut
    } else {
        BinPlacement::Interior { bin: index as usize }
    }
}

/// Decides the interpolation case for bin `index` in a table of `rows` rows.
pub fn classify_bin(index: i64, rows: usize) -> (placement: BinPlacement)
    requires
        1 <= rows <= i64::MAX,
    ensures
        placement == spec_placement(index as int, rows as int),
{
    if index < -1 || index >= rows as i64 {
        BinPlacement::Outside
    } else if index == -1 {
        BinPlacement::FadeIn
    } else if index == rows as i64 - 1 {
        BinPlacement::FadeOut
    } else {
        BinPlacement::Interior { bin: index as usize }
    }
}

} // verus!
