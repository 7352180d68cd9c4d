//! Building energy-performance model and indicator engine.
//!
//! The library ingests a building description (envelope components, spaces,
//! a construction catalog and a climate zone), validates it, and derives the
//! regulatory energy indicators: reference area, envelope volumes, compacity,
//! area-weighted transmittances, the global heat-loss coefficient K, the July
//! solar-gain load and an infiltration estimate, together with a list of
//! advisory warnings.
//!
//! All physical quantities are fixed-point integers in thousandths of the
//! engineering unit (milli-m2, milli-m3, milli-W/m2K, ...); divisions
//! truncate toward zero.

use vstd::prelude::*;

pub mod checks;
pub mod climate;
pub mod ctehexml;
pub mod doc;
pub mod indicators;
pub mod kyg;
pub mod model;
pub mod report;
pub mod sums;
pub mod text;

verus! {

/// Version identifier of the library.
pub open spec fn version_spec() -> Seq<char> {
    "2.0.0"@
}

/// Static build/version identifier reported at the boundary.
pub fn get_version() -> (v: String)
    ensures
        v@ == version_spec(),
{
    "2.0.0".to_owned()
}

} // verus!
