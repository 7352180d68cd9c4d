//! Climate data: total July solar radiation by orientation for each climate
//! zone, as a pure lookup over the fixed zone enumeration.

use vstd::prelude::*;
use crate::model::{ClimateZone, Orientation};

verus! {

/// Largest radiation value the table can hold, in milli-kWh/m2.
pub const RAD_MAX: u64 = 1_000_000;

/// July radiation on an unobstructed plane of this orientation in a
/// mid-range zone, milli-kWh/m2.
pub open spec fn orientation_base(o: Orientation) -> u64 {
    match o {
        Orientation::North => 60_000,
        Orientation::NorthEast => 90_000,
        Orientation::East => 160_000,
        Orientation::SouthEast => 150_000,
        Orientation::South => 130_000,
        Orientation::SouthWest => 150_000,
        Orientation::West => 160_000,
        Orientation::NorthWest => 90_000,
        Orientation::Horizontal => 220_000,
    }
}

/// Zone-dependent radiation increment, milli-kWh/m2: sunnier zones add a
/// fixed offset over the mid-range zones.
pub open spec fn zone_boost(z: ClimateZone) -> u64 {
    match z {
        ClimateZone::A3 | ClimateZone::A4 => 40_000,
        ClimateZone::B3 | ClimateZone::B4 => 30_000,
        ClimateZone::C1 | ClimateZone::C2 | ClimateZone::C3 | ClimateZone::C4 => 20_000,
        ClimateZone::D1 | ClimateZone::D2 | ClimateZone::D3 => 10_000,
        ClimateZone::E1 => 0,
    }
}

/// Total July radiation for this zone and orientation, milli-kWh/m2.
pub open spec fn rad_value(z: ClimateZone, o: Orientation) -> u64 {
    (orientation_base(o) + zone_boost(z)) as u64
}

/// The orientations in the order the radiation table lists them.
pub open spec fn all_orientations() -> Seq<Orientation> {
    seq![
        Orientation::North,
        Orientation::NorthEast,
        Orientation::East,
        Orientation::SouthEast,
        Orientation::South,
        Orientation::SouthWest,
        Orientation::West,
        Orientation::NorthWest,
        Orientation::Horizontal,
    ]
}

/// The radiation table of a zone: one entry per orientation, in the fixed
/// table order.
pub open spec fn rad_table_of(z: ClimateZone) -> Seq<(Orientation, u64)> {
    Seq::new(
        all_orientations().len(),
        |i: int| (all_orientations()[i], rad_value(z, all_orientations()[i])),
    )
}

/// Pure lookup: the total July solar radiation of the zone, one entry per
/// orientation, in the fixed table order.
pub fn total_radiation_in_july_by_orientation(zone: ClimateZone) -> (t: Vec<(Orientation, u64)>)
    ensures
        t@ == rad_table_of(zone),
        forall|i: int| 0 <= i < t@.len() ==> (#[trigger] t@[i]).1 <= RAD_MAX,
{
    let boost: u64 = match zone {
        ClimateZone::A3 | ClimateZone::A4 => 40_000,
        ClimateZone::B3 | ClimateZone::B4 => 30_000,
        ClimateZone::C1 | ClimateZone::C2 | ClimateZone::C3 | ClimateZone::C4 => 20_000,
        ClimateZone::D1 | ClimateZone::D2 | ClimateZone::D3 => 10_000,
        ClimateZone::E1 => 0,
    };
    let mut t: Vec<(Orientation, u64)> = Vec::new();
    t.push((Orientation::North, 60_000 + boost));
    t.push((Orientation::NorthEast, 90_000 + boost));
    t.push((Orientation::East, 160_000 + boost));
    t.push((Orientation::SouthEast, 150_000 + boost));
    t.push((Orientation::South, 130_000 + boost));
    t.push((Orientation::SouthWest, 150_000 + boost));
    t.push((Orientation::West, 160_000 + boost));
    t.push((Orientation::NorthWest, 90_000 + boost));
    t.push((Orientation::Horizontal, 220_000 + boost));
    proof {
        assert(t@ =~= rad_table_of(zone));
    }
    t
}

/// Radiation of the first table entry of this orientation, if any.
pub open spec fn rad_lookup(t: Seq<(Orientation, u64)>, o: Orientation) -> Option<u64>
    decreases t.len(),
{
    if t.len() == 0 {
        None
    } else if t[0].0 == o {
        Some(t[0].1)
    } else {
        rad_lookup(t.skip(1), o)
    }
}

/// Radiation resolved through a table, zero when the orientation is absent.
pub open spec fn rad_of(t: Seq<(Orientation, u64)>, o: Orientation) -> u64 {
    match rad_lookup(t, o) {
        Some(r) => r,
        None => 0,
    }
}

/// A resolved radiation value is a table value, so it obeys the table's
/// bound.
pub proof fn lemma_rad_of_bounded(t: Seq<(Orientation, u64)>, o: Orientation, bound: u64)
    requires
        forall|i: int| 0 <= i < t.len() ==> (#[trigger] t[i]).1 <= bound,
    ensures
        rad_of(t, o) <= bound,
    decreases t.len(),
{
    if t.len() > 0 && t[0].0 != o {
        assert(forall|i: int| 0 <= i < t.skip(1).len() ==> (#[trigger] t.skip(1)[i]).1 <= bound);
        lemma_rad_of_bounded(t.skip(1), o, bound);
    }
}

/// Looks an orientation up in a radiation table; `None` when the table has
/// no entry for it.
pub fn find_radiation(t: &Vec<(Orientation, u64)>, o: Orientation) -> (r: Option<u64>)
    ensures
        r == rad_lookup(t@, o),
{
    proof {
        assert(t@.skip(0) =~= t@);
    }
    let n = t.len();
    for i in 0..n
        invariant
            n == t.len(),
            rad_lookup(t@, o) == rad_lookup(t@.skip(i as int), o),
    {
        if t[i].0 == o {
            return Some(t[i].1);
        }
        proof {
            assert(t@.skip(i as int).skip(1) =~= t@.skip(i + 1));
        }
    }
    None
}

} // verus!
