//! Model validation: a read-only pass over a built model that accumulates
//! advisory warnings. Validation never mutates the model and never aborts;
//! a warning reports an inconsistency that does not stop computation.

use vstd::prelude::*;
use crate::model::{Model, ModelV, SpaceV, WallV, ConstructionV, valid};

verus! {

/// How serious a warning is.
#[derive(Clone, Copy, PartialEq, Eq, Structural, Debug)]
pub enum Severity {
    Info,
    Caution,
    Danger,
}

/// What a warning reports.
#[derive(Clone, Copy, PartialEq, Eq, Structural, Debug)]
pub enum WarningKind {
    /// A space whose floor area is zero.
    ZeroAreaSpace,
    /// An opaque component without orientation data.
    MissingWallOrientation,
    /// A catalog name defined more than once.
    DuplicateConstructionName,
    /// A component orientation the radiation table has no entry for.
    MissingRadiationOrientation,
}

/// One detected inconsistency: a severity, a kind, and the name of the
/// record it concerns.
#[derive(Clone, Debug, PartialEq)]
pub struct Warning {
    pub severity: Severity,
    pub kind: WarningKind,
    pub subject: String,
}

/// View of `Warning`.
pub struct WarningV {
    pub severity: Severity,
    pub kind: WarningKind,
    pub subject: Seq<char>,
}

impl View for Warning {
    type V = WarningV;

    open spec fn view(&self) -> WarningV {
        WarningV { severity: self.severity, kind: self.kind, subject: self.subject@ }
    }
}

impl Warning {
    /// A short human-readable description of the warning kind.
    pub fn description(&self) -> (r: &'static str) {
        match self.kind {
            WarningKind::ZeroAreaSpace => "space with zero floor area",
            WarningKind::MissingWallOrientation => "wall without orientation data",
            WarningKind::DuplicateConstructionName => "construction defined more than once",
            WarningKind::MissingRadiationOrientation => "orientation absent from radiation table",
        }
    }
}

/// Warnings for spaces with zero floor area, in model order.
pub open spec fn zero_area_warns(spaces: Seq<SpaceV>) -> Seq<WarningV>
    decreases spaces.len(),
{
    if spaces.len() == 0 {
        Seq::empty()
    } else {
        zero_area_warns(spaces.drop_last()) + (if spaces.last().area == 0 {
            seq![
                WarningV {
                    severity: Severity::Caution,
                    kind: WarningKind::ZeroAreaSpace,
                    subject: spaces.last().name,
                },
            ]
        } else {
            Seq::empty()
        })
    }
}

/// Warnings for opaque components without orientation data, in model order.
pub open spec fn missing_orientation_warns(walls: Seq<WallV>) -> Seq<WarningV>
    decreases walls.len(),
{
    if walls.len() == 0 {
        Seq::empty()
    } else {
        missing_orientation_warns(walls.drop_last()) + (if walls.last().orientation is None {
            seq![
                WarningV {
                    severity: Severity::Caution,
                    kind: WarningKind::MissingWallOrientation,
                    subject: walls.last().name,
                },
            ]
        } else {
            Seq::empty()
        })
    }
}

/// A construction of this name stands in the catalog prefix.
pub open spec fn name_among(cs: Seq<ConstructionV>, name: Seq<char>) -> bool {
    exists|j: int| 0 <= j < cs.len() && cs[j].name == name
}

/// Warnings for catalog entries whose name an earlier entry already used,
/// in model order.
pub open spec fn duplicate_warns(cs: Seq<ConstructionV>) -> Seq<WarningV>
    decreases cs.len(),
{
    if cs.len() == 0 {
        Seq::empty()
    } else {
        duplicate_warns(cs.drop_last()) + (if name_among(cs.drop_last(), cs.last().name) {
            seq![
                WarningV {
                    severity: Severity::Caution,
                    kind: WarningKind::DuplicateConstructionName,
                    subject: cs.last().name,
                },
            ]
        } else {
            Seq::empty()
        })
    }
}

/// The full warning sequence of the validation pass: zero-area spaces,
/// then opaque components without orientation, then catalog duplicates.
pub open spec fn check_model_warns(m: ModelV) -> Seq<WarningV> {
    zero_area_warns(m.spaces) + missing_orientation_warns(m.walls) + duplicate_warns(
        m.constructions,
    )
}

/// A catalog name occurring among the first `upto` entries, decided by scan.
fn name_in_prefix(cs: &Vec<crate::model::Construction>, upto: usize, name: &String) -> (r: bool)
    requires
        upto <= cs@.len(),
    ensures
        r == name_among(cs@.map_values(|c: crate::model::Construction| c@).take(upto as int), name@),
{
    let ghost csv = cs@.map_values(|c: crate::model::Construction| c@);
    for j in 0..upto
        invariant
            upto <= cs@.len(),
            csv == cs@.map_values(|c: crate::model::Construction| c@),
            !name_among(csv.take(j as int), name@),
    {
        if cs[j].name == *name {
            proof {
                assert(csv.take(upto as int)[j as int] == csv[j as int]);
            }
            return true;
        }
        proof {
            assert forall|k: int|
                0 <= k < csv.take(j + 1).len() implies (#[trigger] csv.take(j + 1)[k]).name
                != name@ by {
                assert(csv.take(j + 1)[k] == csv[k]);
                if k < j {
                    assert(csv.take(j as int)[k] == csv[k]);
                }
            }
            assert(!name_among(csv.take(j + 1), name@));
        }
    }
    false
}

impl Model {
    /// Validation pass: traverses the model and accumulates the advisory
    /// warnings, in model order within each check.
    pub fn check_model(&self) -> (r: Vec<Warning>)
        requires
            valid(self@),
        ensures
            r@.map_values(|w: Warning| w@) == check_model_warns(self@),
    {
        let mut r: Vec<Warning> = Vec::new();

        let ghost sv = self@.spaces;
        let n = self.spaces.len();
        for i in 0..n
            invariant
                n == self.spaces.len(),
                valid(self@),
                sv == self@.spaces,
                r@.map_values(|w: Warning| w@) == zero_area_warns(sv.take(i as int)),
        {
            proof {
                assert(sv.take(i + 1).drop_last() =~= sv.take(i as int));
                assert(self@.spaces[i as int] == self.spaces@[i as int]@);
            }
            if self.spaces[i].area == 0 {
                let w = Warning {
                    severity: Severity::Caution,
                    kind: WarningKind::ZeroAreaSpace,
                    subject: self.spaces[i].name.clone(),
                };
                proof {
                    assert(r@.push(w).map_values(|x: Warning| x@) =~= r@.map_values(
                        |x: Warning| x@,
                    ).push(w@));
                    assert(zero_area_warns(sv.take(i + 1)) =~= zero_area_warns(
                        sv.take(i as int),
                    ).push(w@));
                }
                r.push(w);
            } else {
                proof {
                    assert(zero_area_warns(sv.take(i + 1)) =~= zero_area_warns(sv.take(i as int)));
                }
            }
        }
        proof {
            assert(sv.take(sv.len() as int) =~= sv);
        }

        let ghost base1 = zero_area_warns(self@.spaces);
        let ghost wv = self@.walls;
        let nw = self.walls.len();
        for i in 0..nw
            invariant
                nw == self.walls.len(),
                valid(self@),
                wv == self@.walls,
                base1 == zero_area_warns(self@.spaces),
                r@.map_values(|w: Warning| w@) == base1 + missing_orientation_warns(
                    wv.take(i as int),
                ),
        {
            proof {
                assert(wv.take(i + 1).drop_last() =~= wv.take(i as int));
                assert(self@.walls[i as int] == self.walls@[i as int]@);
            }
            let missing = match self.walls[i].orientation {
                Some(_) => false,
                None => true,
            };
            if missing {
                let w = Warning {
                    severity: Severity::Caution,
                    kind: WarningKind::MissingWallOrientation,
                    subject: self.walls[i].name.clone(),
                };
                proof {
                    assert(r@.push(w).map_values(|x: Warning| x@) =~= r@.map_values(
                        |x: Warning| x@,
                    ).push(w@));
                    assert(base1 + missing_orientation_warns(wv.take(i + 1)) =~= (base1
                        + missing_orientation_warns(wv.take(i as int))).push(w@));
                }
                r.push(w);
            } else {
                proof {
                    assert(base1 + missing_orientation_warns(wv.take(i + 1)) =~= base1
                        + missing_orientation_warns(wv.take(i as int)));
                }
            }
        }
        proof {
            assert(wv.take(wv.len() as int) =~= wv);
        }

        let ghost base2 = base1 + missing_orientation_warns(self@.walls);
        let ghost cv = self@.constructions;
        let nc = self.constructions.len();
        for i in 0..nc
            invariant
                nc == self.constructions.len(),
                valid(self@),
                cv == self@.constructions,
                base2 == zero_area_warns(self@.spaces) + missing_orientation_warns(self@.walls),
                cv == self.constructions@.map_values(|c: crate::model::Construction| c@),
                r@.map_values(|w: Warning| w@) == base2 + duplicate_warns(cv.take(i as int)),
        {
            proof {
                assert(cv.take(i + 1).drop_last() =~= cv.take(i as int));
                assert(self@.constructions[i as int] == self.constructions@[i as int]@);
            }
            let name = self.constructions[i].name.clone();
            let dup = name_in_prefix(&self.constructions, i, &name);
            if dup {
                let w = Warning {
                    severity: Severity::Caution,
                    kind: WarningKind::DuplicateConstructionName,
                    subject: name,
                };
                proof {
                    assert(r@.push(w).map_values(|x: Warning| x@) =~= r@.map_values(
                        |x: Warning| x@,
                    ).push(w@));
                    assert(base2 + duplicate_warns(cv.take(i + 1)) =~= (base2 + duplicate_warns(
                        cv.take(i as int),
                    )).push(w@));
                }
                r.push(w);
            } else {
                proof {
                    assert(base2 + duplicate_warns(cv.take(i + 1)) =~= base2 + duplicate_warns(
                        cv.take(i as int),
                    ));
                }
            }
        }
        proof {
            assert(cv.take(cv.len() as int) =~= cv);
            assert(r@.map_values(|w: Warning| w@) == check_model_warns(self@));
        }
        r
    }
}

} // verus!
