//! Indicator engine: pure, order-insensitive computations over one valid
//! model snapshot. Results are fixed-point integers in thousandths of the
//! engineering unit; every division truncates toward zero.

use vstd::prelude::*;
use vstd::arithmetic::mul::{lemma_mul_inequality, lemma_mul_upper_bound};
use vstd::arithmetic::div_mod::lemma_div_is_ordered;
use crate::model::{
    AreaConvention, ConstructionV, Model, ModelV, SpaceV, WallV, WindowV, u_of, valid,
    space_dims_ok, wall_dims_ok, window_dims_ok, construction_dims_ok, dims_ok, find_u,
    MAX_QUANTITY,
};
use crate::sums::{
    sum_of, sum_terms, lemma_sum_pointwise_eq, lemma_sum_pointwise_le, lemma_sum_zero_iff,
    lemma_sum_bounds_nonneg,
};
use crate::model::{Airtightness, BoundaryPosition, HoleKind, Orientation, Wall};
use crate::climate::{rad_of, rad_lookup, find_radiation, RAD_MAX, lemma_rad_of_bounded};
use crate::checks::{Severity, Warning, WarningKind, WarningV};

verus! {

/// Largest value of a volume or transmittance-times-area term, micro-units.
pub const MAX_PRODUCT: u64 = 100_000_000_000_000;

/// Floor area a space contributes to the reference area, milli-m2.
pub open spec fn ref_area_term(conv: AreaConvention, s: SpaceV) -> int {
    if conv == AreaConvention::AllSpaces || s.conditioned {
        s.area as int
    } else {
        0
    }
}

/// Reference area of the model, milli-m2: the floor areas of the counted
/// spaces under the model's normalization convention.
pub open spec fn a_ref_of(m: ModelV) -> int {
    sum_of(m.spaces, |s: SpaceV| ref_area_term(m.meta.convention, s))
}

/// Net enclosed volume of one space, micro-m3.
pub open spec fn vol_net_term(s: SpaceV) -> int {
    s.area * s.height_net
}

/// Gross enclosed volume of one space, micro-m3.
pub open spec fn vol_gross_term(s: SpaceV) -> int {
    s.area * s.height_gross
}

/// Net (usable) envelope volume, milli-m3.
pub open spec fn vol_env_net_of(m: ModelV) -> int {
    sum_of(m.spaces, |s: SpaceV| vol_net_term(s)) / 1000
}

/// Gross envelope volume (including enclosing construction thickness),
/// milli-m3.
pub open spec fn vol_env_gross_of(m: ModelV) -> int {
    sum_of(m.spaces, |s: SpaceV| vol_gross_term(s)) / 1000
}

/// Total exposed envelope area, milli-m2: opaque components plus holes.
pub open spec fn exposed_area_of(m: ModelV) -> int {
    sum_of(m.walls, |w: WallV| w.area as int) + sum_of(m.windows, |w: WindowV| w.area as int)
}

/// Transmittance-times-area of one opaque component, micro-W/K.
pub open spec fn k_wall_term(cs: Seq<ConstructionV>, w: WallV) -> int {
    u_of(cs, w.construction) * w.area
}

/// Transmittance-times-area of one hole component, micro-W/K.
pub open spec fn k_window_term(cs: Seq<ConstructionV>, w: WindowV) -> int {
    u_of(cs, w.construction) * w.area
}

/// Numerator of the global heat-loss coefficient: the sum of transmittance
/// times area over the whole envelope, micro-W/K.
pub open spec fn k_num_of(m: ModelV) -> int {
    sum_of(m.walls, |w: WallV| k_wall_term(m.constructions, w)) + sum_of(
        m.windows,
        |w: WindowV| k_window_term(m.constructions, w),
    )
}

/// Global heat-loss coefficient data.
#[derive(Clone, Copy, PartialEq, Eq, Structural, Debug)]
pub struct KData {
    /// K itself: `ua_total` normalized by the reference area, milli-W/m2K.
    pub k: u64,
    /// Sum of transmittance times area over the envelope, micro-W/K.
    pub ua_total: u64,
}

impl Model {
    /// Reference area: the floor areas of the counted spaces, milli-m2.
    pub fn a_ref(&self) -> (r: u64)
        requires
            valid(self@),
        ensures
            r as int == a_ref_of(self@),
            r <= 100_000_000_000u64,
    {
        let conv_all = match self.meta.convention {
            AreaConvention::AllSpaces => true,
            AreaConvention::ConditionedOnly => false,
        };
        let n = self.spaces.len();
        let mut terms: Vec<u64> = Vec::new();
        for i in 0..n
            invariant
                n == self.spaces.len(),
                valid(self@),
                conv_all == (self.meta.convention == AreaConvention::AllSpaces),
                terms@.len() == i,
                forall|j: int|
                    0 <= j < i ==> (#[trigger] terms@[j]) as int == ref_area_term(
                        self@.meta.convention,
                        self@.spaces[j],
                    ) && terms@[j] <= MAX_QUANTITY,
        {
            let s = &self.spaces[i];
            proof {
                assert(self@.spaces[i as int] == self.spaces@[i as int]@);
                assert(space_dims_ok(self@.spaces[i as int]));
            }
            let term: u64 = if conv_all || s.conditioned {
                s.area
            } else {
                0
            };
            terms.push(term);
        }
        proof {
            let f = |s: SpaceV| ref_area_term(self@.meta.convention, s);
            let g = |x: u64| x as int;
            assert forall|j: int| 0 <= j < self@.spaces.len() implies #[trigger] f(self@.spaces[j])
                == g(terms@[j]) by {}
            lemma_sum_pointwise_eq(self@.spaces, f, terms@, g);
        }
        sum_terms(&terms, MAX_QUANTITY)
    }

    /// Net (usable) envelope volume, milli-m3.
    pub fn vol_env_net(&self) -> (r: u64)
        requires
            valid(self@),
        ensures
            r as int == vol_env_net_of(self@),
            r <= 1_000_000_000_000_000u64,
    {
        let n = self.spaces.len();
        let mut terms: Vec<u64> = Vec::new();
        for i in 0..n
            invariant
                n == self.spaces.len(),
                valid(self@),
                terms@.len() == i,
                forall|j: int|
                    0 <= j < i ==> (#[trigger] terms@[j]) as int == vol_net_term(self@.spaces[j])
                        && terms@[j] <= MAX_PRODUCT,
        {
            let s = &self.spaces[i];
            proof {
                assert(self@.spaces[i as int] == self.spaces@[i as int]@);
                assert(space_dims_ok(self@.spaces[i as int]));
                lemma_mul_upper_bound(
                    s.area as int,
                    MAX_QUANTITY as int,
                    s.height_net as int,
                    MAX_QUANTITY as int,
                );
            }
            let term: u64 = s.area * s.height_net;
            terms.push(term);
        }
        proof {
            let f = |s: SpaceV| vol_net_term(s);
            let g = |x: u64| x as int;
            assert forall|j: int| 0 <= j < self@.spaces.len() implies #[trigger] f(self@.spaces[j])
                == g(terms@[j]) by {}
            lemma_sum_pointwise_eq(self@.spaces, f, terms@, g);
        }
        let total = sum_terms(&terms, MAX_PRODUCT);
        total / 1000
    }

    /// Gross envelope volume, milli-m3.
    pub fn vol_env_gross(&self) -> (r: u64)
        requires
            valid(self@),
        ensures
            r as int == vol_env_gross_of(self@),
            r <= 1_000_000_000_000_000u64,
    {
        let n = self.spaces.len();
        let mut terms: Vec<u64> = Vec::new();
        for i in 0..n
            invariant
                n == self.spaces.len(),
                valid(self@),
                terms@.len() == i,
                forall|j: int|
                    0 <= j < i ==> (#[trigger] terms@[j]) as int == vol_gross_term(self@.spaces[j])
                        && terms@[j] <= MAX_PRODUCT,
        {
            let s = &self.spaces[i];
            proof {
                assert(self@.spaces[i as int] == self.spaces@[i as int]@);
                assert(space_dims_ok(self@.spaces[i as int]));
                lemma_mul_upper_bound(
                    s.area as int,
                    MAX_QUANTITY as int,
                    s.height_gross as int,
                    MAX_QUANTITY as int,
                );
            }
            let term: u64 = s.area * s.height_gross;
            terms.push(term);
        }
        proof {
            let f = |s: SpaceV| vol_gross_term(s);
            let g = |x: u64| x as int;
            assert forall|j: int| 0 <= j < self@.spaces.len() implies #[trigger] f(self@.spaces[j])
                == g(terms@[j]) by {}
            lemma_sum_pointwise_eq(self@.spaces, f, terms@, g);
        }
        let total = sum_terms(&terms, MAX_PRODUCT);
        total / 1000
    }

    /// Total exposed envelope area, milli-m2.
    pub fn exposed_area(&self) -> (r: u64)
        requires
            valid(self@),
        ensures
            r as int == exposed_area_of(self@),
            r <= 200_000_000_000u64,
    {
        let n = self.walls.len();
        let mut terms: Vec<u64> = Vec::new();
        for i in 0..n
            invariant
                n == self.walls.len(),
                valid(self@),
                terms@.len() == i,
                forall|j: int|
                    0 <= j < i ==> (#[trigger] terms@[j]) as int == self@.walls[j].area as int
                        && terms@[j] <= MAX_QUANTITY,
        {
            proof {
                assert(self@.walls[i as int] == self.walls@[i as int]@);
                assert(wall_dims_ok(self@.walls[i as int]));
            }
            terms.push(self.walls[i].area);
        }
        proof {
            let f = |w: WallV| w.area as int;
            let g = |x: u64| x as int;
            assert forall|j: int| 0 <= j < self@.walls.len() implies #[trigger] f(self@.walls[j])
                == g(terms@[j]) by {}
            lemma_sum_pointwise_eq(self@.walls, f, terms@, g);
        }
        let wall_total = sum_terms(&terms, MAX_QUANTITY);

        let nh = self.windows.len();
        let mut hterms: Vec<u64> = Vec::new();
        for i in 0..nh
            invariant
                nh == self.windows.len(),
                valid(self@),
                hterms@.len() == i,
                forall|j: int|
                    0 <= j < i ==> (#[trigger] hterms@[j]) as int == self@.windows[j].area as int
                        && hterms@[j] <= MAX_QUANTITY,
        {
            proof {
                assert(self@.windows[i as int] == self.windows@[i as int]@);
                assert(window_dims_ok(self@.windows[i as int]));
            }
            hterms.push(self.windows[i].area);
        }
        proof {
            let f = |w: WindowV| w.area as int;
            let g = |x: u64| x as int;
            assert forall|j: int| 0 <= j < self@.windows.len() implies #[trigger] f(
                self@.windows[j],
            ) == g(hterms@[j]) by {}
            lemma_sum_pointwise_eq(self@.windows, f, hterms@, g);
        }
        let window_total = sum_terms(&hterms, MAX_QUANTITY);
        wall_total + window_total
    }

    /// Compacity: gross envelope volume over exposed envelope area, in
    /// milli-m; the sentinel `None` when the exposed area is zero.
    pub fn compacity(&self) -> (r: Option<u64>)
        requires
            valid(self@),
        ensures
            r is None <==> exposed_area_of(self@) == 0,
            r matches Some(c) ==> c as int == vol_env_gross_of(self@) * 1000 / exposed_area_of(
                self@,
            ),
    {
        let area = self.exposed_area();
        if area == 0 {
            None
        } else {
            let vol = self.vol_env_gross();
            Some(vol * 1000 / area)
        }
    }

    /// Global heat-loss coefficient: transmittance times area summed over
    /// the envelope, normalized by the reference area. The reference area
    /// must be positive before K is computed.
    #[allow(non_snake_case)]
    pub fn K(&self) -> (kd: KData)
        requires
            valid(self@),
            a_ref_of(self@) > 0,
        ensures
            kd.ua_total as int == k_num_of(self@),
            kd.k as int == k_num_of(self@) / a_ref_of(self@),
    {
        let n = self.walls.len();
        let mut terms: Vec<u64> = Vec::new();
        for i in 0..n
            invariant
                n == self.walls.len(),
                valid(self@),
                terms@.len() == i,
                forall|j: int|
                    0 <= j < i ==> (#[trigger] terms@[j]) as int == k_wall_term(
                        self@.constructions,
                        self@.walls[j],
                    ) && terms@[j] <= MAX_PRODUCT,
        {
            let uo = find_u(&self.constructions, &self.walls[i].construction);
            let u: u64 = match uo {
                Some(u) => u,
                None => 0,
            };
            proof {
                assert(self@.walls[i as int] == self.walls@[i as int]@);
                assert(wall_dims_ok(self@.walls[i as int]));
                lemma_u_of_in_range(self@, self@.walls[i as int].construction);
                lemma_mul_upper_bound(
                    u as int,
                    MAX_QUANTITY as int,
                    self@.walls[i as int].area as int,
                    MAX_QUANTITY as int,
                );
            }
            let term: u64 = u * self.walls[i].area;
            terms.push(term);
        }
        proof {
            let f = |w: WallV| k_wall_term(self@.constructions, w);
            let g = |x: u64| x as int;
            assert forall|j: int| 0 <= j < self@.walls.len() implies #[trigger] f(self@.walls[j])
                == g(terms@[j]) by {}
            lemma_sum_pointwise_eq(self@.walls, f, terms@, g);
        }
        let wall_total = sum_terms(&terms, MAX_PRODUCT);

        let nh = self.windows.len();
        let mut hterms: Vec<u64> = Vec::new();
        for i in 0..nh
            invariant
                nh == self.windows.len(),
                valid(self@),
                hterms@.len() == i,
                forall|j: int|
                    0 <= j < i ==> (#[trigger] hterms@[j]) as int == k_window_term(
                        self@.constructions,
                        self@.windows[j],
                    ) && hterms@[j] <= MAX_PRODUCT,
        {
            let uo = find_u(&self.constructions, &self.windows[i].construction);
            let u: u64 = match uo {
                Some(u) => u,
                None => 0,
            };
            proof {
                assert(self@.windows[i as int] == self.windows@[i as int]@);
                assert(window_dims_ok(self@.windows[i as int]));
                lemma_u_of_in_range(self@, self@.windows[i as int].construction);
                lemma_mul_upper_bound(
                    u as int,
                    MAX_QUANTITY as int,
                    self@.windows[i as int].area as int,
                    MAX_QUANTITY as int,
                );
            }
            let term: u64 = u * self.windows[i].area;
            hterms.push(term);
        }
        proof {
            let f = |w: WindowV| k_window_term(self@.constructions, w);
            let g = |x: u64| x as int;
            assert forall|j: int| 0 <= j < self@.windows.len() implies #[trigger] f(
                self@.windows[j],
            ) == g(hterms@[j]) by {}
            lemma_sum_pointwise_eq(self@.windows, f, hterms@, g);
        }
        let window_total = sum_terms(&hterms, MAX_PRODUCT);

        let ua_total = wall_total + window_total;
        let aref = self.a_ref();
        KData { k: ua_total / aref, ua_total }
    }
}

/// Largest value of a July solar-gain term, milli-kWh.
pub const MAX_QSOL_TERM: u64 = 10_000_000_000;

/// Area an opaque component contributes to its category, milli-m2.
pub open spec fn cat_wall_area_term(pos: BoundaryPosition, w: WallV) -> int {
    if w.position == pos {
        w.area as int
    } else {
        0
    }
}

/// Transmittance-times-area an opaque component contributes to its
/// category, micro-W/K.
pub open spec fn cat_wall_ua_term(cs: Seq<ConstructionV>, pos: BoundaryPosition, w: WallV) -> int {
    if w.position == pos {
        k_wall_term(cs, w)
    } else {
        0
    }
}

/// Total area of the opaque components in this category, milli-m2.
pub open spec fn cat_wall_area_of(m: ModelV, pos: BoundaryPosition) -> int {
    sum_of(m.walls, |w: WallV| cat_wall_area_term(pos, w))
}

/// Total transmittance-times-area of the opaque components in this
/// category, micro-W/K.
pub open spec fn cat_wall_ua_of(m: ModelV, pos: BoundaryPosition) -> int {
    sum_of(m.walls, |w: WallV| cat_wall_ua_term(m.constructions, pos, w))
}

/// Area a hole component contributes to its category, milli-m2.
pub open spec fn cat_window_area_term(kind: HoleKind, w: WindowV) -> int {
    if w.kind == kind {
        w.area as int
    } else {
        0
    }
}

/// Transmittance-times-area a hole component contributes to its category,
/// micro-W/K.
pub open spec fn cat_window_ua_term(cs: Seq<ConstructionV>, kind: HoleKind, w: WindowV) -> int {
    if w.kind == kind {
        k_window_term(cs, w)
    } else {
        0
    }
}

/// Total area of the hole components in this category, milli-m2.
pub open spec fn cat_window_area_of(m: ModelV, kind: HoleKind) -> int {
    sum_of(m.windows, |w: WindowV| cat_window_area_term(kind, w))
}

/// Total transmittance-times-area of the hole components in this category,
/// micro-W/K.
pub open spec fn cat_window_ua_of(m: ModelV, kind: HoleKind) -> int {
    sum_of(m.windows, |w: WindowV| cat_window_ua_term(m.constructions, kind, w))
}

/// Area-weighted mean transmittance, milli-W/m2K: the "not applicable"
/// sentinel when the category has no area.
pub open spec fn u_mean_of(ua: int, area: int) -> Option<u64> {
    if area == 0 {
        None
    } else {
        Some((ua / area) as u64)
    }
}

/// Area-weighted average transmittance by envelope category; a category
/// with zero aggregate area reports the sentinel `None`.
#[derive(Clone, Copy, PartialEq, Eq, Structural, Debug)]
pub struct UValues {
    pub walls: Option<u64>,
    pub roofs: Option<u64>,
    pub floors: Option<u64>,
    pub windows: Option<u64>,
    pub doors: Option<u64>,
}

/// July solar-gain data.
#[derive(Clone, Copy, PartialEq, Eq, Structural, Debug)]
pub struct QSolJulData {
    /// Total July solar gain normalized by the reference area,
    /// milli-kWh/m2.
    pub q_soljul: u64,
    /// Total July solar gain through the holes, milli-kWh.
    pub total: u64,
}

/// Infiltration data.
#[derive(Clone, Copy, PartialEq, Eq, Structural, Debug)]
pub struct N50Data {
    /// Air-change rate at 50 Pa, milli-1/h; the sentinel `None` when the
    /// net envelope volume is zero.
    pub n50: Option<u64>,
    /// Total exposed envelope area, milli-m2.
    pub exposed_area: u64,
    /// Net envelope volume, milli-m3.
    pub vol: u64,
}

/// Infiltration coefficient of an airtightness class, milli-units: the
/// fixed parameter of the infiltration formula.
pub open spec fn airtight_coef(a: Airtightness) -> u64 {
    match a {
        Airtightness::Tight => 2_000,
        Airtightness::Standard => 4_000,
        Airtightness::Loose => 8_000,
    }
}

/// July solar gain of one hole component, milli-kWh: obstruction factor
/// times solar factor times area times the July radiation for its
/// orientation; an orientation absent from the table contributes zero.
pub open spec fn qsol_term(t: Seq<(Orientation, u64)>, w: WindowV) -> int {
    ((w.fshobst * w.g_factor / 1000) * w.area / 1000) * rad_of(t, w.orientation) / 1000
}

/// Total July solar gain over the holes, milli-kWh.
pub open spec fn qsol_total_of(t: Seq<(Orientation, u64)>, ws: Seq<WindowV>) -> int {
    sum_of(ws, |w: WindowV| qsol_term(t, w))
}

/// Space name of the first wall of this name, if any.
pub open spec fn wall_space_lookup(ws: Seq<WallV>, name: Seq<char>) -> Option<Seq<char>>
    decreases ws.len(),
{
    if ws.len() == 0 {
        None
    } else if ws[0].name == name {
        Some(ws[0].space)
    } else {
        wall_space_lookup(ws.skip(1), name)
    }
}

/// July solar gain a hole contributes to the named space: its gain when
/// the wall that carries it bounds that space, zero otherwise.
pub open spec fn qsol_space_term(
    m: ModelV,
    t: Seq<(Orientation, u64)>,
    sname: Seq<char>,
    w: WindowV,
) -> int {
    if wall_space_lookup(m.walls, w.wall) == Some(sname) {
        qsol_term(t, w)
    } else {
        0
    }
}

/// July solar gain summed over the holes of the named space, milli-kWh.
pub open spec fn qsol_space_total(m: ModelV, t: Seq<(Orientation, u64)>, sname: Seq<char>) -> int {
    sum_of(m.windows, |w: WindowV| qsol_space_term(m, t, sname, w))
}

/// Looks the wall up by name and returns the name of the space it bounds.
fn find_wall_space(walls: &Vec<Wall>, name: &String) -> (r: Option<String>)
    ensures
        r is Some <==> wall_space_lookup(walls@.map_values(|w: Wall| w@), name@) is Some,
        r matches Some(s) ==> wall_space_lookup(walls@.map_values(|w: Wall| w@), name@) == Some(
            s@,
        ),
{
    let ghost wv = walls@.map_values(|w: Wall| w@);
    proof {
        assert(wv.skip(0) =~= wv);
    }
    let n = walls.len();
    for i in 0..n
        invariant
            n == walls.len(),
            wv == walls@.map_values(|w: Wall| w@),
            wall_space_lookup(wv, name@) == wall_space_lookup(wv.skip(i as int), name@),
    {
        if walls[i].name == *name {
            return Some(walls[i].space.clone());
        }
        proof {
            assert(wv.skip(i as int).skip(1) =~= wv.skip(i + 1));
        }
    }
    None
}

/// Warnings for hole orientations absent from the radiation table, in
/// model order.
pub open spec fn rad_warns(t: Seq<(Orientation, u64)>, ws: Seq<WindowV>) -> Seq<WarningV>
    decreases ws.len(),
{
    if ws.len() == 0 {
        Seq::empty()
    } else {
        rad_warns(t, ws.drop_last()) + (if rad_lookup(t, ws.last().orientation) is None {
            seq![
                WarningV {
                    severity: Severity::Caution,
                    kind: WarningKind::MissingRadiationOrientation,
                    subject: ws.last().name,
                },
            ]
        } else {
            Seq::empty()
        })
    }
}

impl Model {
    /// Category totals of the opaque components in this position: area
    /// (milli-m2) and transmittance-times-area (micro-W/K).
    pub fn opaque_cat_totals(&self, pos: BoundaryPosition) -> (r: (u64, u64))
        requires
            valid(self@),
        ensures
            r.0 as int == cat_wall_area_of(self@, pos),
            r.1 as int == cat_wall_ua_of(self@, pos),
    {
        let n = self.walls.len();
        let mut aterms: Vec<u64> = Vec::new();
        let mut uterms: Vec<u64> = Vec::new();
        for i in 0..n
            invariant
                n == self.walls.len(),
                valid(self@),
                aterms@.len() == i,
                uterms@.len() == i,
                forall|j: int|
                    0 <= j < i ==> (#[trigger] aterms@[j]) as int == cat_wall_area_term(
                        pos,
                        self@.walls[j],
                    ) && aterms@[j] <= MAX_QUANTITY,
                forall|j: int|
                    0 <= j < i ==> (#[trigger] uterms@[j]) as int == cat_wall_ua_term(
                        self@.constructions,
                        pos,
                        self@.walls[j],
                    ) && uterms@[j] <= MAX_PRODUCT,
        {
            let w = &self.walls[i];
            let in_cat = match (w.position, pos) {
                (BoundaryPosition::Side, BoundaryPosition::Side) => true,
                (BoundaryPosition::Top, BoundaryPosition::Top) => true,
                (BoundaryPosition::Bottom, BoundaryPosition::Bottom) => true,
                _ => false,
            };
            proof {
                assert(self@.walls[i as int] == self.walls@[i as int]@);
                assert(wall_dims_ok(self@.walls[i as int]));
            }
            if in_cat {
                let uo = find_u(&self.constructions, &w.construction);
                let u: u64 = match uo {
                    Some(u) => u,
                    None => 0,
                };
                proof {
                    lemma_u_of_in_range(self@, self@.walls[i as int].construction);
                    lemma_mul_upper_bound(
                        u as int,
                        MAX_QUANTITY as int,
                        self@.walls[i as int].area as int,
                        MAX_QUANTITY as int,
                    );
                }
                aterms.push(w.area);
                uterms.push(u * w.area);
            } else {
                aterms.push(0);
                uterms.push(0);
            }
        }
        proof {
            let fa = |w: WallV| cat_wall_area_term(pos, w);
            let fu = |w: WallV| cat_wall_ua_term(self@.constructions, pos, w);
            let g = |x: u64| x as int;
            assert forall|j: int| 0 <= j < self@.walls.len() implies #[trigger] fa(self@.walls[j])
                == g(aterms@[j]) by {}
            assert forall|j: int| 0 <= j < self@.walls.len() implies #[trigger] fu(self@.walls[j])
                == g(uterms@[j]) by {}
            lemma_sum_pointwise_eq(self@.walls, fa, aterms@, g);
            lemma_sum_pointwise_eq(self@.walls, fu, uterms@, g);
        }
        let area = sum_terms(&aterms, MAX_QUANTITY);
        let ua = sum_terms(&uterms, MAX_PRODUCT);
        (area, ua)
    }

    /// Category totals of the hole components of this kind: area (milli-m2)
    /// and transmittance-times-area (micro-W/K).
    pub fn hole_cat_totals(&self, kind: HoleKind) -> (r: (u64, u64))
        requires
            valid(self@),
        ensures
            r.0 as int == cat_window_area_of(self@, kind),
            r.1 as int == cat_window_ua_of(self@, kind),
    {
        let n = self.windows.len();
        let mut aterms: Vec<u64> = Vec::new();
        let mut uterms: Vec<u64> = Vec::new();
        for i in 0..n
            invariant
                n == self.windows.len(),
                valid(self@),
                aterms@.len() == i,
                uterms@.len() == i,
                forall|j: int|
                    0 <= j < i ==> (#[trigger] aterms@[j]) as int == cat_window_area_term(
                        kind,
                        self@.windows[j],
                    ) && aterms@[j] <= MAX_QUANTITY,
                forall|j: int|
                    0 <= j < i ==> (#[trigger] uterms@[j]) as int == cat_window_ua_term(
                        self@.constructions,
                        kind,
                        self@.windows[j],
                    ) && uterms@[j] <= MAX_PRODUCT,
        {
            let w = &self.windows[i];
            let in_cat = match (w.kind, kind) {
                (HoleKind::Glazed, HoleKind::Glazed) => true,
                (HoleKind::Door, HoleKind::Door) => true,
                _ => false,
            };
            proof {
                assert(self@.windows[i as int] == self.windows@[i as int]@);
                assert(window_dims_ok(self@.windows[i as int]));
            }
            if in_cat {
                let uo = find_u(&self.constructions, &w.construction);
                let u: u64 = match uo {
                    Some(u) => u,
                    None => 0,
                };
                proof {
                    lemma_u_of_in_range(self@, self@.windows[i as int].construction);
                    lemma_mul_upper_bound(
                        u as int,
                        MAX_QUANTITY as int,
                        self@.windows[i as int].area as int,
                        MAX_QUANTITY as int,
                    );
                }
                aterms.push(w.area);
                uterms.push(u * w.area);
            } else {
                aterms.push(0);
                uterms.push(0);
            }
        }
        proof {
            let fa = |w: WindowV| cat_window_area_term(kind, w);
            let fu = |w: WindowV| cat_window_ua_term(self@.constructions, kind, w);
            let g = |x: u64| x as int;
            assert forall|j: int| 0 <= j < self@.windows.len() implies #[trigger] fa(
                self@.windows[j],
            ) == g(aterms@[j]) by {}
            assert forall|j: int| 0 <= j < self@.windows.len() implies #[trigger] fu(
                self@.windows[j],
            ) == g(uterms@[j]) by {}
            lemma_sum_pointwise_eq(self@.windows, fa, aterms@, g);
            lemma_sum_pointwise_eq(self@.windows, fu, uterms@, g);
        }
        let area = sum_terms(&aterms, MAX_QUANTITY);
        let ua = sum_terms(&uterms, MAX_PRODUCT);
        (area, ua)
    }

    /// Area-weighted average transmittance for each envelope category;
    /// a category with no area reports the sentinel `None`.
    pub fn u_values(&self) -> (uv: UValues)
        requires
            valid(self@),
        ensures
            uv.walls == u_mean_of(
                cat_wall_ua_of(self@, BoundaryPosition::Side),
                cat_wall_area_of(self@, BoundaryPosition::Side),
            ),
            uv.roofs == u_mean_of(
                cat_wall_ua_of(self@, BoundaryPosition::Top),
                cat_wall_area_of(self@, BoundaryPosition::Top),
            ),
            uv.floors == u_mean_of(
                cat_wall_ua_of(self@, BoundaryPosition::Bottom),
                cat_wall_area_of(self@, BoundaryPosition::Bottom),
            ),
            uv.windows == u_mean_of(
                cat_window_ua_of(self@, HoleKind::Glazed),
                cat_window_area_of(self@, HoleKind::Glazed),
            ),
            uv.doors == u_mean_of(
                cat_window_ua_of(self@, HoleKind::Door),
                cat_window_area_of(self@, HoleKind::Door),
            ),
    {
        let (wa, wu) = self.opaque_cat_totals(BoundaryPosition::Side);
        let (ra, ru) = self.opaque_cat_totals(BoundaryPosition::Top);
        let (fa, fu) = self.opaque_cat_totals(BoundaryPosition::Bottom);
        let (ga, gu) = self.hole_cat_totals(HoleKind::Glazed);
        let (da, du) = self.hole_cat_totals(HoleKind::Door);
        UValues {
            walls: if wa == 0 {
                None
            } else {
                Some(wu / wa)
            },
            roofs: if ra == 0 {
                None
            } else {
                Some(ru / ra)
            },
            floors: if fa == 0 {
                None
            } else {
                Some(fu / fa)
            },
            windows: if ga == 0 {
                None
            } else {
                Some(gu / ga)
            },
            doors: if da == 0 {
                None
            } else {
                Some(du / da)
            },
        }
    }

    /// July solar-gain load: for each hole, obstruction factor times solar
    /// factor times area times the July radiation for its orientation from
    /// the given table; orientations absent from the table contribute zero
    /// and raise a warning. The total is also normalized by the reference
    /// area, which must be positive.
    pub fn q_soljul(&self, totradjul: &Vec<(Orientation, u64)>) -> (r: (QSolJulData, Vec<Warning>))
        requires
            valid(self@),
            a_ref_of(self@) > 0,
            forall|i: int| 0 <= i < totradjul@.len() ==> (#[trigger] totradjul@[i]).1 <= RAD_MAX,
        ensures
            r.0.total as int == qsol_total_of(totradjul@, self@.windows),
            r.0.q_soljul as int == qsol_total_of(totradjul@, self@.windows) * 1000 / a_ref_of(
                self@,
            ),
            r.1@.map_values(|w: Warning| w@) == rad_warns(totradjul@, self@.windows),
    {
        let ghost tv = totradjul@;
        let ghost wv = self@.windows;
        let n = self.windows.len();
        let mut terms: Vec<u64> = Vec::new();
        let mut warns: Vec<Warning> = Vec::new();
        for i in 0..n
            invariant
                n == self.windows.len(),
                valid(self@),
                tv == totradjul@,
                wv == self@.windows,
                forall|k: int| 0 <= k < tv.len() ==> (#[trigger] tv[k]).1 <= RAD_MAX,
                terms@.len() == i,
                forall|j: int|
                    0 <= j < i ==> (#[trigger] terms@[j]) as int == qsol_term(tv, self@.windows[j])
                        && terms@[j] <= MAX_QSOL_TERM,
                warns@.map_values(|w: Warning| w@) == rad_warns(tv, wv.take(i as int)),
        {
            let w = &self.windows[i];
            proof {
                assert(self@.windows[i as int] == self.windows@[i as int]@);
                assert(window_dims_ok(self@.windows[i as int]));
                assert(wv.take(i + 1).drop_last() =~= wv.take(i as int));
            }
            let rado = find_radiation(totradjul, w.orientation);
            let rad: u64 = match rado {
                Some(v) => v,
                None => 0,
            };
            proof {
                lemma_rad_of_bounded(tv, self@.windows[i as int].orientation, RAD_MAX);
            }
            proof {
                lemma_mul_upper_bound(w.fshobst as int, 1000, w.g_factor as int, 1000);
            }
            let p1: u64 = w.fshobst * w.g_factor;
            let p2: u64 = p1 / 1000;
            proof {
                lemma_div_is_ordered(p1 as int, 1_000_000, 1000);
                lemma_mul_upper_bound(p2 as int, 1000, w.area as int, MAX_QUANTITY as int);
            }
            let p3: u64 = p2 * w.area;
            let p4: u64 = p3 / 1000;
            proof {
                lemma_div_is_ordered(p3 as int, 10_000_000_000, 1000);
                lemma_mul_upper_bound(p4 as int, 10_000_000, rad as int, RAD_MAX as int);
            }
            let p5: u64 = p4 * rad;
            let term: u64 = p5 / 1000;
            proof {
                lemma_div_is_ordered(p5 as int, 10_000_000_000_000, 1000);
            }
            terms.push(term);
            let absent = match rado {
                Some(_) => false,
                None => true,
            };
            if absent {
                let warn = Warning {
                    severity: Severity::Caution,
                    kind: WarningKind::MissingRadiationOrientation,
                    subject: w.name.clone(),
                };
                proof {
                    assert(warns@.push(warn).map_values(|x: Warning| x@) =~= warns@.map_values(
                        |x: Warning| x@,
                    ).push(warn@));
                    assert(rad_warns(tv, wv.take(i + 1)) =~= rad_warns(tv, wv.take(i as int)).push(
                        warn@,
                    ));
                }
                warns.push(warn);
            } else {
                proof {
                    assert(rad_warns(tv, wv.take(i + 1)) =~= rad_warns(tv, wv.take(i as int)));
                }
            }
        }
        proof {
            assert(wv.take(wv.len() as int) =~= wv);
            let f = |w: WindowV| qsol_term(tv, w);
            let g = |x: u64| x as int;
            assert forall|j: int| 0 <= j < wv.len() implies #[trigger] f(wv[j]) == g(
                terms@[j],
            ) by {}
            lemma_sum_pointwise_eq(wv, f, terms@, g);
        }
        let total = sum_terms(&terms, MAX_QSOL_TERM);
        let aref = self.a_ref();
        let q = (total * 1000) / aref;
        (QSolJulData { q_soljul: q, total }, warns)
    }

    /// July solar gain of the holes that light the named space, milli-kWh.
    pub fn q_soljul_space(
        &self,
        totradjul: &Vec<(Orientation, u64)>,
        sname: &String,
    ) -> (r: u64)
        requires
            valid(self@),
            forall|i: int| 0 <= i < totradjul@.len() ==> (#[trigger] totradjul@[i]).1 <= RAD_MAX,
        ensures
            r as int == qsol_space_total(self@, totradjul@, sname@),
    {
        let ghost tv = totradjul@;
        let n = self.windows.len();
        let mut terms: Vec<u64> = Vec::new();
        for i in 0..n
            invariant
                n == self.windows.len(),
                valid(self@),
                tv == totradjul@,
                forall|k: int| 0 <= k < tv.len() ==> (#[trigger] tv[k]).1 <= RAD_MAX,
                terms@.len() == i,
                forall|j: int|
                    0 <= j < i ==> (#[trigger] terms@[j]) as int == qsol_space_term(
                        self@,
                        tv,
                        sname@,
                        self@.windows[j],
                    ) && terms@[j] <= MAX_QSOL_TERM,
        {
            let w = &self.windows[i];
            proof {
                assert(self@.windows[i as int] == self.windows@[i as int]@);
                assert(window_dims_ok(self@.windows[i as int]));
            }
            let in_space = match find_wall_space(&self.walls, &w.wall) {
                Some(s) => {
                    let hit = s == *sname;
                    hit
                },
                None => false,
            };
            if in_space {
                let rado = find_radiation(totradjul, w.orientation);
                let rad: u64 = match rado {
                    Some(v) => v,
                    None => 0,
                };
                proof {
                    lemma_rad_of_bounded(tv, self@.windows[i as int].orientation, RAD_MAX);
                    lemma_mul_upper_bound(w.fshobst as int, 1000, w.g_factor as int, 1000);
                }
                let p1: u64 = w.fshobst * w.g_factor;
                let p2: u64 = p1 / 1000;
                proof {
                    lemma_div_is_ordered(p1 as int, 1_000_000, 1000);
                    lemma_mul_upper_bound(p2 as int, 1000, w.area as int, MAX_QUANTITY as int);
                }
                let p3: u64 = p2 * w.area;
                let p4: u64 = p3 / 1000;
                proof {
                    lemma_div_is_ordered(p3 as int, 10_000_000_000, 1000);
                    lemma_mul_upper_bound(p4 as int, 10_000_000, rad as int, RAD_MAX as int);
                }
                let p5: u64 = p4 * rad;
                let term: u64 = p5 / 1000;
                proof {
                    lemma_div_is_ordered(p5 as int, 10_000_000_000_000, 1000);
                }
                terms.push(term);
            } else {
                terms.push(0);
            }
        }
        proof {
            let f = |w: WindowV| qsol_space_term(self@, tv, sname@, w);
            let g = |x: u64| x as int;
            assert forall|j: int| 0 <= j < self@.windows.len() implies #[trigger] f(
                self@.windows[j],
            ) == g(terms@[j]) by {}
            lemma_sum_pointwise_eq(self@.windows, f, terms@, g);
        }
        sum_terms(&terms, MAX_QSOL_TERM)
    }

    /// July solar gain summed per space, in model order of the spaces.
    pub fn q_soljul_by_space(
        &self,
        totradjul: &Vec<(Orientation, u64)>,
    ) -> (r: Vec<(String, u64)>)
        requires
            valid(self@),
            forall|i: int| 0 <= i < totradjul@.len() ==> (#[trigger] totradjul@[i]).1 <= RAD_MAX,
        ensures
            r@.len() == self@.spaces.len(),
            forall|i: int|
                0 <= i < r@.len() ==> (#[trigger] r@[i]).0@ == self@.spaces[i].name && r@[i].1
                    as int == qsol_space_total(self@, totradjul@, self@.spaces[i].name),
    {
        let n = self.spaces.len();
        let mut r: Vec<(String, u64)> = Vec::new();
        for i in 0..n
            invariant
                n == self.spaces.len(),
                valid(self@),
                forall|k: int|
                    0 <= k < totradjul@.len() ==> (#[trigger] totradjul@[k]).1 <= RAD_MAX,
                r@.len() == i,
                forall|j: int|
                    0 <= j < i ==> (#[trigger] r@[j]).0@ == self@.spaces[j].name && r@[j].1
                        as int == qsol_space_total(self@, totradjul@, self@.spaces[j].name),
        {
            let name = self.spaces[i].name.clone();
            let total = self.q_soljul_space(totradjul, &name);
            proof {
                assert(self@.spaces[i as int] == self.spaces@[i as int]@);
            }
            r.push((name, total));
        }
        r
    }

    /// Infiltration estimate: the airtightness-class coefficient times the
    /// exposed envelope area over the net envelope volume; the sentinel
    /// `None` when that volume is zero.
    pub fn n50(&self) -> (nd: N50Data)
        requires
            valid(self@),
        ensures
            nd.exposed_area as int == exposed_area_of(self@),
            nd.vol as int == vol_env_net_of(self@),
            nd.n50 is None <==> vol_env_net_of(self@) == 0,
            nd.n50 matches Some(v) ==> v as int == airtight_coef(self@.meta.airtightness)
                * exposed_area_of(self@) / vol_env_net_of(self@),
    {
        let area = self.exposed_area();
        let vol = self.vol_env_net();
        let coef: u64 = match self.meta.airtightness {
            Airtightness::Tight => 2_000,
            Airtightness::Standard => 4_000,
            Airtightness::Loose => 8_000,
        };
        if vol == 0 {
            N50Data { n50: None, exposed_area: area, vol }
        } else {
            proof {
                lemma_mul_upper_bound(coef as int, 8000, area as int, 200_000_000_000);
            }
            let n50 = (coef * area) / vol;
            N50Data { n50: Some(n50), exposed_area: area, vol }
        }
    }
}

/// A transmittance resolved through a valid model's catalog is in range.
pub proof fn lemma_u_of_in_range(m: ModelV, name: Seq<char>)
    requires
        dims_ok(m),
    ensures
        u_of(m.constructions, name) <= MAX_QUANTITY,
{
    assert forall|i: int|
        0 <= i < m.constructions.len() implies #[trigger] m.constructions[i].u_value
        <= MAX_QUANTITY by {
        assert(construction_dims_ok(m.constructions[i]));
    }
    crate::model::lemma_lookup_bounded(m.constructions, name, MAX_QUANTITY);
}

/// Law: for any valid model the gross envelope volume is at least the net
/// envelope volume, because each space's gross height is at least its net
/// height.
pub proof fn lemma_gross_volume_at_least_net(m: ModelV)
    requires
        valid(m),
    ensures
        vol_env_net_of(m) <= vol_env_gross_of(m),
{
    let fn_ = |s: SpaceV| vol_net_term(s);
    let fg = |s: SpaceV| vol_gross_term(s);
    assert forall|i: int| 0 <= i < m.spaces.len() implies #[trigger] fn_(m.spaces[i]) <= #[trigger] fg(
        m.spaces[i],
    ) by {
        assert(space_dims_ok(m.spaces[i]));
        lemma_mul_inequality(
            m.spaces[i].height_net as int,
            m.spaces[i].height_gross as int,
            m.spaces[i].area as int,
        );
        assert(m.spaces[i].area * m.spaces[i].height_net == m.spaces[i].height_net * m.spaces[
            i
        ].area) by (nonlinear_arith);
        assert(m.spaces[i].area * m.spaces[i].height_gross == m.spaces[i].height_gross * m.spaces[
            i
        ].area) by (nonlinear_arith);
    }
    lemma_sum_pointwise_le(m.spaces, fn_, fg);
    lemma_div_is_ordered(sum_of(m.spaces, fn_), sum_of(m.spaces, fg), 1000);
}

/// Law: any K data that meets the engine's contract on a valid model has a
/// zero envelope sum exactly when every envelope component has zero
/// transmittance or zero area, and K itself is then zero.
pub proof fn lemma_k_data_zero_iff(m: ModelV, kd: KData)
    requires
        valid(m),
        a_ref_of(m) > 0,
        kd.ua_total as int == k_num_of(m),
        kd.k as int == k_num_of(m) / a_ref_of(m),
    ensures
        kd.ua_total == 0 <==> ((forall|i: int|
            0 <= i < m.walls.len() ==> (u_of(m.constructions, (#[trigger] m.walls[i]).construction)
                == 0 || m.walls[i].area == 0)) && (forall|i: int|
            0 <= i < m.windows.len() ==> (u_of(
                m.constructions,
                (#[trigger] m.windows[i]).construction,
            ) == 0 || m.windows[i].area == 0))),
        kd.ua_total == 0 ==> kd.k == 0,
{
    lemma_k_nonneg_and_zero_iff(m);
    if k_num_of(m) == 0 {
        vstd::arithmetic::div_mod::lemma_div_basics_1(a_ref_of(m));
    }
}

/// Law: for any valid model the K numerator is non-negative, and it is zero
/// exactly when every envelope component has zero transmittance or zero
/// area. K itself, the numerator normalized by a positive reference area,
/// is therefore zero as an exact ratio in just that case.
pub proof fn lemma_k_nonneg_and_zero_iff(m: ModelV)
    requires
        valid(m),
    ensures
        k_num_of(m) >= 0,
        k_num_of(m) == 0 <==> ((forall|i: int|
            0 <= i < m.walls.len() ==> (u_of(m.constructions, (#[trigger] m.walls[i]).construction)
                == 0 || m.walls[i].area == 0)) && (forall|i: int|
            0 <= i < m.windows.len() ==> (u_of(
                m.constructions,
                (#[trigger] m.windows[i]).construction,
            ) == 0 || m.windows[i].area == 0))),
{
    let fw = |w: WallV| k_wall_term(m.constructions, w);
    let fh = |w: WindowV| k_window_term(m.constructions, w);
    assert forall|i: int| 0 <= i < m.walls.len() implies 0 <= fw(#[trigger] m.walls[i]) && (fw(
        m.walls[i],
    ) == 0 <==> (u_of(m.constructions, m.walls[i].construction) == 0 || m.walls[i].area
        == 0)) by {
        let u = u_of(m.constructions, m.walls[i].construction) as int;
        let a = m.walls[i].area as int;
        assert(u >= 0 && a >= 0 ==> (0 <= u * a && (u * a == 0 <==> (u == 0 || a == 0))))
            by (nonlinear_arith);
    }
    assert forall|i: int| 0 <= i < m.windows.len() implies 0 <= fh(#[trigger] m.windows[i]) && (fh(
        m.windows[i],
    ) == 0 <==> (u_of(m.constructions, m.windows[i].construction) == 0 || m.windows[i].area
        == 0)) by {
        let u = u_of(m.constructions, m.windows[i].construction) as int;
        let a = m.windows[i].area as int;
        assert(u >= 0 && a >= 0 ==> (0 <= u * a && (u * a == 0 <==> (u == 0 || a == 0))))
            by (nonlinear_arith);
    }
    lemma_sum_bounds_nonneg(m.walls, fw);
    lemma_sum_bounds_nonneg(m.windows, fh);
    lemma_sum_zero_iff(m.walls, fw);
    lemma_sum_zero_iff(m.windows, fh);
    assert(k_num_of(m) == sum_of(m.walls, fw) + sum_of(m.windows, fh));
}

} // verus!
