//! Canonical building model: metadata, spaces, envelope components and the
//! construction catalog, together with the well-formedness predicates that
//! every computation over a model relies on.

use vstd::prelude::*;

verus! {

/// Largest admissible quantity (area, height, transmittance) in
/// milli-units; keeps every aggregate within `u64` range.
pub const MAX_QUANTITY: u64 = 10_000_000;

/// Largest admissible dimensionless factor (solar factor, obstruction
/// factor) in milli-units; factors are fractions of one.
pub const MAX_FACTOR: u64 = 1_000;

/// Largest admissible number of records in any model collection; keeps
/// every aggregate within `u64` range.
pub const MAX_ITEMS: usize = 10_000;

/// Climate-zone code, the sole key into the radiation table.
#[derive(Clone, Copy, PartialEq, Eq, Structural, Debug)]
pub enum ClimateZone {
    A3,
    A4,
    B3,
    B4,
    C1,
    C2,
    C3,
    C4,
    D1,
    D2,
    D3,
    E1,
}

/// Compass orientation of an envelope component (or horizontal).
#[derive(Clone, Copy, PartialEq, Eq, Structural, Debug)]
pub enum Orientation {
    North,
    NorthEast,
    East,
    SouthEast,
    South,
    SouthWest,
    West,
    NorthWest,
    Horizontal,
}

/// Which floor areas enter the reference area.
#[derive(Clone, Copy, PartialEq, Eq, Structural, Debug)]
pub enum AreaConvention {
    /// Only conditioned spaces count.
    ConditionedOnly,
    /// Every space counts.
    AllSpaces,
}

/// Airtightness class of the building, the parameter of the
/// infiltration-rate formula.
#[derive(Clone, Copy, PartialEq, Eq, Structural, Debug)]
pub enum Airtightness {
    Tight,
    Standard,
    Loose,
}

/// Position of an opaque component in the envelope.
#[derive(Clone, Copy, PartialEq, Eq, Structural, Debug)]
pub enum BoundaryPosition {
    /// Vertical component: a wall.
    Side,
    /// Upper component: a roof.
    Top,
    /// Lower component: a floor.
    Bottom,
}

/// Kind of a hole component set in a wall.
#[derive(Clone, Copy, PartialEq, Eq, Structural, Debug)]
pub enum HoleKind {
    /// Transparent: a window.
    Glazed,
    /// Opaque: a door.
    Door,
}

/// Building metadata.
#[derive(Clone, Debug, PartialEq)]
pub struct Meta {
    /// Building name.
    pub name: String,
    /// Reference climate zone.
    pub climate: ClimateZone,
    /// Normalization convention for the reference area.
    pub convention: AreaConvention,
    /// Airtightness class for the infiltration estimate.
    pub airtightness: Airtightness,
}

/// A zone of the building with its floor geometry.
#[derive(Clone, Debug, PartialEq)]
pub struct Space {
    /// Space name, referenced by opaque components.
    pub name: String,
    /// Floor area in milli-m2.
    pub area: u64,
    /// Usable (net) height in milli-m.
    pub height_net: u64,
    /// Height including enclosing construction thickness, in milli-m.
    pub height_gross: u64,
    /// Whether the space is conditioned.
    pub conditioned: bool,
}

/// A named material assembly with its thermal transmittance.
#[derive(Clone, Debug, PartialEq)]
pub struct Construction {
    /// Catalog name, referenced by envelope components.
    pub name: String,
    /// Thermal transmittance in milli-W/m2K.
    pub u_value: u64,
}

/// An opaque envelope component (wall, roof or floor).
#[derive(Clone, Debug, PartialEq)]
pub struct Wall {
    /// Component name.
    pub name: String,
    /// Surface area in milli-m2.
    pub area: u64,
    /// Name of the construction it is built from.
    pub construction: String,
    /// Name of the space it bounds.
    pub space: String,
    /// Position in the envelope.
    pub position: BoundaryPosition,
    /// Compass orientation; absent orientation is tolerated at
    /// construction time and reported by the validation pass.
    pub orientation: Option<Orientation>,
}

/// A hole component (window or door) set in a wall.
#[derive(Clone, Debug, PartialEq)]
pub struct Window {
    /// Component name.
    pub name: String,
    /// Surface area in milli-m2.
    pub area: u64,
    /// Name of the construction it is built from.
    pub construction: String,
    /// Name of the wall that carries it.
    pub wall: String,
    /// Compass orientation, used by the solar-gain computation.
    pub orientation: Orientation,
    /// Solar factor of the glazing, milli-fraction of one.
    pub g_factor: u64,
    /// Solar obstruction factor, milli-fraction of one.
    pub fshobst: u64,
    /// Window or door.
    pub kind: HoleKind,
}

/// The canonical building model.
#[derive(Clone, Debug, PartialEq)]
pub struct Model {
    pub meta: Meta,
    pub spaces: Vec<Space>,
    pub walls: Vec<Wall>,
    pub windows: Vec<Window>,
    pub constructions: Vec<Construction>,
}

// ---------------------------------------------------------------------------
// Mathematical views
// ---------------------------------------------------------------------------

/// View of `Meta`.
pub struct MetaV {
    pub name: Seq<char>,
    pub climate: ClimateZone,
    pub convention: AreaConvention,
    pub airtightness: Airtightness,
}

/// View of `Space`.
pub struct SpaceV {
    pub name: Seq<char>,
    pub area: u64,
    pub height_net: u64,
    pub height_gross: u64,
    pub conditioned: bool,
}

/// View of `Construction`.
pub struct ConstructionV {
    pub name: Seq<char>,
    pub u_value: u64,
}

/// View of `Wall`.
pub struct WallV {
    pub name: Seq<char>,
    pub area: u64,
    pub construction: Seq<char>,
    pub space: Seq<char>,
    pub position: BoundaryPosition,
    pub orientation: Option<Orientation>,
}

/// View of `Window`.
pub struct WindowV {
    pub name: Seq<char>,
    pub area: u64,
    pub construction: Seq<char>,
    pub wall: Seq<char>,
    pub orientation: Orientation,
    pub g_factor: u64,
    pub fshobst: u64,
    pub kind: HoleKind,
}

/// View of `Model`.
pub struct ModelV {
    pub meta: MetaV,
    pub spaces: Seq<SpaceV>,
    pub walls: Seq<WallV>,
    pub windows: Seq<WindowV>,
    pub constructions: Seq<ConstructionV>,
}

impl View for Meta {
    type V = MetaV;

    open spec fn view(&self) -> MetaV {
        MetaV {
            name: self.name@,
            climate: self.climate,
            convention: self.convention,
            airtightness: self.airtightness,
        }
    }
}

impl View for Space {
    type V = SpaceV;

    open spec fn view(&self) -> SpaceV {
        SpaceV {
            name: self.name@,
            area: self.area,
            height_net: self.height_net,
            height_gross: self.height_gross,
            conditioned: self.conditioned,
        }
    }
}

impl View for Construction {
    type V = ConstructionV;

    open spec fn view(&self) -> ConstructionV {
        ConstructionV { name: self.name@, u_value: self.u_value }
    }
}

impl View for Wall {
    type V = WallV;

    open spec fn view(&self) -> WallV {
        WallV {
            name: self.name@,
            area: self.area,
            construction: self.construction@,
            space: self.space@,
            position: self.position,
            orientation: self.orientation,
        }
    }
}

impl View for Window {
    type V = WindowV;

    open spec fn view(&self) -> WindowV {
        WindowV {
            name: self.name@,
            area: self.area,
            construction: self.construction@,
            wall: self.wall@,
            orientation: self.orientation,
            g_factor: self.g_factor,
            fshobst: self.fshobst,
            kind: self.kind,
        }
    }
}

impl View for Model {
    type V = ModelV;

    open spec fn view(&self) -> ModelV {
        ModelV {
            meta: self.meta@,
            spaces: self.spaces@.map_values(|s: Space| s@),
            walls: self.walls@.map_values(|w: Wall| w@),
            windows: self.windows@.map_values(|w: Window| w@),
            constructions: self.constructions@.map_values(|c: Construction| c@),
        }
    }
}

// ---------------------------------------------------------------------------
// Well-formedness
// ---------------------------------------------------------------------------

/// The catalog holds a construction of this name.
pub open spec fn has_construction(m: ModelV, name: Seq<char>) -> bool {
    exists|i: int| 0 <= i < m.constructions.len() && m.constructions[i].name == name
}

/// The model holds a space of this name.
pub open spec fn has_space(m: ModelV, name: Seq<char>) -> bool {
    exists|i: int| 0 <= i < m.spaces.len() && m.spaces[i].name == name
}

/// The model holds a wall of this name.
pub open spec fn has_wall(m: ModelV, name: Seq<char>) -> bool {
    exists|i: int| 0 <= i < m.walls.len() && m.walls[i].name == name
}

/// Every cross-reference of this wall resolves.
pub open spec fn wall_refs_ok(m: ModelV, w: WallV) -> bool {
    &&& has_construction(m, w.construction)
    &&& has_space(m, w.space)
}

/// Every cross-reference of this window resolves.
pub open spec fn window_refs_ok(m: ModelV, w: WindowV) -> bool {
    &&& has_construction(m, w.construction)
    &&& has_wall(m, w.wall)
}

/// Referential integrity: every component reference resolves in the model.
pub open spec fn refs_ok(m: ModelV) -> bool {
    &&& forall|i: int| 0 <= i < m.walls.len() ==> wall_refs_ok(m, #[trigger] m.walls[i])
    &&& forall|i: int| 0 <= i < m.windows.len() ==> window_refs_ok(m, #[trigger] m.windows[i])
}

/// Dimension bounds of one space; gross height includes the enclosing
/// construction thickness and so never falls below the net height.
pub open spec fn space_dims_ok(s: SpaceV) -> bool {
    &&& s.area <= MAX_QUANTITY
    &&& s.height_net <= MAX_QUANTITY
    &&& s.height_gross <= MAX_QUANTITY
    &&& s.height_net <= s.height_gross
}

/// Dimension bounds of one opaque component.
pub open spec fn wall_dims_ok(w: WallV) -> bool {
    w.area <= MAX_QUANTITY
}

/// Dimension bounds of one hole component.
pub open spec fn window_dims_ok(w: WindowV) -> bool {
    &&& w.area <= MAX_QUANTITY
    &&& w.g_factor <= MAX_FACTOR
    &&& w.fshobst <= MAX_FACTOR
}

/// Dimension bounds of one catalog entry.
pub open spec fn construction_dims_ok(c: ConstructionV) -> bool {
    c.u_value <= MAX_QUANTITY
}

/// Every quantity and every collection is within the fixed-point range.
pub open spec fn dims_ok(m: ModelV) -> bool {
    &&& m.spaces.len() <= MAX_ITEMS
    &&& m.walls.len() <= MAX_ITEMS
    &&& m.windows.len() <= MAX_ITEMS
    &&& m.constructions.len() <= MAX_ITEMS
    &&& forall|i: int| 0 <= i < m.spaces.len() ==> space_dims_ok(#[trigger] m.spaces[i])
    &&& forall|i: int| 0 <= i < m.walls.len() ==> wall_dims_ok(#[trigger] m.walls[i])
    &&& forall|i: int| 0 <= i < m.windows.len() ==> window_dims_ok(#[trigger] m.windows[i])
    &&& forall|i: int|
        0 <= i < m.constructions.len() ==> construction_dims_ok(#[trigger] m.constructions[i])
}

/// A model is valid when its dimensions are in range and every
/// cross-reference resolves; every indicator computation requires this.
pub open spec fn valid(m: ModelV) -> bool {
    dims_ok(m) && refs_ok(m)
}

// ---------------------------------------------------------------------------
// Catalog lookup
// ---------------------------------------------------------------------------

/// Transmittance of the first catalog entry of this name, if any.
pub open spec fn u_lookup(cs: Seq<ConstructionV>, name: Seq<char>) -> Option<u64>
    decreases cs.len(),
{
    if cs.len() == 0 {
        None
    } else if cs[0].name == name {
        Some(cs[0].u_value)
    } else {
        u_lookup(cs.skip(1), name)
    }
}

/// Transmittance resolved through the catalog, zero when unresolved.
pub open spec fn u_of(cs: Seq<ConstructionV>, name: Seq<char>) -> u64 {
    match u_lookup(cs, name) {
        Some(u) => u,
        None => 0,
    }
}

/// A resolved transmittance is a catalog value, so it obeys the catalog's
/// dimension bounds.
pub proof fn lemma_lookup_bounded(cs: Seq<ConstructionV>, name: Seq<char>, bound: u64)
    requires
        forall|i: int| 0 <= i < cs.len() ==> #[trigger] cs[i].u_value <= bound,
    ensures
        u_of(cs, name) <= bound,
    decreases cs.len(),
{
    if cs.len() > 0 && cs[0].name != name {
        assert(forall|i: int|
            0 <= i < cs.skip(1).len() ==> #[trigger] cs.skip(1)[i].u_value <= bound);
        lemma_lookup_bounded(cs.skip(1), name, bound);
    }
}

/// Looks the named construction up in the catalog and returns its
/// transmittance, `None` when the name does not occur.
pub fn find_u(cs: &Vec<Construction>, name: &String) -> (r: Option<u64>)
    ensures
        r == u_lookup(cs@.map_values(|c: Construction| c@), name@),
{
    let ghost csv = cs@.map_values(|c: Construction| c@);
    proof {
        assert(csv.skip(0) =~= csv);
    }
    let n = cs.len();
    for i in 0..n
        invariant
            n == cs.len(),
            csv == cs@.map_values(|c: Construction| c@),
            u_lookup(csv, name@) == u_lookup(csv.skip(i as int), name@),
    {
        if cs[i].name == *name {
            return Some(cs[i].u_value);
        }
        proof {
            assert(csv.skip(i as int).skip(1) =~= csv.skip(i + 1));
        }
    }
    None
}

} // verus!
