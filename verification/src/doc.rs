//! Canonical interchange document: a strongly-typed, JSON-equivalent tree
//! of integers, strings and lists. A model serializes to one document;
//! deserialization validates the schema shape, the dimension bounds and the
//! referential integrity of the decoded model, and fails rather than
//! default on any violation.

use vstd::prelude::*;
use crate::model::{
    AreaConvention, Airtightness, BoundaryPosition, ClimateZone, Construction, ConstructionV,
    HoleKind, Meta, MetaV, Model, ModelV, Orientation, Space, SpaceV, Wall, WallV, Window, WindowV,
    MAX_FACTOR, MAX_ITEMS, MAX_QUANTITY, dims_ok, refs_ok, valid, space_dims_ok, wall_dims_ok,
    window_dims_ok, construction_dims_ok, has_construction, has_space, has_wall,
};

verus! {

/// One node of the canonical interchange document.
#[derive(Debug)]
pub enum Doc {
    /// An unsigned fixed-point quantity or a code.
    I(u64),
    /// A name.
    S(String),
    /// A list of nodes.
    L(Vec<Doc>),
}

/// Which cross-reference failed to resolve.
#[derive(Clone, Copy, PartialEq, Eq, Structural, Debug)]
pub enum RefKind {
    WallConstruction,
    WallSpace,
    WindowConstruction,
    WindowWall,
}

/// Why a model could not be built or used.
#[derive(Clone, Debug, PartialEq)]
pub enum ModelError {
    /// The document does not have the canonical schema shape.
    Schema,
    /// A quantity of the named record is outside the fixed-point range.
    Dimension { subject: String },
    /// A cross-reference of the named component does not resolve.
    Referential { kind: RefKind, subject: String },
    /// The reference area is zero, so normalized indicators are undefined.
    ZeroReferenceArea,
}

/// View of `ModelError`.
pub enum ModelErrorV {
    Schema,
    Dimension { subject: Seq<char> },
    Referential { kind: RefKind, subject: Seq<char> },
    ZeroReferenceArea,
}

impl View for ModelError {
    type V = ModelErrorV;

    open spec fn view(&self) -> ModelErrorV {
        match self {
            ModelError::Schema => ModelErrorV::Schema,
            ModelError::Dimension { subject } => ModelErrorV::Dimension { subject: subject@ },
            ModelError::Referential { kind, subject } => ModelErrorV::Referential {
                kind: *kind,
                subject: subject@,
            },
            ModelError::ZeroReferenceArea => ModelErrorV::ZeroReferenceArea,
        }
    }
}

// ---------------------------------------------------------------------------
// Enumeration codes
// ---------------------------------------------------------------------------

/// Climate zone of a document code.
pub open spec fn zone_from_code(c: u64) -> Option<ClimateZone> {
    if c == 0 { Some(ClimateZone::A3) }
    else if c == 1 { Some(ClimateZone::A4) }
    else if c == 2 { Some(ClimateZone::B3) }
    else if c == 3 { Some(ClimateZone::B4) }
    else if c == 4 { Some(ClimateZone::C1) }
    else if c == 5 { Some(ClimateZone::C2) }
    else if c == 6 { Some(ClimateZone::C3) }
    else if c == 7 { Some(ClimateZone::C4) }
    else if c == 8 { Some(ClimateZone::D1) }
    else if c == 9 { Some(ClimateZone::D2) }
    else if c == 10 { Some(ClimateZone::D3) }
    else if c == 11 { Some(ClimateZone::E1) }
    else { None }
}

/// Document code of a climate zone.
pub open spec fn zone_code(z: ClimateZone) -> u64 {
    match z {
        ClimateZone::A3 => 0,
        ClimateZone::A4 => 1,
        ClimateZone::B3 => 2,
        ClimateZone::B4 => 3,
        ClimateZone::C1 => 4,
        ClimateZone::C2 => 5,
        ClimateZone::C3 => 6,
        ClimateZone::C4 => 7,
        ClimateZone::D1 => 8,
        ClimateZone::D2 => 9,
        ClimateZone::D3 => 10,
        ClimateZone::E1 => 11,
    }
}

/// Orientation of a document code; zero stands for absent orientation.
pub open spec fn orientation_from_code(c: u64) -> Option<Option<Orientation>> {
    if c == 0 { Some(None) }
    else if c == 1 { Some(Some(Orientation::North)) }
    else if c == 2 { Some(Some(Orientation::NorthEast)) }
    else if c == 3 { Some(Some(Orientation::East)) }
    else if c == 4 { Some(Some(Orientation::SouthEast)) }
    else if c == 5 { Some(Some(Orientation::South)) }
    else if c == 6 { Some(Some(Orientation::SouthWest)) }
    else if c == 7 { Some(Some(Orientation::West)) }
    else if c == 8 { Some(Some(Orientation::NorthWest)) }
    else if c == 9 { Some(Some(Orientation::Horizontal)) }
    else { None }
}

/// Document code of an optional orientation.
pub open spec fn orientation_code(o: Option<Orientation>) -> u64 {
    match o {
        None => 0,
        Some(Orientation::North) => 1,
        Some(Orientation::NorthEast) => 2,
        Some(Orientation::East) => 3,
        Some(Orientation::SouthEast) => 4,
        Some(Orientation::South) => 5,
        Some(Orientation::SouthWest) => 6,
        Some(Orientation::West) => 7,
        Some(Orientation::NorthWest) => 8,
        Some(Orientation::Horizontal) => 9,
    }
}

/// Exec mirror of `zone_from_code`.
pub fn decode_zone(c: u64) -> (r: Option<ClimateZone>)
    ensures
        r == zone_from_code(c),
{
    if c == 0 { Some(ClimateZone::A3) }
    else if c == 1 { Some(ClimateZone::A4) }
    else if c == 2 { Some(ClimateZone::B3) }
    else if c == 3 { Some(ClimateZone::B4) }
    else if c == 4 { Some(ClimateZone::C1) }
    else if c == 5 { Some(ClimateZone::C2) }
    else if c == 6 { Some(ClimateZone::C3) }
    else if c == 7 { Some(ClimateZone::C4) }
    else if c == 8 { Some(ClimateZone::D1) }
    else if c == 9 { Some(ClimateZone::D2) }
    else if c == 10 { Some(ClimateZone::D3) }
    else if c == 11 { Some(ClimateZone::E1) }
    else { None }
}

/// Exec mirror of `zone_code`.
pub fn encode_zone(z: ClimateZone) -> (r: u64)
    ensures
        r == zone_code(z),
        zone_from_code(r) == Some(z),
{
    match z {
        ClimateZone::A3 => 0,
        ClimateZone::A4 => 1,
        ClimateZone::B3 => 2,
        ClimateZone::B4 => 3,
        ClimateZone::C1 => 4,
        ClimateZone::C2 => 5,
        ClimateZone::C3 => 6,
        ClimateZone::C4 => 7,
        ClimateZone::D1 => 8,
        ClimateZone::D2 => 9,
        ClimateZone::D3 => 10,
        ClimateZone::E1 => 11,
    }
}

/// Exec mirror of `orientation_from_code`.
pub fn decode_orientation(c: u64) -> (r: Option<Option<Orientation>>)
    ensures
        r == orientation_from_code(c),
{
    if c == 0 { Some(None) }
    else if c == 1 { Some(Some(Orientation::North)) }
    else if c == 2 { Some(Some(Orientation::NorthEast)) }
    else if c == 3 { Some(Some(Orientation::East)) }
    else if c == 4 { Some(Some(Orientation::SouthEast)) }
    else if c == 5 { Some(Some(Orientation::South)) }
    else if c == 6 { Some(Some(Orientation::SouthWest)) }
    else if c == 7 { Some(Some(Orientation::West)) }
    else if c == 8 { Some(Some(Orientation::NorthWest)) }
    else if c == 9 { Some(Some(Orientation::Horizontal)) }
    else { None }
}

/// Exec mirror of `orientation_code`.
pub fn encode_orientation(o: Option<Orientation>) -> (r: u64)
    ensures
        r == orientation_code(o),
        orientation_from_code(r) == Some(o),
{
    match o {
        None => 0,
        Some(Orientation::North) => 1,
        Some(Orientation::NorthEast) => 2,
        Some(Orientation::East) => 3,
        Some(Orientation::SouthEast) => 4,
        Some(Orientation::South) => 5,
        Some(Orientation::SouthWest) => 6,
        Some(Orientation::West) => 7,
        Some(Orientation::NorthWest) => 8,
        Some(Orientation::Horizontal) => 9,
    }
}

// ---------------------------------------------------------------------------
// Record decoding specifications
// ---------------------------------------------------------------------------

/// Meta of a document node, if it has the canonical shape.
pub open spec fn meta_of_doc(d: Doc) -> Option<MetaV> {
    match d {
        Doc::L(v) => {
            let items = v@;
            if items.len() == 4 {
                match (items[0], items[1], items[2], items[3]) {
                    (Doc::S(name), Doc::I(zc), Doc::I(cc), Doc::I(ac)) => {
                        match zone_from_code(zc) {
                            Some(climate) => {
                                if cc <= 1 && ac <= 2 {
                                    Some(
                                        MetaV {
                                            name: name@,
                                            climate,
                                            convention: if cc == 0 {
                                                AreaConvention::ConditionedOnly
                                            } else {
                                                AreaConvention::AllSpaces
                                            },
                                            airtightness: if ac == 0 {
                                                Airtightness::Tight
                                            } else if ac == 1 {
                                                Airtightness::Standard
                                            } else {
                                                Airtightness::Loose
                                            },
                                        },
                                    )
                                } else {
                                    None
                                }
                            },
                            None => None,
                        }
                    },
                    _ => None,
                }
            } else {
                None
            }
        },
        _ => None,
    }
}

/// Space of a document node, if it has the canonical shape.
pub open spec fn space_of_doc(d: Doc) -> Option<SpaceV> {
    match d {
        Doc::L(v) => {
            let items = v@;
            if items.len() == 5 {
                match (items[0], items[1], items[2], items[3], items[4]) {
                    (Doc::S(name), Doc::I(area), Doc::I(hn), Doc::I(hg), Doc::I(cond)) => {
                        if cond <= 1 {
                            Some(
                                SpaceV {
                                    name: name@,
                                    area,
                                    height_net: hn,
                                    height_gross: hg,
                                    conditioned: cond == 1,
                                },
                            )
                        } else {
                            None
                        }
                    },
                    _ => None,
                }
            } else {
                None
            }
        },
        _ => None,
    }
}

/// Construction of a document node, if it has the canonical shape.
pub open spec fn construction_of_doc(d: Doc) -> Option<ConstructionV> {
    match d {
        Doc::L(v) => {
            let items = v@;
            if items.len() == 2 {
                match (items[0], items[1]) {
                    (Doc::S(name), Doc::I(u)) => Some(ConstructionV { name: name@, u_value: u }),
                    _ => None,
                }
            } else {
                None
            }
        },
        _ => None,
    }
}

/// Wall of a document node, if it has the canonical shape.
pub open spec fn wall_of_doc(d: Doc) -> Option<WallV> {
    match d {
        Doc::L(v) => {
            let items = v@;
            if items.len() == 6 {
                match (items[0], items[1], items[2], items[3], items[4], items[5]) {
                    (
                        Doc::S(name),
                        Doc::I(area),
                        Doc::S(cons),
                        Doc::S(space),
                        Doc::I(pc),
                        Doc::I(oc),
                    ) => {
                        match orientation_from_code(oc) {
                            Some(orientation) => {
                                if pc <= 2 {
                                    Some(
                                        WallV {
                                            name: name@,
                                            area,
                                            construction: cons@,
                                            space: space@,
                                            position: if pc == 0 {
                                                BoundaryPosition::Side
                                            } else if pc == 1 {
                                                BoundaryPosition::Top
                                            } else {
                                                BoundaryPosition::Bottom
                                            },
                                            orientation,
                                        },
                                    )
                                } else {
                                    None
                                }
                            },
                            None => None,
                        }
                    },
                    _ => None,
                }
            } else {
                None
            }
        },
        _ => None,
    }
}

/// Window of a document node, if it has the canonical shape.
pub open spec fn window_of_doc(d: Doc) -> Option<WindowV> {
    match d {
        Doc::L(v) => {
            let items = v@;
            if items.len() == 8 {
                match (items[0], items[1], items[2], items[3], items[4], items[5], items[6],
                items[7]) {
                    (
                        Doc::S(name),
                        Doc::I(area),
                        Doc::S(cons),
                        Doc::S(wall),
                        Doc::I(oc),
                        Doc::I(g),
                        Doc::I(fs),
                        Doc::I(kc),
                    ) => {
                        match orientation_from_code(oc) {
                            Some(Some(orientation)) => {
                                if kc <= 1 {
                                    Some(
                                        WindowV {
                                            name: name@,
                                            area,
                                            construction: cons@,
                                            wall: wall@,
                                            orientation,
                                            g_factor: g,
                                            fshobst: fs,
                                            kind: if kc == 0 {
                                                HoleKind::Glazed
                                            } else {
                                                HoleKind::Door
                                            },
                                        },
                                    )
                                } else {
                                    None
                                }
                            },
                            _ => None,
                        }
                    },
                    _ => None,
                }
            } else {
                None
            }
        },
        _ => None,
    }
}

/// A list of records decoded node by node; `None` as soon as one node does
/// not decode.
pub open spec fn docs_list<T>(ds: Seq<Doc>, f: spec_fn(Doc) -> Option<T>) -> Option<Seq<T>>
    decreases ds.len(),
{
    if ds.len() == 0 {
        Some(Seq::empty())
    } else {
        match (docs_list(ds.drop_last(), f), f(ds.last())) {
            (Some(pre), Some(x)) => Some(pre.push(x)),
            _ => None,
        }
    }
}

/// One undecodable node makes the whole list undecodable.
pub proof fn lemma_docs_list_elem_none<T>(ds: Seq<Doc>, f: spec_fn(Doc) -> Option<T>, i: int)
    requires
        0 <= i < ds.len(),
        f(ds[i]) is None,
    ensures
        docs_list(ds, f) is None,
    decreases ds.len(),
{
    if i < ds.len() - 1 {
        assert(ds.drop_last()[i] == ds[i]);
        lemma_docs_list_elem_none(ds.drop_last(), f, i);
    }
}

/// Model of a document, if it has the canonical shape: metadata, spaces,
/// walls, windows, constructions.
pub open spec fn model_of_doc(d: Doc) -> Option<ModelV> {
    match d {
        Doc::L(v) => {
            let items = v@;
            if items.len() == 5 {
                match (items[1], items[2], items[3], items[4]) {
                    (Doc::L(sd), Doc::L(wd), Doc::L(hd), Doc::L(cd)) => {
                        let meta = meta_of_doc(items[0]);
                        let spaces = docs_list(sd@, |x: Doc| space_of_doc(x));
                        let walls = docs_list(wd@, |x: Doc| wall_of_doc(x));
                        let windows = docs_list(hd@, |x: Doc| window_of_doc(x));
                        let cons = docs_list(cd@, |x: Doc| construction_of_doc(x));
                        match (meta, spaces, walls, windows, cons) {
                            (Some(m), Some(ss), Some(ws), Some(hs), Some(cs)) => Some(
                                ModelV {
                                    meta: m,
                                    spaces: ss,
                                    walls: ws,
                                    windows: hs,
                                    constructions: cs,
                                },
                            ),
                            _ => None,
                        }
                    },
                    _ => None,
                }
            } else {
                None
            }
        },
        _ => None,
    }
}

// ---------------------------------------------------------------------------
// Record decoding and encoding
// ---------------------------------------------------------------------------

/// Decodes one metadata node.
pub fn parse_meta(d: &Doc) -> (r: Option<Meta>)
    ensures
        r is Some <==> meta_of_doc(*d) is Some,
        r matches Some(x) ==> meta_of_doc(*d) == Some(x@),
{
    match d {
        Doc::L(items) => {
            if items.len() != 4 {
                return None;
            }
            let name = match &items[0] {
                Doc::S(s) => s.clone(),
                _ => { return None; },
            };
            let zc = match &items[1] {
                Doc::I(n) => *n,
                _ => { return None; },
            };
            let cc = match &items[2] {
                Doc::I(n) => *n,
                _ => { return None; },
            };
            let ac = match &items[3] {
                Doc::I(n) => *n,
                _ => { return None; },
            };
            let climate = match decode_zone(zc) {
                Some(z) => z,
                None => { return None; },
            };
            if cc > 1 || ac > 2 {
                return None;
            }
            Some(
                Meta {
                    name,
                    climate,
                    convention: if cc == 0 {
                        AreaConvention::ConditionedOnly
                    } else {
                        AreaConvention::AllSpaces
                    },
                    airtightness: if ac == 0 {
                        Airtightness::Tight
                    } else if ac == 1 {
                        Airtightness::Standard
                    } else {
                        Airtightness::Loose
                    },
                },
            )
        },
        _ => None,
    }
}

/// Decodes one space node.
pub fn parse_space(d: &Doc) -> (r: Option<Space>)
    ensures
        r is Some <==> space_of_doc(*d) is Some,
        r matches Some(x) ==> space_of_doc(*d) == Some(x@),
{
    match d {
        Doc::L(items) => {
            if items.len() != 5 {
                return None;
            }
            let name = match &items[0] {
                Doc::S(s) => s.clone(),
                _ => { return None; },
            };
            let area = match &items[1] {
                Doc::I(n) => *n,
                _ => { return None; },
            };
            let hn = match &items[2] {
                Doc::I(n) => *n,
                _ => { return None; },
            };
            let hg = match &items[3] {
                Doc::I(n) => *n,
                _ => { return None; },
            };
            let cond = match &items[4] {
                Doc::I(n) => *n,
                _ => { return None; },
            };
            if cond > 1 {
                return None;
            }
            Some(Space { name, area, height_net: hn, height_gross: hg, conditioned: cond == 1 })
        },
        _ => None,
    }
}

/// Decodes one catalog node.
pub fn parse_construction(d: &Doc) -> (r: Option<Construction>)
    ensures
        r is Some <==> construction_of_doc(*d) is Some,
        r matches Some(x) ==> construction_of_doc(*d) == Some(x@),
{
    match d {
        Doc::L(items) => {
            if items.len() != 2 {
                return None;
            }
            let name = match &items[0] {
                Doc::S(s) => s.clone(),
                _ => { return None; },
            };
            let u = match &items[1] {
                Doc::I(n) => *n,
                _ => { return None; },
            };
            Some(Construction { name, u_value: u })
        },
        _ => None,
    }
}

/// Decodes one opaque-component node.
pub fn parse_wall(d: &Doc) -> (r: Option<Wall>)
    ensures
        r is Some <==> wall_of_doc(*d) is Some,
        r matches Some(x) ==> wall_of_doc(*d) == Some(x@),
{
    match d {
        Doc::L(items) => {
            if items.len() != 6 {
                return None;
            }
            let name = match &items[0] {
                Doc::S(s) => s.clone(),
                _ => { return None; },
            };
            let area = match &items[1] {
                Doc::I(n) => *n,
                _ => { return None; },
            };
            let cons = match &items[2] {
                Doc::S(s) => s.clone(),
                _ => { return None; },
            };
            let space = match &items[3] {
                Doc::S(s) => s.clone(),
                _ => { return None; },
            };
            let pc = match &items[4] {
                Doc::I(n) => *n,
                _ => { return None; },
            };
            let oc = match &items[5] {
                Doc::I(n) => *n,
                _ => { return None; },
            };
            let orientation = match decode_orientation(oc) {
                Some(o) => o,
                None => { return None; },
            };
            if pc > 2 {
                return None;
            }
            Some(
                Wall {
                    name,
                    area,
                    construction: cons,
                    space,
                    position: if pc == 0 {
                        BoundaryPosition::Side
                    } else if pc == 1 {
                        BoundaryPosition::Top
                    } else {
                        BoundaryPosition::Bottom
                    },
                    orientation,
                },
            )
        },
        _ => None,
    }
}

/// Decodes one hole-component node.
pub fn parse_window(d: &Doc) -> (r: Option<Window>)
    ensures
        r is Some <==> window_of_doc(*d) is Some,
        r matches Some(x) ==> window_of_doc(*d) == Some(x@),
{
    match d {
        Doc::L(items) => {
            if items.len() != 8 {
                return None;
            }
            let name = match &items[0] {
                Doc::S(s) => s.clone(),
                _ => { return None; },
            };
            let area = match &items[1] {
                Doc::I(n) => *n,
                _ => { return None; },
            };
            let cons = match &items[2] {
                Doc::S(s) => s.clone(),
                _ => { return None; },
            };
            let wall = match &items[3] {
                Doc::S(s) => s.clone(),
                _ => { return None; },
            };
            let oc = match &items[4] {
                Doc::I(n) => *n,
                _ => { return None; },
            };
            let g = match &items[5] {
                Doc::I(n) => *n,
                _ => { return None; },
            };
            let fs = match &items[6] {
                Doc::I(n) => *n,
                _ => { return None; },
            };
            let kc = match &items[7] {
                Doc::I(n) => *n,
                _ => { return None; },
            };
            let orientation = match decode_orientation(oc) {
                Some(Some(o)) => o,
                _ => { return None; },
            };
            if kc > 1 {
                return None;
            }
            Some(
                Window {
                    name,
                    area,
                    construction: cons,
                    wall,
                    orientation,
                    g_factor: g,
                    fshobst: fs,
                    kind: if kc == 0 {
                        HoleKind::Glazed
                    } else {
                        HoleKind::Door
                    },
                },
            )
        },
        _ => None,
    }
}

/// Decodes a list of space nodes.
pub fn parse_spaces(docs: &Vec<Doc>) -> (r: Option<Vec<Space>>)
    ensures
        r is Some <==> docs_list(docs@, |x: Doc| space_of_doc(x)) is Some,
        r matches Some(v) ==> docs_list(docs@, |x: Doc| space_of_doc(x)) == Some(
            v@.map_values(|s: Space| s@),
        ),
{
    let ghost f = |x: Doc| space_of_doc(x);
    proof {
        assert(docs@.take(0) =~= Seq::<Doc>::empty());
        assert(Seq::<Space>::empty().map_values(|s: Space| s@) =~= Seq::<SpaceV>::empty());
    }
    let n = docs.len();
    let mut acc: Vec<Space> = Vec::new();
    for i in 0..n
        invariant
            n == docs.len(),
            f == (|x: Doc| space_of_doc(x)),
            docs_list(docs@.take(i as int), f) == Some(acc@.map_values(|s: Space| s@)),
    {
        let so = parse_space(&docs[i]);
        match so {
            Some(s) => {
                proof {
                    assert(docs@.take(i + 1).drop_last() =~= docs@.take(i as int));
                    assert(acc@.push(s).map_values(|x: Space| x@) =~= acc@.map_values(
                        |x: Space| x@,
                    ).push(s@));
                }
                acc.push(s);
            },
            None => {
                proof {
                    lemma_docs_list_elem_none(docs@, f, i as int);
                }
                return None;
            },
        }
    }
    proof {
        assert(docs@.take(docs@.len() as int) =~= docs@);
    }
    Some(acc)
}

/// Decodes a list of opaque-component nodes.
pub fn parse_walls(docs: &Vec<Doc>) -> (r: Option<Vec<Wall>>)
    ensures
        r is Some <==> docs_list(docs@, |x: Doc| wall_of_doc(x)) is Some,
        r matches Some(v) ==> docs_list(docs@, |x: Doc| wall_of_doc(x)) == Some(
            v@.map_values(|s: Wall| s@),
        ),
{
    let ghost f = |x: Doc| wall_of_doc(x);
    proof {
        assert(docs@.take(0) =~= Seq::<Doc>::empty());
        assert(Seq::<Wall>::empty().map_values(|s: Wall| s@) =~= Seq::<WallV>::empty());
    }
    let n = docs.len();
    let mut acc: Vec<Wall> = Vec::new();
    for i in 0..n
        invariant
            n == docs.len(),
            f == (|x: Doc| wall_of_doc(x)),
            docs_list(docs@.take(i as int), f) == Some(acc@.map_values(|s: Wall| s@)),
    {
        let so = parse_wall(&docs[i]);
        match so {
            Some(s) => {
                proof {
                    assert(docs@.take(i + 1).drop_last() =~= docs@.take(i as int));
                    assert(acc@.push(s).map_values(|x: Wall| x@) =~= acc@.map_values(
                        |x: Wall| x@,
                    ).push(s@));
                }
                acc.push(s);
            },
            None => {
                proof {
                    lemma_docs_list_elem_none(docs@, f, i as int);
                }
                return None;
            },
        }
    }
    proof {
        assert(docs@.take(docs@.len() as int) =~= docs@);
    }
    Some(acc)
}

/// Decodes a list of hole-component nodes.
pub fn parse_windows(docs: &Vec<Doc>) -> (r: Option<Vec<Window>>)
    ensures
        r is Some <==> docs_list(docs@, |x: Doc| window_of_doc(x)) is Some,
        r matches Some(v) ==> docs_list(docs@, |x: Doc| window_of_doc(x)) == Some(
            v@.map_values(|s: Window| s@),
        ),
{
    let ghost f = |x: Doc| window_of_doc(x);
    proof {
        assert(docs@.take(0) =~= Seq::<Doc>::empty());
        assert(Seq::<Window>::empty().map_values(|s: Window| s@) =~= Seq::<WindowV>::empty());
    }
    let n = docs.len();
    let mut acc: Vec<Window> = Vec::new();
    for i in 0..n
        invariant
            n == docs.len(),
            f == (|x: Doc| window_of_doc(x)),
            docs_list(docs@.take(i as int), f) == Some(acc@.map_values(|s: Window| s@)),
    {
        let so = parse_window(&docs[i]);
        match so {
            Some(s) => {
                proof {
                    assert(docs@.take(i + 1).drop_last() =~= docs@.take(i as int));
                    assert(acc@.push(s).map_values(|x: Window| x@) =~= acc@.map_values(
                        |x: Window| x@,
                    ).push(s@));
                }
                acc.push(s);
            },
            None => {
                proof {
                    lemma_docs_list_elem_none(docs@, f, i as int);
                }
                return None;
            },
        }
    }
    proof {
        assert(docs@.take(docs@.len() as int) =~= docs@);
    }
    Some(acc)
}

/// Decodes a list of catalog nodes.
pub fn parse_constructions(docs: &Vec<Doc>) -> (r: Option<Vec<Construction>>)
    ensures
        r is Some <==> docs_list(docs@, |x: Doc| construction_of_doc(x)) is Some,
        r matches Some(v) ==> docs_list(docs@, |x: Doc| construction_of_doc(x)) == Some(
            v@.map_values(|s: Construction| s@),
        ),
{
    let ghost f = |x: Doc| construction_of_doc(x);
    proof {
        assert(docs@.take(0) =~= Seq::<Doc>::empty());
        assert(Seq::<Construction>::empty().map_values(|s: Construction| s@)
            =~= Seq::<ConstructionV>::empty());
    }
    let n = docs.len();
    let mut acc: Vec<Construction> = Vec::new();
    for i in 0..n
        invariant
            n == docs.len(),
            f == (|x: Doc| construction_of_doc(x)),
            docs_list(docs@.take(i as int), f) == Some(acc@.map_values(|s: Construction| s@)),
    {
        let so = parse_construction(&docs[i]);
        match so {
            Some(s) => {
                proof {
                    assert(docs@.take(i + 1).drop_last() =~= docs@.take(i as int));
                    assert(acc@.push(s).map_values(|x: Construction| x@) =~= acc@.map_values(
                        |x: Construction| x@,
                    ).push(s@));
                }
                acc.push(s);
            },
            None => {
                proof {
                    lemma_docs_list_elem_none(docs@, f, i as int);
                }
                return None;
            },
        }
    }
    proof {
        assert(docs@.take(docs@.len() as int) =~= docs@);
    }
    Some(acc)
}

/// Decodes a whole model document; `None` when the shape is not canonical.
pub fn parse_model(d: &Doc) -> (r: Option<Model>)
    ensures
        r is Some <==> model_of_doc(*d) is Some,
        r matches Some(m) ==> model_of_doc(*d) == Some(m@),
{
    match d {
        Doc::L(items) => {
            if items.len() != 5 {
                return None;
            }
            let meta = match parse_meta(&items[0]) {
                Some(m) => m,
                None => { return None; },
            };
            let spaces = match &items[1] {
                Doc::L(sd) => match parse_spaces(sd) {
                    Some(v) => v,
                    None => { return None; },
                },
                _ => { return None; },
            };
            let walls = match &items[2] {
                Doc::L(wd) => match parse_walls(wd) {
                    Some(v) => v,
                    None => { return None; },
                },
                _ => { return None; },
            };
            let windows = match &items[3] {
                Doc::L(hd) => match parse_windows(hd) {
                    Some(v) => v,
                    None => { return None; },
                },
                _ => { return None; },
            };
            let constructions = match &items[4] {
                Doc::L(cd) => match parse_constructions(cd) {
                    Some(v) => v,
                    None => { return None; },
                },
                _ => { return None; },
            };
            Some(Model { meta, spaces, walls, windows, constructions })
        },
        _ => None,
    }
}

/// Encodes one metadata record.
pub fn meta_to_doc(m: &Meta) -> (d: Doc)
    ensures
        meta_of_doc(d) == Some(m@),
{
    let mut items: Vec<Doc> = Vec::new();
    items.push(Doc::S(m.name.clone()));
    items.push(Doc::I(encode_zone(m.climate)));
    items.push(Doc::I(match m.convention {
        AreaConvention::ConditionedOnly => 0,
        AreaConvention::AllSpaces => 1,
    }));
    items.push(Doc::I(match m.airtightness {
        Airtightness::Tight => 0,
        Airtightness::Standard => 1,
        Airtightness::Loose => 2,
    }));
    Doc::L(items)
}

/// Encodes one space record.
pub fn space_to_doc(s: &Space) -> (d: Doc)
    ensures
        space_of_doc(d) == Some(s@),
{
    let mut items: Vec<Doc> = Vec::new();
    items.push(Doc::S(s.name.clone()));
    items.push(Doc::I(s.area));
    items.push(Doc::I(s.height_net));
    items.push(Doc::I(s.height_gross));
    items.push(Doc::I(if s.conditioned {
        1
    } else {
        0
    }));
    Doc::L(items)
}

/// Encodes one catalog record.
pub fn construction_to_doc(c: &Construction) -> (d: Doc)
    ensures
        construction_of_doc(d) == Some(c@),
{
    let mut items: Vec<Doc> = Vec::new();
    items.push(Doc::S(c.name.clone()));
    items.push(Doc::I(c.u_value));
    Doc::L(items)
}

/// Encodes one opaque-component record.
pub fn wall_to_doc(w: &Wall) -> (d: Doc)
    ensures
        wall_of_doc(d) == Some(w@),
{
    let mut items: Vec<Doc> = Vec::new();
    items.push(Doc::S(w.name.clone()));
    items.push(Doc::I(w.area));
    items.push(Doc::S(w.construction.clone()));
    items.push(Doc::S(w.space.clone()));
    items.push(Doc::I(match w.position {
        BoundaryPosition::Side => 0,
        BoundaryPosition::Top => 1,
        BoundaryPosition::Bottom => 2,
    }));
    items.push(Doc::I(encode_orientation(w.orientation)));
    Doc::L(items)
}

/// Encodes one hole-component record.
pub fn window_to_doc(w: &Window) -> (d: Doc)
    ensures
        window_of_doc(d) == Some(w@),
{
    let mut items: Vec<Doc> = Vec::new();
    items.push(Doc::S(w.name.clone()));
    items.push(Doc::I(w.area));
    items.push(Doc::S(w.construction.clone()));
    items.push(Doc::S(w.wall.clone()));
    items.push(Doc::I(encode_orientation(Some(w.orientation))));
    items.push(Doc::I(w.g_factor));
    items.push(Doc::I(w.fshobst));
    items.push(Doc::I(match w.kind {
        HoleKind::Glazed => 0,
        HoleKind::Door => 1,
    }));
    Doc::L(items)
}

/// Serializes a model to the canonical interchange document.
pub fn model_to_doc(m: &Model) -> (d: Doc)
    ensures
        model_of_doc(d) == Some(m@),
{
    let ghost fs = |x: Doc| space_of_doc(x);
    let ghost fw = |x: Doc| wall_of_doc(x);
    let ghost fh = |x: Doc| window_of_doc(x);
    let ghost fc = |x: Doc| construction_of_doc(x);

    let mut sd: Vec<Doc> = Vec::new();
    let n = m.spaces.len();
    for i in 0..n
        invariant
            n == m.spaces.len(),
            fs == (|x: Doc| space_of_doc(x)),
            docs_list(sd@, fs) == Some(m.spaces@.take(i as int).map_values(|s: Space| s@)),
    {
        let nd = space_to_doc(&m.spaces[i]);
        proof {
            assert(sd@.push(nd).drop_last() =~= sd@);
            assert(m.spaces@.take(i + 1).map_values(|s: Space| s@) =~= m.spaces@.take(
                i as int,
            ).map_values(|s: Space| s@).push(m.spaces@[i as int]@));
        }
        sd.push(nd);
    }
    proof {
        assert(m.spaces@.take(m.spaces@.len() as int) =~= m.spaces@);
    }

    let mut wd: Vec<Doc> = Vec::new();
    let nw = m.walls.len();
    for i in 0..nw
        invariant
            nw == m.walls.len(),
            fw == (|x: Doc| wall_of_doc(x)),
            docs_list(wd@, fw) == Some(m.walls@.take(i as int).map_values(|s: Wall| s@)),
    {
        let nd = wall_to_doc(&m.walls[i]);
        proof {
            assert(wd@.push(nd).drop_last() =~= wd@);
            assert(m.walls@.take(i + 1).map_values(|s: Wall| s@) =~= m.walls@.take(
                i as int,
            ).map_values(|s: Wall| s@).push(m.walls@[i as int]@));
        }
        wd.push(nd);
    }
    proof {
        assert(m.walls@.take(m.walls@.len() as int) =~= m.walls@);
    }

    let mut hd: Vec<Doc> = Vec::new();
    let nh = m.windows.len();
    for i in 0..nh
        invariant
            nh == m.windows.len(),
            fh == (|x: Doc| window_of_doc(x)),
            docs_list(hd@, fh) == Some(m.windows@.take(i as int).map_values(|s: Window| s@)),
    {
        let nd = window_to_doc(&m.windows[i]);
        proof {
            assert(hd@.push(nd).drop_last() =~= hd@);
            assert(m.windows@.take(i + 1).map_values(|s: Window| s@) =~= m.windows@.take(
                i as int,
            ).map_values(|s: Window| s@).push(m.windows@[i as int]@));
        }
        hd.push(nd);
    }
    proof {
        assert(m.windows@.take(m.windows@.len() as int) =~= m.windows@);
    }

    let mut cd: Vec<Doc> = Vec::new();
    let nc = m.constructions.len();
    for i in 0..nc
        invariant
            nc == m.constructions.len(),
            fc == (|x: Doc| construction_of_doc(x)),
            docs_list(cd@, fc) == Some(m.constructions@.take(i as int).map_values(
                |s: Construction| s@,
            )),
    {
        let nd = construction_to_doc(&m.constructions[i]);
        proof {
            assert(cd@.push(nd).drop_last() =~= cd@);
            assert(m.constructions@.take(i + 1).map_values(|s: Construction| s@)
                =~= m.constructions@.take(i as int).map_values(|s: Construction| s@).push(
                m.constructions@[i as int]@,
            ));
        }
        cd.push(nd);
    }
    proof {
        assert(m.constructions@.take(m.constructions@.len() as int) =~= m.constructions@);
    }

    let mut items: Vec<Doc> = Vec::new();
    items.push(meta_to_doc(&m.meta));
    items.push(Doc::L(sd));
    items.push(Doc::L(wd));
    items.push(Doc::L(hd));
    items.push(Doc::L(cd));
    Doc::L(items)
}

// ---------------------------------------------------------------------------
// Validation
// ---------------------------------------------------------------------------

/// Scans the model for a quantity outside the fixed-point range; `None`
/// when every dimension is in range.
pub fn check_dims(m: &Model) -> (r: Option<ModelError>)
    ensures
        r is None <==> dims_ok(m@),
        r matches Some(e) ==> e@ matches ModelErrorV::Dimension { .. },
{
    if m.spaces.len() > MAX_ITEMS || m.walls.len() > MAX_ITEMS || m.windows.len() > MAX_ITEMS
        || m.constructions.len() > MAX_ITEMS {
        return Some(ModelError::Dimension { subject: m.meta.name.clone() });
    }
    let n = m.spaces.len();
    for i in 0..n
        invariant
            n == m.spaces.len(),
            forall|j: int| 0 <= j < i ==> space_dims_ok(#[trigger] m@.spaces[j]),
    {
        let s = &m.spaces[i];
        proof {
            assert(m@.spaces[i as int] == m.spaces@[i as int]@);
        }
        if s.area > MAX_QUANTITY || s.height_net > MAX_QUANTITY || s.height_gross > MAX_QUANTITY
            || s.height_net > s.height_gross {
            proof {
                assert(!space_dims_ok(m@.spaces[i as int]));
            }
            return Some(ModelError::Dimension { subject: s.name.clone() });
        }
    }
    let nw = m.walls.len();
    for i in 0..nw
        invariant
            nw == m.walls.len(),
            forall|j: int| 0 <= j < i ==> wall_dims_ok(#[trigger] m@.walls[j]),
    {
        proof {
            assert(m@.walls[i as int] == m.walls@[i as int]@);
        }
        if m.walls[i].area > MAX_QUANTITY {
            return Some(ModelError::Dimension { subject: m.walls[i].name.clone() });
        }
    }
    let nh = m.windows.len();
    for i in 0..nh
        invariant
            nh == m.windows.len(),
            forall|j: int| 0 <= j < i ==> window_dims_ok(#[trigger] m@.windows[j]),
    {
        let w = &m.windows[i];
        proof {
            assert(m@.windows[i as int] == m.windows@[i as int]@);
        }
        if w.area > MAX_QUANTITY || w.g_factor > MAX_FACTOR || w.fshobst > MAX_FACTOR {
            proof {
                assert(!window_dims_ok(m@.windows[i as int]));
            }
            return Some(ModelError::Dimension { subject: w.name.clone() });
        }
    }
    let nc = m.constructions.len();
    for i in 0..nc
        invariant
            nc == m.constructions.len(),
            forall|j: int| 0 <= j < i ==> construction_dims_ok(#[trigger] m@.constructions[j]),
    {
        proof {
            assert(m@.constructions[i as int] == m.constructions@[i as int]@);
        }
        if m.constructions[i].u_value > MAX_QUANTITY {
            return Some(ModelError::Dimension { subject: m.constructions[i].name.clone() });
        }
    }
    None
}

/// A construction of this name stands in the catalog.
fn construction_exists(m: &Model, name: &String) -> (r: bool)
    ensures
        r == has_construction(m@, name@),
{
    let ghost csv = m@.constructions;
    let n = m.constructions.len();
    for i in 0..n
        invariant
            n == m.constructions.len(),
            csv == m@.constructions,
            forall|j: int| 0 <= j < i ==> (#[trigger] csv[j]).name != name@,
    {
        if m.constructions[i].name == *name {
            proof {
                assert(csv[i as int] == m.constructions@[i as int]@);
            }
            return true;
        }
        proof {
            assert(csv[i as int] == m.constructions@[i as int]@);
        }
    }
    false
}

/// A space of this name stands in the model.
fn space_exists(m: &Model, name: &String) -> (r: bool)
    ensures
        r == has_space(m@, name@),
{
    let ghost sv = m@.spaces;
    let n = m.spaces.len();
    for i in 0..n
        invariant
            n == m.spaces.len(),
            sv == m@.spaces,
            forall|j: int| 0 <= j < i ==> (#[trigger] sv[j]).name != name@,
    {
        if m.spaces[i].name == *name {
            proof {
                assert(sv[i as int] == m.spaces@[i as int]@);
            }
            return true;
        }
        proof {
            assert(sv[i as int] == m.spaces@[i as int]@);
        }
    }
    false
}

/// A wall of this name stands in the model.
fn wall_exists(m: &Model, name: &String) -> (r: bool)
    ensures
        r == has_wall(m@, name@),
{
    let ghost wv = m@.walls;
    let n = m.walls.len();
    for i in 0..n
        invariant
            n == m.walls.len(),
            wv == m@.walls,
            forall|j: int| 0 <= j < i ==> (#[trigger] wv[j]).name != name@,
    {
        if m.walls[i].name == *name {
            proof {
                assert(wv[i as int] == m.walls@[i as int]@);
            }
            return true;
        }
        proof {
            assert(wv[i as int] == m.walls@[i as int]@);
        }
    }
    false
}

/// Scans the model for a cross-reference that does not resolve; `None`
/// exactly when referential integrity holds.
pub fn check_refs(m: &Model) -> (r: Option<ModelError>)
    ensures
        r is None <==> refs_ok(m@),
        r matches Some(e) ==> e@ matches ModelErrorV::Referential { .. },
{
    let nw = m.walls.len();
    for i in 0..nw
        invariant
            nw == m.walls.len(),
            forall|j: int| 0 <= j < i ==> crate::model::wall_refs_ok(m@, #[trigger] m@.walls[j]),
    {
        let w = &m.walls[i];
        proof {
            assert(m@.walls[i as int] == m.walls@[i as int]@);
        }
        if !construction_exists(m, &w.construction) {
            proof {
                assert(!has_construction(m@, m@.walls[i as int].construction));
            }
            return Some(
                ModelError::Referential {
                    kind: RefKind::WallConstruction,
                    subject: w.construction.clone(),
                },
            );
        }
        if !space_exists(m, &w.space) {
            proof {
                assert(!has_space(m@, m@.walls[i as int].space));
            }
            return Some(
                ModelError::Referential { kind: RefKind::WallSpace, subject: w.space.clone() },
            );
        }
    }
    let nh = m.windows.len();
    for i in 0..nh
        invariant
            nh == m.windows.len(),
            forall|j: int| 0 <= j < nw ==> crate::model::wall_refs_ok(m@, #[trigger] m@.walls[j]),
            nw == m.walls.len(),
            forall|j: int|
                0 <= j < i ==> crate::model::window_refs_ok(m@, #[trigger] m@.windows[j]),
    {
        let w = &m.windows[i];
        proof {
            assert(m@.windows[i as int] == m.windows@[i as int]@);
        }
        if !construction_exists(m, &w.construction) {
            proof {
                assert(!has_construction(m@, m@.windows[i as int].construction));
            }
            return Some(
                ModelError::Referential {
                    kind: RefKind::WindowConstruction,
                    subject: w.construction.clone(),
                },
            );
        }
        if !wall_exists(m, &w.wall) {
            proof {
                assert(!has_wall(m@, m@.windows[i as int].wall));
            }
            return Some(
                ModelError::Referential { kind: RefKind::WindowWall, subject: w.wall.clone() },
            );
        }
    }
    None
}

/// Deserializes the canonical interchange document into a validated model:
/// the shape must be canonical, every quantity in range and every
/// cross-reference resolved; any violation fails with the matching error,
/// never a silent default.
pub fn load_data_from_json(d: &Doc) -> (r: Result<Model, ModelError>)
    ensures
        model_of_doc(*d) is None ==> (r matches Err(e) && e@ == ModelErrorV::Schema),
        model_of_doc(*d) matches Some(mv) ==> {
            &&& (dims_ok(mv) && refs_ok(mv)) ==> (r matches Ok(m) && m@ == mv)
            &&& !dims_ok(mv) ==> (r matches Err(e) && e@ matches ModelErrorV::Dimension { .. })
            &&& (dims_ok(mv) && !refs_ok(mv)) ==> (r matches Err(e) && e@
                matches ModelErrorV::Referential { .. })
        },
        r matches Ok(m) ==> model_of_doc(*d) == Some(m@) && valid(m@),
{
    let m = match parse_model(d) {
        Some(m) => m,
        None => {
            return Err(ModelError::Schema);
        },
    };
    match check_dims(&m) {
        Some(e) => {
            return Err(e);
        },
        None => {},
    }
    match check_refs(&m) {
        Some(e) => {
            return Err(e);
        },
        None => {},
    }
    Ok(m)
}

/// Law: the canonical interchange document round-trips. Serializing a valid
/// model yields a document whose decoding is that model, and any
/// deserializer result that meets `load_data_from_json`'s contract on such
/// a document is `Ok` with a model equal to the original, field for field.
pub proof fn lemma_document_round_trip(mv: ModelV, d: Doc, r: Result<Model, ModelError>)
    requires
        valid(mv),
        model_of_doc(d) == Some(mv),
        (dims_ok(mv) && refs_ok(mv)) ==> (r matches Ok(m) && m@ == mv),
    ensures
        r matches Ok(m) && m@ == mv,
{
}

} // verus!
