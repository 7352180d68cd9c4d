//! Verbose-export parser: a line-oriented document with an embedded
//! construction catalog section and a geometry section between mandatory
//! anchors. Optional metadata is tolerated and defaulted; absent or
//! out-of-order anchors are a structural parse error; the assembled model
//! is validated for dimension bounds and referential integrity.

use vstd::prelude::*;
use crate::model::{
    AreaConvention, Airtightness, BoundaryPosition, ClimateZone, Construction, ConstructionV,
    HoleKind, Meta, MetaV, Model, ModelV, Orientation, Space, SpaceV, Wall, WallV, Window, WindowV,
    dims_ok, refs_ok, valid,
};
use crate::text::{ParseError, split_at, split_on, str_eq, parse_fixed, parse_fixed_spec};
use crate::doc::{ModelError, ModelErrorV, check_dims, check_refs};

verus! {

/// Why a verbose export could not be loaded: the text could not be parsed,
/// or the parsed model failed validation.
#[derive(Clone, Debug, PartialEq)]
pub enum LoadError {
    Parse(ParseError),
    Model(ModelError),
}

/// View of `LoadError`.
pub enum LoadErrorV {
    Parse(ParseError),
    Model(ModelErrorV),
}

impl View for LoadError {
    type V = LoadErrorV;

    open spec fn view(&self) -> LoadErrorV {
        match self {
            LoadError::Parse(e) => LoadErrorV::Parse(*e),
            LoadError::Model(e) => LoadErrorV::Model(e@),
        }
    }
}

/// Where in the document the parser stands.
#[derive(Clone, Copy, PartialEq, Eq, Structural, Debug)]
pub enum Phase {
    BeforeCatalog,
    InCatalog,
    BetweenSections,
    InGeometry,
    Done,
}

/// Parser state: the phase and the records collected so far.
pub struct PStateV {
    pub phase: Phase,
    pub meta: MetaV,
    pub spaces: Seq<SpaceV>,
    pub walls: Seq<WallV>,
    pub windows: Seq<WindowV>,
    pub cons: Seq<ConstructionV>,
}

/// The state before any line: documented defaults for the optional
/// metadata, no records.
pub open spec fn init_state() -> PStateV {
    PStateV {
        phase: Phase::BeforeCatalog,
        meta: MetaV {
            name: Seq::empty(),
            climate: ClimateZone::D3,
            convention: AreaConvention::ConditionedOnly,
            airtightness: Airtightness::Standard,
        },
        spaces: Seq::empty(),
        walls: Seq::empty(),
        windows: Seq::empty(),
        cons: Seq::empty(),
    }
}

/// Climate zone of its token.
pub open spec fn zone_from_token(s: Seq<char>) -> Option<ClimateZone> {
    if s == "A3"@ { Some(ClimateZone::A3) }
    else if s == "A4"@ { Some(ClimateZone::A4) }
    else if s == "B3"@ { Some(ClimateZone::B3) }
    else if s == "B4"@ { Some(ClimateZone::B4) }
    else if s == "C1"@ { Some(ClimateZone::C1) }
    else if s == "C2"@ { Some(ClimateZone::C2) }
    else if s == "C3"@ { Some(ClimateZone::C3) }
    else if s == "C4"@ { Some(ClimateZone::C4) }
    else if s == "D1"@ { Some(ClimateZone::D1) }
    else if s == "D2"@ { Some(ClimateZone::D2) }
    else if s == "D3"@ { Some(ClimateZone::D3) }
    else if s == "E1"@ { Some(ClimateZone::E1) }
    else { None }
}

/// Orientation of its token; the empty token stands for absent orientation.
pub open spec fn orient_from_token(s: Seq<char>) -> Option<Option<Orientation>> {
    if s.len() == 0 { Some(None) }
    else if s == "N"@ { Some(Some(Orientation::North)) }
    else if s == "NE"@ { Some(Some(Orientation::NorthEast)) }
    else if s == "E"@ { Some(Some(Orientation::East)) }
    else if s == "SE"@ { Some(Some(Orientation::SouthEast)) }
    else if s == "S"@ { Some(Some(Orientation::South)) }
    else if s == "SW"@ { Some(Some(Orientation::SouthWest)) }
    else if s == "W"@ { Some(Some(Orientation::West)) }
    else if s == "NW"@ { Some(Some(Orientation::NorthWest)) }
    else if s == "H"@ { Some(Some(Orientation::Horizontal)) }
    else { None }
}

/// Exec mirror of `zone_from_token`.
fn tok_zone(s: &str) -> (r: Option<ClimateZone>)
    ensures
        r == zone_from_token(s@),
{
    if str_eq(s, "A3") { Some(ClimateZone::A3) }
    else if str_eq(s, "A4") { Some(ClimateZone::A4) }
    else if str_eq(s, "B3") { Some(ClimateZone::B3) }
    else if str_eq(s, "B4") { Some(ClimateZone::B4) }
    else if str_eq(s, "C1") { Some(ClimateZone::C1) }
    else if str_eq(s, "C2") { Some(ClimateZone::C2) }
    else if str_eq(s, "C3") { Some(ClimateZone::C3) }
    else if str_eq(s, "C4") { Some(ClimateZone::C4) }
    else if str_eq(s, "D1") { Some(ClimateZone::D1) }
    else if str_eq(s, "D2") { Some(ClimateZone::D2) }
    else if str_eq(s, "D3") { Some(ClimateZone::D3) }
    else if str_eq(s, "E1") { Some(ClimateZone::E1) }
    else { None }
}

/// Exec mirror of `orient_from_token`.
fn tok_orient(s: &str) -> (r: Option<Option<Orientation>>)
    ensures
        r == orient_from_token(s@),
{
    if s.unicode_len() == 0 { Some(None) }
    else if str_eq(s, "N") { Some(Some(Orientation::North)) }
    else if str_eq(s, "NE") { Some(Some(Orientation::NorthEast)) }
    else if str_eq(s, "E") { Some(Some(Orientation::East)) }
    else if str_eq(s, "SE") { Some(Some(Orientation::SouthEast)) }
    else if str_eq(s, "S") { Some(Some(Orientation::South)) }
    else if str_eq(s, "SW") { Some(Some(Orientation::SouthWest)) }
    else if str_eq(s, "W") { Some(Some(Orientation::West)) }
    else if str_eq(s, "NW") { Some(Some(Orientation::NorthWest)) }
    else if str_eq(s, "H") { Some(Some(Orientation::Horizontal)) }
    else { None }
}

/// Metadata of a `META` record: name, zone, area convention, airtightness.
pub open spec fn meta_from_fields(fields: Seq<Seq<char>>) -> Option<MetaV> {
    if fields.len() == 5 {
        match zone_from_token(fields[2]) {
            Some(climate) => {
                let conv = if fields[3] == "CONDITIONED"@ {
                    Some(AreaConvention::ConditionedOnly)
                } else if fields[3] == "ALL"@ {
                    Some(AreaConvention::AllSpaces)
                } else {
                    None
                };
                let air = if fields[4] == "TIGHT"@ {
                    Some(Airtightness::Tight)
                } else if fields[4] == "STANDARD"@ {
                    Some(Airtightness::Standard)
                } else if fields[4] == "LOOSE"@ {
                    Some(Airtightness::Loose)
                } else {
                    None
                };
                match (conv, air) {
                    (Some(convention), Some(airtightness)) => Some(
                        MetaV { name: fields[1], climate, convention, airtightness },
                    ),
                    _ => None,
                }
            },
            None => None,
        }
    } else {
        None
    }
}

/// Space of a `SPACE` record: name, area, net height, gross height,
/// conditioning flag.
pub open spec fn space_from_fields(fields: Seq<Seq<char>>) -> Option<SpaceV> {
    if fields.len() == 6 {
        match (parse_fixed_spec(fields[2]), parse_fixed_spec(fields[3]), parse_fixed_spec(
            fields[4],
        )) {
            (Some(area), Some(hn), Some(hg)) => {
                if fields[5] == "C"@ {
                    Some(
                        SpaceV {
                            name: fields[1],
                            area,
                            height_net: hn,
                            height_gross: hg,
                            conditioned: true,
                        },
                    )
                } else if fields[5] == "U"@ {
                    Some(
                        SpaceV {
                            name: fields[1],
                            area,
                            height_net: hn,
                            height_gross: hg,
                            conditioned: false,
                        },
                    )
                } else {
                    None
                }
            },
            _ => None,
        }
    } else {
        None
    }
}

/// Catalog entry of a `CONSTRUCTION` record: name and transmittance.
pub open spec fn construction_from_fields(fields: Seq<Seq<char>>) -> Option<ConstructionV> {
    if fields.len() == 3 {
        match parse_fixed_spec(fields[2]) {
            Some(u) => Some(ConstructionV { name: fields[1], u_value: u }),
            None => None,
        }
    } else {
        None
    }
}

/// Opaque component of a `WALL` record: name, area, construction, space,
/// position, optional orientation.
pub open spec fn wall_from_fields(fields: Seq<Seq<char>>) -> Option<WallV> {
    if fields.len() == 7 {
        match (parse_fixed_spec(fields[2]), orient_from_token(fields[6])) {
            (Some(area), Some(orientation)) => {
                let pos = if fields[5] == "WALL"@ {
                    Some(BoundaryPosition::Side)
                } else if fields[5] == "ROOF"@ {
                    Some(BoundaryPosition::Top)
                } else if fields[5] == "FLOOR"@ {
                    Some(BoundaryPosition::Bottom)
                } else {
                    None
                };
                match pos {
                    Some(position) => Some(
                        WallV {
                            name: fields[1],
                            area,
                            construction: fields[3],
                            space: fields[4],
                            position,
                            orientation,
                        },
                    ),
                    None => None,
                }
            },
            _ => None,
        }
    } else {
        None
    }
}

/// Hole component of a `WINDOW` record: name, area, construction, wall,
/// orientation, solar factor, obstruction factor, kind.
pub open spec fn window_from_fields(fields: Seq<Seq<char>>) -> Option<WindowV> {
    if fields.len() == 9 {
        match (parse_fixed_spec(fields[2]), orient_from_token(fields[5]), parse_fixed_spec(
            fields[6],
        ), parse_fixed_spec(fields[7])) {
            (Some(area), Some(Some(orientation)), Some(g), Some(fs)) => {
                let kind = if fields[8] == "W"@ {
                    Some(HoleKind::Glazed)
                } else if fields[8] == "D"@ {
                    Some(HoleKind::Door)
                } else {
                    None
                };
                match kind {
                    Some(kind) => Some(
                        WindowV {
                            name: fields[1],
                            area,
                            construction: fields[3],
                            wall: fields[4],
                            orientation,
                            g_factor: g,
                            fshobst: fs,
                            kind,
                        },
                    ),
                    None => None,
                }
            },
            _ => None,
        }
    } else {
        None
    }
}

/// One line applied to the parser state: anchors drive the phase, records
/// are admitted only inside their section, empty lines are skipped, and
/// anything else is a structural error.
pub open spec fn ctex_step(st: PStateV, line: Seq<char>) -> Result<PStateV, ParseError> {
    if line.len() == 0 {
        Ok(st)
    } else if line == "<CATALOG>"@ {
        if st.phase == Phase::BeforeCatalog {
            Ok(PStateV { phase: Phase::InCatalog, ..st })
        } else {
            Err(ParseError::BadRecord)
        }
    } else if line == "</CATALOG>"@ {
        if st.phase == Phase::InCatalog {
            Ok(PStateV { phase: Phase::BetweenSections, ..st })
        } else {
            Err(ParseError::BadRecord)
        }
    } else if line == "<GEOMETRY>"@ {
        if st.phase == Phase::BetweenSections {
            Ok(PStateV { phase: Phase::InGeometry, ..st })
        } else {
            Err(ParseError::BadRecord)
        }
    } else if line == "</GEOMETRY>"@ {
        if st.phase == Phase::InGeometry {
            Ok(PStateV { phase: Phase::Done, ..st })
        } else {
            Err(ParseError::BadRecord)
        }
    } else {
        let fields = split_at(line, ';');
        if fields[0] == "META"@ {
            if st.phase == Phase::BeforeCatalog {
                match meta_from_fields(fields) {
                    Some(meta) => Ok(PStateV { meta, ..st }),
                    None => Err(ParseError::BadRecord),
                }
            } else {
                Err(ParseError::BadRecord)
            }
        } else if fields[0] == "CONSTRUCTION"@ {
            if st.phase == Phase::InCatalog {
                match construction_from_fields(fields) {
                    Some(c) => Ok(PStateV { cons: st.cons.push(c), ..st }),
                    None => Err(ParseError::BadRecord),
                }
            } else {
                Err(ParseError::BadRecord)
            }
        } else if fields[0] == "SPACE"@ {
            if st.phase == Phase::InGeometry {
                match space_from_fields(fields) {
                    Some(s) => Ok(PStateV { spaces: st.spaces.push(s), ..st }),
                    None => Err(ParseError::BadRecord),
                }
            } else {
                Err(ParseError::BadRecord)
            }
        } else if fields[0] == "WALL"@ {
            if st.phase == Phase::InGeometry {
                match wall_from_fields(fields) {
                    Some(w) => Ok(PStateV { walls: st.walls.push(w), ..st }),
                    None => Err(ParseError::BadRecord),
                }
            } else {
                Err(ParseError::BadRecord)
            }
        } else if fields[0] == "WINDOW"@ {
            if st.phase == Phase::InGeometry {
                match window_from_fields(fields) {
                    Some(w) => Ok(PStateV { windows: st.windows.push(w), ..st }),
                    None => Err(ParseError::BadRecord),
                }
            } else {
                Err(ParseError::BadRecord)
            }
        } else {
            Err(ParseError::BadRecord)
        }
    }
}

/// The parser state after the first `n` lines.
pub open spec fn ctex_fold(lines: Seq<Seq<char>>, n: int) -> Result<PStateV, ParseError>
    decreases n,
{
    if n <= 0 {
        Ok(init_state())
    } else {
        match ctex_fold(lines, n - 1) {
            Err(e) => Err(e),
            Ok(st) => ctex_step(st, lines[n - 1]),
        }
    }
}

/// A parse that has failed stays failed over any further lines.
pub proof fn lemma_ctex_fold_err(lines: Seq<Seq<char>>, m: int, n: int)
    requires
        0 <= m <= n,
        ctex_fold(lines, m) is Err,
    ensures
        ctex_fold(lines, n) == ctex_fold(lines, m),
    decreases n - m,
{
    if n > m {
        lemma_ctex_fold_err(lines, m, n - 1);
    }
}

/// The model a finished parser state holds.
pub open spec fn state_model(st: PStateV) -> ModelV {
    ModelV {
        meta: st.meta,
        spaces: st.spaces,
        walls: st.walls,
        windows: st.windows,
        constructions: st.cons,
    }
}

/// The parsed model of a whole verbose export, before validation: both
/// sections must be opened and closed, in order.
pub open spec fn ctehexml_spec(s: Seq<char>) -> Result<ModelV, ParseError> {
    let lines = split_at(s, '\n');
    match ctex_fold(lines, lines.len() as int) {
        Err(e) => Err(e),
        Ok(st) => {
            if st.phase == Phase::Done {
                Ok(state_model(st))
            } else if st.phase == Phase::BeforeCatalog || st.phase == Phase::InCatalog {
                Err(ParseError::MissingCatalogAnchor)
            } else {
                Err(ParseError::MissingGeometryAnchor)
            }
        },
    }
}

/// Law: the verbose-export parser is deterministic. Its result is a
/// function of the input characters alone, so two results that both meet
/// the parser's contract on one input are the same model or the same error.
pub proof fn lemma_ctehexml_deterministic(
    s: Seq<char>,
    r1: Result<ModelV, ParseError>,
    r2: Result<ModelV, ParseError>,
)
    requires
        r1 == ctehexml_spec(s),
        r2 == ctehexml_spec(s),
    ensures
        r1 == r2,
{
}

/// Parses a verbose export and validates the assembled model. Pure in the
/// input text. Fails with a structural error when the text does not parse,
/// and with the validation error when the parsed model is out of range or
/// referentially broken.
pub fn load_data_from_ctehexml(data: &str) -> (r: Result<Model, LoadError>)
    ensures
        ctehexml_spec(data@) matches Err(pe) ==> (r matches Err(le) && le@ == LoadErrorV::Parse(
            pe,
        )),
        ctehexml_spec(data@) matches Ok(mv) ==> {
            &&& (dims_ok(mv) && refs_ok(mv)) ==> (r matches Ok(m) && m@ == mv)
            &&& !dims_ok(mv) ==> (r matches Err(le) && le@ matches LoadErrorV::Model(
                ModelErrorV::Dimension { .. },
            ))
            &&& (dims_ok(mv) && !refs_ok(mv)) ==> (r matches Err(le) && le@
                matches LoadErrorV::Model(ModelErrorV::Referential { .. }))
        },
        r matches Ok(m) ==> ctehexml_spec(data@) == Ok::<ModelV, ParseError>(m@) && valid(m@),
{
    let lines = split_on(data, '\n');
    let ghost linesv = split_at(data@, '\n');
    let n = lines.len();

    let mut phase = Phase::BeforeCatalog;
    let mut meta = Meta {
        name: String::new(),
        climate: ClimateZone::D3,
        convention: AreaConvention::ConditionedOnly,
        airtightness: Airtightness::Standard,
    };
    let mut spaces: Vec<Space> = Vec::new();
    let mut walls: Vec<Wall> = Vec::new();
    let mut windows: Vec<Window> = Vec::new();
    let mut cons: Vec<Construction> = Vec::new();

    proof {
        assert(Seq::<Space>::empty().map_values(|x: Space| x@) =~= Seq::<SpaceV>::empty());
        assert(Seq::<Wall>::empty().map_values(|x: Wall| x@) =~= Seq::<WallV>::empty());
        assert(Seq::<Window>::empty().map_values(|x: Window| x@) =~= Seq::<WindowV>::empty());
        assert(Seq::<Construction>::empty().map_values(|x: Construction| x@)
            =~= Seq::<ConstructionV>::empty());
        assert(init_state() == PStateV {
            phase,
            meta: meta@,
            spaces: spaces@.map_values(|x: Space| x@),
            walls: walls@.map_values(|x: Wall| x@),
            windows: windows@.map_values(|x: Window| x@),
            cons: cons@.map_values(|x: Construction| x@),
        });
    }

    for i in 0..n
        invariant
            n == lines.len(),
            linesv == split_at(data@, '\n'),
            lines@.map_values(|p: String| p@) == linesv,
            ctex_fold(linesv, i as int) == Ok::<PStateV, ParseError>(
                PStateV {
                    phase,
                    meta: meta@,
                    spaces: spaces@.map_values(|x: Space| x@),
                    walls: walls@.map_values(|x: Wall| x@),
                    windows: windows@.map_values(|x: Window| x@),
                    cons: cons@.map_values(|x: Construction| x@),
                },
            ),
    {
        let line = lines[i].as_str();
        proof {
            assert(lines@[i as int]@ == linesv[i as int]);
        }
        let ghost stv = PStateV {
            phase,
            meta: meta@,
            spaces: spaces@.map_values(|x: Space| x@),
            walls: walls@.map_values(|x: Wall| x@),
            windows: windows@.map_values(|x: Window| x@),
            cons: cons@.map_values(|x: Construction| x@),
        };
        if line.unicode_len() == 0 {
            // An empty line leaves the state unchanged.
        } else if str_eq(line, "<CATALOG>") {
            if !matches!(phase, Phase::BeforeCatalog) {
                proof {
                    lemma_ctex_fold_err(linesv, i + 1, n as int);
                }
                return Err(LoadError::Parse(ParseError::BadRecord));
            }
            phase = Phase::InCatalog;
        } else if str_eq(line, "</CATALOG>") {
            if !matches!(phase, Phase::InCatalog) {
                proof {
                    lemma_ctex_fold_err(linesv, i + 1, n as int);
                }
                return Err(LoadError::Parse(ParseError::BadRecord));
            }
            phase = Phase::BetweenSections;
        } else if str_eq(line, "<GEOMETRY>") {
            if !matches!(phase, Phase::BetweenSections) {
                proof {
                    lemma_ctex_fold_err(linesv, i + 1, n as int);
                }
                return Err(LoadError::Parse(ParseError::BadRecord));
            }
            phase = Phase::InGeometry;
        } else if str_eq(line, "</GEOMETRY>") {
            if !matches!(phase, Phase::InGeometry) {
                proof {
                    lemma_ctex_fold_err(linesv, i + 1, n as int);
                }
                return Err(LoadError::Parse(ParseError::BadRecord));
            }
            phase = Phase::Done;
        } else {
            let fields = split_on(line, ';');
            proof {
                assert(fields@.map_values(|p: String| p@) == split_at(linesv[i as int], ';'));
                crate::text::lemma_split_nonempty(linesv[i as int], ';');
                assert(fields@[0]@ == split_at(linesv[i as int], ';')[0]);
            }
            let ghost fieldsv = split_at(linesv[i as int], ';');
            proof {
                assert forall|k: int| 0 <= k < fields@.len() implies #[trigger] fields@[k]@
                    == fieldsv[k] by {}
            }
            if str_eq(fields[0].as_str(), "META") {
                if !matches!(phase, Phase::BeforeCatalog) || fields.len() != 5 {
                    proof {
                        lemma_ctex_fold_err(linesv, i + 1, n as int);
                    }
                    return Err(LoadError::Parse(ParseError::BadRecord));
                }
                let climate = match tok_zone(fields[2].as_str()) {
                    Some(z) => z,
                    None => {
                        proof {
                            lemma_ctex_fold_err(linesv, i + 1, n as int);
                        }
                        return Err(LoadError::Parse(ParseError::BadRecord));
                    },
                };
                let convention = if str_eq(fields[3].as_str(), "CONDITIONED") {
                    AreaConvention::ConditionedOnly
                } else if str_eq(fields[3].as_str(), "ALL") {
                    AreaConvention::AllSpaces
                } else {
                    proof {
                        lemma_ctex_fold_err(linesv, i + 1, n as int);
                    }
                    return Err(LoadError::Parse(ParseError::BadRecord));
                };
                let airtightness = if str_eq(fields[4].as_str(), "TIGHT") {
                    Airtightness::Tight
                } else if str_eq(fields[4].as_str(), "STANDARD") {
                    Airtightness::Standard
                } else if str_eq(fields[4].as_str(), "LOOSE") {
                    Airtightness::Loose
                } else {
                    proof {
                        lemma_ctex_fold_err(linesv, i + 1, n as int);
                    }
                    return Err(LoadError::Parse(ParseError::BadRecord));
                };
                meta = Meta { name: fields[1].clone(), climate, convention, airtightness };
            } else if str_eq(fields[0].as_str(), "CONSTRUCTION") {
                if !matches!(phase, Phase::InCatalog) || fields.len() != 3 {
                    proof {
                        lemma_ctex_fold_err(linesv, i + 1, n as int);
                    }
                    return Err(LoadError::Parse(ParseError::BadRecord));
                }
                let u = match parse_fixed(fields[2].as_str()) {
                    Some(v) => v,
                    None => {
                        proof {
                            lemma_ctex_fold_err(linesv, i + 1, n as int);
                        }
                        return Err(LoadError::Parse(ParseError::BadRecord));
                    },
                };
                let c = Construction { name: fields[1].clone(), u_value: u };
                proof {
                    assert(cons@.push(c).map_values(|x: Construction| x@) =~= cons@.map_values(
                        |x: Construction| x@,
                    ).push(c@));
                }
                cons.push(c);
            } else if str_eq(fields[0].as_str(), "SPACE") {
                if !matches!(phase, Phase::InGeometry) || fields.len() != 6 {
                    proof {
                        lemma_ctex_fold_err(linesv, i + 1, n as int);
                    }
                    return Err(LoadError::Parse(ParseError::BadRecord));
                }
                let area = match parse_fixed(fields[2].as_str()) {
                    Some(v) => v,
                    None => {
                        proof {
                            lemma_ctex_fold_err(linesv, i + 1, n as int);
                        }
                        return Err(LoadError::Parse(ParseError::BadRecord));
                    },
                };
                let hn = match parse_fixed(fields[3].as_str()) {
                    Some(v) => v,
                    None => {
                        proof {
                            lemma_ctex_fold_err(linesv, i + 1, n as int);
                        }
                        return Err(LoadError::Parse(ParseError::BadRecord));
                    },
                };
                let hg = match parse_fixed(fields[4].as_str()) {
                    Some(v) => v,
                    None => {
                        proof {
                            lemma_ctex_fold_err(linesv, i + 1, n as int);
                        }
                        return Err(LoadError::Parse(ParseError::BadRecord));
                    },
                };
                let conditioned = if str_eq(fields[5].as_str(), "C") {
                    true
                } else if str_eq(fields[5].as_str(), "U") {
                    false
                } else {
                    proof {
                        lemma_ctex_fold_err(linesv, i + 1, n as int);
                    }
                    return Err(LoadError::Parse(ParseError::BadRecord));
                };
                let s = Space {
                    name: fields[1].clone(),
                    area,
                    height_net: hn,
                    height_gross: hg,
                    conditioned,
                };
                proof {
                    assert(spaces@.push(s).map_values(|x: Space| x@) =~= spaces@.map_values(
                        |x: Space| x@,
                    ).push(s@));
                }
                spaces.push(s);
            } else if str_eq(fields[0].as_str(), "WALL") {
                if !matches!(phase, Phase::InGeometry) || fields.len() != 7 {
                    proof {
                        lemma_ctex_fold_err(linesv, i + 1, n as int);
                    }
                    return Err(LoadError::Parse(ParseError::BadRecord));
                }
                let area = match parse_fixed(fields[2].as_str()) {
                    Some(v) => v,
                    None => {
                        proof {
                            lemma_ctex_fold_err(linesv, i + 1, n as int);
                        }
                        return Err(LoadError::Parse(ParseError::BadRecord));
                    },
                };
                let orientation = match tok_orient(fields[6].as_str()) {
                    Some(o) => o,
                    None => {
                        proof {
                            lemma_ctex_fold_err(linesv, i + 1, n as int);
                        }
                        return Err(LoadError::Parse(ParseError::BadRecord));
                    },
                };
                let position = if str_eq(fields[5].as_str(), "WALL") {
                    BoundaryPosition::Side
                } else if str_eq(fields[5].as_str(), "ROOF") {
                    BoundaryPosition::Top
                } else if str_eq(fields[5].as_str(), "FLOOR") {
                    BoundaryPosition::Bottom
                } else {
                    proof {
                        lemma_ctex_fold_err(linesv, i + 1, n as int);
                    }
                    return Err(LoadError::Parse(ParseError::BadRecord));
                };
                let w = Wall {
                    name: fields[1].clone(),
                    area,
                    construction: fields[3].clone(),
                    space: fields[4].clone(),
                    position,
                    orientation,
                };
                proof {
                    assert(walls@.push(w).map_values(|x: Wall| x@) =~= walls@.map_values(
                        |x: Wall| x@,
                    ).push(w@));
                }
                walls.push(w);
            } else if str_eq(fields[0].as_str(), "WINDOW") {
                if !matches!(phase, Phase::InGeometry) || fields.len() != 9 {
                    proof {
                        lemma_ctex_fold_err(linesv, i + 1, n as int);
                    }
                    return Err(LoadError::Parse(ParseError::BadRecord));
                }
                let area = match parse_fixed(fields[2].as_str()) {
                    Some(v) => v,
                    None => {
                        proof {
                            lemma_ctex_fold_err(linesv, i + 1, n as int);
                        }
                        return Err(LoadError::Parse(ParseError::BadRecord));
                    },
                };
                let orientation = match tok_orient(fields[5].as_str()) {
                    Some(Some(o)) => o,
                    _ => {
                        proof {
                            lemma_ctex_fold_err(linesv, i + 1, n as int);
                        }
                        return Err(LoadError::Parse(ParseError::BadRecord));
                    },
                };
                let g = match parse_fixed(fields[6].as_str()) {
                    Some(v) => v,
                    None => {
                        proof {
                            lemma_ctex_fold_err(linesv, i + 1, n as int);
                        }
                        return Err(LoadError::Parse(ParseError::BadRecord));
                    },
                };
                let fs = match parse_fixed(fields[7].as_str()) {
                    Some(v) => v,
                    None => {
                        proof {
                            lemma_ctex_fold_err(linesv, i + 1, n as int);
                        }
                        return Err(LoadError::Parse(ParseError::BadRecord));
                    },
                };
                let kind = if str_eq(fields[8].as_str(), "W") {
                    HoleKind::Glazed
                } else if str_eq(fields[8].as_str(), "D") {
                    HoleKind::Door
                } else {
                    proof {
                        lemma_ctex_fold_err(linesv, i + 1, n as int);
                    }
                    return Err(LoadError::Parse(ParseError::BadRecord));
                };
                let w = Window {
                    name: fields[1].clone(),
                    area,
                    construction: fields[3].clone(),
                    wall: fields[4].clone(),
                    orientation,
                    g_factor: g,
                    fshobst: fs,
                    kind,
                };
                proof {
                    assert(windows@.push(w).map_values(|x: Window| x@) =~= windows@.map_values(
                        |x: Window| x@,
                    ).push(w@));
                }
                windows.push(w);
            } else {
                proof {
                    lemma_ctex_fold_err(linesv, i + 1, n as int);
                }
                return Err(LoadError::Parse(ParseError::BadRecord));
            }
        }
    }

    let done = matches!(phase, Phase::Done);
    if !done {
        let in_catalog_part = matches!(phase, Phase::BeforeCatalog) || matches!(
            phase,
            Phase::InCatalog,
        );
        if in_catalog_part {
            return Err(LoadError::Parse(ParseError::MissingCatalogAnchor));
        }
        return Err(LoadError::Parse(ParseError::MissingGeometryAnchor));
    }
    let model = Model { meta, spaces, walls, windows, constructions: cons };
    match check_dims(&model) {
        Some(e) => {
            return Err(LoadError::Model(e));
        },
        None => {},
    }
    match check_refs(&model) {
        Some(e) => {
            return Err(LoadError::Model(e));
        },
        None => {},
    }
    Ok(model)
}

} // verus!
