use envolvente::ctehexml::{load_data_from_ctehexml, LoadError};
use envolvente::kyg::load_fshobst_data_from_kyg;
use envolvente::model::{BoundaryPosition, ClimateZone, HoleKind, Orientation};
use envolvente::text::ParseError;

/// Two windows with obstruction factors parse into a mapping ordered by
/// key.
#[test]
fn kyg_two_windows_ordered() {
    let data = "W1: fshobst=0.8\nW2: fshobst=1.0";
    let map = load_fshobst_data_from_kyg(data).unwrap();
    assert_eq!(map.len(), 2);
    assert_eq!(map[0], ("W1".to_string(), 800));
    assert_eq!(map[1], ("W2".to_string(), 1_000));
}

/// Records arrive unordered; the mapping is still ordered by key, and a
/// later record for a name replaces the earlier one.
#[test]
fn kyg_sorts_and_replaces() {
    let data = "B: fshobst=0.5\nA: fshobst=0.25\nB: fshobst=0.75\n";
    let map = load_fshobst_data_from_kyg(data).unwrap();
    assert_eq!(map.len(), 2);
    assert_eq!(map[0], ("A".to_string(), 250));
    assert_eq!(map[1], ("B".to_string(), 750));
}

/// A malformed record is a structural error, not a partial mapping.
#[test]
fn kyg_malformed_record_fails() {
    assert_eq!(
        load_fshobst_data_from_kyg("W1 fshobst 0.8").unwrap_err(),
        ParseError::BadRecord
    );
    assert_eq!(
        load_fshobst_data_from_kyg("W1: fshobst=abc").unwrap_err(),
        ParseError::BadRecord
    );
}

/// Fixed-point decimals admit one to three fraction digits and plain
/// integers.
#[test]
fn kyg_number_forms() {
    let data = "A: fshobst=2\nB: fshobst=0.125\nC: fshobst=1.5";
    let map = load_fshobst_data_from_kyg(data).unwrap();
    assert_eq!(map[0], ("A".to_string(), 2_000));
    assert_eq!(map[1], ("B".to_string(), 125));
    assert_eq!(map[2], ("C".to_string(), 1_500));
    // Four fraction digits are not a fixed-point decimal.
    assert_eq!(
        load_fshobst_data_from_kyg("D: fshobst=0.1234").unwrap_err(),
        ParseError::BadRecord
    );
    // An empty integer part is not a fixed-point decimal.
    assert_eq!(
        load_fshobst_data_from_kyg("D: fshobst=.5").unwrap_err(),
        ParseError::BadRecord
    );
}

/// The plain-text parser returns identical output across repeated calls.
#[test]
fn kyg_deterministic_across_calls() {
    let data = "W2: fshobst=1.0\nW1: fshobst=0.8";
    let a = load_fshobst_data_from_kyg(data).unwrap();
    let b = load_fshobst_data_from_kyg(data).unwrap();
    assert_eq!(a, b);
}

fn sample_export() -> String {
    [
        "META;casa;D3;CONDITIONED;STANDARD",
        "<CATALOG>",
        "CONSTRUCTION;muro;0.3",
        "CONSTRUCTION;vidrio;2.5",
        "</CATALOG>",
        "<GEOMETRY>",
        "SPACE;S1;100;2.5;2.8;C",
        "WALL;W1;50;muro;S1;WALL;N",
        "WINDOW;V1;2;vidrio;W1;S;0.7;0.8;W",
        "</GEOMETRY>",
    ]
    .join("\n")
}

/// A well-formed verbose export assembles the canonical model.
#[test]
fn ctehexml_full_document() {
    let model = load_data_from_ctehexml(&sample_export()).unwrap();
    assert_eq!(model.meta.name, "casa");
    assert_eq!(model.meta.climate, ClimateZone::D3);
    assert_eq!(model.spaces.len(), 1);
    assert_eq!(model.spaces[0].area, 100_000);
    assert_eq!(model.spaces[0].height_net, 2_500);
    assert_eq!(model.spaces[0].height_gross, 2_800);
    assert!(model.spaces[0].conditioned);
    assert_eq!(model.walls.len(), 1);
    assert_eq!(model.walls[0].area, 50_000);
    assert_eq!(model.walls[0].position, BoundaryPosition::Side);
    assert_eq!(model.walls[0].orientation, Some(Orientation::North));
    assert_eq!(model.windows.len(), 1);
    assert_eq!(model.windows[0].g_factor, 700);
    assert_eq!(model.windows[0].fshobst, 800);
    assert_eq!(model.windows[0].orientation, Orientation::South);
    assert_eq!(model.windows[0].kind, HoleKind::Glazed);
    assert_eq!(model.constructions.len(), 2);
    assert_eq!(model.constructions[0].u_value, 300);
    assert_eq!(model.constructions[1].u_value, 2_500);
}

/// Metadata is optional: documented defaults substitute for it.
#[test]
fn ctehexml_defaults_without_meta() {
    let data = "<CATALOG>\n</CATALOG>\n<GEOMETRY>\nSPACE;S1;10;2.5;2.5;C\n</GEOMETRY>";
    let model = load_data_from_ctehexml(data).unwrap();
    assert_eq!(model.meta.name, "");
    assert_eq!(model.meta.climate, ClimateZone::D3);
}

/// Absent mandatory anchors are structural errors.
#[test]
fn ctehexml_missing_anchors() {
    assert_eq!(
        load_data_from_ctehexml("").unwrap_err(),
        LoadError::Parse(ParseError::MissingCatalogAnchor)
    );
    assert_eq!(
        load_data_from_ctehexml("<CATALOG>\nCONSTRUCTION;muro;0.3").unwrap_err(),
        LoadError::Parse(ParseError::MissingCatalogAnchor)
    );
    assert_eq!(
        load_data_from_ctehexml("<CATALOG>\n</CATALOG>").unwrap_err(),
        LoadError::Parse(ParseError::MissingGeometryAnchor)
    );
    assert_eq!(
        load_data_from_ctehexml("<CATALOG>\n</CATALOG>\n<GEOMETRY>\nSPACE;S1;10;2.5;2.5;C")
            .unwrap_err(),
        LoadError::Parse(ParseError::MissingGeometryAnchor)
    );
}

/// A malformed record inside a section is a structural error.
#[test]
fn ctehexml_malformed_record() {
    let data = "<CATALOG>\nCONSTRUCTION;muro\n</CATALOG>\n<GEOMETRY>\n</GEOMETRY>";
    assert_eq!(
        load_data_from_ctehexml(data).unwrap_err(),
        LoadError::Parse(ParseError::BadRecord)
    );
}

/// A wall whose construction name is absent from the embedded catalog is a
/// referential error, never a silent default.
#[test]
fn ctehexml_unresolved_construction_fails() {
    let data = "<CATALOG>\n</CATALOG>\n<GEOMETRY>\nSPACE;S1;100;2.5;2.8;C\nWALL;W1;50;ghost;S1;WALL;N\n</GEOMETRY>";
    let err = load_data_from_ctehexml(data).unwrap_err();
    assert!(matches!(
        err,
        LoadError::Model(envolvente::doc::ModelError::Referential { .. })
    ));
}

/// The verbose-export parser returns identical output across repeated
/// calls.
#[test]
fn ctehexml_deterministic_across_calls() {
    let data = sample_export();
    let a = load_data_from_ctehexml(&data).unwrap();
    let b = load_data_from_ctehexml(&data).unwrap();
    assert_eq!(a, b);
}
