use envolvente::climate::{find_radiation, total_radiation_in_july_by_orientation};
use envolvente::doc::{load_data_from_json, model_to_doc, Doc, ModelError, RefKind};
use envolvente::model::{
    Airtightness, AreaConvention, BoundaryPosition, ClimateZone, Construction, HoleKind, Meta,
    Model, Orientation, Space, Wall, Window,
};

fn sample_model() -> Model {
    Model {
        meta: Meta {
            name: "casa".to_string(),
            climate: ClimateZone::B4,
            convention: AreaConvention::ConditionedOnly,
            airtightness: Airtightness::Loose,
        },
        spaces: vec![Space {
            name: "S1".to_string(),
            area: 100_000,
            height_net: 2_500,
            height_gross: 2_800,
            conditioned: true,
        }],
        walls: vec![Wall {
            name: "W1".to_string(),
            area: 50_000,
            construction: "muro".to_string(),
            space: "S1".to_string(),
            position: BoundaryPosition::Side,
            orientation: Some(Orientation::NorthWest),
        }],
        windows: vec![Window {
            name: "V1".to_string(),
            area: 2_000,
            construction: "vidrio".to_string(),
            wall: "W1".to_string(),
            orientation: Orientation::South,
            g_factor: 700,
            fshobst: 800,
            kind: HoleKind::Door,
        }],
        constructions: vec![
            Construction {
                name: "muro".to_string(),
                u_value: 300,
            },
            Construction {
                name: "vidrio".to_string(),
                u_value: 2_500,
            },
        ],
    }
}

/// Serializing a model to the canonical interchange document and
/// deserializing it back yields an equal model, field for field.
#[test]
fn document_round_trip() {
    let model = sample_model();
    let doc = model_to_doc(&model);
    let back = load_data_from_json(&doc).unwrap();
    assert_eq!(back, model);
}

/// A document that is not a canonical model shape is a schema error.
#[test]
fn schema_error_on_wrong_shape() {
    assert_eq!(load_data_from_json(&Doc::I(5)).unwrap_err(), ModelError::Schema);
    assert_eq!(
        load_data_from_json(&Doc::S("x".to_string())).unwrap_err(),
        ModelError::Schema
    );
    assert_eq!(load_data_from_json(&Doc::L(vec![])).unwrap_err(), ModelError::Schema);
}

/// A wall referencing a construction absent from the catalog fails with a
/// referential error, never a silent default.
#[test]
fn unresolved_wall_construction_is_referential_error() {
    let mut model = sample_model();
    model.walls[0].construction = "ghost".to_string();
    let doc = model_to_doc(&model);
    let err = load_data_from_json(&doc).unwrap_err();
    assert_eq!(
        err,
        ModelError::Referential {
            kind: RefKind::WallConstruction,
            subject: "ghost".to_string(),
        }
    );
}

/// A window referencing a missing wall fails with a referential error.
#[test]
fn unresolved_window_wall_is_referential_error() {
    let mut model = sample_model();
    model.windows[0].wall = "nowhere".to_string();
    let doc = model_to_doc(&model);
    let err = load_data_from_json(&doc).unwrap_err();
    assert_eq!(
        err,
        ModelError::Referential {
            kind: RefKind::WindowWall,
            subject: "nowhere".to_string(),
        }
    );
}

/// A net height above the gross height is a dimension error at
/// deserialization time.
#[test]
fn inverted_heights_are_dimension_error() {
    let mut model = sample_model();
    model.spaces[0].height_net = 3_000;
    model.spaces[0].height_gross = 2_500;
    let doc = model_to_doc(&model);
    let err = load_data_from_json(&doc).unwrap_err();
    assert!(matches!(err, ModelError::Dimension { .. }));
}

/// An orientation absent from the radiation table contributes zero gain
/// and raises one warning naming the window.
#[test]
fn missing_radiation_orientation_warns() {
    let model = sample_model();
    let partial: Vec<(Orientation, u64)> = vec![(Orientation::North, 70_000)];
    let (data, warnings) = model.q_soljul(&partial);
    assert_eq!(data.total, 0);
    assert_eq!(warnings.len(), 1);
    assert_eq!(
        warnings[0].kind,
        envolvente::checks::WarningKind::MissingRadiationOrientation
    );
    assert_eq!(warnings[0].subject, "V1");
}

/// The radiation table is total over the orientations, and sunnier zones
/// lie above the least sunny one.
#[test]
fn radiation_table_lookup() {
    let table = total_radiation_in_july_by_orientation(ClimateZone::D3);
    assert_eq!(table.len(), 9);
    assert_eq!(find_radiation(&table, Orientation::North), Some(70_000));
    assert_eq!(find_radiation(&table, Orientation::South), Some(140_000));
    assert_eq!(find_radiation(&table, Orientation::Horizontal), Some(230_000));
    let sunny = total_radiation_in_july_by_orientation(ClimateZone::A3);
    assert_eq!(find_radiation(&sunny, Orientation::South), Some(170_000));
    let empty: Vec<(Orientation, u64)> = vec![];
    assert_eq!(find_radiation(&empty, Orientation::South), None);
}
