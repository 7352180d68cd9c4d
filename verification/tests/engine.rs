use envolvente::checks::WarningKind;
use envolvente::doc::ModelError;
use envolvente::model::{
    Airtightness, AreaConvention, BoundaryPosition, ClimateZone, Construction, HoleKind, Meta,
    Model, Orientation, Space, Wall, Window,
};
use envolvente::report::{compute_indicators, he1_indicators};
use envolvente::doc::model_to_doc;

fn base_meta() -> Meta {
    Meta {
        name: "house".to_string(),
        climate: ClimateZone::D3,
        convention: AreaConvention::ConditionedOnly,
        airtightness: Airtightness::Standard,
    }
}

fn one_space(area: u64) -> Space {
    Space {
        name: "S1".to_string(),
        area,
        height_net: 2_500,
        height_gross: 2_800,
        conditioned: true,
    }
}

/// One square space of 100 m2, one wall of 50 m2 at transmittance 0.3:
/// the reference area is 100 m2 and K is exactly 0.15.
#[test]
fn example_scenario_reference_area_and_k() {
    let model = Model {
        meta: base_meta(),
        spaces: vec![one_space(100_000)],
        walls: vec![Wall {
            name: "W1".to_string(),
            area: 50_000,
            construction: "C1".to_string(),
            space: "S1".to_string(),
            position: BoundaryPosition::Side,
            orientation: Some(Orientation::North),
        }],
        windows: vec![],
        constructions: vec![Construction {
            name: "C1".to_string(),
            u_value: 300,
        }],
    };
    let report = compute_indicators(&model);
    assert_eq!(report.area_ref, 100_000);
    assert_eq!(report.K_data.ua_total, 15_000_000);
    assert_eq!(report.K_data.k, 150);
    assert!(report.warnings.is_empty());
}

/// K is zero when every envelope component has zero transmittance.
#[test]
fn k_zero_with_zero_transmittance() {
    let model = Model {
        meta: base_meta(),
        spaces: vec![one_space(100_000)],
        walls: vec![Wall {
            name: "W1".to_string(),
            area: 50_000,
            construction: "C0".to_string(),
            space: "S1".to_string(),
            position: BoundaryPosition::Side,
            orientation: Some(Orientation::North),
        }],
        windows: vec![],
        constructions: vec![Construction {
            name: "C0".to_string(),
            u_value: 0,
        }],
    };
    let report = compute_indicators(&model);
    assert_eq!(report.K_data.k, 0);
    assert_eq!(report.K_data.ua_total, 0);
}

/// Gross volume is at least net volume, and compacity uses the gross one.
#[test]
fn volumes_and_compacity() {
    let model = Model {
        meta: base_meta(),
        spaces: vec![one_space(100_000)],
        walls: vec![Wall {
            name: "W1".to_string(),
            area: 50_000,
            construction: "C1".to_string(),
            space: "S1".to_string(),
            position: BoundaryPosition::Side,
            orientation: Some(Orientation::North),
        }],
        windows: vec![],
        constructions: vec![Construction {
            name: "C1".to_string(),
            u_value: 300,
        }],
    };
    let report = compute_indicators(&model);
    // 100 m2 at 2.5 m net and 2.8 m gross.
    assert_eq!(report.vol_env_net, 250_000);
    assert_eq!(report.vol_env_gross, 280_000);
    assert!(report.vol_env_gross >= report.vol_env_net);
    // 280 m3 over 50 m2 of exposed envelope: 5.6 m.
    assert_eq!(report.compacity, Some(5_600));
}

/// Compacity is the sentinel when the exposed envelope area is zero.
#[test]
fn compacity_sentinel_without_envelope() {
    let model = Model {
        meta: base_meta(),
        spaces: vec![one_space(100_000)],
        walls: vec![],
        windows: vec![],
        constructions: vec![],
    };
    let report = compute_indicators(&model);
    assert_eq!(report.compacity, None);
}

/// Categories without area report the sentinel; categories with area report
/// the area-weighted average transmittance.
#[test]
fn u_values_by_category() {
    let model = Model {
        meta: base_meta(),
        spaces: vec![one_space(100_000)],
        walls: vec![
            Wall {
                name: "W1".to_string(),
                area: 10_000,
                construction: "C1".to_string(),
                space: "S1".to_string(),
                position: BoundaryPosition::Side,
                orientation: Some(Orientation::North),
            },
            Wall {
                name: "W2".to_string(),
                area: 30_000,
                construction: "C2".to_string(),
                space: "S1".to_string(),
                position: BoundaryPosition::Side,
                orientation: Some(Orientation::South),
            },
        ],
        windows: vec![],
        constructions: vec![
            Construction {
                name: "C1".to_string(),
                u_value: 1_000,
            },
            Construction {
                name: "C2".to_string(),
                u_value: 200,
            },
        ],
    };
    let report = compute_indicators(&model);
    // (1.0 * 10 + 0.2 * 30) / 40 = 0.4
    assert_eq!(report.u_values.walls, Some(400));
    assert_eq!(report.u_values.roofs, None);
    assert_eq!(report.u_values.floors, None);
    assert_eq!(report.u_values.windows, None);
    assert_eq!(report.u_values.doors, None);
}

/// July solar gain: factors, area and the zone radiation multiply out
/// exactly in fixed point.
#[test]
fn q_soljul_exact_value() {
    let model = Model {
        meta: base_meta(),
        spaces: vec![one_space(100_000)],
        walls: vec![Wall {
            name: "W1".to_string(),
            area: 50_000,
            construction: "C1".to_string(),
            space: "S1".to_string(),
            position: BoundaryPosition::Side,
            orientation: Some(Orientation::South),
        }],
        windows: vec![Window {
            name: "V1".to_string(),
            area: 2_000,
            construction: "C1".to_string(),
            wall: "W1".to_string(),
            orientation: Orientation::South,
            g_factor: 700,
            fshobst: 800,
            kind: HoleKind::Glazed,
        }],
        constructions: vec![Construction {
            name: "C1".to_string(),
            u_value: 300,
        }],
    };
    let report = compute_indicators(&model);
    // 0.8 * 0.7 = 0.56; * 2 m2 = 1.12; * 140 kWh/m2 (south, zone D3) = 156.8 kWh.
    assert_eq!(report.q_soljul_data.total, 156_800);
    // Normalized by 100 m2: 1.568 kWh/m2.
    assert_eq!(report.q_soljul_data.q_soljul, 1_568);
    // The whole gain belongs to the one space the wall bounds.
    assert_eq!(report.q_soljul_by_space, vec![("S1".to_string(), 156_800)]);
}

/// The infiltration estimate uses the class coefficient, the exposed area
/// and the net volume; it is the sentinel when the volume is zero.
#[test]
fn n50_formula_and_sentinel() {
    let model = Model {
        meta: base_meta(),
        spaces: vec![one_space(100_000)],
        walls: vec![Wall {
            name: "W1".to_string(),
            area: 50_000,
            construction: "C1".to_string(),
            space: "S1".to_string(),
            position: BoundaryPosition::Side,
            orientation: Some(Orientation::North),
        }],
        windows: vec![],
        constructions: vec![Construction {
            name: "C1".to_string(),
            u_value: 300,
        }],
    };
    let report = compute_indicators(&model);
    assert_eq!(report.n50_data.exposed_area, 50_000);
    assert_eq!(report.n50_data.vol, 250_000);
    // 4.0 * 50 / 250 = 0.8 air changes per hour.
    assert_eq!(report.n50_data.n50, Some(800));

    let flat = Model {
        meta: base_meta(),
        spaces: vec![Space {
            name: "S1".to_string(),
            area: 100_000,
            height_net: 0,
            height_gross: 0,
            conditioned: true,
        }],
        walls: vec![],
        windows: vec![],
        constructions: vec![],
    };
    let flat_report = compute_indicators(&flat);
    assert_eq!(flat_report.n50_data.n50, None);
}

/// A zero reference area is a fatal precondition reported as an error, not
/// a report.
#[test]
fn zero_reference_area_is_fatal() {
    let model = Model {
        meta: base_meta(),
        spaces: vec![Space {
            name: "S1".to_string(),
            area: 0,
            height_net: 2_500,
            height_gross: 2_800,
            conditioned: true,
        }],
        walls: vec![],
        windows: vec![],
        constructions: vec![],
    };
    let doc = model_to_doc(&model);
    let res = he1_indicators(&doc);
    assert_eq!(res.unwrap_err(), ModelError::ZeroReferenceArea);
}

/// The engine returns identical output across repeated invocations of the
/// same document.
#[test]
fn engine_deterministic_across_calls() {
    let model = Model {
        meta: base_meta(),
        spaces: vec![one_space(100_000)],
        walls: vec![Wall {
            name: "W1".to_string(),
            area: 50_000,
            construction: "C1".to_string(),
            space: "S1".to_string(),
            position: BoundaryPosition::Side,
            orientation: Some(Orientation::North),
        }],
        windows: vec![],
        constructions: vec![Construction {
            name: "C1".to_string(),
            u_value: 300,
        }],
    };
    let d1 = model_to_doc(&model);
    let d2 = model_to_doc(&model);
    let r1 = he1_indicators(&d1).unwrap();
    let r2 = he1_indicators(&d2).unwrap();
    assert_eq!(r1.area_ref, r2.area_ref);
    assert_eq!(r1.compacity, r2.compacity);
    assert_eq!(r1.vol_env_net, r2.vol_env_net);
    assert_eq!(r1.vol_env_gross, r2.vol_env_gross);
    assert_eq!(r1.u_values, r2.u_values);
    assert_eq!(r1.K_data, r2.K_data);
    assert_eq!(r1.q_soljul_data, r2.q_soljul_data);
    assert_eq!(r1.q_soljul_by_space, r2.q_soljul_by_space);
    assert_eq!(r1.n50_data, r2.n50_data);
    assert_eq!(r1.warnings, r2.warnings);
}

/// A space of zero area constructs successfully and raises exactly one
/// warning in the validation pass.
#[test]
fn zero_area_space_is_one_warning() {
    let model = Model {
        meta: base_meta(),
        spaces: vec![
            Space {
                name: "S0".to_string(),
                area: 0,
                height_net: 2_500,
                height_gross: 2_500,
                conditioned: false,
            },
            one_space(100_000),
        ],
        walls: vec![],
        windows: vec![],
        constructions: vec![],
    };
    let warnings = model.check_model();
    assert_eq!(warnings.len(), 1);
    assert_eq!(warnings[0].kind, WarningKind::ZeroAreaSpace);
    assert_eq!(warnings[0].subject, "S0");
}

/// Duplicate catalog names and walls without orientation are warnings, in
/// phase order.
#[test]
fn duplicate_and_orientation_warnings() {
    let model = Model {
        meta: base_meta(),
        spaces: vec![one_space(100_000)],
        walls: vec![Wall {
            name: "W1".to_string(),
            area: 10_000,
            construction: "C1".to_string(),
            space: "S1".to_string(),
            position: BoundaryPosition::Side,
            orientation: None,
        }],
        windows: vec![],
        constructions: vec![
            Construction {
                name: "C1".to_string(),
                u_value: 300,
            },
            Construction {
                name: "C1".to_string(),
                u_value: 500,
            },
        ],
    };
    let warnings = model.check_model();
    assert_eq!(warnings.len(), 2);
    assert_eq!(warnings[0].kind, WarningKind::MissingWallOrientation);
    assert_eq!(warnings[0].subject, "W1");
    assert_eq!(warnings[1].kind, WarningKind::DuplicateConstructionName);
    assert_eq!(warnings[1].subject, "C1");
}

/// The version identifier is static.
#[test]
fn version_is_static() {
    assert_eq!(envolvente::get_version(), "2.0.0");
}
