//! Report assembly: one record that packages the five indicator outputs,
//! the envelope volumes and the accumulated warnings, and the boundary
//! operation that computes it from a canonical interchange document.

use vstd::prelude::*;
use crate::model::{Model, ModelV, valid};
use crate::indicators::{
    KData, N50Data, QSolJulData, UValues, a_ref_of, vol_env_net_of, vol_env_gross_of,
    exposed_area_of, k_num_of, u_mean_of, cat_wall_ua_of, cat_wall_area_of, cat_window_ua_of,
    cat_window_area_of, qsol_total_of, airtight_coef, rad_warns,
};
use crate::model::{BoundaryPosition, HoleKind};
use crate::climate::{rad_table_of, total_radiation_in_july_by_orientation};
use crate::checks::{Warning, check_model_warns};
use crate::doc::{Doc, ModelError, ModelErrorV, model_of_doc, load_data_from_json};
use crate::model::{dims_ok, refs_ok};

verus! {

/// The computed indicators of one model snapshot, with the accumulated
/// warnings.
#[allow(non_snake_case)]
#[derive(Debug)]
pub struct IndicatorsReport {
    /// Reference area, milli-m2.
    pub area_ref: u64,
    /// Compacity, milli-m; `None` when the exposed area is zero.
    pub compacity: Option<u64>,
    /// Net envelope volume, milli-m3.
    pub vol_env_net: u64,
    /// Gross envelope volume, milli-m3.
    pub vol_env_gross: u64,
    /// Area-weighted average transmittance by category.
    pub u_values: UValues,
    /// Global heat-loss coefficient data.
    pub K_data: KData,
    /// July solar-gain data.
    pub q_soljul_data: QSolJulData,
    /// July solar gain summed per space, in model order of the spaces.
    pub q_soljul_by_space: Vec<(String, u64)>,
    /// Infiltration data.
    pub n50_data: N50Data,
    /// Model-validation warnings, then computation warnings, in phase
    /// order.
    pub warnings: Vec<Warning>,
}

/// Every field of the report is the indicator the engine defines for this
/// model: the full contract of report assembly.
pub open spec fn report_matches(rep: IndicatorsReport, m: ModelV) -> bool {
    &&& rep.area_ref as int == a_ref_of(m)
    &&& rep.vol_env_net as int == vol_env_net_of(m)
    &&& rep.vol_env_gross as int == vol_env_gross_of(m)
    &&& (rep.compacity is None <==> exposed_area_of(m) == 0)
    &&& (rep.compacity matches Some(c) ==> c as int == vol_env_gross_of(m) * 1000
        / exposed_area_of(m))
    &&& rep.K_data.ua_total as int == k_num_of(m)
    &&& rep.K_data.k as int == k_num_of(m) / a_ref_of(m)
    &&& rep.u_values.walls == u_mean_of(
        cat_wall_ua_of(m, BoundaryPosition::Side),
        cat_wall_area_of(m, BoundaryPosition::Side),
    )
    &&& rep.u_values.roofs == u_mean_of(
        cat_wall_ua_of(m, BoundaryPosition::Top),
        cat_wall_area_of(m, BoundaryPosition::Top),
    )
    &&& rep.u_values.floors == u_mean_of(
        cat_wall_ua_of(m, BoundaryPosition::Bottom),
        cat_wall_area_of(m, BoundaryPosition::Bottom),
    )
    &&& rep.u_values.windows == u_mean_of(
        cat_window_ua_of(m, HoleKind::Glazed),
        cat_window_area_of(m, HoleKind::Glazed),
    )
    &&& rep.u_values.doors == u_mean_of(
        cat_window_ua_of(m, HoleKind::Door),
        cat_window_area_of(m, HoleKind::Door),
    )
    &&& rep.q_soljul_data.total as int == qsol_total_of(rad_table_of(m.meta.climate), m.windows)
    &&& rep.q_soljul_data.q_soljul as int == qsol_total_of(rad_table_of(m.meta.climate), m.windows)
        * 1000 / a_ref_of(m)
    &&& rep.q_soljul_by_space@.len() == m.spaces.len()
    &&& forall|i: int|
        0 <= i < rep.q_soljul_by_space@.len() ==> (#[trigger] rep.q_soljul_by_space@[i]).0@
            == m.spaces[i].name && rep.q_soljul_by_space@[i].1 as int == crate::indicators::qsol_space_total(
            m,
            rad_table_of(m.meta.climate),
            m.spaces[i].name,
        )
    &&& rep.n50_data.exposed_area as int == exposed_area_of(m)
    &&& rep.n50_data.vol as int == vol_env_net_of(m)
    &&& (rep.n50_data.n50 is None <==> vol_env_net_of(m) == 0)
    &&& (rep.n50_data.n50 matches Some(v) ==> v as int == airtight_coef(m.meta.airtightness)
        * exposed_area_of(m) / vol_env_net_of(m))
    &&& rep.warnings@.map_values(|w: Warning| w@) == check_model_warns(m) + rad_warns(
        rad_table_of(m.meta.climate),
        m.windows,
    )
}

/// Runs the validation pass and the five indicator computations over one
/// valid model snapshot and assembles the report. The reference area must
/// be positive.
pub fn compute_indicators(model: &Model) -> (rep: IndicatorsReport)
    requires
        valid(model@),
        a_ref_of(model@) > 0,
    ensures
        report_matches(rep, model@),
{
    let totradjul = total_radiation_in_july_by_orientation(model.meta.climate);
    let area_ref = model.a_ref();
    let compacity = model.compacity();
    let vol_env_net = model.vol_env_net();
    let vol_env_gross = model.vol_env_gross();
    let u_values = model.u_values();
    let k_data = model.K();
    let (q_soljul_data, mut q_warnings) = model.q_soljul(&totradjul);
    let q_soljul_by_space = model.q_soljul_by_space(&totradjul);
    let n50_data = model.n50();
    let mut warnings = model.check_model();
    proof {
        assert(warnings@.map_values(|w: Warning| w@) + q_warnings@.map_values(|w: Warning| w@)
            =~= (warnings@ + q_warnings@).map_values(|w: Warning| w@));
    }
    warnings.append(&mut q_warnings);
    IndicatorsReport {
        area_ref,
        compacity,
        vol_env_net,
        vol_env_gross,
        u_values,
        K_data: k_data,
        q_soljul_data,
        q_soljul_by_space,
        n50_data,
        warnings,
    }
}

/// Boundary operation: deserializes a canonical interchange document,
/// validates it, and computes the indicator report. Fails with the first
/// error: a schema violation, a quantity out of range, an unresolved
/// cross-reference, or a zero reference area.
pub fn he1_indicators(d: &Doc) -> (r: Result<IndicatorsReport, ModelError>)
    ensures
        model_of_doc(*d) is None ==> (r matches Err(e) && e@ == ModelErrorV::Schema),
        model_of_doc(*d) matches Some(mv) ==> {
            &&& !dims_ok(mv) ==> (r matches Err(e) && e@ matches ModelErrorV::Dimension { .. })
            &&& (dims_ok(mv) && !refs_ok(mv)) ==> (r matches Err(e) && e@
                matches ModelErrorV::Referential { .. })
            &&& (valid(mv) && a_ref_of(mv) == 0) ==> (r matches Err(e) && e@
                == ModelErrorV::ZeroReferenceArea)
            &&& (valid(mv) && a_ref_of(mv) > 0) ==> (r matches Ok(rep) && report_matches(rep, mv))
        },
{
    let model = match load_data_from_json(d) {
        Ok(m) => m,
        Err(e) => {
            return Err(e);
        },
    };
    let aref = model.a_ref();
    if aref == 0 {
        return Err(ModelError::ZeroReferenceArea);
    }
    Ok(compute_indicators(&model))
}

/// Law: the indicator engine is deterministic. Two reports that both meet
/// the engine's contract on one model agree on every indicator and on the
/// warning sequence.
pub proof fn lemma_engine_deterministic(m: ModelV, r1: IndicatorsReport, r2: IndicatorsReport)
    requires
        report_matches(r1, m),
        report_matches(r2, m),
    ensures
        r1.area_ref == r2.area_ref,
        r1.compacity == r2.compacity,
        r1.vol_env_net == r2.vol_env_net,
        r1.vol_env_gross == r2.vol_env_gross,
        r1.u_values == r2.u_values,
        r1.K_data == r2.K_data,
        r1.q_soljul_data == r2.q_soljul_data,
        r1.q_soljul_by_space@.map_values(|p: (String, u64)| (p.0@, p.1))
            == r2.q_soljul_by_space@.map_values(|p: (String, u64)| (p.0@, p.1)),
        r1.n50_data == r2.n50_data,
        r1.warnings@.map_values(|w: Warning| w@) == r2.warnings@.map_values(|w: Warning| w@),
{
    if r1.compacity is Some {
        assert(r1.compacity == r2.compacity);
    }
    if r1.n50_data.n50 is Some {
        assert(r1.n50_data.n50 == r2.n50_data.n50);
    }
}

} // verus!
