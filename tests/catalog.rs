use enop_rs::{
    resolve, CatalogError, ConstructionError, EngineeringOptimizationProblem, Interval, Metadata,
    ProblemKind,
};

fn bounds(pairs: &[(f64, f64)]) -> Vec<Vec<u64>> {
    pairs.iter().map(|&(lo, hi)| vec![lo.to_bits(), hi.to_bits()]).collect()
}

fn metadata(pairs: &[(f64, f64)]) -> Metadata {
    Metadata { dimension: pairs.len(), bounds: bounds(pairs) }
}

#[test]
fn every_identifier_resolves_to_its_problem() {
    let kinds = ProblemKind::all();
    assert_eq!(kinds.len(), 23);
    for kind in kinds {
        assert_eq!(resolve(kind.identifier()), Ok(kind));
    }
}

#[test]
fn identifiers_are_distinct() {
    let kinds = ProblemKind::all();
    for (i, a) in kinds.iter().enumerate() {
        for b in &kinds[i + 1..] {
            assert_ne!(a.identifier(), b.identifier());
        }
    }
}

#[test]
fn known_identifiers() {
    assert_eq!(resolve("HaverlyPoolingProblem"), Ok(ProblemKind::HaverlyPooling));
    assert_eq!(
        resolve("PlanetaryGearTrainDesignOptimizationProblem"),
        Ok(ProblemKind::PlanetaryGearTrainDesign)
    );
    assert_eq!(resolve("StepConePulleyProblem"), Ok(ProblemKind::StepConePulley));
}

#[test]
fn unknown_identifier_is_rejected() {
    assert_eq!(resolve("does-not-exist"), Err(CatalogError::UnknownProblem));
    assert_eq!(resolve(""), Err(CatalogError::UnknownProblem));
    assert_eq!(resolve("haverlypoolingproblem"), Err(CatalogError::UnknownProblem));
    assert_eq!(resolve("HaverlyPooling"), Err(CatalogError::UnknownProblem));
    assert_eq!(resolve("HaverlyPoolingProblem "), Err(CatalogError::UnknownProblem));
}

#[test]
fn new_with_unknown_name_fails_before_metadata() {
    let r = EngineeringOptimizationProblem::new("does-not-exist", Some(metadata(&[(0.0, 1.0)])));
    assert_eq!(r.unwrap_err(), CatalogError::UnknownProblem);
    let r = EngineeringOptimizationProblem::new("does-not-exist", None);
    assert_eq!(r.unwrap_err(), CatalogError::UnknownProblem);
}

#[test]
fn descriptor_holds_declared_metadata() {
    let p = EngineeringOptimizationProblem::new(
        "WeldedBeamDesignProblem",
        Some(metadata(&[(0.0, 10.0), (0.0, 5.0)])),
    )
    .unwrap();
    assert_eq!(p.name(), "WeldedBeamDesignProblem");
    assert_eq!(p.kind(), ProblemKind::WeldedBeamDesign);
    assert_eq!(p.dimension(), 2);
    assert_eq!(
        p.domain(),
        vec![
            Interval { lo: 0.0f64.to_bits(), hi: 10.0f64.to_bits() },
            Interval { lo: 0.0f64.to_bits(), hi: 5.0f64.to_bits() },
        ]
    );
    assert_eq!(p.dimension(), p.domain().len());
    assert_eq!(p.domain(), p.domain());
}

#[test]
fn named_constructors_build_their_problem() {
    let p = EngineeringOptimizationProblem::heat_exchanger_network_design_case1(Some(metadata(&[
        (0.0, 10.0),
        (-5.0, 5.0),
        (1.0, 1.0),
    ])))
    .unwrap();
    assert_eq!(p.name(), "HeatExchangerNetworkDesignCase1Problem");
    assert_eq!(p.dimension(), 3);
    let q = EngineeringOptimizationProblem::planetary_gear_train_design(Some(metadata(&[(
        -1.5, 2.5,
    )])))
    .unwrap();
    assert_eq!(q.name(), "PlanetaryGearTrainDesignOptimizationProblem");
    assert_eq!(q.kind(), ProblemKind::PlanetaryGearTrainDesign);
}

#[test]
fn domains_are_ordered() {
    let p = EngineeringOptimizationProblem::pressure_vessel_design(Some(metadata(&[
        (0.0625, 99.0),
        (-3.0, -1.0),
        (-0.0, 0.0),
        (f64::NEG_INFINITY, f64::INFINITY),
    ])))
    .unwrap();
    for interval in p.domain() {
        assert!(f64::from_bits(interval.lo) <= f64::from_bits(interval.hi));
    }
}

#[test]
fn oracle_unavailable() {
    let r = EngineeringOptimizationProblem::two_reactor(None);
    assert_eq!(r.unwrap_err(), CatalogError::Construction(ConstructionError::OracleUnavailable));
}

#[test]
fn zero_dimension() {
    let md = Metadata { dimension: 0, bounds: vec![] };
    let r = EngineeringOptimizationProblem::process_design(Some(md));
    assert_eq!(r.unwrap_err(), CatalogError::Construction(ConstructionError::ZeroDimension));
}

#[test]
fn bound_count_mismatch() {
    let md = Metadata { dimension: 3, bounds: bounds(&[(0.0, 1.0), (0.0, 1.0)]) };
    let r = EngineeringOptimizationProblem::haverly_pooling(Some(md));
    assert_eq!(r.unwrap_err(), CatalogError::Construction(ConstructionError::BoundCountMismatch));
}

#[test]
fn malformed_bound() {
    let md = Metadata { dimension: 2, bounds: vec![vec![0, 1.0f64.to_bits()], vec![0]] };
    let r = EngineeringOptimizationProblem::step_cone_pulley(Some(md));
    assert_eq!(r.unwrap_err(), CatalogError::Construction(ConstructionError::MalformedBound));
    let md = Metadata { dimension: 1, bounds: vec![vec![0, 1, 2]] };
    let r = EngineeringOptimizationProblem::step_cone_pulley(Some(md));
    assert_eq!(r.unwrap_err(), CatalogError::Construction(ConstructionError::MalformedBound));
}

#[test]
fn malformed_bound_wins_over_inverted_interval() {
    let md = Metadata { dimension: 2, bounds: vec![vec![5.0f64.to_bits(), 1.0f64.to_bits()], vec![0]] };
    let r = EngineeringOptimizationProblem::reactor_network_design(Some(md));
    assert_eq!(r.unwrap_err(), CatalogError::Construction(ConstructionError::MalformedBound));
}

#[test]
fn inverted_interval() {
    let r = EngineeringOptimizationProblem::three_bar_truss_design(Some(metadata(&[
        (0.0, 1.0),
        (2.0, 1.0),
    ])));
    assert_eq!(r.unwrap_err(), CatalogError::Construction(ConstructionError::InvalidInterval));
}

#[test]
fn nan_bound_is_invalid() {
    let r = EngineeringOptimizationProblem::welded_beam_design(Some(metadata(&[(f64::NAN, 1.0)])));
    assert_eq!(r.unwrap_err(), CatalogError::Construction(ConstructionError::InvalidInterval));
    let r = EngineeringOptimizationProblem::welded_beam_design(Some(metadata(&[(0.0, f64::NAN)])));
    assert_eq!(r.unwrap_err(), CatalogError::Construction(ConstructionError::InvalidInterval));
}

#[test]
fn of_kind_matches_new() {
    let a = EngineeringOptimizationProblem::of_kind(
        ProblemKind::ProcessFlowSheeting,
        Some(metadata(&[(1.0, 2.0)])),
    )
    .unwrap();
    let b = EngineeringOptimizationProblem::new(
        "ProcessFlowSheetingProblem",
        Some(metadata(&[(1.0, 2.0)])),
    )
    .unwrap();
    assert_eq!(a.name(), b.name());
    assert_eq!(a.dimension(), b.dimension());
    assert_eq!(a.domain(), b.domain());
}
