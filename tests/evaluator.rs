use enop_rs::{
    EngineeringOptimizationEvaluator, EngineeringOptimizationProblem, EvaluationFault, Metadata,
    Outcome, ProblemKind, WORST_OBJECTIVE,
};

fn two_dim_problem() -> EngineeringOptimizationProblem {
    let md = Metadata {
        dimension: 2,
        bounds: vec![
            vec![0.0f64.to_bits(), 10.0f64.to_bits()],
            vec![0.0f64.to_bits(), 5.0f64.to_bits()],
        ],
    };
    EngineeringOptimizationProblem::tension_compression_spring_design(Some(md)).unwrap()
}

fn bits(xs: &[f64]) -> Vec<u64> {
    xs.iter().map(|x| x.to_bits()).collect()
}

fn number(x: f64) -> Outcome {
    Outcome::Number(x.to_bits())
}

#[test]
fn midpoint_scenario() {
    let p = two_dim_problem();
    assert_eq!(p.dimension(), 2);
    let e = EngineeringOptimizationEvaluator::new(&p);
    assert_eq!(e.kind(), ProblemKind::TensionCompressionSpringDesign);
    let midpoint: Vec<u64> = p
        .domain()
        .iter()
        .map(|i| {
            let lo = f64::from_bits(i.lo);
            let hi = f64::from_bits(i.hi);
            (lo + (hi - lo) / 2.0).to_bits()
        })
        .collect();
    assert_eq!(midpoint, bits(&[5.0, 2.5]));
    assert!(e.admits(&midpoint));
    let oracle_value = 12.375f64;
    let r = e.evaluate(&vec![midpoint], &vec![number(oracle_value)]);
    assert_eq!(r.len(), 1);
    assert!(f64::from_bits(r[0]).is_finite());
    assert_eq!(f64::from_bits(r[0]), oracle_value);
}

#[test]
fn wrong_length_never_reaches_the_oracle() {
    let e = EngineeringOptimizationEvaluator::new(&two_dim_problem());
    let long = bits(&[1.0, 2.0, 3.0]);
    let short = bits(&[1.0]);
    assert!(!e.admits(&long));
    assert!(!e.admits(&short));
    assert!(!e.admits(&vec![]));
    assert_eq!(e.judge(&long, number(1.0)), Err(EvaluationFault::WrongLength));
    assert_eq!(e.judge(&short, Outcome::Fault), Err(EvaluationFault::WrongLength));
    assert_eq!(e.objective(&long, number(1.0)), WORST_OBJECTIVE);
    assert_eq!(f64::from_bits(e.objective(&long, number(1.0))), f64::INFINITY);
}

#[test]
fn each_fault_kind() {
    let e = EngineeringOptimizationEvaluator::new(&two_dim_problem());
    let c = bits(&[1.0, 1.0]);
    assert_eq!(e.judge(&c, Outcome::Fault), Err(EvaluationFault::OracleFault));
    assert_eq!(e.judge(&c, Outcome::NonNumeric), Err(EvaluationFault::NonNumeric));
    assert_eq!(e.judge(&c, number(f64::NAN)), Err(EvaluationFault::NonFinite));
    assert_eq!(e.judge(&c, number(f64::INFINITY)), Err(EvaluationFault::NonFinite));
    assert_eq!(e.judge(&c, number(f64::NEG_INFINITY)), Err(EvaluationFault::NonFinite));
    assert_eq!(e.judge(&c, number(-3.5)), Ok((-3.5f64).to_bits()));
    assert_eq!(e.judge(&c, number(-0.0)), Ok((-0.0f64).to_bits()));
    for o in [Outcome::Fault, Outcome::NonNumeric, number(f64::NAN), number(f64::NEG_INFINITY)] {
        assert_eq!(e.objective(&c, o), WORST_OBJECTIVE);
    }
    assert_eq!(e.objective(&c, number(7.0)), 7.0f64.to_bits());
}

#[test]
fn batch_keeps_order() {
    let e = EngineeringOptimizationEvaluator::new(&two_dim_problem());
    let cs = vec![bits(&[1.0, 1.0]), bits(&[2.0, 2.0]), bits(&[3.0, 3.0])];
    let os = vec![number(1.5), number(-2.0), number(30.0)];
    let r = e.evaluate(&cs, &os);
    assert_eq!(r, bits(&[1.5, -2.0, 30.0]));
}

#[test]
fn batch_contains_faults() {
    let e = EngineeringOptimizationEvaluator::new(&two_dim_problem());
    let cs = vec![bits(&[1.0, 1.0]), bits(&[2.0, 2.0]), bits(&[3.0, 3.0])];
    let r = e.evaluate(&cs, &vec![number(1.5), Outcome::Fault, number(30.0)]);
    assert_eq!(r.len(), 3);
    assert_eq!(r[0], 1.5f64.to_bits());
    assert_eq!(r[1], WORST_OBJECTIVE);
    assert_eq!(r[2], 30.0f64.to_bits());
}

#[test]
fn batch_mixes_wrong_lengths() {
    let e = EngineeringOptimizationEvaluator::new(&two_dim_problem());
    let cs = vec![bits(&[1.0, 1.0]), bits(&[2.0, 2.0, 2.0]), bits(&[3.0, 3.0])];
    let r = e.evaluate(&cs, &vec![number(4.0), number(5.0), number(f64::NAN)]);
    assert_eq!(r, vec![4.0f64.to_bits(), WORST_OBJECTIVE, WORST_OBJECTIVE]);
}

#[test]
fn batch_is_repeatable() {
    let e = EngineeringOptimizationEvaluator::new(&two_dim_problem());
    let cs = vec![bits(&[1.0, 1.0]), bits(&[2.0]), bits(&[3.0, 3.0])];
    let first = e.evaluate(&cs, &vec![number(8.0), number(9.0), Outcome::NonNumeric]);
    let second = e.evaluate(&cs, &vec![number(8.0), Outcome::Fault, Outcome::NonNumeric]);
    assert_eq!(first, second);
}

#[test]
fn empty_batch() {
    let e = EngineeringOptimizationEvaluator::new(&two_dim_problem());
    assert_eq!(e.evaluate(&vec![], &vec![]), Vec::<u64>::new());
}
