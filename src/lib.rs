//! Catalog of constrained engineering-design benchmark problems and the
//! bridge that turns an evaluation oracle's answers into fitness values.
//!
//! Real numbers are carried as the bit patterns of IEEE-754 binary64 values
//! (`u64`), so that every decision made on them is stated and proved here.

use vstd::prelude::*;

pub mod catalog;
pub mod evaluator;
pub mod ieee;
pub mod registry;

pub use catalog::{EngineeringOptimizationProblem, Interval, Metadata};
pub use evaluator::{EngineeringOptimizationEvaluator, EvaluationFault, Outcome, WORST_OBJECTIVE};
pub use registry::{resolve, CatalogError, ConstructionError, ProblemKind};

verus! {

} // verus!
