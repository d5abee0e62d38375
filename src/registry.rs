//! The closed set of registered benchmark problems and their identifiers.

use vstd::prelude::*;

verus! {

/// One registered benchmark problem.
#[derive(Clone, Copy, Debug, PartialEq, Eq, Hash, Structural)]
pub enum ProblemKind {
    HeatExchangerNetworkDesignCase1,
    HeatExchangerNetworkDesignCase2,
    HaverlyPooling,
    BlendingPoolingSeparation,
    PropaneIsobutaneNButaneNonsharpSeparation,
    OptimalOperationAlkylationUnit,
    ReactorNetworkDesign,
    ProcessSynthesis01,
    ProcessSynthesis02,
    ProcessDesign,
    ProcessSynthesisAndDesign,
    ProcessFlowSheeting,
    TwoReactor,
    MultiProductBatchPlant,
    WeightMinimizationSpeedReducer,
    OptimalDesignIndustrialRefrigerationSystem,
    TensionCompressionSpringDesign,
    PressureVesselDesign,
    WeldedBeamDesign,
    ThreeBarTrussDesign,
    MultipleDiskClutchBrakeDesign,
    PlanetaryGearTrainDesign,
    StepConePulley,
}

/// The case-sensitive identifier under which the oracle knows each problem.
pub open spec fn identifier_of(k: ProblemKind) -> Seq<char> {
    match k {
        ProblemKind::HeatExchangerNetworkDesignCase1 => "HeatExchangerNetworkDesignCase1Problem"@,
        ProblemKind::HeatExchangerNetworkDesignCase2 => "HeatExchangerNetworkDesignCase2Problem"@,
        ProblemKind::HaverlyPooling => "HaverlyPoolingProblem"@,
        ProblemKind::BlendingPoolingSeparation => "BlendingPoolingSeparationProblem"@,
        ProblemKind::PropaneIsobutaneNButaneNonsharpSeparation => "PropaneIsobutaneNButaneNonsharpSeparationProblem"@,
        ProblemKind::OptimalOperationAlkylationUnit => "OptimalOperationAlkylationUnitProblem"@,
        ProblemKind::ReactorNetworkDesign => "ReactorNetworkDesignProblem"@,
        ProblemKind::ProcessSynthesis01 => "ProcessSynthesis01Problem"@,
        ProblemKind::ProcessSynthesis02 => "ProcessSynthesis02Problem"@,
        ProblemKind::ProcessDesign => "ProcessDesignProblem"@,
        ProblemKind::ProcessSynthesisAndDesign => "ProcessSynthesisAndDesignProblem"@,
        ProblemKind::ProcessFlowSheeting => "ProcessFlowSheetingProblem"@,
        ProblemKind::TwoReactor => "TwoReactorProblem"@,
        ProblemKind::MultiProductBatchPlant => "MultiProductBatchPlantProblem"@,
        ProblemKind::WeightMinimizationSpeedReducer => "WeightMinimizationSpeedReducerProblem"@,
        ProblemKind::OptimalDesignIndustrialRefrigerationSystem => "OptimalDesignIndustrialRefrigerationSystemProblem"@,
        ProblemKind::TensionCompressionSpringDesign => "TensionCompressionSpringDesignProblem"@,
        ProblemKind::PressureVesselDesign => "PressureVesselDesignProblem"@,
        ProblemKind::WeldedBeamDesign => "WeldedBeamDesignProblem"@,
        ProblemKind::ThreeBarTrussDesign => "ThreeBarTrussDesignProblem"@,
        ProblemKind::MultipleDiskClutchBrakeDesign => "MultipleDiskClutchBrakeDesignProblem"@,
        ProblemKind::PlanetaryGearTrainDesign => "PlanetaryGearTrainDesignOptimizationProblem"@,
        ProblemKind::StepConePulley => "StepConePulleyProblem"@,
    }
}

/// Whether `s` is the identifier of a registered problem.
pub open spec fn is_registered(s: Seq<char>) -> bool {
    exists|k: ProblemKind| identifier_of(k) == s
}

/// Every registered problem, in catalog order.
pub open spec fn all_kinds() -> Seq<ProblemKind> {
    seq![
        ProblemKind::HeatExchangerNetworkDesignCase1,
        ProblemKind::HeatExchangerNetworkDesignCase2,
        ProblemKind::HaverlyPooling,
        ProblemKind::BlendingPoolingSeparation,
        ProblemKind::PropaneIsobutaneNButaneNonsharpSeparation,
        ProblemKind::OptimalOperationAlkylationUnit,
        ProblemKind::ReactorNetworkDesign,
        ProblemKind::ProcessSynthesis01,
        ProblemKind::ProcessSynthesis02,
        ProblemKind::ProcessDesign,
        ProblemKind::ProcessSynthesisAndDesign,
        ProblemKind::ProcessFlowSheeting,
        ProblemKind::TwoReactor,
        ProblemKind::MultiProductBatchPlant,
        ProblemKind::WeightMinimizationSpeedReducer,
        ProblemKind::OptimalDesignIndustrialRefrigerationSystem,
        ProblemKind::TensionCompressionSpringDesign,
        ProblemKind::PressureVesselDesign,
        ProblemKind::WeldedBeamDesign,
        ProblemKind::ThreeBarTrussDesign,
        ProblemKind::MultipleDiskClutchBrakeDesign,
        ProblemKind::PlanetaryGearTrainDesign,
        ProblemKind::StepConePulley,
    ]
}

impl ProblemKind {
    /// Every registered problem, in catalog order.
    pub fn all() -> (r: Vec<ProblemKind>)
        ensures
            r@ == all_kinds(),
    {
        let r = vec![
            ProblemKind::HeatExchangerNetworkDesignCase1,
            ProblemKind::HeatExchangerNetworkDesignCase2,
            ProblemKind::HaverlyPooling,
            ProblemKind::BlendingPoolingSeparation,
            ProblemKind::PropaneIsobutaneNButaneNonsharpSeparation,
            ProblemKind::OptimalOperationAlkylationUnit,
            ProblemKind::ReactorNetworkDesign,
            ProblemKind::ProcessSynthesis01,
            ProblemKind::ProcessSynthesis02,
            ProblemKind::ProcessDesign,
            ProblemKind::ProcessSynthesisAndDesign,
            ProblemKind::ProcessFlowSheeting,
            ProblemKind::TwoReactor,
            ProblemKind::MultiProductBatchPlant,
            ProblemKind::WeightMinimizationSpeedReducer,
            ProblemKind::OptimalDesignIndustrialRefrigerationSystem,
            ProblemKind::TensionCompressionSpringDesign,
            ProblemKind::PressureVesselDesign,
            ProblemKind::WeldedBeamDesign,
            ProblemKind::ThreeBarTrussDesign,
            ProblemKind::MultipleDiskClutchBrakeDesign,
            ProblemKind::PlanetaryGearTrainDesign,
            ProblemKind::StepConePulley,
        ];
        proof {
            assert(r@ =~= all_kinds());
        }
        r
    }

    /// The identifier of this problem.
    pub fn identifier(&self) -> (r: &'static str)
        ensures
            r@ == identifier_of(*self),
    {
        match self {
            ProblemKind::HeatExchangerNetworkDesignCase1 => "HeatExchangerNetworkDesignCase1Problem",
            ProblemKind::HeatExchangerNetworkDesignCase2 => "HeatExchangerNetworkDesignCase2Problem",
            ProblemKind::HaverlyPooling => "HaverlyPoolingProblem",
            ProblemKind::BlendingPoolingSeparation => "BlendingPoolingSeparationProblem",
            ProblemKind::PropaneIsobutaneNButaneNonsharpSeparation => "PropaneIsobutaneNButaneNonsharpSeparationProblem",
            ProblemKind::OptimalOperationAlkylationUnit => "OptimalOperationAlkylationUnitProblem",
            ProblemKind::ReactorNetworkDesign => "ReactorNetworkDesignProblem",
            ProblemKind::ProcessSynthesis01 => "ProcessSynthesis01Problem",
            ProblemKind::ProcessSynthesis02 => "ProcessSynthesis02Problem",
            ProblemKind::ProcessDesign => "ProcessDesignProblem",
            ProblemKind::ProcessSynthesisAndDesign => "ProcessSynthesisAndDesignProblem",
            ProblemKind::ProcessFlowSheeting => "ProcessFlowSheetingProblem",
            ProblemKind::TwoReactor => "TwoReactorProblem",
            ProblemKind::MultiProductBatchPlant => "MultiProductBatchPlantProblem",
            ProblemKind::WeightMinimizationSpeedReducer => "WeightMinimizationSpeedReducerProblem",
            ProblemKind::OptimalDesignIndustrialRefrigerationSystem => "OptimalDesignIndustrialRefrigerationSystemProblem",
            ProblemKind::TensionCompressionSpringDesign => "TensionCompressionSpringDesignProblem",
            ProblemKind::PressureVesselDesign => "PressureVesselDesignProblem",
            ProblemKind::WeldedBeamDesign => "WeldedBeamDesignProblem",
            ProblemKind::ThreeBarTrussDesign => "ThreeBarTrussDesignProblem",
            ProblemKind::MultipleDiskClutchBrakeDesign => "MultipleDiskClutchBrakeDesignProblem",
            ProblemKind::PlanetaryGearTrainDesign => "PlanetaryGearTrainDesignOptimizationProblem",
            ProblemKind::StepConePulley => "StepConePulleyProblem",
        }
    }
}

/// Position of each problem in `all_kinds`.
pub open spec fn kind_index(k: ProblemKind) -> int {
    match k {
        ProblemKind::HeatExchangerNetworkDesignCase1 => 0,
        ProblemKind::HeatExchangerNetworkDesignCase2 => 1,
        ProblemKind::HaverlyPooling => 2,
        ProblemKind::BlendingPoolingSeparation => 3,
        ProblemKind::PropaneIsobutaneNButaneNonsharpSeparation => 4,
        ProblemKind::OptimalOperationAlkylationUnit => 5,
        ProblemKind::ReactorNetworkDesign => 6,
        ProblemKind::ProcessSynthesis01 => 7,
        ProblemKind::ProcessSynthesis02 => 8,
        ProblemKind::ProcessDesign => 9,
        ProblemKind::ProcessSynthesisAndDesign => 10,
        ProblemKind::ProcessFlowSheeting => 11,
        ProblemKind::TwoReactor => 12,
        ProblemKind::MultiProductBatchPlant => 13,
        ProblemKind::WeightMinimizationSpeedReducer => 14,
        ProblemKind::OptimalDesignIndustrialRefrigerationSystem => 15,
        ProblemKind::TensionCompressionSpringDesign => 16,
        ProblemKind::PressureVesselDesign => 17,
        ProblemKind::WeldedBeamDesign => 18,
        ProblemKind::ThreeBarTrussDesign => 19,
        ProblemKind::MultipleDiskClutchBrakeDesign => 20,
        ProblemKind::PlanetaryGearTrainDesign => 21,
        ProblemKind::StepConePulley => 22,
    }
}

/// Why a catalog lookup or a descriptor construction failed.
#[derive(Clone, Copy, Debug, PartialEq, Eq, Structural)]
pub enum CatalogError {
    /// The identifier is not one of the registered problems.
    UnknownProblem,
    /// The oracle did not supply usable metadata for a registered problem.
    Construction(ConstructionError),
}

/// What was wrong with the metadata the oracle declared.
#[derive(Clone, Copy, Debug, PartialEq, Eq, Structural)]
pub enum ConstructionError {
    /// The oracle could not be reached or declined to answer.
    OracleUnavailable,
    /// The declared dimension is zero.
    ZeroDimension,
    /// The number of declared bounds differs from the dimension.
    BoundCountMismatch,
    /// A declared bound does not consist of exactly two numbers.
    MalformedBound,
    /// A declared bound has `lo > hi`, or a NaN end.
    InvalidInterval,
}

/// The answer of a lookup by identifier.
pub open spec fn resolution(s: Seq<char>) -> Result<ProblemKind, CatalogError> {
    if is_registered(s) {
        Ok(choose|k: ProblemKind| identifier_of(k) == s)
    } else {
        Err(CatalogError::UnknownProblem)
    }
}

/// Every problem stands in `all_kinds` at its `kind_index`.
pub proof fn lemma_all_kinds_complete(k: ProblemKind)
    ensures
        0 <= kind_index(k) < all_kinds().len(),
        all_kinds()[kind_index(k)] == k,
{
}

/// Reads an identifier back into the problem it names.
spec fn kind_named(s: Seq<char>) -> Option<ProblemKind> {
    if s == "HeatExchangerNetworkDesignCase1Problem"@ {
        Some(ProblemKind::HeatExchangerNetworkDesignCase1)
    } else if s == "HeatExchangerNetworkDesignCase2Problem"@ {
        Some(ProblemKind::HeatExchangerNetworkDesignCase2)
    } else if s == "HaverlyPoolingProblem"@ {
        Some(ProblemKind::HaverlyPooling)
    } else if s == "BlendingPoolingSeparationProblem"@ {
        Some(ProblemKind::BlendingPoolingSeparation)
    } else if s == "PropaneIsobutaneNButaneNonsharpSeparationProblem"@ {
        Some(ProblemKind::PropaneIsobutaneNButaneNonsharpSeparation)
    } else if s == "OptimalOperationAlkylationUnitProblem"@ {
        Some(ProblemKind::OptimalOperationAlkylationUnit)
    } else if s == "ReactorNetworkDesignProblem"@ {
        Some(ProblemKind::ReactorNetworkDesign)
    } else if s == "ProcessSynthesis01Problem"@ {
        Some(ProblemKind::ProcessSynthesis01)
    } else if s == "ProcessSynthesis02Problem"@ {
        Some(ProblemKind::ProcessSynthesis02)
    } else if s == "ProcessDesignProblem"@ {
        Some(ProblemKind::ProcessDesign)
    } else if s == "ProcessSynthesisAndDesignProblem"@ {
        Some(ProblemKind::ProcessSynthesisAndDesign)
    } else if s == "ProcessFlowSheetingProblem"@ {
        Some(ProblemKind::ProcessFlowSheeting)
    } else if s == "TwoReactorProblem"@ {
        Some(ProblemKind::TwoReactor)
    } else if s == "MultiProductBatchPlantProblem"@ {
        Some(ProblemKind::MultiProductBatchPlant)
    } else if s == "WeightMinimizationSpeedReducerProblem"@ {
        Some(ProblemKind::WeightMinimizationSpeedReducer)
    } else if s == "OptimalDesignIndustrialRefrigerationSystemProblem"@ {
        Some(ProblemKind::OptimalDesignIndustrialRefrigerationSystem)
    } else if s == "TensionCompressionSpringDesignProblem"@ {
        Some(ProblemKind::TensionCompressionSpringDesign)
    } else if s == "PressureVesselDesignProblem"@ {
        Some(ProblemKind::PressureVesselDesign)
    } else if s == "WeldedBeamDesignProblem"@ {
        Some(ProblemKind::WeldedBeamDesign)
    } else if s == "ThreeBarTrussDesignProblem"@ {
        Some(ProblemKind::ThreeBarTrussDesign)
    } else if s == "MultipleDiskClutchBrakeDesignProblem"@ {
        Some(ProblemKind::MultipleDiskClutchBrakeDesign)
    } else if s == "PlanetaryGearTrainDesignOptimizationProblem"@ {
        Some(ProblemKind::PlanetaryGearTrainDesign)
    } else if s == "StepConePulleyProblem"@ {
        Some(ProblemKind::StepConePulley)
    } else {
        None
    }
}

/// Each identifier reads back into its own problem.
proof fn lemma_kind_named(k: ProblemKind)
    ensures
        kind_named(identifier_of(k)) == Some(k),
{
    reveal_strlit("HeatExchangerNetworkDesignCase1Problem");
    assert("HeatExchangerNetworkDesignCase1Problem"@.len() == 38);
    reveal_strlit("HeatExchangerNetworkDesignCase2Problem");
    assert("HeatExchangerNetworkDesignCase2Problem"@.len() == 38);
    reveal_strlit("HaverlyPoolingProblem");
    assert("HaverlyPoolingProblem"@.len() == 21);
    reveal_strlit("BlendingPoolingSeparationProblem");
    assert("BlendingPoolingSeparationProblem"@.len() == 32);
    reveal_strlit("PropaneIsobutaneNButaneNonsharpSeparationProblem");
    assert("PropaneIsobutaneNButaneNonsharpSeparationProblem"@.len() == 48);
    reveal_strlit("OptimalOperationAlkylationUnitProblem");
    assert("OptimalOperationAlkylationUnitProblem"@.len() == 37);
    reveal_strlit("ReactorNetworkDesignProblem");
    assert("ReactorNetworkDesignProblem"@.len() == 27);
    reveal_strlit("ProcessSynthesis01Problem");
    assert("ProcessSynthesis01Problem"@.len() == 25);
    reveal_strlit("ProcessSynthesis02Problem");
    assert("ProcessSynthesis02Problem"@.len() == 25);
    reveal_strlit("ProcessDesignProblem");
    assert("ProcessDesignProblem"@.len() == 20);
    reveal_strlit("ProcessSynthesisAndDesignProblem");
    assert("ProcessSynthesisAndDesignProblem"@.len() == 32);
    reveal_strlit("ProcessFlowSheetingProblem");
    assert("ProcessFlowSheetingProblem"@.len() == 26);
    reveal_strlit("TwoReactorProblem");
    assert("TwoReactorProblem"@.len() == 17);
    reveal_strlit("MultiProductBatchPlantProblem");
    assert("MultiProductBatchPlantProblem"@.len() == 29);
    reveal_strlit("WeightMinimizationSpeedReducerProblem");
    assert("WeightMinimizationSpeedReducerProblem"@.len() == 37);
    reveal_strlit("OptimalDesignIndustrialRefrigerationSystemProblem");
    assert("OptimalDesignIndustrialRefrigerationSystemProblem"@.len() == 49);
    reveal_strlit("TensionCompressionSpringDesignProblem");
    assert("TensionCompressionSpringDesignProblem"@.len() == 37);
    reveal_strlit("PressureVesselDesignProblem");
    assert("PressureVesselDesignProblem"@.len() == 27);
    reveal_strlit("WeldedBeamDesignProblem");
    assert("WeldedBeamDesignProblem"@.len() == 23);
    reveal_strlit("ThreeBarTrussDesignProblem");
    assert("ThreeBarTrussDesignProblem"@.len() == 26);
    reveal_strlit("MultipleDiskClutchBrakeDesignProblem");
    assert("MultipleDiskClutchBrakeDesignProblem"@.len() == 36);
    reveal_strlit("PlanetaryGearTrainDesignOptimizationProblem");
    assert("PlanetaryGearTrainDesignOptimizationProblem"@.len() == 43);
    reveal_strlit("StepConePulleyProblem");
    assert("StepConePulleyProblem"@.len() == 21);
    match k {
        ProblemKind::HeatExchangerNetworkDesignCase1 => {},
        ProblemKind::HeatExchangerNetworkDesignCase2 => {
            assert("HeatExchangerNetworkDesignCase2Problem"@[30] != "HeatExchangerNetworkDesignCase1Problem"@[30]);
        },
        ProblemKind::HaverlyPooling => {},
        ProblemKind::BlendingPoolingSeparation => {},
        ProblemKind::PropaneIsobutaneNButaneNonsharpSeparation => {},
        ProblemKind::OptimalOperationAlkylationUnit => {},
        ProblemKind::ReactorNetworkDesign => {},
        ProblemKind::ProcessSynthesis01 => {},
        ProblemKind::ProcessSynthesis02 => {
            assert("ProcessSynthesis02Problem"@[17] != "ProcessSynthesis01Problem"@[17]);
        },
        ProblemKind::ProcessDesign => {},
        ProblemKind::ProcessSynthesisAndDesign => {
            assert("ProcessSynthesisAndDesignProblem"@[0] != "BlendingPoolingSeparationProblem"@[0]);
        },
        ProblemKind::ProcessFlowSheeting => {},
        ProblemKind::TwoReactor => {},
        ProblemKind::MultiProductBatchPlant => {},
        ProblemKind::WeightMinimizationSpeedReducer => {
            assert("WeightMinimizationSpeedReducerProblem"@[0] != "OptimalOperationAlkylationUnitProblem"@[0]);
        },
        ProblemKind::OptimalDesignIndustrialRefrigerationSystem => {},
        ProblemKind::TensionCompressionSpringDesign => {
            assert("TensionCompressionSpringDesignProblem"@[0] != "OptimalOperationAlkylationUnitProblem"@[0]);
            assert("TensionCompressionSpringDesignProblem"@[0] != "WeightMinimizationSpeedReducerProblem"@[0]);
        },
        ProblemKind::PressureVesselDesign => {
            assert("PressureVesselDesignProblem"@[0] != "ReactorNetworkDesignProblem"@[0]);
        },
        ProblemKind::WeldedBeamDesign => {},
        ProblemKind::ThreeBarTrussDesign => {
            assert("ThreeBarTrussDesignProblem"@[0] != "ProcessFlowSheetingProblem"@[0]);
        },
        ProblemKind::MultipleDiskClutchBrakeDesign => {},
        ProblemKind::PlanetaryGearTrainDesign => {},
        ProblemKind::StepConePulley => {
            assert("StepConePulleyProblem"@[0] != "HaverlyPoolingProblem"@[0]);
        },
    }
}

/// No two registered problems share an identifier.
pub proof fn lemma_identifiers_distinct(a: ProblemKind, b: ProblemKind)
    requires
        identifier_of(a) == identifier_of(b),
    ensures
        a == b,
{
    lemma_kind_named(a);
    lemma_kind_named(b);
}

/// Looking up the identifier of any registered problem finds that problem.
pub proof fn lemma_resolve_identifier(k: ProblemKind)
    ensures
        resolution(identifier_of(k)) == Ok::<ProblemKind, CatalogError>(k),
{
    let s = identifier_of(k);
    assert(is_registered(s));
    let c = choose|c: ProblemKind| identifier_of(c) == s;
    lemma_identifiers_distinct(c, k);
}

/// Looks up a problem by its case-sensitive identifier.
pub fn resolve(name: &str) -> (r: Result<ProblemKind, CatalogError>)
    ensures
        r == resolution(name@),
{
    let wanted = name.to_owned();
    let kinds = ProblemKind::all();
    let mut i: usize = 0;
    while i < kinds.len()
        invariant
            0 <= i <= kinds.len(),
            kinds@ == all_kinds(),
            wanted@ == name@,
            forall|j: int| 0 <= j < i ==> identifier_of(#[trigger] kinds@[j]) != name@,
        decreases kinds.len() - i,
    {
        let candidate = kinds[i].identifier().to_owned();
        if candidate == wanted {
            proof {
                let k = kinds@[i as int];
                assert(is_registered(name@));
                lemma_identifiers_distinct(k, choose|c: ProblemKind| identifier_of(c) == name@);
            }
            return Ok(kinds[i]);
        }
        i += 1;
    }
    proof {
        assert forall|k: ProblemKind| identifier_of(k) != name@ by {
            lemma_all_kinds_complete(k);
            assert(kinds@[kind_index(k)] == k);
        }
    }
    Err(CatalogError::UnknownProblem)
}

} // verus!
