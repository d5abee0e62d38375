//! Problem descriptors: a registered problem with the dimension and the
//! search box its oracle declared.

use vstd::prelude::*;

use crate::ieee::{float_le, le_bits};
use crate::registry::{identifier_of, resolution, resolve, CatalogError, ConstructionError, ProblemKind};

verus! {

/// The admissible range `[lo, hi]` of one decision variable, both ends as
/// binary64 bit patterns.
#[derive(Clone, Copy, Debug, PartialEq, Eq, Structural)]
pub struct Interval {
    pub lo: u64,
    pub hi: u64,
}

impl Interval {
    /// `lo <= hi`, neither end NaN.
    pub open spec fn is_ordered(self) -> bool {
        float_le(self.lo, self.hi)
    }
}

/// What an oracle declares about its problem: the number of decision
/// variables and one `[lo, hi]` pair per variable (binary64 bit patterns).
#[derive(Clone, Debug)]
pub struct Metadata {
    pub dimension: usize,
    pub bounds: Vec<Vec<u64>>,
}

/// The declared bounds as sequences.
pub open spec fn bounds_of(md: Metadata) -> Seq<Seq<u64>> {
    md.bounds@.map_values(|b: Vec<u64>| b@)
}

/// The search box the declared bounds describe.
pub open spec fn intervals_of(bounds: Seq<Seq<u64>>) -> Seq<Interval> {
    Seq::new(bounds.len(), |i: int| Interval { lo: bounds[i][0], hi: bounds[i][1] })
}

/// Why declared metadata cannot make a descriptor, if it cannot.
pub open spec fn metadata_fault(declared: Option<Metadata>) -> Option<ConstructionError> {
    match declared {
        None => Some(ConstructionError::OracleUnavailable),
        Some(md) => {
            let bounds = bounds_of(md);
            if md.dimension == 0 {
                Some(ConstructionError::ZeroDimension)
            } else if bounds.len() != md.dimension {
                Some(ConstructionError::BoundCountMismatch)
            } else if exists|i: int| 0 <= i < bounds.len() && #[trigger] bounds[i].len() != 2 {
                Some(ConstructionError::MalformedBound)
            } else if exists|i: int|
                0 <= i < bounds.len() && !(#[trigger] intervals_of(bounds)[i]).is_ordered() {
                Some(ConstructionError::InvalidInterval)
            } else {
                None
            }
        },
    }
}

/// A registered problem with the shape of its search space.
#[derive(Clone, Debug)]
pub struct EngineeringOptimizationProblem {
    kind: ProblemKind,
    name: String,
    dim: usize,
    domain: Vec<Interval>,
}

impl EngineeringOptimizationProblem {
    /// Which registered problem this is.
    pub closed spec fn spec_kind(&self) -> ProblemKind {
        self.kind
    }

    /// Number of decision variables.
    pub closed spec fn spec_dimension(&self) -> nat {
        self.dim as nat
    }

    /// One interval per decision variable.
    pub closed spec fn spec_domain(&self) -> Seq<Interval> {
        self.domain@
    }

    /// The dimension is positive, the domain has one ordered interval per
    /// variable, and the name is the problem's identifier.
    pub closed spec fn wf(&self) -> bool {
        &&& self.dim > 0
        &&& self.domain@.len() == self.dim
        &&& forall|i: int| 0 <= i < self.domain@.len() ==> (#[trigger] self.domain@[i]).is_ordered()
        &&& self.name@ == identifier_of(self.kind)
    }

    /// `r` is what building `kind` from `declared` must give: the fault of the
    /// metadata, or a well-formed descriptor that holds exactly what was declared.
    pub open spec fn built(r: Result<Self, CatalogError>, kind: ProblemKind, declared: Option<Metadata>) -> bool {
        match metadata_fault(declared) {
            Some(e) => r matches Err(err) && err == CatalogError::Construction(e),
            None => r matches Ok(p) && {
                &&& p.wf()
                &&& p.spec_kind() == kind
                &&& p.spec_dimension() == declared->Some_0.dimension
                &&& p.spec_domain() == intervals_of(bounds_of(declared->Some_0))
            },
        }
    }

    /// Builds the descriptor of `kind` from the metadata its oracle declared
    /// (`None` when the oracle could not be queried).
    pub fn of_kind(kind: ProblemKind, declared: Option<Metadata>) -> (r: Result<Self, CatalogError>)
        ensures
            Self::built(r, kind, declared),
    {
        let md = match declared {
            None => {
                return Err(CatalogError::Construction(ConstructionError::OracleUnavailable));
            },
            Some(md) => md,
        };
        let ghost bounds = bounds_of(md);
        assert(declared == Some(md));
        if md.dimension == 0 {
            return Err(CatalogError::Construction(ConstructionError::ZeroDimension));
        }
        if md.bounds.len() != md.dimension {
            return Err(CatalogError::Construction(ConstructionError::BoundCountMismatch));
        }
        let n = md.bounds.len();
        assert(bounds.len() == n);
        let mut i: usize = 0;
        while i < n
            invariant
                0 <= i <= n,
                n == md.bounds@.len(),
                n == md.dimension,
                n > 0,
                declared == Some(md),
                bounds == bounds_of(md),
                forall|j: int| 0 <= j < i ==> (#[trigger] bounds[j]).len() == 2,
            decreases n - i,
        {
            if md.bounds[i].len() != 2 {
                proof {
                    assert(bounds[i as int] == md.bounds@[i as int]@);
                    assert(bounds[i as int].len() != 2);
                }
                return Err(CatalogError::Construction(ConstructionError::MalformedBound));
            }
            i += 1;
        }
        let mut domain: Vec<Interval> = Vec::new();
        let mut i: usize = 0;
        while i < n
            invariant
                0 <= i <= n,
                n == md.bounds@.len(),
                n == md.dimension,
                n > 0,
                declared == Some(md),
                bounds == bounds_of(md),
                forall|j: int| 0 <= j < n ==> (#[trigger] bounds[j]).len() == 2,
                domain@ == intervals_of(bounds).subrange(0, i as int),
                forall|j: int| 0 <= j < i ==> (#[trigger] intervals_of(bounds)[j]).is_ordered(),
            decreases n - i,
        {
            let b = &md.bounds[i];
            proof {
                assert(b@ == bounds[i as int]);
            }
            let interval = Interval { lo: b[0], hi: b[1] };
            if !le_bits(interval.lo, interval.hi) {
                proof {
                    assert(intervals_of(bounds)[i as int] == interval);
                    assert(!(intervals_of(bounds)[i as int]).is_ordered());
                    assert(!exists|j: int| 0 <= j < bounds.len() && #[trigger] bounds[j].len() != 2);
                }
                return Err(CatalogError::Construction(ConstructionError::InvalidInterval));
            }
            domain.push(interval);
            i += 1;
            proof {
                assert(domain@ =~= intervals_of(bounds).subrange(0, i as int));
            }
        }
        proof {
            assert(domain@ =~= intervals_of(bounds));
        }
        Ok(EngineeringOptimizationProblem {
            kind,
            name: kind.identifier().to_owned(),
            dim: md.dimension,
            domain,
        })
    }

    /// `r` is what looking `name` up and building its descriptor from
    /// `declared` must give.
    pub open spec fn constructed(r: Result<Self, CatalogError>, name: Seq<char>, declared: Option<Metadata>) -> bool {
        match resolution(name) {
            Ok(kind) => Self::built(r, kind, declared),
            Err(e) => r matches Err(err) && err == e,
        }
    }

    /// Looks `name` up in the catalog and builds its descriptor from the
    /// metadata its oracle declared.
    pub fn new(name: &str, declared: Option<Metadata>) -> (r: Result<Self, CatalogError>)
        ensures
            Self::constructed(r, name@, declared),
    {
        match resolve(name) {
            Ok(kind) => Self::of_kind(kind, declared),
            Err(e) => Err(e),
        }
    }

    /// The descriptor of the `HeatExchangerNetworkDesignCase1` problem, built from what its oracle declared.
    pub fn heat_exchanger_network_design_case1(declared: Option<Metadata>) -> (r: Result<Self, CatalogError>)
        ensures
            Self::built(r, ProblemKind::HeatExchangerNetworkDesignCase1, declared),
    {
        Self::of_kind(ProblemKind::HeatExchangerNetworkDesignCase1, declared)
    }

    /// The descriptor of the `HeatExchangerNetworkDesignCase2` problem, built from what its oracle declared.
    pub fn heat_exchanger_network_design_case2(declared: Option<Metadata>) -> (r: Result<Self, CatalogError>)
        ensures
            Self::built(r, ProblemKind::HeatExchangerNetworkDesignCase2, declared),
    {
        Self::of_kind(ProblemKind::HeatExchangerNetworkDesignCase2, declared)
    }

    /// The descriptor of the `HaverlyPooling` problem, built from what its oracle declared.
    pub fn haverly_pooling(declared: Option<Metadata>) -> (r: Result<Self, CatalogError>)
        ensures
            Self::built(r, ProblemKind::HaverlyPooling, declared),
    {
        Self::of_kind(ProblemKind::HaverlyPooling, declared)
    }

    /// The descriptor of the `BlendingPoolingSeparation` problem, built from what its oracle declared.
    pub fn blending_pooling_separation(declared: Option<Metadata>) -> (r: Result<Self, CatalogError>)
        ensures
            Self::built(r, ProblemKind::BlendingPoolingSeparation, declared),
    {
        Self::of_kind(ProblemKind::BlendingPoolingSeparation, declared)
    }

    /// The descriptor of the `PropaneIsobutaneNButaneNonsharpSeparation` problem, built from what its oracle declared.
    pub fn propane_isobutane_n_butane_nonsharp_separation(declared: Option<Metadata>) -> (r: Result<Self, CatalogError>)
        ensures
            Self::built(r, ProblemKind::PropaneIsobutaneNButaneNonsharpSeparation, declared),
    {
        Self::of_kind(ProblemKind::PropaneIsobutaneNButaneNonsharpSeparation, declared)
    }

    /// The descriptor of the `OptimalOperationAlkylationUnit` problem, built from what its oracle declared.
    pub fn optimal_operation_alkylation_unit(declared: Option<Metadata>) -> (r: Result<Self, CatalogError>)
        ensures
            Self::built(r, ProblemKind::OptimalOperationAlkylationUnit, declared),
    {
        Self::of_kind(ProblemKind::OptimalOperationAlkylationUnit, declared)
    }

    /// The descriptor of the `ReactorNetworkDesign` problem, built from what its oracle declared.
    pub fn reactor_network_design(declared: Option<Metadata>) -> (r: Result<Self, CatalogError>)
        ensures
            Self::built(r, ProblemKind::ReactorNetworkDesign, declared),
    {
        Self::of_kind(ProblemKind::ReactorNetworkDesign, declared)
    }

    /// The descriptor of the `ProcessSynthesis01` problem, built from what its oracle declared.
    pub fn process_synthesis_01(declared: Option<Metadata>) -> (r: Result<Self, CatalogError>)
        ensures
            Self::built(r, ProblemKind::ProcessSynthesis01, declared),
    {
        Self::of_kind(ProblemKind::ProcessSynthesis01, declared)
    }

    /// The descriptor of the `ProcessSynthesis02` problem, built from what its oracle declared.
    pub fn process_synthesis_02(declared: Option<Metadata>) -> (r: Result<Self, CatalogError>)
        ensures
            Self::built(r, ProblemKind::ProcessSynthesis02, declared),
    {
        Self::of_kind(ProblemKind::ProcessSynthesis02, declared)
    }

    /// The descriptor of the `ProcessDesign` problem, built from what its oracle declared.
    pub fn process_design(declared: Option<Metadata>) -> (r: Result<Self, CatalogError>)
        ensures
            Self::built(r, ProblemKind::ProcessDesign, declared),
    {
        Self::of_kind(ProblemKind::ProcessDesign, declared)
    }

    /// The descriptor of the `ProcessSynthesisAndDesign` problem, built from what its oracle declared.
    pub fn process_synthesis_and_design(declared: Option<Metadata>) -> (r: Result<Self, CatalogError>)
        ensures
            Self::built(r, ProblemKind::ProcessSynthesisAndDesign, declared),
    {
        Self::of_kind(ProblemKind::ProcessSynthesisAndDesign, declared)
    }

    /// The descriptor of the `ProcessFlowSheeting` problem, built from what its oracle declared.
    pub fn process_flow_sheeting(declared: Option<Metadata>) -> (r: Result<Self, CatalogError>)
        ensures
            Self::built(r, ProblemKind::ProcessFlowSheeting, declared),
    {
        Self::of_kind(ProblemKind::ProcessFlowSheeting, declared)
    }

    /// The descriptor of the `TwoReactor` problem, built from what its oracle declared.
    pub fn two_reactor(declared: Option<Metadata>) -> (r: Result<Self, CatalogError>)
        ensures
            Self::built(r, ProblemKind::TwoReactor, declared),
    {
        Self::of_kind(ProblemKind::TwoReactor, declared)
    }

    /// The descriptor of the `MultiProductBatchPlant` problem, built from what its oracle declared.
    pub fn multi_product_batch_plant(declared: Option<Metadata>) -> (r: Result<Self, CatalogError>)
        ensures
            Self::built(r, ProblemKind::MultiProductBatchPlant, declared),
    {
        Self::of_kind(ProblemKind::MultiProductBatchPlant, declared)
    }

    /// The descriptor of the `WeightMinimizationSpeedReducer` problem, built from what its oracle declared.
    pub fn weight_minimization_speed_reducer(declared: Option<Metadata>) -> (r: Result<Self, CatalogError>)
        ensures
            Self::built(r, ProblemKind::WeightMinimizationSpeedReducer, declared),
    {
        Self::of_kind(ProblemKind::WeightMinimizationSpeedReducer, declared)
    }

    /// The descriptor of the `OptimalDesignIndustrialRefrigerationSystem` problem, built from what its oracle declared.
    pub fn optimal_design_industrial_refrigeration_system(declared: Option<Metadata>) -> (r: Result<Self, CatalogError>)
        ensures
            Self::built(r, ProblemKind::OptimalDesignIndustrialRefrigerationSystem, declared),
    {
        Self::of_kind(ProblemKind::OptimalDesignIndustrialRefrigerationSystem, declared)
    }

    /// The descriptor of the `TensionCompressionSpringDesign` problem, built from what its oracle declared.
    pub fn tension_compression_spring_design(declared: Option<Metadata>) -> (r: Result<Self, CatalogError>)
        ensures
            Self::built(r, ProblemKind::TensionCompressionSpringDesign, declared),
    {
        Self::of_kind(ProblemKind::TensionCompressionSpringDesign, declared)
    }

    /// The descriptor of the `PressureVesselDesign` problem, built from what its oracle declared.
    pub fn pressure_vessel_design(declared: Option<Metadata>) -> (r: Result<Self, CatalogError>)
        ensures
            Self::built(r, ProblemKind::PressureVesselDesign, declared),
    {
        Self::of_kind(ProblemKind::PressureVesselDesign, declared)
    }

    /// The descriptor of the `WeldedBeamDesign` problem, built from what its oracle declared.
    pub fn welded_beam_design(declared: Option<Metadata>) -> (r: Result<Self, CatalogError>)
        ensures
            Self::built(r, ProblemKind::WeldedBeamDesign, declared),
    {
        Self::of_kind(ProblemKind::WeldedBeamDesign, declared)
    }

    /// The descriptor of the `ThreeBarTrussDesign` problem, built from what its oracle declared.
    pub fn three_bar_truss_design(declared: Option<Metadata>) -> (r: Result<Self, CatalogError>)
        ensures
            Self::built(r, ProblemKind::ThreeBarTrussDesign, declared),
    {
        Self::of_kind(ProblemKind::ThreeBarTrussDesign, declared)
    }

    /// The descriptor of the `MultipleDiskClutchBrakeDesign` problem, built from what its oracle declared.
    pub fn multiple_disk_clutch_brake_design(declared: Option<Metadata>) -> (r: Result<Self, CatalogError>)
        ensures
            Self::built(r, ProblemKind::MultipleDiskClutchBrakeDesign, declared),
    {
        Self::of_kind(ProblemKind::MultipleDiskClutchBrakeDesign, declared)
    }

    /// The descriptor of the `PlanetaryGearTrainDesign` problem, built from what its oracle declared.
    pub fn planetary_gear_train_design(declared: Option<Metadata>) -> (r: Result<Self, CatalogError>)
        ensures
            Self::built(r, ProblemKind::PlanetaryGearTrainDesign, declared),
    {
        Self::of_kind(ProblemKind::PlanetaryGearTrainDesign, declared)
    }

    /// The descriptor of the `StepConePulley` problem, built from what its oracle declared.
    pub fn step_cone_pulley(declared: Option<Metadata>) -> (r: Result<Self, CatalogError>)
        ensures
            Self::built(r, ProblemKind::StepConePulley, declared),
    {
        Self::of_kind(ProblemKind::StepConePulley, declared)
    }

    /// The problem's identifier.
    pub fn name(&self) -> (r: &str)
        requires
            self.wf(),
        ensures
            r@ == identifier_of(self.spec_kind()),
    {
        self.name.as_str()
    }

    /// Which registered problem this is.
    pub fn kind(&self) -> (r: ProblemKind)
        ensures
            r == self.spec_kind(),
    {
        self.kind
    }

    /// Number of decision variables.
    pub fn dimension(&self) -> (r: usize)
        ensures
            r == self.spec_dimension(),
    {
        self.dim
    }

    /// The search box, one interval per decision variable.
    pub fn domain(&self) -> (r: Vec<Interval>)
        ensures
            r@ == self.spec_domain(),
    {
        self.domain.clone()
    }
}

/// Every registered identifier, given metadata its oracle declared without
/// fault, yields a descriptor of that problem whose dimension is the length
/// of its domain.
pub proof fn lemma_registered_problem_builds(
    k: ProblemKind,
    declared: Option<Metadata>,
    r: Result<EngineeringOptimizationProblem, CatalogError>,
)
    requires
        metadata_fault(declared) is None,
        EngineeringOptimizationProblem::constructed(r, identifier_of(k), declared),
    ensures
        r matches Ok(p) && p.spec_kind() == k && p.spec_dimension() == p.spec_domain().len(),
{
    crate::registry::lemma_resolve_identifier(k);
}

/// Every interval of a descriptor's domain has `lo <= hi`.
pub proof fn lemma_domain_ordered(p: EngineeringOptimizationProblem)
    requires
        p.wf(),
    ensures
        forall|i: int|
            0 <= i < p.spec_domain().len() ==> float_le(
                #[trigger] p.spec_domain()[i].lo,
                p.spec_domain()[i].hi,
            ),
{
    assert forall|i: int| 0 <= i < p.spec_domain().len() implies float_le(
        #[trigger] p.spec_domain()[i].lo,
        p.spec_domain()[i].hi,
    ) by {
        assert(p.spec_domain()[i].is_ordered());
    }
}

} // verus!
