//! Exact static resources of the binary-classification metric graph and
//! the checks of its population and recall thresholds.
use vstd::prelude::*;

use crate::boundary::{
    declares_storage, distinct_identities, identities_distinct, tensors_of, validate_boundary_storage, require_f32_vector, require_scalar_output, scalar_verdict,
    vector_verdict,
};
use crate::error::{OperationError, OperationErrorKind, OperationResult};
use crate::fragment::{CalculationNode, GraphLedger, KernelEmission, KindModel, NodeModel, total_bytes};
use crate::graph::{
    copy_tensor, flagged,
    CalculationGraph, FragmentBuilder, TensorModel, all_forbidden, append_fault, append_fragment,
    emission_models, namespace_kernels, namespace_values, node_alias_rules, node_kernels, node_models, plan_kernel,
    push_size, rule_views, tensor_ids, tensor_model, tensor_models,
};
use crate::identity::IdentityNamespace;
use crate::primitive::{
    AliasRule, GatherSpec, HistogramSpec, IndexMapSpec, ReduceOperator, ScanMode, ScanSpec, SortDirection, SortSpec,
};
use crate::request::{TensorDecl, tree_lanes_valid, valid_tree_lanes};
use crate::staging::{
    axis_list, elementwise, elementwise_node, gather, gather_node, histogram, histogram_node, index_map,
    index_map_node, one, scan, scan_node, sort, sort_node, sum, sum_node, three, two,
};
use crate::types::{ByteCount, DType, KernelTemplateId, ValueId};

verus! {

/// Largest population whose integer counts remain exact binary32 values
/// while keeping fewer than seven significant figures.
pub const MAX_EXACT_BINARY_EXAMPLES: u64 = 9_999_999;

pub const MAX_CALIBRATION_BINS: u32 = 256;

pub const MAX_RECALL_THRESHOLDS: usize = 256;

/// Exact static resources needed before identities or device memory are
/// reserved.
#[derive(Clone, Copy, Debug, PartialEq, Eq, Structural)]
pub struct BinaryMetricRequirements {
    pub intermediate_values: u64,
    pub kernels: u64,
    pub workspace_bytes: ByteCount,
}

/// The population, recall-threshold count and calibration-bin count are
/// supported.
pub open spec fn binary_dimensions_valid(examples: u64, recall_thresholds: usize, calibration_bins: u32) -> bool {
    &&& 1 <= examples <= MAX_EXACT_BINARY_EXAMPLES
    &&& recall_thresholds <= MAX_RECALL_THRESHOLDS
    &&& 1 <= calibration_bins <= MAX_CALIBRATION_BINS
}

/// Intermediate identities of the metric graph.
pub open spec fn binary_intermediates(recalls: int, bins: int) -> int {
    24 + 2 * recalls + 5 * bins
}

/// Kernel identities of the metric graph.
pub open spec fn binary_kernels(recalls: int, bins: int) -> int {
    24 + 3 * recalls + 4 * bins
}

/// Workspace bytes of the metric graph: nineteen population vectors and five
/// scalars, one vector and scalar per recall threshold, and two vectors and
/// three scalars per calibration bin.
pub open spec fn binary_workspace(examples: int, recalls: int, bins: int) -> int {
    let vector = examples * 4;
    19 * vector + 20 + recalls * (vector + 4) + bins * (2 * vector + 12)
}

fn metric_error(kind: OperationErrorKind, detail: &'static str) -> (error: OperationError)
    ensures
        error.kind == kind,
{
    OperationError::new(kind, detail)
}

/// Check the metric population and the static output counts.
pub fn validate_dimensions(examples: u64, recall_thresholds: usize, calibration_bins: u32) -> (result:
    OperationResult<()>)
    ensures
        result is Ok <==> binary_dimensions_valid(examples, recall_thresholds, calibration_bins),
        result matches Err(error) ==> error.kind == OperationErrorKind::UnsupportedConcreteShape,
{
    if examples == 0 || examples > MAX_EXACT_BINARY_EXAMPLES {
        return Err(
            metric_error(
                OperationErrorKind::UnsupportedConcreteShape,
                "binary metric population must be in 1..=9999999",
            ),
        );
    }
    if recall_thresholds > MAX_RECALL_THRESHOLDS {
        return Err(
            metric_error(
                OperationErrorKind::UnsupportedConcreteShape,
                "binary metrics support at most 256 static recall thresholds",
            ),
        );
    }
    if calibration_bins == 0 || calibration_bins > MAX_CALIBRATION_BINS {
        return Err(
            metric_error(
                OperationErrorKind::UnsupportedConcreteShape,
                "calibration bin count must be in 1..=256",
            ),
        );
    }
    Ok(())
}

/// Return the exact graph-resource reservation for a fixed metric population.
pub fn binary_metric_requirements(examples: u64, recall_thresholds: usize, calibration_bins: u32) -> (requirements:
    OperationResult<BinaryMetricRequirements>)
    ensures
        !binary_dimensions_valid(examples, recall_thresholds, calibration_bins) ==> (
        requirements matches Err(error) && error.kind
            == OperationErrorKind::UnsupportedConcreteShape),
        binary_dimensions_valid(examples, recall_thresholds, calibration_bins) ==> requirements
            == Ok::<BinaryMetricRequirements, OperationError>(
            BinaryMetricRequirements {
                intermediate_values: binary_intermediates(
                    recall_thresholds as int,
                    calibration_bins as int,
                ) as u64,
                kernels: binary_kernels(recall_thresholds as int, calibration_bins as int) as u64,
                workspace_bytes: ByteCount(
                    binary_workspace(
                        examples as int,
                        recall_thresholds as int,
                        calibration_bins as int,
                    ) as u64,
                ),
            },
        ),
{
    validate_dimensions(examples, recall_thresholds, calibration_bins)?;
    let recalls = recall_thresholds as u64;
    let bins = calibration_bins as u64;
    let vector_bytes = examples * DType::F32.byte_width();
    assert(recalls * (vector_bytes + 4) <= 256 * (39_999_996 + 4)) by (nonlinear_arith)
        requires
            recalls <= 256,
            vector_bytes <= 39_999_996,
    ;
    assert(bins * (2 * vector_bytes + 12) <= 256 * (2 * 39_999_996 + 12)) by (nonlinear_arith)
        requires
            bins <= 256,
            vector_bytes <= 39_999_996,
    ;
    let intermediate_values = 24 + 2 * recalls + 5 * bins;
    let kernels = 24 + 3 * recalls + 4 * bins;
    let base_workspace = 19 * vector_bytes + 20;
    let recall_workspace = recalls * (vector_bytes + 4);
    let calibration_workspace = bins * (2 * vector_bytes + 12);
    let workspace_bytes = base_workspace + recall_workspace + calibration_workspace;
    Ok(
        BinaryMetricRequirements {
            intermediate_values,
            kernels,
            workspace_bytes: ByteCount::new(workspace_bytes),
        },
    )
}

/// A recall threshold's binary32 bits encode a finite value in `[0, 1]`:
/// any value from positive zero to one, or negative zero.
pub open spec fn unit_threshold_bits(bits: u32) -> bool {
    bits <= 0x3f80_0000 || bits == 0x8000_0000
}

/// Whether binary32 `bits` encode a finite value in `[0, 1]`.
pub fn threshold_in_unit_interval(bits: u32) -> (accepted: bool)
    ensures
        accepted == unit_threshold_bits(bits),
{
    bits <= 0x3f80_0000 || bits == 0x8000_0000
}

/// Check the static recall thresholds: each must lie in `[0, 1]` and no bit
/// pattern may repeat.
pub fn validate_recall_thresholds(threshold_bits: &[u32]) -> (result: OperationResult<()>)
    ensures
        result is Ok <==> ((forall|i: int|
            0 <= i < threshold_bits@.len() ==> unit_threshold_bits(#[trigger] threshold_bits@[i]))
            && forall|i: int, j: int|
            0 <= i < j < threshold_bits@.len() ==> #[trigger] threshold_bits@[i]
                != #[trigger] threshold_bits@[j]),
        result matches Err(error) ==> error.kind == OperationErrorKind::InvalidMaterializationRequest,
{
    let mut index: usize = 0;
    while index < threshold_bits.len()
        invariant
            index <= threshold_bits@.len(),
            forall|i: int| 0 <= i < index ==> unit_threshold_bits(#[trigger] threshold_bits@[i]),
            forall|i: int, j: int|
                0 <= i < j < index ==> #[trigger] threshold_bits@[i] != #[trigger] threshold_bits@[j],
        decreases threshold_bits.len() - index,
    {
        let bits = threshold_bits[index];
        if !threshold_in_unit_interval(bits) {
            return Err(
                metric_error(
                    OperationErrorKind::InvalidMaterializationRequest,
                    "recall threshold must be a finite f32 in [0, 1]",
                ),
            );
        }
        let mut earlier: usize = 0;
        while earlier < index
            invariant
                earlier <= index < threshold_bits@.len(),
                bits == threshold_bits@[index as int],
                forall|i: int| 0 <= i < earlier ==> #[trigger] threshold_bits@[i] != bits,
            decreases index - earlier,
        {
            if threshold_bits[earlier] == bits {
                return Err(
                    metric_error(
                        OperationErrorKind::InvalidMaterializationRequest,
                        "recall threshold duplicates an earlier threshold bit pattern",
                    ),
                );
            }
            earlier = earlier + 1;
        }
        index = index + 1;
    }
    Ok(())
}

/// One recall-at-threshold output: the binary32 bits of its threshold and
/// the scalar tensor it writes.
#[derive(Clone, Debug)]
pub struct RecallAtOutput {
    pub threshold_bits: u32,
    pub output: TensorDecl,
}

/// Fully typed boundary of the binary-classification metric graph.
/// `per_element_bce` is the stable loss vector already emitted by training.
#[derive(Clone, Debug)]
pub struct BinaryClassificationMetricRequest {
    pub probabilities: TensorDecl,
    pub targets: TensorDecl,
    pub per_element_bce: TensorDecl,
    pub mean_bce: TensorDecl,
    pub auroc: TensorDecl,
    pub auprc: TensorDecl,
    pub brier_score: TensorDecl,
    pub expected_calibration_error: TensorDecl,
    pub recall_at: Vec<RecallAtOutput>,
    pub calibration_bins: u32,
    pub tree_lanes: u32,
    pub identity_namespace: IdentityNamespace,
    pub workspace_limit: ByteCount,
}

/// Why the recall outputs are refused: the first output that is not a
/// binary32 scalar, whose threshold lies outside `[0, 1]`, or whose
/// threshold bits repeat an earlier one.
pub open spec fn recalls_verdict(recalls: Seq<RecallAtOutput>) -> Option<OperationErrorKind>
    decreases recalls.len(),
{
    if recalls.len() == 0 {
        None
    } else {
        let earlier = recalls.drop_last();
        let last = recalls.last();
        match recalls_verdict(earlier) {
            Some(kind) => Some(kind),
            None => if scalar_verdict(last.output) is Some {
                scalar_verdict(last.output)
            } else if !unit_threshold_bits(last.threshold_bits) {
                Some(OperationErrorKind::InvalidMaterializationRequest)
            } else if exists|j: int|
                0 <= j < earlier.len() && (#[trigger] earlier[j]).threshold_bits == last.threshold_bits {
                Some(OperationErrorKind::InvalidMaterializationRequest)
            } else {
                None
            },
        }
    }
}

impl BinaryClassificationMetricRequest {
    /// Every boundary tensor: the three inputs, the five scalar outputs, then
    /// the recall outputs in order.
    pub open spec fn boundary_tensors(&self) -> Seq<TensorDecl> {
        seq![
            self.probabilities,
            self.targets,
            self.per_element_bce,
            self.mean_bce,
            self.auroc,
            self.auprc,
            self.brier_score,
            self.expected_calibration_error,
        ] + self.recall_at@.map_values(|recall: RecallAtOutput| recall.output)
    }

    /// The population the request describes, or why it is refused, in the
    /// order the checks run.
    pub open spec fn verdict(&self) -> Result<u64, OperationErrorKind> {
        let probabilities = self.probabilities;
        if vector_verdict(probabilities) is Some {
            Err(vector_verdict(probabilities)->Some_0)
        } else if vector_verdict(self.targets) is Some {
            Err(vector_verdict(self.targets)->Some_0)
        } else if vector_verdict(self.per_element_bce) is Some {
            Err(vector_verdict(self.per_element_bce)->Some_0)
        } else if self.targets.extents@ != probabilities.extents@ || self.per_element_bce.extents@
            != probabilities.extents@ {
            Err(OperationErrorKind::UnsupportedConcreteShape)
        } else if !binary_dimensions_valid(
            probabilities.extents@[0],
            self.recall_at@.len() as usize,
            self.calibration_bins,
        ) {
            Err(OperationErrorKind::UnsupportedConcreteShape)
        } else if !tree_lanes_valid(self.tree_lanes as u64) {
            Err(OperationErrorKind::InvalidMaterializationRequest)
        } else if scalar_verdict(self.mean_bce) is Some {
            Err(scalar_verdict(self.mean_bce)->Some_0)
        } else if scalar_verdict(self.auroc) is Some {
            Err(scalar_verdict(self.auroc)->Some_0)
        } else if scalar_verdict(self.auprc) is Some {
            Err(scalar_verdict(self.auprc)->Some_0)
        } else if scalar_verdict(self.brier_score) is Some {
            Err(scalar_verdict(self.brier_score)->Some_0)
        } else if scalar_verdict(self.expected_calibration_error) is Some {
            Err(scalar_verdict(self.expected_calibration_error)->Some_0)
        } else if recalls_verdict(self.recall_at@) is Some {
            Err(recalls_verdict(self.recall_at@)->Some_0)
        } else if !identities_distinct(self.boundary_tensors()) {
            Err(OperationErrorKind::InvalidMaterializationRequest)
        } else {
            Ok(probabilities.extents@[0])
        }
    }
}

/// Check the recall outputs in order.
#[verifier::loop_isolation(false)]
fn validate_recalls(recalls: &Vec<RecallAtOutput>) -> (result: OperationResult<()>)
    ensures
        match recalls_verdict(recalls@) {
            Some(kind) => result matches Err(error) && error.kind == kind,
            None => result is Ok,
        },
{
    let mut index: usize = 0;
    assert(recalls@.subrange(0, 0) =~= Seq::<RecallAtOutput>::empty());
    while index < recalls.len()
        invariant
            index <= recalls@.len(),
            recalls_verdict(recalls@.subrange(0, index as int)) is None,
        decreases recalls.len() - index,
    {
        let ghost prefix = recalls@.subrange(0, index as int + 1);
        assert(prefix.drop_last() =~= recalls@.subrange(0, index as int));
        assert(prefix.last() == recalls@[index as int]);
        let recall = &recalls[index];
        match require_scalar_output(&recall.output) {
            Ok(()) => {},
            Err(error) => {
                proof {
                    lemma_recalls_verdict_prefix(recalls@, index as int + 1);
                }
                return Err(error);
            },
        }
        if !threshold_in_unit_interval(recall.threshold_bits) {
            proof {
                lemma_recalls_verdict_prefix(recalls@, index as int + 1);
            }
            return Err(
                metric_error(
                    OperationErrorKind::InvalidMaterializationRequest,
                    "recall threshold must be a finite f32 in [0, 1]",
                ),
            );
        }
        let mut earlier: usize = 0;
        while earlier < index
            invariant
                earlier <= index < recalls@.len(),
                *recall == recalls@[index as int],
                prefix == recalls@.subrange(0, index as int + 1),
                forall|j: int|
                    0 <= j < earlier ==> (#[trigger] recalls@[j]).threshold_bits
                        != recalls@[index as int].threshold_bits,
            decreases index - earlier,
        {
            if recalls[earlier].threshold_bits == recall.threshold_bits {
                proof {
                    assert(prefix.drop_last()[earlier as int] == recalls@[earlier as int]);
                    lemma_recalls_verdict_prefix(recalls@, index as int + 1);
                }
                return Err(
                    metric_error(
                        OperationErrorKind::InvalidMaterializationRequest,
                        "recall threshold duplicates an earlier threshold bit pattern",
                    ),
                );
            }
            earlier = earlier + 1;
        }
        proof {
            assert forall|j: int| 0 <= j < prefix.drop_last().len() implies (
            #[trigger] prefix.drop_last()[j]).threshold_bits != prefix.last().threshold_bits by {
                assert(prefix.drop_last()[j] == recalls@[j]);
            }
        }
        index = index + 1;
    }
    assert(recalls@.subrange(0, recalls@.len() as int) =~= recalls@);
    Ok(())
}

/// Once some prefix of the recalls is refused, every longer prefix is
/// refused for the same reason.
proof fn lemma_recalls_verdict_prefix(recalls: Seq<RecallAtOutput>, length: int)
    requires
        0 <= length <= recalls.len(),
    ensures
        recalls_verdict(recalls.subrange(0, length)) is Some ==> recalls_verdict(recalls)
            == recalls_verdict(recalls.subrange(0, length)),
    decreases recalls.len() - length,
{
    if length < recalls.len() {
        lemma_recalls_verdict_prefix(recalls, length + 1);
        let longer = recalls.subrange(0, length + 1);
        assert(longer.drop_last() =~= recalls.subrange(0, length));
    } else {
        assert(recalls.subrange(0, length) =~= recalls);
    }
}

impl BinaryClassificationMetricRequest {
    /// Check the metric boundary and return its population.
    pub fn validate_request(&self) -> (result: OperationResult<u64>)
        ensures
            match self.verdict() {
                Ok(examples) => result == Ok::<u64, OperationError>(examples),
                Err(kind) => result matches Err(error) && error.kind == kind,
            },
    {
        require_f32_vector(&self.probabilities)?;
        require_f32_vector(&self.targets)?;
        require_f32_vector(&self.per_element_bce)?;
        if !same_extents(&self.targets.extents, &self.probabilities.extents) || !same_extents(
            &self.per_element_bce.extents,
            &self.probabilities.extents,
        ) {
            return Err(
                metric_error(
                    OperationErrorKind::UnsupportedConcreteShape,
                    "probabilities, targets, and per-element BCE must have identical shapes",
                ),
            );
        }
        let examples = self.probabilities.extents[0];
        validate_dimensions(examples, self.recall_at.len(), self.calibration_bins)?;
        if !valid_tree_lanes(self.tree_lanes as u64) {
            return Err(
                metric_error(
                    OperationErrorKind::InvalidMaterializationRequest,
                    "tree_lanes must be a power of two in 1..=1024",
                ),
            );
        }
        require_scalar_output(&self.mean_bce)?;
        require_scalar_output(&self.auroc)?;
        require_scalar_output(&self.auprc)?;
        require_scalar_output(&self.brier_score)?;
        require_scalar_output(&self.expected_calibration_error)?;
        validate_recalls(&self.recall_at)?;
        let mut boundary: Vec<&TensorDecl> = vec![
            &self.probabilities,
            &self.targets,
            &self.per_element_bce,
            &self.mean_bce,
            &self.auroc,
            &self.auprc,
            &self.brier_score,
            &self.expected_calibration_error,
        ];
        let ghost fixed = seq![
            self.probabilities,
            self.targets,
            self.per_element_bce,
            self.mean_bce,
            self.auroc,
            self.auprc,
            self.brier_score,
            self.expected_calibration_error,
        ];
        let ghost outputs = self.recall_at@.map_values(|recall: RecallAtOutput| recall.output);
        assert(boundary@.map_values(|tensor: &TensorDecl| *tensor) =~= fixed + outputs.subrange(0, 0));
        let mut index: usize = 0;
        while index < self.recall_at.len()
            invariant
                index <= self.recall_at@.len(),
                outputs == self.recall_at@.map_values(|recall: RecallAtOutput| recall.output),
                boundary@.map_values(|tensor: &TensorDecl| *tensor) == fixed + outputs.subrange(
                    0,
                    index as int,
                ),
            decreases self.recall_at.len() - index,
        {
            let ghost before = boundary@;
            boundary.push(&self.recall_at[index].output);
            assert(boundary@.map_values(|tensor: &TensorDecl| *tensor) =~= fixed + outputs.subrange(
                0,
                index + 1,
            )) by {
                assert(boundary@ == before.push(&self.recall_at@[index as int].output));
                assert(before.map_values(|tensor: &TensorDecl| *tensor) == fixed + outputs.subrange(
                    0,
                    index as int,
                ));
                assert(outputs[index as int] == self.recall_at@[index as int].output);
                assert(outputs.subrange(0, index + 1) =~= outputs.subrange(0, index as int).push(
                    outputs[index as int],
                ));
                assert(boundary@.map_values(|tensor: &TensorDecl| *tensor) =~= before.map_values(
                    |tensor: &TensorDecl| *tensor,
                ).push(self.recall_at@[index as int].output));
            }
            index = index + 1;
        }
        assert(outputs.subrange(0, outputs.len() as int) =~= outputs);
        assert(boundary@.map_values(|tensor: &TensorDecl| *tensor) =~= self.boundary_tensors());
        if !distinct_identities(&boundary) {
            return Err(
                metric_error(
                    OperationErrorKind::InvalidMaterializationRequest,
                    "binary metric boundary repeats a tensor",
                ),
            );
        }
        Ok(examples)
    }
}

fn same_extents(left: &Vec<u64>, right: &Vec<u64>) -> (same: bool)
    ensures
        same == (left@ == right@),
{
    if left.len() != right.len() {
        return false;
    }
    let mut index: usize = 0;
    while index < left.len()
        invariant
            index <= left@.len() == right@.len(),
            forall|i: int| 0 <= i < index ==> left@[i] == right@[i],
        decreases left.len() - index,
    {
        if left[index] != right[index] {
            return false;
        }
        index = index + 1;
    }
    assert(left@ =~= right@);
    true
}

/// The resources a metric request reserves, once its boundary validates and
/// its namespace and workspace limit hold them.
pub open spec fn binary_admission(request: BinaryClassificationMetricRequest) -> Result<
    BinaryMetricRequirements,
    OperationErrorKind,
> {
    match request.verdict() {
        Err(kind) => Err(kind),
        Ok(examples) => {
            let recalls = request.recall_at@.len() as int;
            let bins = request.calibration_bins as int;
            let requirements = BinaryMetricRequirements {
                intermediate_values: binary_intermediates(recalls, bins) as u64,
                kernels: binary_kernels(recalls, bins) as u64,
                workspace_bytes: ByteCount(binary_workspace(examples as int, recalls, bins) as u64),
            };
            if requirements.intermediate_values > request.identity_namespace.value_capacity
                || requirements.kernels > request.identity_namespace.kernel_capacity {
                Err(OperationErrorKind::IdentityNamespaceExhausted)
            } else if requirements.workspace_bytes.0 > request.workspace_limit.0 {
                Err(OperationErrorKind::WorkspaceLimitExceeded)
            } else {
                Ok(requirements)
            }
        },
    }
}

/// Validate a metric request and check that its namespace and workspace
/// limit hold the exact resources of the metric graph, before any graph is
/// emitted.
pub fn reserve_binary_classification_metrics(request: &BinaryClassificationMetricRequest) -> (result:
    OperationResult<BinaryMetricRequirements>)
    ensures
        match binary_admission(*request) {
            Ok(requirements) => result == Ok::<BinaryMetricRequirements, OperationError>(requirements),
            Err(kind) => result matches Err(error) && error.kind == kind,
        },
{
    let examples = request.validate_request()?;
    let requirements = binary_metric_requirements(examples, request.recall_at.len(), request.calibration_bins)?;
    if requirements.intermediate_values > request.identity_namespace.value_capacity() {
        return Err(
            metric_error(
                OperationErrorKind::IdentityNamespaceExhausted,
                "binary metrics need more intermediate identities than the namespace reserves",
            ),
        );
    }
    if requirements.kernels > request.identity_namespace.kernel_capacity() {
        return Err(
            metric_error(
                OperationErrorKind::IdentityNamespaceExhausted,
                "binary metrics need more kernel identities than the namespace reserves",
            ),
        );
    }
    if requirements.workspace_bytes.get() > request.workspace_limit.get() {
        return Err(
            metric_error(
                OperationErrorKind::WorkspaceLimitExceeded,
                "binary metrics need more workspace bytes than the limit",
            ),
        );
    }
    Ok(requirements)
}

/// The identities of every boundary tensor, in boundary order.
pub open spec fn metric_boundary_ids(request: BinaryClassificationMetricRequest) -> Seq<ValueId> {
    request.boundary_tensors().map_values(|tensor: TensorDecl| tensor.id)
}

/// The reservation a metric graph is emitted under, or why the request is
/// refused: the admission checks, then a namespace that leaves `u64`, then
/// a boundary tensor inside the intermediate range.
pub open spec fn metric_verdict(request: BinaryClassificationMetricRequest) -> Result<
    BinaryMetricRequirements,
    OperationErrorKind,
> {
    match binary_admission(request) {
        Err(kind) => Err(kind),
        Ok(requirements) => if !request.identity_namespace.fits() {
            Err(OperationErrorKind::IdentityNamespaceExhausted)
        } else if GraphLedger::declared_overlaps(request.identity_namespace, metric_boundary_ids(request)) {
            Err(OperationErrorKind::IdentityNamespaceOverlap)
        } else {
            Ok(requirements)
        },
    }
}

/// Population-wide kernels over the first twenty-four intermediates: the
/// guarded copy of the inputs, the mean loss and Brier score, the positive
/// count, the stable descending sort with its tie groups, the per-group
/// counts and their running totals, the ranking contributions and the
/// AUROC and AUPRC results.
pub open spec fn base_metric_plan(request: BinaryClassificationMetricRequest, v: Seq<ValueId>) -> Seq<NodeModel> {
    let lanes = request.tree_lanes;
    let examples = request.probabilities.extents@[0];
    let total = |input: ValueId, output: ValueId| sum_node(input, output, seq![0usize], false, lanes);
    let running = ScanSpec {
        operator: ReduceOperator::Sum,
        mode: ScanMode::Inclusive,
        axis: 0,
        reverse: false,
        tree_lanes: lanes,
    };
    seq![
        elementwise_node(
            seq![request.probabilities.id, request.targets.id, request.per_element_bce.id],
            seq![v[0], v[1], v[2]],
        ),
        total(v[2], v[3]),
        elementwise_node(seq![v[3]], seq![request.mean_bce.id]),
        elementwise_node(seq![v[0], v[1]], seq![v[4]]),
        total(v[4], v[5]),
        elementwise_node(seq![v[5]], seq![request.brier_score.id]),
        total(v[1], v[6]),
        sort_node(
            v[0],
            v[7],
            v[8],
            SortSpec { direction: SortDirection::Descending, stable: true, axis: 0, emit_indices: true },
        ),
        gather_node(v[1], v[8], v[9], GatherSpec { axis: 0, rejects_out_of_bounds: true }),
        index_map_node(v[10], IndexMapSpec { start: 0, element_step: 1, iteration_step: 0, modulus: None }),
        index_map_node(v[11], IndexMapSpec { start: -1i32, element_step: 1, iteration_step: 0, modulus: None }),
        gather_node(v[7], v[11], v[12], GatherSpec { axis: 0, rejects_out_of_bounds: false }),
        elementwise_node(seq![v[7], v[12], v[10]], seq![v[13]]),
        scan_node(v[13], v[14], running),
        elementwise_node(seq![v[14]], seq![v[15]]),
        histogram_node(seq![v[15]], v[16], HistogramSpec { bins: examples as u32, weighted: false }),
        histogram_node(seq![v[15], v[9]], v[17], HistogramSpec { bins: examples as u32, weighted: true }),
        scan_node(v[16], v[18], running),
        scan_node(v[17], v[19], running),
        elementwise_node(seq![v[16], v[17], v[18], v[19], v[6]], seq![v[20], v[21]]),
        total(v[20], v[22]),
        total(v[21], v[23]),
        elementwise_node(seq![v[6], v[22], v[23]], seq![request.auroc.id, request.auprc.id]),
    ]
}

/// The kernels of recall threshold `r`: the hits at the threshold, their
/// total, and the total over the positive count.
pub open spec fn recall_nodes(request: BinaryClassificationMetricRequest, v: Seq<ValueId>, r: int) -> Seq<NodeModel> {
    let hits = v[24 + 2 * r];
    let true_positives = v[25 + 2 * r];
    seq![
        elementwise_node(seq![v[0], v[1]], seq![hits]),
        sum_node(hits, true_positives, seq![0usize], false, request.tree_lanes),
        elementwise_node(seq![true_positives, v[6]], seq![request.recall_at@[r].output.id]),
    ]
}

/// The kernels of the first `count` recall thresholds.
pub open spec fn recall_plans(request: BinaryClassificationMetricRequest, v: Seq<ValueId>, count: nat) -> Seq<
    NodeModel,
>
    decreases count,
{
    if count == 0 {
        Seq::empty()
    } else {
        recall_plans(request, v, (count - 1) as nat) + recall_nodes(request, v, count - 1)
    }
}

/// Index of the first intermediate of calibration bin `b`.
pub open spec fn bin_base(request: BinaryClassificationMetricRequest, b: int) -> int {
    24 + 2 * request.recall_at@.len() + 5 * b
}

/// The kernels of calibration bin `b`: the confidence and target members
/// of the bin, their totals, and the bin's contribution.
pub open spec fn bin_nodes(request: BinaryClassificationMetricRequest, v: Seq<ValueId>, b: int) -> Seq<NodeModel> {
    let base = bin_base(request, b);
    seq![
        elementwise_node(seq![v[0], v[1]], seq![v[base], v[base + 1]]),
        sum_node(v[base], v[base + 2], seq![0usize], false, request.tree_lanes),
        sum_node(v[base + 1], v[base + 3], seq![0usize], false, request.tree_lanes),
        elementwise_node(seq![v[base + 2], v[base + 3]], seq![v[base + 4]]),
    ]
}

/// The kernels of the first `count` calibration bins.
pub open spec fn bin_plans(request: BinaryClassificationMetricRequest, v: Seq<ValueId>, count: nat) -> Seq<NodeModel>
    decreases count,
{
    if count == 0 {
        Seq::empty()
    } else {
        bin_plans(request, v, (count - 1) as nat) + bin_nodes(request, v, count - 1)
    }
}

/// The contributions of the first `count` calibration bins.
pub open spec fn bin_contributions(request: BinaryClassificationMetricRequest, v: Seq<ValueId>, count: nat) -> Seq<
    ValueId,
> {
    Seq::new(count, |b: int| v[bin_base(request, b) + 4])
}

/// The whole metric graph: the population-wide kernels, each recall
/// threshold, each calibration bin, and the sum of the bin contributions
/// into the expected calibration error.
pub open spec fn metric_plan(request: BinaryClassificationMetricRequest, v: Seq<ValueId>) -> Seq<NodeModel> {
    let bins = request.calibration_bins as nat;
    base_metric_plan(request, v) + recall_plans(request, v, request.recall_at@.len()) + bin_plans(request, v, bins)
        + seq![
        elementwise_node(bin_contributions(request, v, bins), seq![request.expected_calibration_error.id]),
    ]
}

/// Kernel `3 r + j` of the first `count` recall plans is kernel `j` of
/// threshold `r`.
proof fn lemma_recall_plans_index(request: BinaryClassificationMetricRequest, v: Seq<ValueId>, count: nat, r: int, j: int)
    requires
        0 <= r < count,
        0 <= j < 3,
    ensures
        recall_plans(request, v, count).len() == 3 * count,
        recall_plans(request, v, count)[3 * r + j] == recall_nodes(request, v, r)[j],
    decreases count,
{
    lemma_recall_plans_len(request, v, (count - 1) as nat);
    if r < count - 1 {
        lemma_recall_plans_index(request, v, (count - 1) as nat, r, j);
    }
}

proof fn lemma_recall_plans_len(request: BinaryClassificationMetricRequest, v: Seq<ValueId>, count: nat)
    ensures
        recall_plans(request, v, count).len() == 3 * count,
    decreases count,
{
    if count > 0 {
        lemma_recall_plans_len(request, v, (count - 1) as nat);
    }
}

/// Some kernel of `plan` writes `recall` alone, reading `count` as its
/// second input.
pub open spec fn recall_divides_by(plan: Seq<NodeModel>, recall: ValueId, count: ValueId) -> bool {
    exists|i: int| 0 <= i < plan.len() && #[trigger] plan[i].outputs == seq![recall] && plan[i].inputs[1] == count
}

/// Kernel `k` of `plan` writes the AUROC and AUPRC from the count that
/// kernel `j` sums over the examples from the validation kernel's second
/// output, and every recall kernel reads the same count.
pub open spec fn positive_count_kernels(
    plan: Seq<NodeModel>,
    request: BinaryClassificationMetricRequest,
    j: int,
    k: int,
) -> bool {
    &&& 0 <= j < plan.len()
    &&& 0 <= k < plan.len()
    &&& plan.len() > 0
    &&& plan[k].outputs == seq![request.auroc.id, request.auprc.id]
    &&& plan[j].outputs == seq![plan[k].inputs[0]]
    &&& plan[j].inputs == seq![plan[0].outputs[1]]
    &&& plan[j].kind matches KindModel::Reduce { operator, axes, .. } && operator == ReduceOperator::Sum && axes
        == seq![0usize]
    &&& forall|r: int|
        0 <= r < request.recall_at@.len() ==> #[trigger] recall_divides_by(
            plan,
            request.recall_at@[r].output.id,
            plan[k].inputs[0],
        )
}

/// The positive count of the metric graph, which the AUROC and AUPRC
/// kernel and every recall kernel divide by, is the sum over the examples
/// of the validated targets: the output of the validation kernel in the
/// position of the targets it reads, not the validated probabilities.
proof fn lemma_base_plan_shape(request: BinaryClassificationMetricRequest, v: Seq<ValueId>)
    ensures
        base_metric_plan(request, v).len() == 23,
{
}

pub proof fn lemma_positive_count_sums_validated_targets(request: BinaryClassificationMetricRequest, v: Seq<ValueId>)
    ensures
        metric_plan(request, v)[0].inputs == seq![request.probabilities.id, request.targets.id, request.per_element_bce.id],
        metric_plan(request, v)[0].outputs.len() == 3,
        exists|j: int, k: int| #[trigger] positive_count_kernels(metric_plan(request, v), request, j, k),
{
    let plan = metric_plan(request, v);
    let base = base_metric_plan(request, v);
    let count = request.recall_at@.len();
    lemma_recall_plans_len(request, v, count);
    assert(base =~= base_metric_plan(request, v));
    lemma_base_plan_shape(request, v);
    assert(plan[0] == base[0]);
    assert(plan[6] == base[6]);
    assert(plan[22] == base[22]);
    assert forall|r: int| 0 <= r < count implies #[trigger] recall_divides_by(
        plan,
        request.recall_at@[r].output.id,
        plan[22].inputs[0],
    ) by {
        lemma_recall_plans_index(request, v, count, r, 2);
        let i = 23 + 3 * r + 2;
        let recalls = recall_plans(request, v, count);
        let head = base + recalls;
        assert(head[i] == recalls[3 * r + 2]);
        let bins = request.calibration_bins as nat;
        assert(plan == head + bin_plans(request, v, bins) + seq![
            elementwise_node(bin_contributions(request, v, bins), seq![request.expected_calibration_error.id]),
        ]);
        assert(plan[i] == head[i]);
        assert(plan[i].outputs == seq![request.recall_at@[r].output.id]);
        assert(plan[i].inputs[1] == plan[22].inputs[0]);
    }
    assert(positive_count_kernels(plan, request, 6, 22));
}

/// In every materialized metric graph the positive count is the sum over
/// the examples of the validated targets, shared by the AUROC and AUPRC
/// kernel and every recall kernel.
pub proof fn lemma_materialized_positive_count(
    request: BinaryClassificationMetricRequest,
    requirements: BinaryMetricRequirements,
    materialization: BinaryMetricMaterialization,
)
    requires
        metric_materialized(request, requirements, materialization),
    ensures
        node_models(materialization.nodes@)[0].inputs[1] == request.targets.id,
        exists|j: int, k: int| #[trigger] positive_count_kernels(node_models(materialization.nodes@), request, j, k),
{
    let values = namespace_values(request.identity_namespace, requirements.intermediate_values as nat);
    lemma_positive_count_sums_validated_targets(request, values);
}

/// Metric intermediate `i` is a population vector; the others are `[1]`
/// scalars.
pub open spec fn metric_intermediate_vector(recalls: int, i: int) -> bool {
    if i < 24 {
        !(i == 3 || i == 5 || i == 6 || i == 22 || i == 23)
    } else if i < 24 + 2 * recalls {
        (i - 24) % 2 == 0
    } else {
        (i - 24 - 2 * recalls) % 5 < 2
    }
}

/// Metric intermediate `i` holds int32 indices or counts; the others hold
/// binary32 values.
pub open spec fn metric_intermediate_i32(i: int) -> bool {
    i == 8 || i == 10 || i == 11 || i == 13 || i == 14 || i == 15 || i == 16 || i == 18
}

/// The declarations of the metric intermediates `v`.
pub open spec fn metric_intermediate_models(request: BinaryClassificationMetricRequest, v: Seq<ValueId>) -> Seq<
    TensorModel,
> {
    let examples = request.probabilities.extents@[0];
    let recalls = request.recall_at@.len() as int;
    Seq::new(
        v.len(),
        |i: int|
            TensorModel {
                id: v[i],
                dtype: if metric_intermediate_i32(i) {
                    DType::I32
                } else {
                    DType::F32
                },
                extents: if metric_intermediate_vector(recalls, i) {
                    seq![examples]
                } else {
                    seq![1u64]
                },
                storage_bytes: ByteCount(
                    if metric_intermediate_vector(recalls, i) {
                        (examples * 4) as u64
                    } else {
                        4
                    },
                ),
                external_input: false,
                external_output: false,
            },
    )
}

/// The declarations of the metric intermediates `v`.
fn metric_intermediate_tensors(request: &BinaryClassificationMetricRequest, v: &Vec<ValueId>) -> (tensors: Vec<
    TensorDecl,
>)
    requires
        request.verdict() is Ok,
    ensures
        tensor_models(tensors@) == metric_intermediate_models(*request, v@),
{
    let examples = request.probabilities.extents[0];
    let recalls = request.recall_at.len();
    let mut tensors: Vec<TensorDecl> = Vec::new();
    let mut index: usize = 0;
    while index < v.len()
        invariant
            index <= v@.len(),
            examples == request.probabilities.extents@[0],
            examples <= MAX_EXACT_BINARY_EXAMPLES,
            recalls == request.recall_at@.len(),
            recalls <= MAX_RECALL_THRESHOLDS,
            tensor_models(tensors@) == metric_intermediate_models(*request, v@).subrange(0, index as int),
        decreases v.len() - index,
    {
        let vector = if index < 24 {
            !(index == 3 || index == 5 || index == 6 || index == 22 || index == 23)
        } else if index < 24 + 2 * recalls {
            (index - 24) % 2 == 0
        } else {
            (index - 24 - 2 * recalls) % 5 < 2
        };
        let integer = index == 8 || index == 10 || index == 11 || index == 13 || index == 14 || index == 15
            || index == 16 || index == 18;
        let tensor = TensorDecl {
            id: v[index],
            dtype: if integer {
                DType::I32
            } else {
                DType::F32
            },
            extents: if vector {
                one(examples)
            } else {
                one(1u64)
            },
            storage_bytes: ByteCount(
                if vector {
                    examples * 4
                } else {
                    4
                },
            ),
            external_input: false,
            external_output: false,
        };
        let ghost before = tensors@;
        tensors.push(tensor);
        index = index + 1;
        assert(tensor_models(tensors@) =~= metric_intermediate_models(*request, v@).subrange(0, index as int)) by {
            assert(tensor_models(tensors@) =~= tensor_models(before).push(tensor_model(tensor)));
        }
    }
    assert(metric_intermediate_models(*request, v@).subrange(0, v@.len() as int) =~= metric_intermediate_models(
        *request,
        v@,
    ));
    tensors
}

/// The emitted metric fragment.
#[derive(Debug)]
pub struct BinaryMetricMaterialization {
    pub boundary_tensors: Vec<TensorDecl>,
    pub nodes: Vec<CalculationNode>,
    pub intermediate_tensors: Vec<TensorDecl>,
    pub intermediate_values: Vec<ValueId>,
    pub kernels: Vec<KernelTemplateId>,
    pub workspace_bytes: ByteCount,
    pub identity_namespace: IdentityNamespace,
}

/// `materialization` is the metric graph of `request` under the
/// reservation `requirements`.
pub open spec fn metric_materialized(
    request: BinaryClassificationMetricRequest,
    requirements: BinaryMetricRequirements,
    materialization: BinaryMetricMaterialization,
) -> bool {
    let namespace = request.identity_namespace;
    let values = namespace_values(namespace, requirements.intermediate_values as nat);
    let kernels = namespace_kernels(namespace, requirements.kernels as nat);
    let plan = metric_plan(request, values);
    &&& tensor_models(materialization.boundary_tensors@) == metric_boundary_models(request)
    &&& materialization.intermediate_values@ == values
    &&& tensor_models(materialization.intermediate_tensors@) == metric_intermediate_models(request, values)
    &&& materialization.kernels@ == kernels
    &&& node_models(materialization.nodes@) == plan
    &&& node_alias_rules(materialization.nodes@) == all_forbidden(plan)
    &&& node_kernels(materialization.nodes@) == kernels
    &&& materialization.workspace_bytes == requirements.workspace_bytes
    &&& materialization.identity_namespace == namespace
}

/// The metric graph's boundary, in boundary order: the probabilities,
/// targets and per-element losses become external inputs, every metric
/// result an external output.
pub open spec fn metric_boundary_models(request: BinaryClassificationMetricRequest) -> Seq<TensorModel> {
    request.boundary_tensors().map(|i: int, tensor: TensorDecl| flagged(tensor, i < 3, i >= 3))
}

/// A copy of a boundary declaration with the given external flags.
fn boundary_copy(tensor: &TensorDecl, input: bool) -> (copy: TensorDecl)
    ensures
        tensor_model(copy) == flagged(*tensor, input, !input),
{
    let mut copy = copy_tensor(tensor);
    copy.external_input = input;
    copy.external_output = !input;
    copy
}

/// The boundary declarations, normalized: inputs external inputs, results
/// external outputs.
fn metric_boundary_copies(request: &BinaryClassificationMetricRequest) -> (tensors: Vec<TensorDecl>)
    ensures
        tensor_models(tensors@) == metric_boundary_models(*request),
{
    let ghost all = request.boundary_tensors();
    let ghost goal = metric_boundary_models(*request);
    let mut tensors: Vec<TensorDecl> = Vec::new();
    tensors.push(boundary_copy(&request.probabilities, true));
    tensors.push(boundary_copy(&request.targets, true));
    tensors.push(boundary_copy(&request.per_element_bce, true));
    tensors.push(boundary_copy(&request.mean_bce, false));
    tensors.push(boundary_copy(&request.auroc, false));
    tensors.push(boundary_copy(&request.auprc, false));
    tensors.push(boundary_copy(&request.brier_score, false));
    tensors.push(boundary_copy(&request.expected_calibration_error, false));
    assert(tensor_models(tensors@) =~= goal.subrange(0, 8));
    let mut index: usize = 0;
    while index < request.recall_at.len()
        invariant
            index <= request.recall_at@.len(),
            all == request.boundary_tensors(),
            goal == metric_boundary_models(*request),
            all.len() == 8 + request.recall_at@.len(),
            goal.len() == all.len(),
            tensor_models(tensors@) == goal.subrange(0, 8 + index),
        decreases request.recall_at.len() - index,
    {
        let ghost before = tensors@;
        let copy = boundary_copy(&request.recall_at[index].output, false);
        tensors.push(copy);
        assert(all[8 + index] == request.recall_at@[index as int].output);
        assert(goal[8 + index] == flagged(all[8 + index], false, true));
        assert(tensor_models(tensors@) =~= tensor_models(before).push(tensor_model(copy)));
        assert(goal.subrange(0, 8 + index + 1) =~= goal.subrange(0, 8 + index).push(goal[8 + index]));
        index = index + 1;
    }
    assert(goal.subrange(0, goal.len() as int) =~= goal);
    tensors
}

/// The identities of every boundary tensor, in boundary order.
fn metric_boundary_list(request: &BinaryClassificationMetricRequest) -> (ids: Vec<ValueId>)
    ensures
        ids@ == metric_boundary_ids(*request),
{
    let mut ids: Vec<ValueId> = Vec::new();
    ids.push(request.probabilities.id);
    ids.push(request.targets.id);
    ids.push(request.per_element_bce.id);
    ids.push(request.mean_bce.id);
    ids.push(request.auroc.id);
    ids.push(request.auprc.id);
    ids.push(request.brier_score.id);
    ids.push(request.expected_calibration_error.id);
    let ghost fixed = ids@;
    let mut index: usize = 0;
    while index < request.recall_at.len()
        invariant
            index <= request.recall_at@.len(),
            fixed.len() == 8,
            ids@ == fixed + request.recall_at@.subrange(0, index as int).map_values(
                |recall: RecallAtOutput| recall.output.id,
            ),
        decreases request.recall_at.len() - index,
    {
        ids.push(request.recall_at[index].output.id);
        index = index + 1;
        assert(ids@ =~= fixed + request.recall_at@.subrange(0, index as int).map_values(
            |recall: RecallAtOutput| recall.output.id,
        ));
    }
    assert(request.recall_at@.subrange(0, index as int) =~= request.recall_at@);
    assert(ids@ =~= metric_boundary_ids(*request));
    ids
}

/// Storage sizes of the metric intermediates, in allocation order.
fn metric_sizes(examples: u64, recalls: usize, bins: u32) -> (sizes: Vec<u64>)
    requires
        binary_dimensions_valid(examples, recalls, bins),
    ensures
        sizes@.len() == binary_intermediates(recalls as int, bins as int),
        total_bytes(sizes@) == binary_workspace(examples as int, recalls as int, bins as int),
{
    let vector = examples * 4;
    let mut sizes: Vec<u64> = Vec::new();
    proof {
        assert(sizes@ =~= Seq::<u64>::empty());
    }
    push_size(&mut sizes, vector);
    push_size(&mut sizes, vector);
    push_size(&mut sizes, vector);
    push_size(&mut sizes, 4);
    push_size(&mut sizes, vector);
    push_size(&mut sizes, 4);
    push_size(&mut sizes, 4);
    let mut index: usize = 0;
    while index < 15
        invariant
            index <= 15,
            vector == examples * 4,
            examples <= MAX_EXACT_BINARY_EXAMPLES,
            sizes@.len() == 7 + index,
            total_bytes(sizes@) == 4 * vector + 12 + index * vector,
        decreases 15 - index,
    {
        push_size(&mut sizes, vector);
        assert((index + 1) * vector == index * vector + vector) by (nonlinear_arith);
        index = index + 1;
    }
    push_size(&mut sizes, 4);
    push_size(&mut sizes, 4);
    let mut recall: usize = 0;
    while recall < recalls
        invariant
            recall <= recalls <= MAX_RECALL_THRESHOLDS,
            vector == examples * 4,
            examples <= MAX_EXACT_BINARY_EXAMPLES,
            sizes@.len() == 24 + 2 * recall,
            total_bytes(sizes@) == 19 * vector + 20 + recall * (vector + 4),
        decreases recalls - recall,
    {
        push_size(&mut sizes, vector);
        push_size(&mut sizes, 4);
        assert((recall + 1) * (vector + 4) == recall * (vector + 4) + vector + 4) by (nonlinear_arith);
        recall = recall + 1;
    }
    let mut bin: u32 = 0;
    while bin < bins
        invariant
            bin <= bins <= MAX_CALIBRATION_BINS,
            recalls <= MAX_RECALL_THRESHOLDS,
            vector == examples * 4,
            examples <= MAX_EXACT_BINARY_EXAMPLES,
            sizes@.len() == 24 + 2 * recalls + 5 * bin,
            total_bytes(sizes@) == 19 * vector + 20 + recalls * (vector + 4) + bin * (2 * vector + 12),
        decreases bins - bin,
    {
        assert(recalls * (vector + 4) + (bin + 1) * (2 * vector + 12) <= 256 * (39_999_996 + 4) + 256 * (2
            * 39_999_996 + 12)) by (nonlinear_arith)
            requires
                recalls <= 256,
                bin < 256,
                vector <= 39_999_996,
        ;
        push_size(&mut sizes, vector);
        push_size(&mut sizes, vector);
        push_size(&mut sizes, 4);
        push_size(&mut sizes, 4);
        push_size(&mut sizes, 4);
        assert((bin + 1) * (2 * vector + 12) == bin * (2 * vector + 12) + 2 * vector + 12) by (nonlinear_arith);
        bin = bin + 1;
    }
    sizes
}

/// The metric kernels over the intermediates `v`, with aliasing forbidden
/// throughout.
#[verifier::rlimit(60)]
fn metric_kernels(request: &BinaryClassificationMetricRequest, v: &Vec<ValueId>) -> (planned: (
    Vec<KernelEmission>,
    Vec<Vec<AliasRule>>,
))
    requires
        request.verdict() is Ok,
        v@.len() == binary_intermediates(request.recall_at@.len() as int, request.calibration_bins as int),
    ensures
        emission_models(planned.0@) == metric_plan(*request, v@),
        rule_views(planned.1@) == all_forbidden(emission_models(planned.0@)),
        planned.0@.len() == binary_kernels(request.recall_at@.len() as int, request.calibration_bins as int),
{
    let lanes = request.tree_lanes;
    let examples = request.probabilities.extents[0];
    let running = ScanSpec {
        operator: ReduceOperator::Sum,
        mode: ScanMode::Inclusive,
        axis: 0,
        reverse: false,
        tree_lanes: lanes,
    };
    let groups = examples as u32;
    let ghost values = v@;
    let mut kernels = vec![
        elementwise(
            three(request.probabilities.id, request.targets.id, request.per_element_bce.id),
            three(v[0], v[1], v[2]),
        ),
        sum(v[2], v[3], axis_list(0), false, lanes),
        elementwise(one(v[3]), one(request.mean_bce.id)),
        elementwise(two(v[0], v[1]), one(v[4])),
        sum(v[4], v[5], axis_list(0), false, lanes),
        elementwise(one(v[5]), one(request.brier_score.id)),
        sum(v[1], v[6], axis_list(0), false, lanes),
        sort(
            v[0],
            v[7],
            v[8],
            SortSpec { direction: SortDirection::Descending, stable: true, axis: 0, emit_indices: true },
        ),
        gather(v[1], v[8], v[9], GatherSpec { axis: 0, rejects_out_of_bounds: true }),
        index_map(v[10], IndexMapSpec { start: 0, element_step: 1, iteration_step: 0, modulus: None }),
        index_map(v[11], IndexMapSpec { start: -1i32, element_step: 1, iteration_step: 0, modulus: None }),
        gather(v[7], v[11], v[12], GatherSpec { axis: 0, rejects_out_of_bounds: false }),
        elementwise(three(v[7], v[12], v[10]), one(v[13])),
        scan(v[13], v[14], running),
        elementwise(one(v[14]), one(v[15])),
        histogram(one(v[15]), v[16], HistogramSpec { bins: groups, weighted: false }),
        histogram(two(v[15], v[9]), v[17], HistogramSpec { bins: groups, weighted: true }),
        scan(v[16], v[18], running),
        scan(v[17], v[19], running),
        elementwise(vec![v[16], v[17], v[18], v[19], v[6]], two(v[20], v[21])),
        sum(v[20], v[22], axis_list(0), false, lanes),
        sum(v[21], v[23], axis_list(0), false, lanes),
        elementwise(three(v[6], v[22], v[23]), two(request.auroc.id, request.auprc.id)),
    ];
    proof {
        assert(emission_models(kernels@) =~= base_metric_plan(*request, values));
    }
    let mut rules = crate::graph::forbidden_alias_lists(&kernels);
    proof {
        assert(rule_views(rules@) =~= all_forbidden(emission_models(kernels@)));
        assert(recall_plans(*request, values, 0) =~= Seq::<NodeModel>::empty());
        assert(emission_models(kernels@) =~= base_metric_plan(*request, values) + recall_plans(*request, values, 0));
    }
    let recalls = request.recall_at.len();
    let mut recall: usize = 0;
    while recall < recalls
        invariant
            recall <= recalls,
            recalls == request.recall_at@.len(),
            recalls <= MAX_RECALL_THRESHOLDS,
            request.calibration_bins <= MAX_CALIBRATION_BINS,
            values == v@,
            v@.len() == binary_intermediates(recalls as int, request.calibration_bins as int),
            lanes == request.tree_lanes,
            kernels@.len() == 23 + 3 * recall,
            emission_models(kernels@) == base_metric_plan(*request, values) + recall_plans(
                *request,
                values,
                recall as nat,
            ),
            rule_views(rules@) == all_forbidden(emission_models(kernels@)),
        decreases recalls - recall,
    {
        let hits = v[24 + 2 * recall];
        let true_positives = v[25 + 2 * recall];
        let ghost before = emission_models(kernels@);
        plan_kernel(&mut kernels, &mut rules, elementwise(two(v[0], v[1]), one(hits)));
        plan_kernel(&mut kernels, &mut rules, sum(hits, true_positives, axis_list(0), false, lanes));
        plan_kernel(
            &mut kernels,
            &mut rules,
            elementwise(two(true_positives, v[6]), one(request.recall_at[recall].output.id)),
        );
        proof {
            let nodes = recall_nodes(*request, values, recall as int);
            assert(emission_models(kernels@) =~= before + nodes);
            assert(recall_plans(*request, values, (recall + 1) as nat) == recall_plans(
                *request,
                values,
                recall as nat,
            ) + nodes);
            assert(before + nodes =~= base_metric_plan(*request, values) + recall_plans(
                *request,
                values,
                (recall + 1) as nat,
            ));
        }
        recall = recall + 1;
    }
    let ghost with_recalls = emission_models(kernels@);
    proof {
        assert(bin_plans(*request, values, 0) =~= Seq::<NodeModel>::empty());
        assert(with_recalls =~= with_recalls + bin_plans(*request, values, 0));
    }
    let bins = request.calibration_bins;
    let mut contributions: Vec<ValueId> = Vec::new();
    let mut bin: u32 = 0;
    while bin < bins
        invariant
            bin <= bins,
            bins == request.calibration_bins,
            bins <= MAX_CALIBRATION_BINS,
            recalls == request.recall_at@.len(),
            recalls <= MAX_RECALL_THRESHOLDS,
            values == v@,
            v@.len() == binary_intermediates(recalls as int, bins as int),
            lanes == request.tree_lanes,
            kernels@.len() == 23 + 3 * recalls + 4 * bin,
            emission_models(kernels@) == with_recalls + bin_plans(*request, values, bin as nat),
            rule_views(rules@) == all_forbidden(emission_models(kernels@)),
            contributions@ == bin_contributions(*request, values, bin as nat),
        decreases bins - bin,
    {
        let base = 24 + 2 * recalls + 5 * (bin as usize);
        let ghost before = emission_models(kernels@);
        plan_kernel(&mut kernels, &mut rules, elementwise(two(v[0], v[1]), two(v[base], v[base + 1])));
        plan_kernel(&mut kernels, &mut rules, sum(v[base], v[base + 2], axis_list(0), false, lanes));
        plan_kernel(&mut kernels, &mut rules, sum(v[base + 1], v[base + 3], axis_list(0), false, lanes));
        plan_kernel(&mut kernels, &mut rules, elementwise(two(v[base + 2], v[base + 3]), one(v[base + 4])));
        contributions.push(v[base + 4]);
        proof {
            let nodes = bin_nodes(*request, values, bin as int);
            assert(base == bin_base(*request, bin as int));
            assert(emission_models(kernels@) =~= before + nodes);
            assert(bin_plans(*request, values, (bin + 1) as nat) == bin_plans(*request, values, bin as nat) + nodes);
            assert(before + nodes =~= with_recalls + bin_plans(*request, values, (bin + 1) as nat));
            assert(contributions@ =~= bin_contributions(*request, values, (bin + 1) as nat));
        }
        bin = bin + 1;
    }
    plan_kernel(
        &mut kernels,
        &mut rules,
        elementwise(contributions, one(request.expected_calibration_error.id)),
    );
    proof {
        assert(emission_models(kernels@) =~= metric_plan(*request, values));
    }
    (kernels, rules)
}

/// Emit the metric graph of a request.  Each result is a caller-declared
/// `[1]` binary32 tensor; AUROC and AUPRC are tie-aware, and the expected
/// calibration error uses equal-width bins over `[0, 1]`.
#[verifier::rlimit(40)]
pub fn materialize_binary_classification_metrics(request: &BinaryClassificationMetricRequest) -> (result:
    OperationResult<BinaryMetricMaterialization>)
    ensures
        match metric_verdict(*request) {
            Ok(requirements) => result matches Ok(materialization) && metric_materialized(
                *request,
                requirements,
                materialization,
            ),
            Err(kind) => result matches Err(error) && error.kind == kind,
        },
{
    let requirements = reserve_binary_classification_metrics(request)?;
    let namespace = request.identity_namespace;
    let declared = metric_boundary_list(request);
    let ledger = GraphLedger::new(namespace, declared.as_slice(), request.workspace_limit)?;
    let mut builder = FragmentBuilder::new(ledger);
    let examples = request.probabilities.extents[0];
    let sizes = metric_sizes(examples, request.recall_at.len(), request.calibration_bins);
    proof {
        let recalls = request.recall_at@.len() as int;
        let bins = request.calibration_bins as int;
        assert(binary_workspace(examples as int, recalls, bins) <= 19 * 39_999_996 + 20 + 256 * (39_999_996
            + 4) + 256 * (2 * 39_999_996 + 12)) by (nonlinear_arith)
            requires
                examples <= MAX_EXACT_BINARY_EXAMPLES,
                0 <= recalls <= 256,
                0 <= bins <= 256,
        ;
        assert(binary_workspace(examples as int, recalls, bins) >= 0) by (nonlinear_arith)
            requires
                0 <= recalls,
                0 <= bins,
        ;
    }
    let v = builder.reserve_all(&sizes)?;
    let ghost values = v@;
    proof {
        assert(values =~= namespace_values(namespace, requirements.intermediate_values as nat));
    }
    let (kernels, rules) = metric_kernels(request, &v);
    let ghost plan = metric_plan(*request, values);
    proof {
        assert(rule_views(rules@).len() == rules@.len());
        assert(all_forbidden(emission_models(kernels@)).len() == kernels@.len());
        assert(node_models(builder.nodes()) =~= Seq::<NodeModel>::empty());
        assert(node_alias_rules(builder.nodes()) =~= Seq::<Seq<AliasRule>>::empty());
    }
    builder.emit_all(kernels, rules)?;
    let (nodes, intermediate_values, kernel_ids, workspace_bytes) = builder.finish(
        requirements.intermediate_values,
        requirements.kernels,
        requirements.workspace_bytes,
    )?;
    let intermediate_tensors = metric_intermediate_tensors(request, &v);
    let boundary_tensors = metric_boundary_copies(request);
    let materialization = BinaryMetricMaterialization {
        boundary_tensors,
        nodes,
        intermediate_tensors,
        intermediate_values,
        kernels: kernel_ids,
        workspace_bytes,
        identity_namespace: namespace,
    };
    proof {
        let expected = namespace_kernels(namespace, requirements.kernels as nat);
        assert(requirements.kernels == binary_kernels(request.recall_at@.len() as int, request.calibration_bins as int));
        assert(materialization.nodes@.len() == requirements.kernels);
        assert(node_models(materialization.nodes@) =~= plan);
        assert(node_alias_rules(materialization.nodes@) =~= all_forbidden(plan));
        assert(materialization.kernels@ == expected);
        assert(node_kernels(materialization.nodes@) =~= expected);
    }
    Ok(materialization)
}

/// The metric results a caller's graph must not already produce: the five
/// scalar results, then each recall output.
pub open spec fn metric_output_ids(request: BinaryClassificationMetricRequest) -> Seq<ValueId> {
    metric_boundary_ids(request).subrange(3, metric_boundary_ids(request).len() as int)
}

/// Why a metric fragment cannot be appended to a caller's graph before it
/// is emitted: the graph repeats a tensor identity, or does not declare a
/// boundary tensor with the storage the request expects; then the
/// request's own refusal.
pub open spec fn metric_append_verdict(graph: CalculationGraph, request: BinaryClassificationMetricRequest) -> Result<
    BinaryMetricRequirements,
    OperationErrorKind,
> {
    let boundary = request.boundary_tensors();
    if !identities_distinct(graph.tensors@) {
        Err(OperationErrorKind::GraphMaterializationFailed)
    } else if exists|i: int| 0 <= i < boundary.len() && !declares_storage(graph.tensors@, #[trigger] boundary[i]) {
        Err(OperationErrorKind::InvalidMaterializationRequest)
    } else {
        metric_verdict(request)
    }
}

/// The boundary tensors, in boundary order.
fn metric_boundary_refs(request: &BinaryClassificationMetricRequest) -> (tensors: Vec<&TensorDecl>)
    ensures
        tensors_of(tensors@) == request.boundary_tensors(),
{
    let mut tensors: Vec<&TensorDecl> = Vec::new();
    tensors.push(&request.probabilities);
    tensors.push(&request.targets);
    tensors.push(&request.per_element_bce);
    tensors.push(&request.mean_bce);
    tensors.push(&request.auroc);
    tensors.push(&request.auprc);
    tensors.push(&request.brier_score);
    tensors.push(&request.expected_calibration_error);
    proof {
        assert(tensors_of(tensors@) =~= request.boundary_tensors().subrange(0, 8));
    }
    let mut index: usize = 0;
    while index < request.recall_at.len()
        invariant
            index <= request.recall_at@.len(),
            request.boundary_tensors().len() == 8 + request.recall_at@.len(),
            tensors@.len() == 8 + index,
            tensors_of(tensors@) == request.boundary_tensors().subrange(0, 8 + index),
        decreases request.recall_at.len() - index,
    {
        let ghost before = tensors@;
        tensors.push(&request.recall_at[index].output);
        index = index + 1;
        assert(request.boundary_tensors()[8 + index - 1] == request.recall_at@[index - 1].output);
        assert(tensors_of(tensors@) =~= tensors_of(before).push(request.recall_at@[index - 1].output));
        assert(tensors_of(tensors@) =~= request.boundary_tensors().subrange(0, 8 + index));
    }
    assert(request.boundary_tensors().subrange(0, 8 + index) =~= request.boundary_tensors());
    tensors
}

/// Append the metric fragment to a caller's graph that already declares
/// every boundary tensor. Only intermediates and kernels are added, so the
/// graph's tensor identities stay canonical; a refused request leaves the
/// graph unchanged.
#[verifier::rlimit(40)]
pub fn append_binary_classification_metrics(
    graph: &mut CalculationGraph,
    request: &BinaryClassificationMetricRequest,
) -> (result: OperationResult<BinaryMetricMaterialization>)
    ensures
        match metric_append_verdict(*old(graph), *request) {
            Err(kind) => result matches Err(error) && error.kind == kind && *final(graph) == *old(graph),
            Ok(requirements) => {
                let namespace = request.identity_namespace;
                let values = namespace_values(namespace, requirements.intermediate_values as nat);
                let kernels = namespace_kernels(namespace, requirements.kernels as nat);
                match append_fault(*old(graph), values, kernels, metric_output_ids(*request)) {
                    Some(kind) => result matches Err(error) && error.kind == kind && *final(graph) == *old(graph),
                    None => result matches Ok(materialization) && {
                        &&& metric_materialized(*request, requirements, materialization)
                        &&& tensor_models(final(graph).tensors@) == tensor_models(old(graph).tensors@)
                            + metric_intermediate_models(*request, values)
                        &&& node_models(final(graph).nodes@) == node_models(old(graph).nodes@) + metric_plan(
                            *request,
                            values,
                        )
                        &&& node_alias_rules(final(graph).nodes@) == node_alias_rules(old(graph).nodes@)
                            + all_forbidden(metric_plan(*request, values))
                        &&& node_kernels(final(graph).nodes@) == node_kernels(old(graph).nodes@) + kernels
                    },
                }
            },
        },
{
    let declared = metric_boundary_refs(request);
    validate_boundary_storage(&graph.tensors, &declared)?;
    let materialization = materialize_binary_classification_metrics(request)?;
    let mut outputs: Vec<ValueId> = Vec::new();
    let boundary = metric_boundary_list(request);
    let mut index: usize = 3;
    while index < boundary.len()
        invariant
            3 <= index <= boundary@.len(),
            boundary@ == metric_boundary_ids(*request),
            outputs@ == boundary@.subrange(3, index as int),
        decreases boundary.len() - index,
    {
        outputs.push(boundary[index]);
        index = index + 1;
        assert(outputs@ =~= boundary@.subrange(3, index as int));
    }
    proof {
        let tensors = materialization.intermediate_tensors@;
        assert(tensor_models(tensors).len() == tensors.len());
        assert forall|i: int| 0 <= i < tensors.len() implies tensor_ids(tensors)[i]
            == materialization.intermediate_values@[i] by {
            assert(tensor_models(tensors)[i] == tensor_model(tensors[i]));
        }
        assert(tensor_ids(tensors) =~= materialization.intermediate_values@);
    }
    append_fragment(
        graph,
        &materialization.intermediate_tensors,
        &materialization.nodes,
        &materialization.kernels,
        &outputs,
    )?;
    Ok(materialization)
}

} // verus!
