//! Exact static resources of the all-output nearest-neighbour graph: the
//! intermediate identities, kernels and workspace it reserves before any
//! identity or device memory is taken.
use vstd::prelude::*;

use crate::boundary::{
    declares_storage, identities_distinct, reserves_any, same_storage, storage_matches, tensors_of,
    validate_boundary_storage,
};
use crate::error::{OperationError, OperationErrorKind, OperationResult};
use crate::fragment::{CalculationNode, GraphLedger, KernelEmission, KindModel, NodeModel, total_bytes};
use crate::primitive::ReduceOperator;
use crate::graph::{
    CalculationGraph, FragmentBuilder, TensorModel, all_forbidden, append_fault, append_fragment, emission_models,
    namespace_kernels, namespace_values, node_alias_rules, node_kernels, node_models, plan_kernel, push_size,
    rule_views, tensor_ids, tensor_model, tensor_models,
};
use crate::identity::{IdentityNamespace, identity_ranges};
use crate::primitive::{AliasRule, GatherSpec, HistogramSpec, IndexMapSpec, SortDirection, SortSpec};
use crate::request::{TensorDecl, element_count, tree_lanes_valid, valid_tree_lanes};
use crate::staging::{
    axis_list, contraction, contraction_node, elementwise, elementwise_node, gather, gather_node, histogram,
    histogram_node, index_map, index_map_node, one, sort, sort_node, sum, sum_node, three, two,
};
use crate::types::{ByteCount, DType, KernelTemplateId, ValueId};

verus! {

pub const KNN_BASE_INTERMEDIATES: u64 = 6;
pub const KNN_BASE_KERNELS: u64 = 6;
pub const KNN_NUMERIC_INTERMEDIATES: u64 = 10;
pub const KNN_NUMERIC_KERNELS: u64 = 10;
pub const KNN_CATEGORICAL_INTERMEDIATES: u64 = 17;
pub const KNN_CATEGORICAL_KERNELS: u64 = 16;
pub const KNN_MAXIMUM_EXACT_F32_INTEGER: u64 = 16_777_216;
pub const I32_MAX_AS_U64: u64 = 2_147_483_647;

/// Static semantic contract for one declared KNN output. `known_references`
/// is the number of true entries in the corresponding runtime mask.
#[derive(Clone, Copy, Debug, PartialEq, Eq, Structural)]
pub enum KnnOutputSpec {
    Numeric { known_references: u64 },
    Categorical { known_references: u64, classes: u64 },
}

impl KnnOutputSpec {
    pub open spec fn spec_known_references(self) -> u64 {
        match self {
            KnnOutputSpec::Numeric { known_references } => known_references,
            KnnOutputSpec::Categorical { known_references, .. } => known_references,
        }
    }

    #[must_use]
    #[verifier::when_used_as_spec(spec_known_references)]
    pub fn known_references(self) -> (known: u64)
        ensures
            known == self.spec_known_references(),
    {
        match self {
            KnnOutputSpec::Numeric { known_references } => known_references,
            KnnOutputSpec::Categorical { known_references, .. } => known_references,
        }
    }
}

/// Per-output neighbour count actually selected and its class count.
#[derive(Clone, Copy, Debug, PartialEq, Eq, Structural)]
pub struct KnnOutputRequirement {
    pub effective_neighbors: u64,
    pub classes: Option<u64>,
}

/// Exact resources of one all-output KNN graph.
#[derive(Clone, Debug, PartialEq, Eq)]
pub struct KnnAllOutputRequirements {
    pub outputs: Vec<KnnOutputRequirement>,
    pub intermediate_values: u64,
    pub kernels: u64,
    pub workspace_bytes: ByteCount,
}

/// Running totals over the declared outputs: workspace elements,
/// intermediates, kernels and per-output requirements.
pub struct KnnTotals {
    pub workspace: int,
    pub values: int,
    pub kernels: int,
    pub outputs: Seq<KnnOutputRequirement>,
}

pub open spec fn min_u64(a: u64, b: u64) -> u64 {
    if a < b {
        a
    } else {
        b
    }
}

/// Shared element count of the query, reference, norm and pairwise buffers.
pub open spec fn knn_base_elements(queries: int, reference_rows: int, dimensions: int) -> int {
    queries * dimensions + reference_rows * dimensions + queries + reference_rows + 2 * (queries
        * reference_rows)
}

/// The resources one declared output adds, or why it is refused.
pub open spec fn knn_output_step(
    queries: u64,
    reference_rows: u64,
    neighbors: u64,
    totals: KnnTotals,
    output: KnnOutputSpec,
) -> Result<KnnTotals, OperationErrorKind> {
    let known = output.spec_known_references();
    let effective = min_u64(neighbors, known);
    let selected = queries * effective;
    let pairwise = queries * reference_rows;
    let common = 2 + 3 * pairwise + effective + selected;
    if known == 0 || known > reference_rows {
        Err(OperationErrorKind::UnsupportedConcreteShape)
    } else if selected > u64::MAX || 3 * pairwise > u64::MAX || common > u64::MAX {
        Err(OperationErrorKind::WorkspaceArithmeticOverflow)
    } else {
        let step: Result<(Option<u64>, int, int, int), OperationErrorKind> = match output {
            KnnOutputSpec::Numeric { .. } => if effective > KNN_MAXIMUM_EXACT_F32_INTEGER {
                Err(OperationErrorKind::UnsupportedConcreteShape)
            } else if reference_rows + selected + queries > u64::MAX {
                Err(OperationErrorKind::WorkspaceArithmeticOverflow)
            } else {
                Ok(
                    (
                        None,
                        reference_rows + selected + queries,
                        KNN_NUMERIC_INTERMEDIATES as int,
                        KNN_NUMERIC_KERNELS as int,
                    ),
                )
            },
            KnnOutputSpec::Categorical { classes, .. } => {
                let bins = queries * classes;
                let extra = reference_rows + 2 * selected + queries + 5 * bins + 1;
                if classes == 0 || classes > I32_MAX_AS_U64 {
                    Err(OperationErrorKind::UnsupportedConcreteShape)
                } else if bins > u64::MAX {
                    Err(OperationErrorKind::WorkspaceArithmeticOverflow)
                } else if bins > I32_MAX_AS_U64 {
                    Err(OperationErrorKind::UnsupportedConcreteShape)
                } else if 2 * selected > u64::MAX || extra > u64::MAX {
                    Err(OperationErrorKind::WorkspaceArithmeticOverflow)
                } else {
                    Ok(
                        (
                            Some(classes),
                            extra,
                            KNN_CATEGORICAL_INTERMEDIATES as int,
                            KNN_CATEGORICAL_KERNELS as int,
                        ),
                    )
                }
            },
        };
        match step {
            Err(kind) => Err(kind),
            Ok((classes, extra, values, kernels)) => if totals.workspace + common + extra
                > u64::MAX || totals.values + values > u64::MAX || totals.kernels + kernels
                > u64::MAX {
                Err(OperationErrorKind::WorkspaceArithmeticOverflow)
            } else {
                Ok(
                    KnnTotals {
                        workspace: totals.workspace + common + extra,
                        values: totals.values + values,
                        kernels: totals.kernels + kernels,
                        outputs: totals.outputs.push(
                            KnnOutputRequirement { effective_neighbors: effective, classes },
                        ),
                    },
                )
            },
        }
    }
}

/// Fold the declared outputs, in order, from `start`.
pub open spec fn knn_outputs_fold(
    queries: u64,
    reference_rows: u64,
    neighbors: u64,
    start: KnnTotals,
    outputs: Seq<KnnOutputSpec>,
) -> Result<KnnTotals, OperationErrorKind>
    decreases outputs.len(),
{
    if outputs.len() == 0 {
        Ok(start)
    } else {
        match knn_outputs_fold(queries, reference_rows, neighbors, start, outputs.drop_last()) {
            Ok(totals) => knn_output_step(queries, reference_rows, neighbors, totals, outputs.last()),
            Err(kind) => Err(kind),
        }
    }
}

/// The exact requirements of a KNN graph, or why they cannot be reserved.
pub open spec fn knn_requirements_spec(
    queries: u64,
    reference_rows: u64,
    dimensions: u64,
    neighbors: u64,
    outputs: Seq<KnnOutputSpec>,
) -> Result<KnnTotals, OperationErrorKind> {
    let base = knn_base_elements(queries as int, reference_rows as int, dimensions as int);
    if queries == 0 || reference_rows == 0 || dimensions == 0 || neighbors == 0 {
        Err(OperationErrorKind::UnsupportedConcreteShape)
    } else if outputs.len() == 0 {
        Err(OperationErrorKind::UnsupportedConcreteShape)
    } else if reference_rows > I32_MAX_AS_U64 {
        Err(OperationErrorKind::UnsupportedConcreteShape)
    } else if base > u64::MAX {
        Err(OperationErrorKind::WorkspaceArithmeticOverflow)
    } else {
        let start = KnnTotals {
            workspace: base,
            values: KNN_BASE_INTERMEDIATES as int,
            kernels: KNN_BASE_KERNELS as int,
            outputs: Seq::empty(),
        };
        match knn_outputs_fold(queries, reference_rows, neighbors, start, outputs) {
            Ok(totals) => if 4 * totals.workspace > u64::MAX {
                Err(OperationErrorKind::WorkspaceArithmeticOverflow)
            } else {
                Ok(totals)
            },
            Err(kind) => Err(kind),
        }
    }
}

fn knn_error(kind: OperationErrorKind, detail: &'static str) -> (error: OperationError)
    ensures
        error.kind == kind,
{
    OperationError::new(kind, detail)
}

fn overflow() -> (error: OperationError)
    ensures
        error.kind == OperationErrorKind::WorkspaceArithmeticOverflow,
{
    knn_error(OperationErrorKind::WorkspaceArithmeticOverflow, "KNN workspace arithmetic overflows u64")
}

proof fn lemma_nonnegative_products(a: u64, b: u64)
    ensures
        a * b >= 0,
        b >= 1 ==> a * b >= a,
{
    assert(a * b >= 0) by (nonlinear_arith);
    assert(b >= 1 ==> a * b >= a) by (nonlinear_arith);
}

#[verifier::rlimit(60)]
fn knn_output_resources(
    queries: u64,
    reference_rows: u64,
    neighbors: u64,
    pairwise: u64,
    workspace: u64,
    values: u64,
    kernels: u64,
    output: KnnOutputSpec,
    Ghost(prior): Ghost<Seq<KnnOutputRequirement>>,
) -> (result: Result<(u64, u64, u64, KnnOutputRequirement), OperationError>)
    requires
        pairwise == queries * reference_rows,
        queries >= 1,
    ensures
        match knn_output_step(
            queries,
            reference_rows,
            neighbors,
            KnnTotals {
                workspace: workspace as int,
                values: values as int,
                kernels: kernels as int,
                outputs: prior,
            },
            output,
        ) {
            Ok(next) => result matches Ok((w, v, k, requirement)) && w == next.workspace && v
                == next.values && k == next.kernels && next.outputs == prior.push(requirement),
            Err(kind) => result matches Err(error) && error.kind == kind,
        },
{
    let known = output.known_references();
    if known == 0 || known > reference_rows {
        return Err(
            knn_error(
                OperationErrorKind::UnsupportedConcreteShape,
                "KNN output known-reference count must be in 1..=reference rows",
            ),
        );
    }
    let effective = if neighbors < known {
        neighbors
    } else {
        known
    };
    proof {
        lemma_nonnegative_products(queries, effective);
        lemma_nonnegative_products(queries, reference_rows);
    }
    let selected = match queries.checked_mul(effective) {
        Some(v) => v,
        None => {
            return Err(overflow());
        },
    };
    let tripled = match 3u64.checked_mul(pairwise) {
        Some(v) => v,
        None => {
            return Err(overflow());
        },
    };
    let common = match 2u64.checked_add(tripled) {
        Some(v) => match v.checked_add(effective) {
            Some(v) => match v.checked_add(selected) {
                Some(v) => v,
                None => {
                    return Err(overflow());
                },
            },
            None => {
                return Err(overflow());
            },
        },
        None => {
            return Err(overflow());
        },
    };
    let (classes, extra, output_values, output_kernels) = match output {
        KnnOutputSpec::Numeric { .. } => {
            if effective > KNN_MAXIMUM_EXACT_F32_INTEGER {
                return Err(
                    knn_error(
                        OperationErrorKind::UnsupportedConcreteShape,
                        "KNN numeric neighbor count exceeds the exact f32 integer domain",
                    ),
                );
            }
            let extra = match reference_rows.checked_add(selected) {
                Some(v) => match v.checked_add(queries) {
                    Some(v) => v,
                    None => {
                        return Err(overflow());
                    },
                },
                None => {
                    return Err(overflow());
                },
            };
            (None, extra, KNN_NUMERIC_INTERMEDIATES, KNN_NUMERIC_KERNELS)
        },
        KnnOutputSpec::Categorical { classes, .. } => {
            if classes == 0 || classes > I32_MAX_AS_U64 {
                return Err(
                    knn_error(
                        OperationErrorKind::UnsupportedConcreteShape,
                        "KNN class count must be in 1..=i32::MAX",
                    ),
                );
            }
            proof {
                lemma_nonnegative_products(queries, classes);
            }
            let bins = match queries.checked_mul(classes) {
                Some(v) => v,
                None => {
                    return Err(overflow());
                },
            };
            if bins > I32_MAX_AS_U64 {
                return Err(
                    knn_error(
                        OperationErrorKind::UnsupportedConcreteShape,
                        "KNN row/class histogram exceeds i32::MAX bins",
                    ),
                );
            }
            let doubled = match 2u64.checked_mul(selected) {
                Some(v) => v,
                None => {
                    return Err(overflow());
                },
            };
            let quintupled = 5 * bins;
            let extra = match reference_rows.checked_add(doubled) {
                Some(v) => match v.checked_add(queries) {
                    Some(v) => match v.checked_add(quintupled) {
                        Some(v) => match v.checked_add(1) {
                            Some(v) => v,
                            None => {
                                return Err(overflow());
                            },
                        },
                        None => {
                            return Err(overflow());
                        },
                    },
                    None => {
                        return Err(overflow());
                    },
                },
                None => {
                    return Err(overflow());
                },
            };
            (Some(classes), extra, KNN_CATEGORICAL_INTERMEDIATES, KNN_CATEGORICAL_KERNELS)
        },
    };
    let next_workspace = match workspace.checked_add(common) {
        Some(v) => match v.checked_add(extra) {
            Some(v) => v,
            None => {
                return Err(overflow());
            },
        },
        None => {
            return Err(overflow());
        },
    };
    let next_values = match values.checked_add(output_values) {
        Some(v) => v,
        None => {
            return Err(overflow());
        },
    };
    let next_kernels = match kernels.checked_add(output_kernels) {
        Some(v) => v,
        None => {
            return Err(overflow());
        },
    };
    Ok(
        (
            next_workspace,
            next_values,
            next_kernels,
            KnnOutputRequirement { effective_neighbors: effective, classes },
        ),
    )
}

/// Return the exact graph-resource reservation of an all-output KNN graph.
#[verifier::loop_isolation(false)]
#[verifier::rlimit(40)]
pub fn knn_all_output_requirements(
    queries: u64,
    reference_rows: u64,
    dimensions: u64,
    neighbors: u64,
    outputs: &[KnnOutputSpec],
) -> (requirements: OperationResult<KnnAllOutputRequirements>)
    ensures
        match knn_requirements_spec(queries, reference_rows, dimensions, neighbors, outputs@) {
            Ok(totals) => requirements matches Ok(r) && r.outputs@ == totals.outputs
                && r.intermediate_values == totals.values && r.kernels == totals.kernels
                && r.workspace_bytes.0 == 4 * totals.workspace,
            Err(kind) => requirements matches Err(error) && error.kind == kind,
        },
{
    if queries == 0 || reference_rows == 0 || dimensions == 0 || neighbors == 0 {
        return Err(
            knn_error(
                OperationErrorKind::UnsupportedConcreteShape,
                "KNN query rows, reference rows, feature dimension and neighbor count must be nonzero",
            ),
        );
    }
    if outputs.len() == 0 {
        return Err(
            knn_error(
                OperationErrorKind::UnsupportedConcreteShape,
                "KNN requires at least one declared output",
            ),
        );
    }
    if reference_rows > I32_MAX_AS_U64 {
        return Err(
            knn_error(
                OperationErrorKind::UnsupportedConcreteShape,
                "KNN reference rows exceed the checked int32 sort-index domain",
            ),
        );
    }
    proof {
        lemma_nonnegative_products(queries, dimensions);
        lemma_nonnegative_products(reference_rows, dimensions);
        lemma_nonnegative_products(queries, reference_rows);
    }
    let query_features = match queries.checked_mul(dimensions) {
        Some(v) => v,
        None => {
            return Err(overflow());
        },
    };
    let reference_features = match reference_rows.checked_mul(dimensions) {
        Some(v) => v,
        None => {
            return Err(overflow());
        },
    };
    let pairwise = match queries.checked_mul(reference_rows) {
        Some(v) => v,
        None => {
            return Err(overflow());
        },
    };
    let doubled = match 2u64.checked_mul(pairwise) {
        Some(v) => v,
        None => {
            return Err(overflow());
        },
    };
    let base = match query_features.checked_add(reference_features) {
        Some(v) => match v.checked_add(queries) {
            Some(v) => match v.checked_add(reference_rows) {
                Some(v) => match v.checked_add(doubled) {
                    Some(v) => v,
                    None => {
                        return Err(overflow());
                    },
                },
                None => {
                    return Err(overflow());
                },
            },
            None => {
                return Err(overflow());
            },
        },
        None => {
            return Err(overflow());
        },
    };
    let ghost start = KnnTotals {
        workspace: base as int,
        values: KNN_BASE_INTERMEDIATES as int,
        kernels: KNN_BASE_KERNELS as int,
        outputs: Seq::empty(),
    };
    let mut workspace = base;
    let mut values = KNN_BASE_INTERMEDIATES;
    let mut kernels = KNN_BASE_KERNELS;
    let mut requirements: Vec<KnnOutputRequirement> = Vec::new();
    let mut index: usize = 0;
    assert(outputs@.subrange(0, 0) =~= Seq::<KnnOutputSpec>::empty());
    while index < outputs.len()
        invariant
            index <= outputs@.len(),
            queries >= 1,
            pairwise == queries * reference_rows,
            knn_outputs_fold(queries, reference_rows, neighbors, start, outputs@.subrange(0, index as int))
                == Ok::<KnnTotals, OperationErrorKind>(
                KnnTotals {
                    workspace: workspace as int,
                    values: values as int,
                    kernels: kernels as int,
                    outputs: requirements@,
                },
            ),
        decreases outputs.len() - index,
    {
        let ghost prefix = outputs@.subrange(0, index as int);
        assert(outputs@.subrange(0, index + 1).drop_last() =~= prefix);
        let ghost totals = KnnTotals {
            workspace: workspace as int,
            values: values as int,
            kernels: kernels as int,
            outputs: requirements@,
        };
        match knn_output_resources(
            queries,
            reference_rows,
            neighbors,
            pairwise,
            workspace,
            values,
            kernels,
            outputs[index],
            Ghost(requirements@),
        ) {
            Ok((w, v, k, requirement)) => {
                workspace = w;
                values = v;
                kernels = k;
                requirements.push(requirement);
            },
            Err(error) => {
                proof {
                    let grown = outputs@.subrange(0, index + 1);
                    assert(grown.last() == outputs@[index as int]);
                    assert(knn_outputs_fold(queries, reference_rows, neighbors, start, grown)
                        == knn_output_step(queries, reference_rows, neighbors, totals, outputs@[index as int]));
                    lemma_knn_fold_stops(queries, reference_rows, neighbors, start, outputs@, index as int);
                }
                return Err(error);
            },
        }
        index = index + 1;
    }
    assert(outputs@.subrange(0, outputs@.len() as int) =~= outputs@);
    let bytes = match workspace.checked_mul(4) {
        Some(v) => v,
        None => {
            return Err(overflow());
        },
    };
    Ok(
        KnnAllOutputRequirements {
            outputs: requirements,
            intermediate_values: values,
            kernels,
            workspace_bytes: ByteCount::new(bytes),
        },
    )
}

/// Once the fold of a prefix fails, the fold of the whole list fails the
/// same way.
proof fn lemma_knn_fold_stops(
    queries: u64,
    reference_rows: u64,
    neighbors: u64,
    start: KnnTotals,
    outputs: Seq<KnnOutputSpec>,
    failed: int,
)
    requires
        0 <= failed < outputs.len(),
        knn_outputs_fold(queries, reference_rows, neighbors, start, outputs.subrange(0, failed + 1)) is Err,
    ensures
        knn_outputs_fold(queries, reference_rows, neighbors, start, outputs) == knn_outputs_fold(
            queries,
            reference_rows,
            neighbors,
            start,
            outputs.subrange(0, failed + 1),
        ),
    decreases outputs.len(),
{
    if outputs.len() > failed + 1 {
        assert(outputs.drop_last().subrange(0, failed + 1) =~= outputs.subrange(0, failed + 1));
        lemma_knn_fold_stops(queries, reference_rows, neighbors, start, outputs.drop_last(), failed);
    } else {
        assert(outputs.subrange(0, failed + 1) =~= outputs);
    }
}

/// One typed target vector and its prediction boundary. Numeric targets
/// hold binary32 values and use an unweighted mean; categorical targets hold
/// int32 dictionary codes and use an unweighted mode. Every target owns its
/// own known-value mask.
#[derive(Clone, Debug)]
pub enum KnnOutputRequest {
    Numeric { reference_values: TensorDecl, known: TensorDecl, predictions: TensorDecl, known_references: u64 },
    Categorical {
        reference_codes: TensorDecl,
        known: TensorDecl,
        predictions: TensorDecl,
        known_references: u64,
        classes: u64,
    },
}

/// The static contract of a declared output.
pub open spec fn output_spec(output: KnnOutputRequest) -> KnnOutputSpec {
    match output {
        KnnOutputRequest::Numeric { known_references, .. } => KnnOutputSpec::Numeric { known_references },
        KnnOutputRequest::Categorical { known_references, classes, .. } => KnnOutputSpec::Categorical {
            known_references,
            classes,
        },
    }
}

/// The reference values (or codes) of a declared output.
pub open spec fn output_values(output: KnnOutputRequest) -> TensorDecl {
    match output {
        KnnOutputRequest::Numeric { reference_values, .. } => reference_values,
        KnnOutputRequest::Categorical { reference_codes, .. } => reference_codes,
    }
}

/// The known-reference mask of a declared output.
pub open spec fn output_known(output: KnnOutputRequest) -> TensorDecl {
    match output {
        KnnOutputRequest::Numeric { known, .. } => known,
        KnnOutputRequest::Categorical { known, .. } => known,
    }
}

/// The prediction tensor of a declared output.
pub open spec fn output_predictions(output: KnnOutputRequest) -> TensorDecl {
    match output {
        KnnOutputRequest::Numeric { predictions, .. } => predictions,
        KnnOutputRequest::Categorical { predictions, .. } => predictions,
    }
}

/// The payload type of a declared output's values and predictions.
pub open spec fn output_dtype(output: KnnOutputRequest) -> DType {
    match output {
        KnnOutputRequest::Numeric { .. } => DType::F32,
        KnnOutputRequest::Categorical { .. } => DType::I32,
    }
}

impl KnnOutputRequest {
    #[must_use]
    pub fn spec(&self) -> (spec: KnnOutputSpec)
        ensures
            spec == output_spec(*self),
    {
        match self {
            KnnOutputRequest::Numeric { known_references, .. } => KnnOutputSpec::Numeric {
                known_references: *known_references,
            },
            KnnOutputRequest::Categorical { known_references, classes, .. } => KnnOutputSpec::Categorical {
                known_references: *known_references,
                classes: *classes,
            },
        }
    }

    pub fn reference_values(&self) -> (values: &TensorDecl)
        ensures
            *values == output_values(*self),
    {
        match self {
            KnnOutputRequest::Numeric { reference_values, .. } => reference_values,
            KnnOutputRequest::Categorical { reference_codes, .. } => reference_codes,
        }
    }

    pub fn known(&self) -> (known: &TensorDecl)
        ensures
            *known == output_known(*self),
    {
        match self {
            KnnOutputRequest::Numeric { known, .. } => known,
            KnnOutputRequest::Categorical { known, .. } => known,
        }
    }

    pub fn predictions(&self) -> (predictions: &TensorDecl)
        ensures
            *predictions == output_predictions(*self),
    {
        match self {
            KnnOutputRequest::Numeric { predictions, .. } => predictions,
            KnnOutputRequest::Categorical { predictions, .. } => predictions,
        }
    }

    fn dtype(&self) -> (dtype: DType)
        ensures
            dtype == output_dtype(*self),
    {
        match self {
            KnnOutputRequest::Numeric { .. } => DType::F32,
            KnnOutputRequest::Categorical { .. } => DType::I32,
        }
    }
}

/// One all-output KNN graph request: normalized binary32 query and
/// reference features and the declared outputs.
#[derive(Clone, Debug)]
pub struct KnnAllOutputRequest {
    pub query_features: TensorDecl,
    pub reference_features: TensorDecl,
    pub outputs: Vec<KnnOutputRequest>,
    pub neighbors: u64,
    pub tree_lanes: u32,
    pub identity_namespace: IdentityNamespace,
    pub workspace_limit: ByteCount,
}

/// The source tensors: query and reference features, then each output's
/// values and mask.
pub open spec fn knn_sources(query: TensorDecl, reference: TensorDecl, outputs: Seq<KnnOutputRequest>) -> Seq<
    TensorDecl,
>
    decreases outputs.len(),
{
    if outputs.len() == 0 {
        seq![query, reference]
    } else {
        knn_sources(query, reference, outputs.drop_last()) + seq![
            output_values(outputs.last()),
            output_known(outputs.last()),
        ]
    }
}

/// The prediction tensors, in output order.
pub open spec fn knn_predictions(outputs: Seq<KnnOutputRequest>) -> Seq<TensorDecl>
    decreases outputs.len(),
{
    if outputs.len() == 0 {
        Seq::empty()
    } else {
        knn_predictions(outputs.drop_last()).push(output_predictions(outputs.last()))
    }
}

/// Some tensor of `tensors` has identity `id`.
pub open spec fn holds_identity(tensors: Seq<TensorDecl>, id: ValueId) -> bool {
    exists|i: int| 0 <= i < tensors.len() && (#[trigger] tensors[i]).id == id
}

/// Why one declared output is refused, given the sources through it and
/// the predictions before it.
pub open spec fn output_check(
    output: KnnOutputRequest,
    queries: u64,
    reference_rows: u64,
    sources: Seq<TensorDecl>,
    predictions: Seq<TensorDecl>,
) -> Option<OperationErrorKind> {
    let dtype = output_dtype(output);
    let values = output_values(output);
    let known = output_known(output);
    let prediction = output_predictions(output);
    if values.dtype != dtype || values.extents@ != seq![reference_rows] {
        Some(OperationErrorKind::UnsupportedConcreteShape)
    } else if known.dtype != DType::I32 || known.extents@ != seq![reference_rows] {
        Some(OperationErrorKind::UnsupportedConcreteShape)
    } else if prediction.dtype != dtype || prediction.extents@ != seq![queries, 1u64] {
        Some(OperationErrorKind::UnsupportedConcreteShape)
    } else if holds_identity(sources, prediction.id) || holds_identity(predictions, prediction.id) {
        Some(OperationErrorKind::InvalidMaterializationRequest)
    } else {
        None
    }
}

/// Why the declared outputs are refused: the first refused output.
pub open spec fn outputs_verdict(
    query: TensorDecl,
    reference: TensorDecl,
    queries: u64,
    reference_rows: u64,
    outputs: Seq<KnnOutputRequest>,
) -> Option<OperationErrorKind>
    decreases outputs.len(),
{
    if outputs.len() == 0 {
        None
    } else {
        match outputs_verdict(query, reference, queries, reference_rows, outputs.drop_last()) {
            Some(kind) => Some(kind),
            None => output_check(
                outputs.last(),
                queries,
                reference_rows,
                knn_sources(query, reference, outputs),
                knn_predictions(outputs.drop_last()),
            ),
        }
    }
}

/// Tensors sharing an identity describe the same storage.
pub open spec fn storage_consistent(tensors: Seq<TensorDecl>) -> bool {
    forall|i: int, j: int|
        0 <= i < j < tensors.len() && #[trigger] tensors[i].id == #[trigger] tensors[j].id ==> same_storage(
            tensors[i],
            tensors[j],
        )
}

impl KnnAllOutputRequest {
    /// The per-output contracts.
    pub open spec fn output_specs(&self) -> Seq<KnnOutputSpec> {
        self.outputs@.map_values(|output: KnnOutputRequest| output_spec(output))
    }

    /// The resources of the graph, or why the request is refused, in the
    /// order the checks run.
    pub open spec fn verdict(&self) -> Result<KnnTotals, OperationErrorKind> {
        let query = self.query_features;
        let reference = self.reference_features;
        if query.dtype != DType::F32 || query.extents@.len() != 2 || reference.dtype != DType::F32
            || reference.extents@.len() != 2 {
            Err(OperationErrorKind::UnsupportedConcreteShape)
        } else if reference.extents@[1] != query.extents@[1] {
            Err(OperationErrorKind::UnsupportedConcreteShape)
        } else {
            match knn_requirements_spec(
                query.extents@[0],
                reference.extents@[0],
                query.extents@[1],
                self.neighbors,
                self.output_specs(),
            ) {
                Err(kind) => Err(kind),
                Ok(totals) => if outputs_verdict(
                    query,
                    reference,
                    query.extents@[0],
                    reference.extents@[0],
                    self.outputs@,
                ) is Some {
                    Err(
                        outputs_verdict(
                            query,
                            reference,
                            query.extents@[0],
                            reference.extents@[0],
                            self.outputs@,
                        )->Some_0,
                    )
                } else if !tree_lanes_valid(self.tree_lanes as u64) {
                    Err(OperationErrorKind::InvalidMaterializationRequest)
                } else {
                    Ok(totals)
                },
            }
        }
    }

    /// Every boundary tensor: the sources, then the predictions.
    pub open spec fn boundary_tensors(&self) -> Seq<TensorDecl> {
        knn_sources(self.query_features, self.reference_features, self.outputs@) + knn_predictions(
            self.outputs@,
        )
    }

    /// The resources the graph reserves, once the request validates and the
    /// namespace, workspace limit and boundary hold them.
    pub open spec fn admission(&self) -> Result<KnnTotals, OperationErrorKind> {
        match self.verdict() {
            Err(kind) => Err(kind),
            Ok(totals) => if totals.values > self.identity_namespace.value_capacity || totals.kernels
                > self.identity_namespace.kernel_capacity {
                Err(OperationErrorKind::IdentityNamespaceExhausted)
            } else if 4 * totals.workspace > self.workspace_limit.0 {
                Err(OperationErrorKind::WorkspaceLimitExceeded)
            } else if !self.identity_namespace.fits() {
                Err(OperationErrorKind::IdentityNamespaceExhausted)
            } else if !storage_consistent(
                knn_sources(self.query_features, self.reference_features, self.outputs@),
            ) {
                Err(OperationErrorKind::InvalidMaterializationRequest)
            } else if exists|i: int|
                0 <= i < self.boundary_tensors().len() && self.identity_namespace.reserves_value(
                    (#[trigger] self.boundary_tensors()[i]).id.0 as int,
                ) {
                Err(OperationErrorKind::IdentityNamespaceOverlap)
            } else {
                Ok(totals)
            },
        }
    }
}

fn extents_are(tensor: &TensorDecl, first: u64) -> (same: bool)
    ensures
        same == (tensor.extents@ == seq![first]),
{
    let same = tensor.extents.len() == 1 && tensor.extents[0] == first;
    proof {
        if same {
            assert(tensor.extents@ =~= seq![first]);
        }
    }
    same
}

fn extents_are_pair(tensor: &TensorDecl, first: u64, second: u64) -> (same: bool)
    ensures
        same == (tensor.extents@ == seq![first, second]),
{
    let same = tensor.extents.len() == 2 && tensor.extents[0] == first && tensor.extents[1] == second;
    proof {
        if same {
            assert(tensor.extents@ =~= seq![first, second]);
        } else if tensor.extents@.len() == 2 {
            assert(tensor.extents@[0] != first || tensor.extents@[1] != second);
        }
    }
    same
}

fn contains_identity(tensors: &Vec<&TensorDecl>, id: u64) -> (found: bool)
    ensures
        found == holds_identity(tensors@.map_values(|tensor: &TensorDecl| *tensor), ValueId(id)),
{
    let ghost all = tensors@.map_values(|tensor: &TensorDecl| *tensor);
    let mut index: usize = 0;
    while index < tensors.len()
        invariant
            index <= tensors@.len(),
            all == tensors@.map_values(|tensor: &TensorDecl| *tensor),
            forall|i: int| 0 <= i < index ==> (#[trigger] all[i]).id != ValueId(id),
        decreases tensors.len() - index,
    {
        if tensors[index].id.0 == id {
            assert(all[index as int].id == ValueId(id));
            return true;
        }
        index = index + 1;
    }
    false
}

/// Check the declared outputs in order.
#[verifier::loop_isolation(false)]
fn validate_outputs(request: &KnnAllOutputRequest, queries: u64, reference_rows: u64) -> (result:
    OperationResult<()>)
    ensures
        match outputs_verdict(
            request.query_features,
            request.reference_features,
            queries,
            reference_rows,
            request.outputs@,
        ) {
            Some(kind) => result matches Err(error) && error.kind == kind,
            None => result is Ok,
        },
{
    let query = &request.query_features;
    let reference = &request.reference_features;
    let outputs = &request.outputs;
    let mut sources: Vec<&TensorDecl> = vec![query, reference];
    let mut predictions: Vec<&TensorDecl> = Vec::new();
    let ghost deref = |tensor: &TensorDecl| *tensor;
    assert(sources@.map_values(deref) =~= knn_sources(*query, *reference, outputs@.subrange(0, 0)));
    assert(predictions@.map_values(deref) =~= knn_predictions(outputs@.subrange(0, 0)));
    let mut index: usize = 0;
    while index < outputs.len()
        invariant
            index <= outputs@.len(),
            sources@.map_values(deref) == knn_sources(*query, *reference, outputs@.subrange(0, index as int)),
            predictions@.map_values(deref) == knn_predictions(outputs@.subrange(0, index as int)),
            outputs_verdict(*query, *reference, queries, reference_rows, outputs@.subrange(0, index as int))
                is None,
        decreases outputs.len() - index,
    {
        let output = &outputs[index];
        let ghost prefix = outputs@.subrange(0, index as int + 1);
        assert(prefix.drop_last() =~= outputs@.subrange(0, index as int));
        assert(prefix.last() == outputs@[index as int]);
        let dtype = output.dtype();
        let values = output.reference_values();
        let known = output.known();
        let prediction = output.predictions();
        let ghost before_sources = sources@;
        sources.push(values);
        sources.push(known);
        proof {
            assert(sources@.map_values(deref) =~= before_sources.map_values(deref) + seq![*values, *known]);
            assert(sources@.map_values(deref) == knn_sources(*query, *reference, prefix));
        }
        let refused = if values.dtype != dtype || !extents_are(values, reference_rows) {
            Some(knn_error(
                OperationErrorKind::UnsupportedConcreteShape,
                "KNN output reference values have the wrong type or shape",
            ))
        } else if known.dtype != DType::I32 || !extents_are(known, reference_rows) {
            Some(knn_error(
                OperationErrorKind::UnsupportedConcreteShape,
                "KNN output known mask must be I32 [reference rows]",
            ))
        } else if prediction.dtype != dtype || !extents_are_pair(prediction, queries, 1) {
            Some(knn_error(
                OperationErrorKind::UnsupportedConcreteShape,
                "KNN output predictions have the wrong type or shape",
            ))
        } else if contains_identity(&sources, prediction.id.0) || contains_identity(
            &predictions,
            prediction.id.0,
        ) {
            Some(knn_error(
                OperationErrorKind::InvalidMaterializationRequest,
                "KNN output prediction identity aliases another boundary",
            ))
        } else {
            None
        };
        match refused {
            Some(error) => {
                proof {
                    lemma_outputs_verdict_prefix(*query, *reference, queries, reference_rows, outputs@, index as int + 1);
                }
                return Err(error);
            },
            None => {},
        }
        let ghost before_predictions = predictions@;
        predictions.push(prediction);
        proof {
            assert(predictions@.map_values(deref) =~= before_predictions.map_values(deref).push(*prediction));
        }
        index = index + 1;
    }
    assert(outputs@.subrange(0, outputs@.len() as int) =~= outputs@);
    Ok(())
}

/// Once a prefix of the outputs is refused, every longer prefix is refused
/// for the same reason.
proof fn lemma_outputs_verdict_prefix(
    query: TensorDecl,
    reference: TensorDecl,
    queries: u64,
    reference_rows: u64,
    outputs: Seq<KnnOutputRequest>,
    length: int,
)
    requires
        0 <= length <= outputs.len(),
    ensures
        outputs_verdict(query, reference, queries, reference_rows, outputs.subrange(0, length)) is Some
            ==> outputs_verdict(query, reference, queries, reference_rows, outputs) == outputs_verdict(
            query,
            reference,
            queries,
            reference_rows,
            outputs.subrange(0, length),
        ),
    decreases outputs.len() - length,
{
    if length < outputs.len() {
        lemma_outputs_verdict_prefix(query, reference, queries, reference_rows, outputs, length + 1);
        assert(outputs.subrange(0, length + 1).drop_last() =~= outputs.subrange(0, length));
    } else {
        assert(outputs.subrange(0, length) =~= outputs);
    }
}

/// Whether tensors sharing an identity describe the same storage.
fn consistent_storage(tensors: &Vec<&TensorDecl>) -> (consistent: bool)
    ensures
        consistent == storage_consistent(tensors@.map_values(|tensor: &TensorDecl| *tensor)),
{
    let ghost all = tensors@.map_values(|tensor: &TensorDecl| *tensor);
    let mut index: usize = 0;
    while index < tensors.len()
        invariant
            index <= tensors@.len(),
            all == tensors@.map_values(|tensor: &TensorDecl| *tensor),
            forall|i: int, j: int|
                0 <= i < j < index && #[trigger] all[i].id == #[trigger] all[j].id ==> same_storage(
                    all[i],
                    all[j],
                ),
        decreases tensors.len() - index,
    {
        let mut earlier: usize = 0;
        while earlier < index
            invariant
                earlier <= index < tensors@.len(),
                all == tensors@.map_values(|tensor: &TensorDecl| *tensor),
                forall|i: int|
                    0 <= i < earlier && #[trigger] all[i].id == all[index as int].id ==> same_storage(
                        all[i],
                        all[index as int],
                    ),
            decreases index - earlier,
        {
            if tensors[earlier].id.0 == tensors[index].id.0 && !storage_matches(tensors[earlier], tensors[index]) {
                assert(all[earlier as int].id == all[index as int].id);
                return false;
            }
            earlier = earlier + 1;
        }
        index = index + 1;
    }
    true
}

impl KnnAllOutputRequest {
    /// Check the request and return the exact resources of its graph.
    pub fn validate_request(&self) -> (result: OperationResult<KnnAllOutputRequirements>)
        ensures
            match self.verdict() {
                Ok(totals) => result matches Ok(r) && r.outputs@ == totals.outputs
                    && r.intermediate_values == totals.values && r.kernels == totals.kernels
                    && r.workspace_bytes.0 == 4 * totals.workspace,
                Err(kind) => result matches Err(error) && error.kind == kind,
            },
    {
        let query = &self.query_features;
        let reference = &self.reference_features;
        if query.dtype != DType::F32 || query.extents.len() != 2 || reference.dtype != DType::F32
            || reference.extents.len() != 2 {
            return Err(
                knn_error(
                    OperationErrorKind::UnsupportedConcreteShape,
                    "KNN feature tensors must be rank-two f32 matrices",
                ),
            );
        }
        let queries = query.extents[0];
        let dimensions = query.extents[1];
        let reference_rows = reference.extents[0];
        if reference.extents[1] != dimensions {
            return Err(
                knn_error(
                    OperationErrorKind::UnsupportedConcreteShape,
                    "KNN query and reference feature widths differ",
                ),
            );
        }
        let mut specs: Vec<KnnOutputSpec> = Vec::new();
        let mut index: usize = 0;
        while index < self.outputs.len()
            invariant
                index <= self.outputs@.len(),
                specs@ == self.output_specs().subrange(0, index as int),
            decreases self.outputs.len() - index,
        {
            specs.push(self.outputs[index].spec());
            assert(specs@ =~= self.output_specs().subrange(0, index + 1));
            index = index + 1;
        }
        assert(specs@ =~= self.output_specs());
        let requirements = knn_all_output_requirements(queries, reference_rows, dimensions, self.neighbors, &specs)?;
        validate_outputs(self, queries, reference_rows)?;
        if !valid_tree_lanes(self.tree_lanes as u64) {
            return Err(
                knn_error(
                    OperationErrorKind::InvalidMaterializationRequest,
                    "KNN reduction lanes must be a power of two in 1..=1024",
                ),
            );
        }
        Ok(requirements)
    }

    /// Validate the request and check that its namespace, workspace limit
    /// and boundary hold the graph, before any graph is emitted.
    pub fn reserve(&self) -> (result: OperationResult<KnnAllOutputRequirements>)
        ensures
            match self.admission() {
                Ok(totals) => result matches Ok(r) && r.outputs@ == totals.outputs
                    && r.intermediate_values == totals.values && r.kernels == totals.kernels
                    && r.workspace_bytes.0 == 4 * totals.workspace,
                Err(kind) => result matches Err(error) && error.kind == kind,
            },
    {
        let requirements = self.validate_request()?;
        if requirements.intermediate_values > self.identity_namespace.value_capacity() {
            return Err(
                knn_error(
                    OperationErrorKind::IdentityNamespaceExhausted,
                    "KNN needs more intermediate identities than the namespace reserves",
                ),
            );
        }
        if requirements.kernels > self.identity_namespace.kernel_capacity() {
            return Err(
                knn_error(
                    OperationErrorKind::IdentityNamespaceExhausted,
                    "KNN needs more kernel identities than the namespace reserves",
                ),
            );
        }
        if requirements.workspace_bytes.get() > self.workspace_limit.get() {
            return Err(
                knn_error(
                    OperationErrorKind::WorkspaceLimitExceeded,
                    "KNN needs more workspace bytes than the limit",
                ),
            );
        }
        match identity_ranges(self.identity_namespace) {
            Ok(_) => {},
            Err(error) => return Err(error),
        }
        let mut boundary: Vec<&TensorDecl> = vec![&self.query_features, &self.reference_features];
        let ghost outputs = self.outputs@;
        assert(tensors_of(boundary@) =~= knn_sources(
            self.query_features,
            self.reference_features,
            outputs.subrange(0, 0),
        ));
        let mut index: usize = 0;
        while index < self.outputs.len()
            invariant
                index <= outputs.len(),
                outputs == self.outputs@,
                tensors_of(boundary@) == knn_sources(
                    self.query_features,
                    self.reference_features,
                    outputs.subrange(0, index as int),
                ),
            decreases self.outputs.len() - index,
        {
            let ghost before = boundary@;
            let ghost prefix = outputs.subrange(0, index as int + 1);
            assert(prefix.drop_last() =~= outputs.subrange(0, index as int));
            let values = self.outputs[index].reference_values();
            let known = self.outputs[index].known();
            boundary.push(values);
            boundary.push(known);
            assert(tensors_of(boundary@) =~= tensors_of(before) + seq![*values, *known]);
            assert(prefix.last() == outputs[index as int]);
            index = index + 1;
        }
        assert(outputs.subrange(0, outputs.len() as int) =~= outputs);
        if !consistent_storage(&boundary) {
            return Err(
                knn_error(
                    OperationErrorKind::InvalidMaterializationRequest,
                    "KNN boundary tensor has conflicting contracts",
                ),
            );
        }
        let ghost sources = tensors_of(boundary@);
        let mut index: usize = 0;
        assert(tensors_of(boundary@) =~= sources + knn_predictions(outputs.subrange(0, 0)));
        while index < self.outputs.len()
            invariant
                index <= outputs.len(),
                outputs == self.outputs@,
                tensors_of(boundary@) == sources + knn_predictions(outputs.subrange(0, index as int)),
            decreases self.outputs.len() - index,
        {
            let ghost before = boundary@;
            let ghost prefix = outputs.subrange(0, index as int + 1);
            assert(prefix.drop_last() =~= outputs.subrange(0, index as int));
            let prediction = self.outputs[index].predictions();
            boundary.push(prediction);
            assert(tensors_of(boundary@) =~= tensors_of(before).push(*prediction));
            assert(prefix.last() == outputs[index as int]);
            index = index + 1;
        }
        assert(outputs.subrange(0, outputs.len() as int) =~= outputs);
        assert(tensors_of(boundary@) =~= self.boundary_tensors());
        assert(tensors_of(boundary@) =~= self.boundary_tensors());
        if reserves_any(self.identity_namespace, &boundary) {
            return Err(
                knn_error(
                    OperationErrorKind::IdentityNamespaceOverlap,
                    "a KNN boundary tensor lies inside the reserved intermediate value range",
                ),
            );
        }
        Ok(requirements)
    }
}

/// The fold of a list that folds without error also folds every prefix
/// without error, to totals no larger than the whole list's.
proof fn lemma_knn_fold_prefix(
    queries: u64,
    reference_rows: u64,
    neighbors: u64,
    start: KnnTotals,
    outputs: Seq<KnnOutputSpec>,
    count: int,
)
    requires
        0 <= count <= outputs.len(),
        knn_outputs_fold(queries, reference_rows, neighbors, start, outputs) is Ok,
    ensures
        knn_outputs_fold(queries, reference_rows, neighbors, start, outputs.subrange(0, count)) is Ok,
        knn_outputs_fold(queries, reference_rows, neighbors, start, outputs.subrange(0, count))->Ok_0.workspace
            <= knn_outputs_fold(queries, reference_rows, neighbors, start, outputs)->Ok_0.workspace,
        knn_outputs_fold(queries, reference_rows, neighbors, start, outputs.subrange(0, count))->Ok_0.values
            <= knn_outputs_fold(queries, reference_rows, neighbors, start, outputs)->Ok_0.values,
        knn_outputs_fold(queries, reference_rows, neighbors, start, outputs.subrange(0, count))->Ok_0.kernels
            <= knn_outputs_fold(queries, reference_rows, neighbors, start, outputs)->Ok_0.kernels,
        knn_outputs_fold(queries, reference_rows, neighbors, start, outputs)->Ok_0.outputs.len() == start.outputs.len()
            + outputs.len(),
        knn_outputs_fold(queries, reference_rows, neighbors, start, outputs.subrange(0, count))->Ok_0.outputs
            == knn_outputs_fold(queries, reference_rows, neighbors, start, outputs)->Ok_0.outputs.subrange(
            0,
            start.outputs.len() + count,
        ),
    decreases outputs.len(),
{
    if outputs.len() > 0 {
        lemma_knn_fold_prefix(queries, reference_rows, neighbors, start, outputs.drop_last(), outputs.len() - 1);
        assert(outputs.drop_last().subrange(0, outputs.len() - 1) =~= outputs.drop_last());
    }
    if count == outputs.len() {
        let whole = knn_outputs_fold(queries, reference_rows, neighbors, start, outputs)->Ok_0.outputs;
        assert(whole.subrange(0, whole.len() as int) =~= whole);
        assert(outputs.subrange(0, count) =~= outputs);
    } else {
        let shorter = outputs.drop_last();
        lemma_knn_fold_prefix(queries, reference_rows, neighbors, start, shorter, count);
        assert(shorter.subrange(0, count) =~= outputs.subrange(0, count));
        let totals = knn_outputs_fold(queries, reference_rows, neighbors, start, shorter)->Ok_0;
        let effective = min_u64(neighbors, outputs.last().spec_known_references());
        lemma_nonnegative_products(queries, effective);
        lemma_nonnegative_products(queries, reference_rows);
        match outputs.last() {
            KnnOutputSpec::Categorical { classes, .. } => {
                lemma_nonnegative_products(queries, classes);
            },
            _ => {},
        }
        let prefix = knn_outputs_fold(queries, reference_rows, neighbors, start, outputs.subrange(0, count))->Ok_0.outputs;
        let whole = knn_outputs_fold(queries, reference_rows, neighbors, start, outputs)->Ok_0.outputs;
        assert(totals.outputs.subrange(0, start.outputs.len() + count) =~= whole.subrange(
            0,
            start.outputs.len() + count,
        ));
    }
}

/// Intermediates one declared output draws.
pub open spec fn knn_width(output: KnnOutputRequest) -> int {
    match output {
        KnnOutputRequest::Numeric { .. } => KNN_NUMERIC_INTERMEDIATES as int,
        KnnOutputRequest::Categorical { .. } => KNN_CATEGORICAL_INTERMEDIATES as int,
    }
}

/// Index of the first intermediate of output `count`.
pub open spec fn knn_value_base(outputs: Seq<KnnOutputRequest>, count: nat) -> int
    decreases count,
{
    if count == 0 {
        KNN_BASE_INTERMEDIATES as int
    } else {
        knn_value_base(outputs, (count - 1) as nat) + knn_width(outputs[count - 1])
    }
}

/// The shared kernels over the first six intermediates: squared features,
/// their row norms, the feature products and the rooted distances.
pub open spec fn knn_base_plan(request: KnnAllOutputRequest, v: Seq<ValueId>) -> Seq<NodeModel> {
    let query = request.query_features.id;
    let reference = request.reference_features.id;
    let lanes = request.tree_lanes;
    seq![
        elementwise_node(seq![query], seq![v[0]]),
        elementwise_node(seq![reference], seq![v[1]]),
        sum_node(v[0], v[2], seq![1usize], true, lanes),
        sum_node(v[1], v[3], seq![1usize], false, lanes),
        contraction_node(seq![query, reference], v[4], (1usize, 1usize)),
        elementwise_node(seq![v[2], v[3], v[4]], seq![v[5]]),
    ]
}

/// The kernels of one declared output over intermediates from `b`: the
/// validated references, the checked known count, the masked distances,
/// their stable ascending sort and the nearest rows; then the mean of the
/// neighbour values, or the lowest-coded most frequent neighbour class.
pub open spec fn knn_output_nodes(request: KnnAllOutputRequest, v: Seq<ValueId>, b: int, output: KnnOutputRequest) -> Seq<
    NodeModel,
> {
    let lanes = request.tree_lanes;
    let queries = request.query_features.extents@[0];
    let checked = |axis: usize| GatherSpec { axis, rejects_out_of_bounds: true };
    let counting = IndexMapSpec { start: 0, element_step: 1, iteration_step: 0, modulus: None };
    let common = seq![
        elementwise_node(seq![output_values(output).id], seq![v[b]]),
        sum_node(output_known(output).id, v[b + 1], seq![0usize], false, lanes),
        elementwise_node(seq![v[b + 1]], seq![v[b + 2]]),
        elementwise_node(seq![v[5], output_known(output).id], seq![v[b + 3]]),
        sort_node(
            v[b + 3],
            v[b + 4],
            v[b + 5],
            SortSpec { direction: SortDirection::Ascending, stable: true, axis: 1, emit_indices: true },
        ),
        index_map_node(v[b + 6], counting),
        gather_node(v[b + 5], v[b + 6], v[b + 7], checked(1)),
    ];
    let prediction = output_predictions(output).id;
    match output {
        KnnOutputRequest::Numeric { .. } => common + seq![
            gather_node(v[b], v[b + 7], v[b + 8], checked(0)),
            sum_node(v[b + 8], v[b + 9], seq![1usize], true, lanes),
            elementwise_node(seq![v[b + 9]], seq![prediction]),
        ],
        KnnOutputRequest::Categorical { classes, .. } => common + seq![
            gather_node(v[b], v[b + 7], v[b + 8], checked(0)),
            index_map_node(
                v[b + 9],
                IndexMapSpec { start: 0, element_step: classes as i32, iteration_step: 0, modulus: None },
            ),
            elementwise_node(seq![v[b + 9], v[b + 8]], seq![v[b + 10]]),
            histogram_node(seq![v[b + 10]], v[b + 11], HistogramSpec { bins: (queries * classes) as u32, weighted: false }),
            index_map_node(v[b + 12], counting),
            gather_node(v[b + 11], v[b + 12], v[b + 13], checked(0)),
            sort_node(
                v[b + 13],
                v[b + 14],
                v[b + 15],
                SortSpec { direction: SortDirection::Descending, stable: true, axis: 1, emit_indices: true },
            ),
            index_map_node(v[b + 16], counting),
            gather_node(v[b + 15], v[b + 16], prediction, checked(1)),
        ],
    }
}

/// The kernels of the first `count` declared outputs.
pub open spec fn knn_output_plans(request: KnnAllOutputRequest, v: Seq<ValueId>, count: nat) -> Seq<NodeModel>
    decreases count,
{
    if count == 0 {
        Seq::empty()
    } else {
        knn_output_plans(request, v, (count - 1) as nat) + knn_output_nodes(
            request,
            v,
            knn_value_base(request.outputs@, (count - 1) as nat),
            request.outputs@[count - 1],
        )
    }
}

/// The whole all-output KNN graph.
pub open spec fn knn_plan(request: KnnAllOutputRequest, v: Seq<ValueId>) -> Seq<NodeModel> {
    knn_base_plan(request, v) + knn_output_plans(request, v, request.outputs@.len())
}

/// Kernel `i` of `plan` writes `prediction` alone from the one tensor that
/// kernel `j` writes by summing over axis 1, the neighbour axis of the
/// `[queries, neighbours]` gathered values, keeping that axis.
pub open spec fn neighbour_mean_kernels(plan: Seq<NodeModel>, prediction: ValueId, i: int, j: int) -> bool {
    &&& 0 <= i < plan.len()
    &&& 0 <= j < plan.len()
    &&& plan[i].outputs == seq![prediction]
    &&& plan[i].inputs.len() == 1
    &&& plan[j].outputs == seq![plan[i].inputs[0]]
    &&& plan[j].kind matches KindModel::Reduce { operator, axes, keep_dimensions, .. } && operator
        == ReduceOperator::Sum && axes == seq![1usize] && keep_dimensions
}

/// The prediction is a sum over the neighbour axis alone.
pub open spec fn predicts_neighbour_mean(plan: Seq<NodeModel>, prediction: ValueId) -> bool {
    exists|i: int, j: int| #[trigger] neighbour_mean_kernels(plan, prediction, i, j)
}

proof fn lemma_neighbour_mean_extends(front: Seq<NodeModel>, plan: Seq<NodeModel>, back: Seq<NodeModel>, prediction: ValueId)
    requires
        predicts_neighbour_mean(plan, prediction),
    ensures
        predicts_neighbour_mean(front + plan + back, prediction),
{
    let (i, j) = choose|i: int, j: int| #[trigger] neighbour_mean_kernels(plan, prediction, i, j);
    let whole = front + plan + back;
    assert(whole[front.len() + i] == plan[i]);
    assert(whole[front.len() + j] == plan[j]);
    assert(neighbour_mean_kernels(whole, prediction, front.len() + i, front.len() + j));
}

proof fn lemma_output_plans_mean(request: KnnAllOutputRequest, v: Seq<ValueId>, count: nat, o: int)
    requires
        0 <= o < count <= request.outputs@.len(),
        request.outputs@[o] is Numeric,
    ensures
        predicts_neighbour_mean(knn_output_plans(request, v, count), output_predictions(request.outputs@[o]).id),
    decreases count,
{
    let prefix = knn_output_plans(request, v, (count - 1) as nat);
    let last = knn_output_nodes(
        request,
        v,
        knn_value_base(request.outputs@, (count - 1) as nat),
        request.outputs@[count - 1],
    );
    let prediction = output_predictions(request.outputs@[o]).id;
    if o < count - 1 {
        lemma_output_plans_mean(request, v, (count - 1) as nat, o);
        lemma_neighbour_mean_extends(Seq::empty(), prefix, last, prediction);
        assert(Seq::<NodeModel>::empty() + prefix + last =~= prefix + last);
    } else {
        assert(neighbour_mean_kernels(last, prediction, 9, 8));
        lemma_neighbour_mean_extends(prefix, last, Seq::empty(), prediction);
        assert(prefix + last + Seq::<NodeModel>::empty() =~= prefix + last);
    }
}

/// Every numeric KNN prediction is written from one sum over exactly the
/// neighbour axis (axis 1) of the gathered neighbour values, never across
/// queries.
pub proof fn lemma_numeric_prediction_sums_neighbours(request: KnnAllOutputRequest, v: Seq<ValueId>, o: int)
    requires
        0 <= o < request.outputs@.len(),
        request.outputs@[o] is Numeric,
    ensures
        predicts_neighbour_mean(knn_plan(request, v), output_predictions(request.outputs@[o]).id),
{
    let outputs = knn_output_plans(request, v, request.outputs@.len());
    lemma_output_plans_mean(request, v, request.outputs@.len(), o);
    lemma_neighbour_mean_extends(knn_base_plan(request, v), outputs, Seq::empty(), output_predictions(
        request.outputs@[o],
    ).id);
    assert(knn_base_plan(request, v) + outputs + Seq::<NodeModel>::empty() =~= knn_plan(request, v));
}

/// In every materialized KNN graph each numeric prediction is a sum over
/// the neighbour axis alone.
pub proof fn lemma_materialized_numeric_prediction(
    request: KnnAllOutputRequest,
    totals: KnnTotals,
    materialization: KnnAllOutputMaterialization,
    o: int,
)
    requires
        knn_materialized(request, totals, materialization),
        0 <= o < request.outputs@.len(),
        request.outputs@[o] is Numeric,
    ensures
        predicts_neighbour_mean(node_models(materialization.nodes@), output_predictions(request.outputs@[o]).id),
{
    lemma_numeric_prediction_sums_neighbours(
        request,
        namespace_values(request.identity_namespace, totals.values as nat),
        o,
    );
}

/// The emitted all-output KNN fragment.
#[derive(Debug)]
pub struct KnnAllOutputMaterialization {
    pub nodes: Vec<CalculationNode>,
    pub intermediate_tensors: Vec<TensorDecl>,
    pub intermediate_values: Vec<ValueId>,
    pub kernels: Vec<KernelTemplateId>,
    pub output_requirements: Vec<KnnOutputRequirement>,
    pub workspace_bytes: ByteCount,
    pub identity_namespace: IdentityNamespace,
}

/// `materialization` is the KNN graph of `request` under the reserved
/// totals.
pub open spec fn knn_materialized(
    request: KnnAllOutputRequest,
    totals: KnnTotals,
    materialization: KnnAllOutputMaterialization,
) -> bool {
    let namespace = request.identity_namespace;
    let values = namespace_values(namespace, totals.values as nat);
    let kernels = namespace_kernels(namespace, totals.kernels as nat);
    let plan = knn_plan(request, values);
    &&& materialization.intermediate_values@ == values
    &&& tensor_models(materialization.intermediate_tensors@) == knn_intermediate_models(request, totals, values)
    &&& tensor_ids(materialization.intermediate_tensors@) == values
    &&& materialization.kernels@ == kernels
    &&& node_models(materialization.nodes@) == plan
    &&& node_alias_rules(materialization.nodes@) == all_forbidden(plan)
    &&& node_kernels(materialization.nodes@) == kernels
    &&& materialization.output_requirements@ == totals.outputs
    &&& materialization.workspace_bytes.0 == 4 * totals.workspace
    &&& materialization.identity_namespace == namespace
}

/// The identities of every boundary tensor, in boundary order.
fn knn_boundary_ids(request: &KnnAllOutputRequest) -> (ids: Vec<ValueId>)
    ensures
        ids@ == request.boundary_tensors().map_values(|tensor: TensorDecl| tensor.id),
{
    let ghost outputs = request.outputs@;
    let ghost query = request.query_features;
    let ghost reference = request.reference_features;
    let mut ids: Vec<ValueId> = Vec::new();
    ids.push(request.query_features.id);
    ids.push(request.reference_features.id);
    proof {
        assert(outputs.subrange(0, 0) =~= Seq::<KnnOutputRequest>::empty());
        assert(ids@ =~= knn_sources(query, reference, outputs.subrange(0, 0)).map_values(
            |tensor: TensorDecl| tensor.id,
        ));
    }
    let mut index: usize = 0;
    while index < request.outputs.len()
        invariant
            index <= outputs.len(),
            outputs == request.outputs@,
            query == request.query_features,
            reference == request.reference_features,
            ids@ == knn_sources(query, reference, outputs.subrange(0, index as int)).map_values(
                |tensor: TensorDecl| tensor.id,
            ),
        decreases request.outputs.len() - index,
    {
        let ghost prefix = outputs.subrange(0, index as int + 1);
        assert(prefix.drop_last() =~= outputs.subrange(0, index as int));
        ids.push(request.outputs[index].reference_values().id);
        ids.push(request.outputs[index].known().id);
        assert(ids@ =~= knn_sources(query, reference, prefix).map_values(|tensor: TensorDecl| tensor.id));
        index = index + 1;
    }
    assert(outputs.subrange(0, outputs.len() as int) =~= outputs);
    let ghost sources = ids@;
    let mut index: usize = 0;
    proof {
        assert(sources + knn_predictions(outputs.subrange(0, 0)).map_values(|tensor: TensorDecl| tensor.id)
            =~= sources);
    }
    while index < request.outputs.len()
        invariant
            index <= outputs.len(),
            outputs == request.outputs@,
            ids@ == sources + knn_predictions(outputs.subrange(0, index as int)).map_values(
                |tensor: TensorDecl| tensor.id,
            ),
        decreases request.outputs.len() - index,
    {
        let ghost prefix = outputs.subrange(0, index as int + 1);
        assert(prefix.drop_last() =~= outputs.subrange(0, index as int));
        ids.push(request.outputs[index].predictions().id);
        assert(ids@ =~= sources + knn_predictions(prefix).map_values(|tensor: TensorDecl| tensor.id));
        index = index + 1;
    }
    assert(outputs.subrange(0, outputs.len() as int) =~= outputs);
    assert(ids@ =~= request.boundary_tensors().map_values(|tensor: TensorDecl| tensor.id));
    ids
}

/// Later outputs start at later intermediates.
proof fn lemma_value_base_grows(outputs: Seq<KnnOutputRequest>, first: nat, second: nat)
    requires
        first <= second,
    ensures
        knn_value_base(outputs, first) <= knn_value_base(outputs, second),
    decreases second,
{
    if first < second {
        lemma_value_base_grows(outputs, first, (second - 1) as nat);
    }
}

/// The starting totals of the output fold: the shared buffers only.
pub open spec fn knn_start(queries: u64, reference_rows: u64, dimensions: u64) -> KnnTotals {
    KnnTotals {
        workspace: knn_base_elements(queries as int, reference_rows as int, dimensions as int),
        values: KNN_BASE_INTERMEDIATES as int,
        kernels: KNN_BASE_KERNELS as int,
        outputs: Seq::empty(),
    }
}

/// Storage sizes of the KNN intermediates, in allocation order.
#[verifier::rlimit(60)]
fn knn_sizes(request: &KnnAllOutputRequest) -> (sizes: Vec<u64>)
    requires
        request.verdict() is Ok,
    ensures
        sizes@.len() == request.verdict()->Ok_0.values,
        total_bytes(sizes@) == 4 * request.verdict()->Ok_0.workspace,
{
    let ghost totals = request.verdict()->Ok_0;
    let ghost specs = request.output_specs();
    let queries = request.query_features.extents[0];
    let dimensions = request.query_features.extents[1];
    let reference_rows = request.reference_features.extents[0];
    let neighbors = request.neighbors;
    let ghost start = knn_start(queries, reference_rows, dimensions);
    proof {
        assert(knn_outputs_fold(queries, reference_rows, neighbors, start, specs) == Ok::<
            KnnTotals,
            OperationErrorKind,
        >(totals));
        lemma_knn_fold_prefix(queries, reference_rows, neighbors, start, specs, 0);
        assert(specs.subrange(0, 0) =~= Seq::<KnnOutputSpec>::empty());
        lemma_nonnegative_products(queries, dimensions);
        lemma_nonnegative_products(reference_rows, dimensions);
        lemma_nonnegative_products(queries, reference_rows);
    }
    let pairwise = queries * reference_rows;
    let mut sizes: Vec<u64> = Vec::new();
    proof {
        assert(sizes@ =~= Seq::<u64>::empty());
    }
    push_size(&mut sizes, 4 * (queries * dimensions));
    push_size(&mut sizes, 4 * (reference_rows * dimensions));
    push_size(&mut sizes, 4 * queries);
    push_size(&mut sizes, 4 * reference_rows);
    push_size(&mut sizes, 4 * pairwise);
    push_size(&mut sizes, 4 * pairwise);
    let ghost mut partial = start;
    let mut index: usize = 0;
    while index < request.outputs.len()
        invariant
            index <= specs.len(),
            specs == request.output_specs(),
            specs.len() == request.outputs@.len(),
            queries == request.query_features.extents@[0],
            reference_rows == request.reference_features.extents@[0],
            neighbors == request.neighbors,
            queries >= 1,
            pairwise == queries * reference_rows,
            knn_outputs_fold(queries, reference_rows, neighbors, start, specs) == Ok::<
                KnnTotals,
                OperationErrorKind,
            >(totals),
            4 * totals.workspace <= u64::MAX,
            knn_outputs_fold(queries, reference_rows, neighbors, start, specs.subrange(0, index as int)) == Ok::<
                KnnTotals,
                OperationErrorKind,
            >(partial),
            sizes@.len() == partial.values,
            total_bytes(sizes@) == 4 * partial.workspace,
            partial.workspace >= 0,
        decreases request.outputs.len() - index,
    {
        let ghost prefix = specs.subrange(0, index as int + 1);
        proof {
            assert(prefix.drop_last() =~= specs.subrange(0, index as int));
            lemma_knn_fold_prefix(queries, reference_rows, neighbors, start, specs, index + 1);
        }
        let ghost next = knn_outputs_fold(queries, reference_rows, neighbors, start, prefix)->Ok_0;
        let output = &request.outputs[index];
        assert(prefix.last() == output_spec(*output));
        let known = output.spec().known_references();
        let effective = if neighbors < known {
            neighbors
        } else {
            known
        };
        proof {
            lemma_nonnegative_products(queries, effective);
        }
        let selected = queries * effective;
        push_size(&mut sizes, 4 * reference_rows);
        push_size(&mut sizes, 4);
        push_size(&mut sizes, 4);
        push_size(&mut sizes, 4 * pairwise);
        push_size(&mut sizes, 4 * pairwise);
        push_size(&mut sizes, 4 * pairwise);
        push_size(&mut sizes, 4 * effective);
        push_size(&mut sizes, 4 * selected);
        match output {
            KnnOutputRequest::Numeric { .. } => {
                push_size(&mut sizes, 4 * selected);
                push_size(&mut sizes, 4 * queries);
            },
            KnnOutputRequest::Categorical { classes, .. } => {
                proof {
                    lemma_nonnegative_products(queries, *classes);
                }
                let bins = queries * *classes;
                push_size(&mut sizes, 4 * selected);
                push_size(&mut sizes, 4 * queries);
                push_size(&mut sizes, 4 * selected);
                push_size(&mut sizes, 4 * bins);
                push_size(&mut sizes, 4 * bins);
                push_size(&mut sizes, 4 * bins);
                push_size(&mut sizes, 4 * bins);
                push_size(&mut sizes, 4 * bins);
                push_size(&mut sizes, 4);
            },
        }
        proof {
            partial = next;
        }
        index = index + 1;
    }
    proof {
        assert(specs.subrange(0, specs.len() as int) =~= specs);
    }
    sizes
}

/// The KNN kernels over the intermediates `v`, with aliasing forbidden
/// throughout.
#[verifier::rlimit(80)]
fn knn_kernels(request: &KnnAllOutputRequest, v: &Vec<ValueId>) -> (planned: (
    Vec<KernelEmission>,
    Vec<Vec<AliasRule>>,
))
    requires
        request.verdict() is Ok,
        v@.len() == request.verdict()->Ok_0.values,
    ensures
        emission_models(planned.0@) == knn_plan(*request, v@),
        rule_views(planned.1@) == all_forbidden(emission_models(planned.0@)),
        planned.0@.len() == request.verdict()->Ok_0.kernels,
{
    let ghost totals = request.verdict()->Ok_0;
    let ghost specs = request.output_specs();
    let ghost values = v@;
    let query = request.query_features.id;
    let reference = request.reference_features.id;
    let queries = request.query_features.extents[0];
    let dimensions = request.query_features.extents[1];
    let reference_rows = request.reference_features.extents[0];
    let neighbors = request.neighbors;
    let lanes = request.tree_lanes;
    let ghost start = knn_start(queries, reference_rows, dimensions);
    proof {
        lemma_knn_fold_prefix(queries, reference_rows, neighbors, start, specs, 0);
        assert(specs.subrange(0, 0) =~= Seq::<KnnOutputSpec>::empty());
    }
    let mut kernels = vec![
        elementwise(one(query), one(v[0])),
        elementwise(one(reference), one(v[1])),
        sum(v[0], v[2], axis_list(1), true, lanes),
        sum(v[1], v[3], axis_list(1), false, lanes),
        contraction(query, reference, v[4], (1, 1)),
        elementwise(three(v[2], v[3], v[4]), one(v[5])),
    ];
    proof {
        assert(emission_models(kernels@) =~= knn_base_plan(*request, values));
    }
    let mut rules = crate::graph::forbidden_alias_lists(&kernels);
    proof {
        assert(rule_views(rules@) =~= all_forbidden(emission_models(kernels@)));
        assert(emission_models(kernels@) =~= knn_base_plan(*request, values) + knn_output_plans(*request, values, 0));
    }
    let ghost mut partial = start;
    let mut base: usize = 6;
    let mut index: usize = 0;
    while index < request.outputs.len()
        invariant
            index <= specs.len(),
            specs == request.output_specs(),
            specs.len() == request.outputs@.len(),
            values == v@,
            queries == request.query_features.extents@[0],
            reference_rows == request.reference_features.extents@[0],
            neighbors == request.neighbors,
            lanes == request.tree_lanes,
            queries >= 1,
            knn_outputs_fold(queries, reference_rows, neighbors, start, specs) == Ok::<
                KnnTotals,
                OperationErrorKind,
            >(totals),
            v@.len() == totals.values,
            knn_outputs_fold(queries, reference_rows, neighbors, start, specs.subrange(0, index as int)) == Ok::<
                KnnTotals,
                OperationErrorKind,
            >(partial),
            base == partial.values,
            base == knn_value_base(request.outputs@, index as nat),
            kernels@.len() == partial.kernels,
            emission_models(kernels@) == knn_base_plan(*request, values) + knn_output_plans(
                *request,
                values,
                index as nat,
            ),
            rule_views(rules@) == all_forbidden(emission_models(kernels@)),
        decreases request.outputs.len() - index,
    {
        let ghost prefix = specs.subrange(0, index as int + 1);
        proof {
            assert(prefix.drop_last() =~= specs.subrange(0, index as int));
            lemma_knn_fold_prefix(queries, reference_rows, neighbors, start, specs, index + 1);
        }
        let ghost next = knn_outputs_fold(queries, reference_rows, neighbors, start, prefix)->Ok_0;
        let ghost before = emission_models(kernels@);
        let output = &request.outputs[index];
        assert(prefix.last() == output_spec(*output));
        let known = output.known().id;
        let b = base;
        assert(next.values == partial.values + knn_width(*output));
        let available = v.len();
        assert(b + 10 <= available);
        let counting = IndexMapSpec { start: 0, element_step: 1, iteration_step: 0, modulus: None };
        plan_kernel(&mut kernels, &mut rules, elementwise(one(output.reference_values().id), one(v[b])));
        plan_kernel(&mut kernels, &mut rules, sum(known, v[b + 1], axis_list(0), false, lanes));
        plan_kernel(&mut kernels, &mut rules, elementwise(one(v[b + 1]), one(v[b + 2])));
        plan_kernel(&mut kernels, &mut rules, elementwise(two(v[5], known), one(v[b + 3])));
        plan_kernel(
            &mut kernels,
            &mut rules,
            sort(
                v[b + 3],
                v[b + 4],
                v[b + 5],
                SortSpec { direction: SortDirection::Ascending, stable: true, axis: 1, emit_indices: true },
            ),
        );
        plan_kernel(&mut kernels, &mut rules, index_map(v[b + 6], counting));
        plan_kernel(
            &mut kernels,
            &mut rules,
            gather(v[b + 5], v[b + 6], v[b + 7], GatherSpec { axis: 1, rejects_out_of_bounds: true }),
        );
        plan_kernel(
            &mut kernels,
            &mut rules,
            gather(v[b], v[b + 7], v[b + 8], GatherSpec { axis: 0, rejects_out_of_bounds: true }),
        );
        let prediction = output.predictions().id;
        match output {
            KnnOutputRequest::Numeric { .. } => {
                plan_kernel(&mut kernels, &mut rules, sum(v[b + 8], v[b + 9], axis_list(1), true, lanes));
                plan_kernel(&mut kernels, &mut rules, elementwise(one(v[b + 9]), one(prediction)));
                base = base + 10;
            },
            KnnOutputRequest::Categorical { classes, .. } => {
                let classes = *classes;
                plan_kernel(
                    &mut kernels,
                    &mut rules,
                    index_map(
                        v[b + 9],
                        IndexMapSpec { start: 0, element_step: classes as i32, iteration_step: 0, modulus: None },
                    ),
                );
                plan_kernel(&mut kernels, &mut rules, elementwise(two(v[b + 9], v[b + 8]), one(v[b + 10])));
                plan_kernel(
                    &mut kernels,
                    &mut rules,
                    histogram(
                        one(v[b + 10]),
                        v[b + 11],
                        HistogramSpec { bins: (queries * classes) as u32, weighted: false },
                    ),
                );
                plan_kernel(&mut kernels, &mut rules, index_map(v[b + 12], counting));
                plan_kernel(
                    &mut kernels,
                    &mut rules,
                    gather(v[b + 11], v[b + 12], v[b + 13], GatherSpec { axis: 0, rejects_out_of_bounds: true }),
                );
                plan_kernel(
                    &mut kernels,
                    &mut rules,
                    sort(
                        v[b + 13],
                        v[b + 14],
                        v[b + 15],
                        SortSpec { direction: SortDirection::Descending, stable: true, axis: 1, emit_indices: true },
                    ),
                );
                plan_kernel(&mut kernels, &mut rules, index_map(v[b + 16], counting));
                plan_kernel(
                    &mut kernels,
                    &mut rules,
                    gather(v[b + 15], v[b + 16], prediction, GatherSpec { axis: 1, rejects_out_of_bounds: true }),
                );
                base = base + 17;
            },
        }
        proof {
            let nodes = knn_output_nodes(*request, values, b as int, request.outputs@[index as int]);
            assert(emission_models(kernels@) =~= before + nodes);
            assert(knn_output_plans(*request, values, (index + 1) as nat) == knn_output_plans(
                *request,
                values,
                index as nat,
            ) + nodes);
            assert(before + nodes =~= knn_base_plan(*request, values) + knn_output_plans(
                *request,
                values,
                (index + 1) as nat,
            ));
            partial = next;
        }
        index = index + 1;
    }
    proof {
        assert(specs.subrange(0, specs.len() as int) =~= specs);
    }
    (kernels, rules)
}

/// Emit the all-output KNN graph: rooted L2 distances, then for each
/// declared output the nearest `min(neighbors, known_references)` known
/// references, aggregated by mean or by lowest-coded mode.
#[verifier::rlimit(40)]
pub fn materialize_knn_all_outputs(request: &KnnAllOutputRequest) -> (result: OperationResult<
    KnnAllOutputMaterialization,
>)
    ensures
        match request.admission() {
            Ok(totals) => result matches Ok(materialization) && knn_materialized(*request, totals, materialization),
            Err(kind) => result matches Err(error) && error.kind == kind,
        },
{
    let requirements = request.reserve()?;
    let ghost totals = request.admission()->Ok_0;
    let namespace = request.identity_namespace;
    let declared = knn_boundary_ids(request);
    proof {
        let boundary = request.boundary_tensors();
        assert forall|i: int| 0 <= i < declared@.len() implies !namespace.reserves_value(
            (#[trigger] declared@[i]).0 as int,
        ) by {
            assert(declared@[i] == boundary[i].id);
        }
        assert(!GraphLedger::declared_overlaps(namespace, declared@));
    }
    let ledger = GraphLedger::new(namespace, declared.as_slice(), request.workspace_limit)?;
    let mut builder = FragmentBuilder::new(ledger);
    let sizes = knn_sizes(request);
    let v = builder.reserve_all(&sizes)?;
    let ghost values = v@;
    proof {
        assert(values =~= namespace_values(namespace, totals.values as nat));
    }
    let (kernels, rules) = knn_kernels(request, &v);
    let ghost plan = knn_plan(*request, values);
    proof {
        assert(rule_views(rules@).len() == rules@.len());
        assert(all_forbidden(emission_models(kernels@)).len() == kernels@.len());
        assert(node_models(builder.nodes()) =~= Seq::<NodeModel>::empty());
        assert(node_alias_rules(builder.nodes()) =~= Seq::<Seq<AliasRule>>::empty());
    }
    builder.emit_all(kernels, rules)?;
    let (nodes, intermediate_values, kernel_ids, workspace_bytes) = builder.finish(
        requirements.intermediate_values,
        requirements.kernels,
        requirements.workspace_bytes,
    )?;
    let intermediate_tensors = knn_intermediate_tensors(request, &v);
    let materialization = KnnAllOutputMaterialization {
        nodes,
        intermediate_tensors,
        intermediate_values,
        kernels: kernel_ids,
        output_requirements: requirements.outputs,
        workspace_bytes,
        identity_namespace: namespace,
    };
    proof {
        assert(node_models(materialization.nodes@) =~= plan);
        assert(node_alias_rules(materialization.nodes@) =~= all_forbidden(plan));
        assert(materialization.kernels@ == namespace_kernels(namespace, totals.kernels as nat));
        assert(node_kernels(materialization.nodes@) =~= materialization.kernels@);
    }
    Ok(materialization)
}

/// A contiguous intermediate of the given payload type and extents.
pub open spec fn knn_tensor(id: ValueId, dtype: DType, extents: Seq<u64>) -> TensorModel {
    TensorModel {
        id,
        dtype,
        extents,
        storage_bytes: ByteCount((4 * element_count(extents)) as u64),
        external_input: false,
        external_output: false,
    }
}

/// The declarations of the six shared intermediates.
pub open spec fn knn_base_models(request: KnnAllOutputRequest, v: Seq<ValueId>) -> Seq<TensorModel> {
    let q = request.query_features.extents@[0];
    let d = request.query_features.extents@[1];
    let r = request.reference_features.extents@[0];
    seq![
        knn_tensor(v[0], DType::F32, seq![q, d]),
        knn_tensor(v[1], DType::F32, seq![r, d]),
        knn_tensor(v[2], DType::F32, seq![q, 1u64]),
        knn_tensor(v[3], DType::F32, seq![r]),
        knn_tensor(v[4], DType::F32, seq![q, r]),
        knn_tensor(v[5], DType::F32, seq![q, r]),
    ]
}

/// The declarations of one output's intermediates from `b`, selecting `k`
/// neighbours.
pub open spec fn knn_output_models(
    request: KnnAllOutputRequest,
    v: Seq<ValueId>,
    b: int,
    output: KnnOutputRequest,
    k: u64,
) -> Seq<TensorModel> {
    let q = request.query_features.extents@[0];
    let r = request.reference_features.extents@[0];
    let common = seq![
        knn_tensor(v[b], output_dtype(output), seq![r]),
        knn_tensor(v[b + 1], DType::I32, seq![1u64]),
        knn_tensor(v[b + 2], DType::I32, seq![1u64]),
        knn_tensor(v[b + 3], DType::F32, seq![q, r]),
        knn_tensor(v[b + 4], DType::F32, seq![q, r]),
        knn_tensor(v[b + 5], DType::I32, seq![q, r]),
        knn_tensor(v[b + 6], DType::I32, seq![k]),
        knn_tensor(v[b + 7], DType::I32, seq![q, k]),
    ];
    match output {
        KnnOutputRequest::Numeric { .. } => common + seq![
            knn_tensor(v[b + 8], DType::F32, seq![q, k]),
            knn_tensor(v[b + 9], DType::F32, seq![q, 1u64]),
        ],
        KnnOutputRequest::Categorical { classes, .. } => common + seq![
            knn_tensor(v[b + 8], DType::I32, seq![q, k]),
            knn_tensor(v[b + 9], DType::I32, seq![q, 1u64]),
            knn_tensor(v[b + 10], DType::I32, seq![q, k]),
            knn_tensor(v[b + 11], DType::I32, seq![(q * classes) as u64]),
            knn_tensor(v[b + 12], DType::I32, seq![q, classes]),
            knn_tensor(v[b + 13], DType::I32, seq![q, classes]),
            knn_tensor(v[b + 14], DType::I32, seq![q, classes]),
            knn_tensor(v[b + 15], DType::I32, seq![q, classes]),
            knn_tensor(v[b + 16], DType::I32, seq![1u64]),
        ],
    }
}

/// The declarations of the intermediates of the first `count` outputs,
/// with the neighbour counts of `requirements`.
pub open spec fn knn_outputs_models(
    request: KnnAllOutputRequest,
    v: Seq<ValueId>,
    requirements: Seq<KnnOutputRequirement>,
    count: nat,
) -> Seq<TensorModel>
    decreases count,
{
    if count == 0 {
        Seq::empty()
    } else {
        knn_outputs_models(request, v, requirements, (count - 1) as nat) + knn_output_models(
            request,
            v,
            knn_value_base(request.outputs@, (count - 1) as nat),
            request.outputs@[count - 1],
            requirements[count - 1].effective_neighbors,
        )
    }
}

/// The declarations of every KNN intermediate.
pub open spec fn knn_intermediate_models(request: KnnAllOutputRequest, totals: KnnTotals, v: Seq<ValueId>) -> Seq<
    TensorModel,
> {
    knn_base_models(request, v) + knn_outputs_models(request, v, totals.outputs, request.outputs@.len())
}

/// A contiguous rank-one intermediate.
fn vector_decl(id: ValueId, dtype: DType, length: u64, bytes: u64) -> (tensor: TensorDecl)
    requires
        bytes == 4 * length,
    ensures
        tensor_model(tensor) == knn_tensor(id, dtype, seq![length]),
{
    let extents = one(length);
    proof {
        reveal_with_fuel(crate::checked::product, 2);
        assert(extents@.drop_last() =~= Seq::<u64>::empty());
    }
    TensorDecl { id, dtype, extents, storage_bytes: ByteCount(bytes), external_input: false, external_output: false }
}

/// A contiguous rank-two intermediate.
fn matrix_decl(id: ValueId, dtype: DType, rows: u64, columns: u64, bytes: u64) -> (tensor: TensorDecl)
    requires
        bytes == 4 * (rows * columns),
    ensures
        tensor_model(tensor) == knn_tensor(id, dtype, seq![rows, columns]),
{
    let extents = two(rows, columns);
    proof {
        reveal_with_fuel(crate::checked::product, 3);
        assert(extents@.drop_last() =~= seq![rows]);
        assert(extents@.drop_last().drop_last() =~= Seq::<u64>::empty());
    }
    TensorDecl { id, dtype, extents, storage_bytes: ByteCount(bytes), external_input: false, external_output: false }
}

/// The declarations of the KNN intermediates `v`.
#[verifier::rlimit(80)]
fn knn_intermediate_tensors(request: &KnnAllOutputRequest, v: &Vec<ValueId>) -> (tensors: Vec<TensorDecl>)
    requires
        request.verdict() is Ok,
        v@.len() == request.verdict()->Ok_0.values,
    ensures
        tensor_models(tensors@) == knn_intermediate_models(*request, request.verdict()->Ok_0, v@),
        tensor_ids(tensors@) == v@,
{
    let ghost totals = request.verdict()->Ok_0;
    let ghost specs = request.output_specs();
    let ghost values = v@;
    let queries = request.query_features.extents[0];
    let dimensions = request.query_features.extents[1];
    let reference_rows = request.reference_features.extents[0];
    let neighbors = request.neighbors;
    let ghost start = knn_start(queries, reference_rows, dimensions);
    proof {
        lemma_knn_fold_prefix(queries, reference_rows, neighbors, start, specs, 0);
        assert(specs.subrange(0, 0) =~= Seq::<KnnOutputSpec>::empty());
        lemma_nonnegative_products(queries, dimensions);
        lemma_nonnegative_products(reference_rows, dimensions);
        lemma_nonnegative_products(queries, reference_rows);
    }
    let pairwise = queries * reference_rows;
    let mut tensors: Vec<TensorDecl> = Vec::new();
    tensors.push(matrix_decl(v[0], DType::F32, queries, dimensions, 4 * (queries * dimensions)));
    tensors.push(matrix_decl(v[1], DType::F32, reference_rows, dimensions, 4 * (reference_rows * dimensions)));
    tensors.push(matrix_decl(v[2], DType::F32, queries, 1, 4 * queries));
    tensors.push(vector_decl(v[3], DType::F32, reference_rows, 4 * reference_rows));
    tensors.push(matrix_decl(v[4], DType::F32, queries, reference_rows, 4 * pairwise));
    tensors.push(matrix_decl(v[5], DType::F32, queries, reference_rows, 4 * pairwise));
    proof {
        assert(tensor_models(tensors@) =~= knn_base_models(*request, values) + knn_outputs_models(
            *request,
            values,
            totals.outputs,
            0,
        ));
        assert forall|k: int| 0 <= k < 6 implies tensor_ids(tensors@)[k] == v@[k] by {
            assert(tensor_models(tensors@)[k] == tensor_model(tensors@[k]));
        }
        assert(tensor_ids(tensors@) =~= v@.subrange(0, 6));
    }
    let ghost mut partial = start;
    let mut base: usize = 6;
    let mut index: usize = 0;
    while index < request.outputs.len()
        invariant
            index <= specs.len(),
            specs == request.output_specs(),
            specs.len() == request.outputs@.len(),
            values == v@,
            queries == request.query_features.extents@[0],
            reference_rows == request.reference_features.extents@[0],
            neighbors == request.neighbors,
            queries >= 1,
            pairwise == queries * reference_rows,
            knn_outputs_fold(queries, reference_rows, neighbors, start, specs) == Ok::<
                KnnTotals,
                OperationErrorKind,
            >(totals),
            4 * totals.workspace <= u64::MAX,
            v@.len() == totals.values,
            knn_outputs_fold(queries, reference_rows, neighbors, start, specs.subrange(0, index as int)) == Ok::<
                KnnTotals,
                OperationErrorKind,
            >(partial),
            partial.workspace >= 0,
            partial.outputs.len() == index,
            tensor_ids(tensors@) == v@.subrange(0, base as int),
            base == partial.values,
            base == knn_value_base(request.outputs@, index as nat),
            tensor_models(tensors@) == knn_base_models(*request, values) + knn_outputs_models(
                *request,
                values,
                totals.outputs,
                index as nat,
            ),
        decreases request.outputs.len() - index,
    {
        let ghost prefix = specs.subrange(0, index as int + 1);
        proof {
            assert(prefix.drop_last() =~= specs.subrange(0, index as int));
            lemma_knn_fold_prefix(queries, reference_rows, neighbors, start, specs, index + 1);
        }
        let ghost next = knn_outputs_fold(queries, reference_rows, neighbors, start, prefix)->Ok_0;
        let ghost before = tensor_models(tensors@);
        let output = &request.outputs[index];
        assert(prefix.last() == output_spec(*output));
        let known = output.spec().known_references();
        let effective = if neighbors < known {
            neighbors
        } else {
            known
        };
        proof {
            lemma_nonnegative_products(queries, effective);
            assert(next.outputs == partial.outputs.push(next.outputs.last()));
            assert(totals.outputs[index as int] == next.outputs[index as int]);
        }
        let selected = queries * effective;
        let b = base;
        let available = v.len();
        assert(next.values == partial.values + knn_width(*output));
        assert(b + 10 <= available);
        let dtype = output.dtype();
        let mut chunk = vec![
            vector_decl(v[b], dtype, reference_rows, 4 * reference_rows),
            vector_decl(v[b + 1], DType::I32, 1, 4),
            vector_decl(v[b + 2], DType::I32, 1, 4),
            matrix_decl(v[b + 3], DType::F32, queries, reference_rows, 4 * pairwise),
            matrix_decl(v[b + 4], DType::F32, queries, reference_rows, 4 * pairwise),
            matrix_decl(v[b + 5], DType::I32, queries, reference_rows, 4 * pairwise),
            vector_decl(v[b + 6], DType::I32, effective, 4 * effective),
            matrix_decl(v[b + 7], DType::I32, queries, effective, 4 * selected),
        ];
        let ghost common = chunk@;
        match output {
            KnnOutputRequest::Numeric { .. } => {
                let mut tail = vec![
                    matrix_decl(v[b + 8], DType::F32, queries, effective, 4 * selected),
                    matrix_decl(v[b + 9], DType::F32, queries, 1, 4 * queries),
                ];
                let ghost rest = tail@;
                chunk.append(&mut tail);
                assert(chunk@ == common + rest);
                base = base + 10;
            },
            KnnOutputRequest::Categorical { classes, .. } => {
                let classes = *classes;
                proof {
                    lemma_nonnegative_products(queries, classes);
                }
                let bins = queries * classes;
                let mut tail = vec![
                    matrix_decl(v[b + 8], DType::I32, queries, effective, 4 * selected),
                    matrix_decl(v[b + 9], DType::I32, queries, 1, 4 * queries),
                    matrix_decl(v[b + 10], DType::I32, queries, effective, 4 * selected),
                    vector_decl(v[b + 11], DType::I32, bins, 4 * bins),
                    matrix_decl(v[b + 12], DType::I32, queries, classes, 4 * bins),
                    matrix_decl(v[b + 13], DType::I32, queries, classes, 4 * bins),
                    matrix_decl(v[b + 14], DType::I32, queries, classes, 4 * bins),
                    matrix_decl(v[b + 15], DType::I32, queries, classes, 4 * bins),
                    vector_decl(v[b + 16], DType::I32, 1, 4),
                ];
                let ghost rest = tail@;
                chunk.append(&mut tail);
                assert(chunk@ == common + rest);
                base = base + 17;
            },
        }
        let ghost models = knn_output_models(
            *request,
            values,
            b as int,
            request.outputs@[index as int],
            totals.outputs[index as int].effective_neighbors,
        );
        assert(totals.outputs[index as int].effective_neighbors == effective);
        assert(dtype == output_dtype(request.outputs@[index as int]));
        assert(tensor_models(chunk@).len() == models.len());
        assert(tensor_models(chunk@) =~= models);
        let ghost added = chunk@;
        let ghost kept = tensors@;
        assert forall|k: int| 0 <= k < added.len() implies tensor_ids(added)[k] == v@[b + k] by {
            assert(tensor_models(added)[k] == tensor_model(added[k]));
        }
        tensors.append(&mut chunk);
        assert(tensor_models(tensors@) =~= tensor_models(kept) + tensor_models(added));
        assert(tensor_ids(tensors@) =~= v@.subrange(0, base as int)) by {
            assert(tensor_ids(tensors@) =~= tensor_ids(kept) + tensor_ids(added));
        }
        proof {
            assert(tensor_models(tensors@) =~= before + models);
            assert(knn_outputs_models(*request, values, totals.outputs, (index + 1) as nat) == knn_outputs_models(
                *request,
                values,
                totals.outputs,
                index as nat,
            ) + models);
            assert(before + models =~= knn_base_models(*request, values) + knn_outputs_models(
                *request,
                values,
                totals.outputs,
                (index + 1) as nat,
            ));
            partial = next;
        }
        index = index + 1;
    }
    proof {
        lemma_knn_fold_prefix(queries, reference_rows, neighbors, start, specs, specs.len() as int);
        assert(specs.subrange(0, specs.len() as int) =~= specs);
        assert(v@.subrange(0, base as int) =~= v@);
    }
    tensors
}

/// The boundary tensors, in boundary order.
fn knn_boundary_refs(request: &KnnAllOutputRequest) -> (tensors: Vec<&TensorDecl>)
    ensures
        tensors_of(tensors@) == request.boundary_tensors(),
{
    let ghost outputs = request.outputs@;
    let ghost query = request.query_features;
    let ghost reference = request.reference_features;
    let mut tensors: Vec<&TensorDecl> = Vec::new();
    tensors.push(&request.query_features);
    tensors.push(&request.reference_features);
    proof {
        assert(outputs.subrange(0, 0) =~= Seq::<KnnOutputRequest>::empty());
        assert(tensors_of(tensors@) =~= knn_sources(query, reference, outputs.subrange(0, 0)));
    }
    let mut index: usize = 0;
    while index < request.outputs.len()
        invariant
            index <= outputs.len(),
            outputs == request.outputs@,
            query == request.query_features,
            reference == request.reference_features,
            tensors_of(tensors@) == knn_sources(query, reference, outputs.subrange(0, index as int)),
        decreases request.outputs.len() - index,
    {
        let ghost prefix = outputs.subrange(0, index as int + 1);
        let ghost before = tensors@;
        assert(prefix.drop_last() =~= outputs.subrange(0, index as int));
        tensors.push(request.outputs[index].reference_values());
        tensors.push(request.outputs[index].known());
        assert(tensors_of(tensors@) =~= knn_sources(query, reference, prefix));
        index = index + 1;
    }
    assert(outputs.subrange(0, outputs.len() as int) =~= outputs);
    let ghost sources = tensors_of(tensors@);
    let mut index: usize = 0;
    proof {
        assert(sources + knn_predictions(outputs.subrange(0, 0)) =~= sources);
    }
    while index < request.outputs.len()
        invariant
            index <= outputs.len(),
            outputs == request.outputs@,
            tensors_of(tensors@) == sources + knn_predictions(outputs.subrange(0, index as int)),
        decreases request.outputs.len() - index,
    {
        let ghost prefix = outputs.subrange(0, index as int + 1);
        let ghost before = tensors@;
        assert(prefix.drop_last() =~= outputs.subrange(0, index as int));
        assert(prefix.last() == outputs[index as int]);
        let prediction = request.outputs[index].predictions();
        tensors.push(prediction);
        assert(tensors_of(tensors@) =~= tensors_of(before).push(*prediction));
        assert(knn_predictions(prefix) == knn_predictions(outputs.subrange(0, index as int)).push(*prediction));
        assert(tensors_of(tensors@) =~= sources + knn_predictions(prefix));
        index = index + 1;
    }
    assert(outputs.subrange(0, outputs.len() as int) =~= outputs);
    assert(tensors_of(tensors@) =~= request.boundary_tensors());
    tensors
}

/// The predictions a caller's graph must not already produce, in output
/// order.
pub open spec fn knn_output_ids(request: KnnAllOutputRequest) -> Seq<ValueId> {
    knn_predictions(request.outputs@).map_values(|tensor: TensorDecl| tensor.id)
}

/// Why a KNN fragment cannot be appended to a caller's graph before it is
/// emitted: the graph repeats a tensor identity, or does not declare a
/// boundary tensor with the storage the request expects; then the
/// request's own refusal.
pub open spec fn knn_append_verdict(graph: CalculationGraph, request: KnnAllOutputRequest) -> Result<
    KnnTotals,
    OperationErrorKind,
> {
    let boundary = request.boundary_tensors();
    if !identities_distinct(graph.tensors@) {
        Err(OperationErrorKind::GraphMaterializationFailed)
    } else if exists|i: int| 0 <= i < boundary.len() && !declares_storage(graph.tensors@, #[trigger] boundary[i]) {
        Err(OperationErrorKind::InvalidMaterializationRequest)
    } else {
        request.admission()
    }
}

/// Append the KNN fragment to a caller's graph that already declares every
/// boundary tensor. Only intermediates and kernels are added; a refused
/// request leaves the graph unchanged.
#[verifier::rlimit(40)]
pub fn append_knn_all_outputs(graph: &mut CalculationGraph, request: &KnnAllOutputRequest) -> (result:
    OperationResult<KnnAllOutputMaterialization>)
    ensures
        match knn_append_verdict(*old(graph), *request) {
            Err(kind) => result matches Err(error) && error.kind == kind && *final(graph) == *old(graph),
            Ok(totals) => {
                let namespace = request.identity_namespace;
                let values = namespace_values(namespace, totals.values as nat);
                let kernels = namespace_kernels(namespace, totals.kernels as nat);
                match append_fault(*old(graph), values, kernels, knn_output_ids(*request)) {
                    Some(kind) => result matches Err(error) && error.kind == kind && *final(graph) == *old(graph),
                    None => result matches Ok(materialization) && {
                        &&& knn_materialized(*request, totals, materialization)
                        &&& tensor_models(final(graph).tensors@) == tensor_models(old(graph).tensors@)
                            + knn_intermediate_models(*request, totals, values)
                        &&& node_models(final(graph).nodes@) == node_models(old(graph).nodes@) + knn_plan(
                            *request,
                            values,
                        )
                        &&& node_alias_rules(final(graph).nodes@) == node_alias_rules(old(graph).nodes@)
                            + all_forbidden(knn_plan(*request, values))
                        &&& node_kernels(final(graph).nodes@) == node_kernels(old(graph).nodes@) + kernels
                    },
                }
            },
        },
{
    let declared = knn_boundary_refs(request);
    validate_boundary_storage(&graph.tensors, &declared)?;
    let materialization = materialize_knn_all_outputs(request)?;
    let mut outputs: Vec<ValueId> = Vec::new();
    let mut index: usize = 0;
    while index < request.outputs.len()
        invariant
            index <= request.outputs@.len(),
            outputs@ == knn_predictions(request.outputs@.subrange(0, index as int)).map_values(
                |tensor: TensorDecl| tensor.id,
            ),
        decreases request.outputs.len() - index,
    {
        let ghost prefix = request.outputs@.subrange(0, index as int + 1);
        assert(prefix.drop_last() =~= request.outputs@.subrange(0, index as int));
        outputs.push(request.outputs[index].predictions().id);
        index = index + 1;
        assert(outputs@ =~= knn_predictions(prefix).map_values(|tensor: TensorDecl| tensor.id));
    }
    assert(request.outputs@.subrange(0, request.outputs@.len() as int) =~= request.outputs@);
    append_fragment(
        graph,
        &materialization.intermediate_tensors,
        &materialization.nodes,
        &materialization.kernels,
        &outputs,
    )?;
    Ok(materialization)
}

} // verus!
