//! Exact static resources of the deterministic K-means initialization and
//! Lloyd-step graphs, and the checks of their dimensions and reservations.
use vstd::prelude::*;

use crate::boundary::{check_fragment_boundary, fragment_boundary_verdict, validate_f32_matrix};
use crate::error::{OperationError, OperationErrorKind, OperationResult};
use crate::fragment::{CalculationNode, GraphLedger, KindModel, NodeModel, total_bytes};
use crate::graph::{
    FragmentBuilder, TensorModel, all_forbidden, copy_tensor, flagged, emission_models, forbidden_alias_lists,
    namespace_kernels, namespace_values, node_alias_rules, node_models, rule_views, tensor_model, tensor_models,
};
use crate::identity::IdentityNamespace;
use crate::primitive::{AliasPermission, AliasRule, GatherSpec, IndexMapSpec, ReduceOperator, ReduceResult};
use crate::request::{TensorDecl, tree_lanes_valid, valid_tree_lanes};
use crate::staging::{
    axis_list, contraction, contraction_node, lemma_total_bytes_step, elementwise, elementwise_node, gather, gather_node, index_map,
    index_map_node, four, one, reduce_node, reduction, sum, sum_node, three, two,
};
use crate::types::{ByteCount, DType, KernelTemplateId, ValueId};

verus! {

pub const KMEANS_INITIALIZATION_INTERMEDIATES: u64 = 1;
pub const KMEANS_INITIALIZATION_KERNELS: u64 = 2;
pub const KMEANS_LLOYD_INTERMEDIATES: u64 = 16;
pub const KMEANS_LLOYD_KERNELS: u64 = 18;
pub const KMEANS_MAXIMUM_TREE_LANES: u32 = 1_024;
pub const KMEANS_MAXIMUM_EXACT_F32_COUNT: u64 = 16_777_216;
pub const KMEANS_MAXIMUM_CLUSTERS: u64 = 2_147_483_647;

/// Identities and workspace one K-means graph reserves.
#[derive(Clone, Copy, Debug, PartialEq, Eq, Structural)]
pub struct KMeansRequirements {
    pub intermediate_values: u64,
    pub kernels: u64,
    pub workspace_bytes: ByteCount,
}

fn kmeans_error(kind: OperationErrorKind, detail: &'static str) -> (error: OperationError)
    ensures
        error.kind == kind,
{
    OperationError::new(kind, detail)
}

/// Initialization needs a cluster count in `1..=i32::MAX`.
pub fn kmeans_initialization_requirements(clusters: u64) -> (requirements: OperationResult<
    KMeansRequirements,
>)
    ensures
        (clusters == 0 || clusters > KMEANS_MAXIMUM_CLUSTERS) ==> (requirements matches Err(error)
            && error.kind == OperationErrorKind::UnsupportedConcreteShape),
        (1 <= clusters <= KMEANS_MAXIMUM_CLUSTERS) ==> requirements == Ok::<
            KMeansRequirements,
            OperationError,
        >(
            KMeansRequirements {
                intermediate_values: KMEANS_INITIALIZATION_INTERMEDIATES,
                kernels: KMEANS_INITIALIZATION_KERNELS,
                workspace_bytes: ByteCount((clusters * 4) as u64),
            },
        ),
{
    if clusters == 0 || clusters > KMEANS_MAXIMUM_CLUSTERS {
        return Err(
            kmeans_error(
                OperationErrorKind::UnsupportedConcreteShape,
                "K-means cluster count must be in 1..=i32::MAX",
            ),
        );
    }
    Ok(
        KMeansRequirements {
            intermediate_values: KMEANS_INITIALIZATION_INTERMEDIATES,
            kernels: KMEANS_INITIALIZATION_KERNELS,
            workspace_bytes: ByteCount::new(clusters * 4),
        },
    )
}

/// The dimensions of a K-means population are supported: rows are exact in
/// binary32, the feature width is nonzero and clusters fit int32.
pub open spec fn kmeans_dimensions_valid(rows: u64, dimensions: u64, clusters: u64) -> bool {
    &&& 1 <= rows <= KMEANS_MAXIMUM_EXACT_F32_COUNT
    &&& dimensions >= 1
    &&& 1 <= clusters <= KMEANS_MAXIMUM_CLUSTERS
}

/// Check the dimensions of a K-means population.
pub fn validate_dimensions(rows: u64, dimensions: u64, clusters: u64) -> (result: OperationResult<()>)
    ensures
        result is Ok <==> kmeans_dimensions_valid(rows, dimensions, clusters),
        result matches Err(error) ==> error.kind == OperationErrorKind::UnsupportedConcreteShape,
{
    if rows == 0 || rows > KMEANS_MAXIMUM_EXACT_F32_COUNT {
        return Err(
            kmeans_error(
                OperationErrorKind::UnsupportedConcreteShape,
                "K-means row count must be in 1..=16777216",
            ),
        );
    }
    if dimensions == 0 {
        return Err(
            kmeans_error(
                OperationErrorKind::UnsupportedConcreteShape,
                "K-means feature width must be nonzero",
            ),
        );
    }
    if clusters == 0 || clusters > KMEANS_MAXIMUM_CLUSTERS {
        return Err(
            kmeans_error(
                OperationErrorKind::UnsupportedConcreteShape,
                "K-means cluster count must be in 1..=i32::MAX",
            ),
        );
    }
    Ok(())
}

/// Workspace elements of one Lloyd step: three row-feature buffers, four
/// centroid-feature buffers, two row vectors, three cluster vectors and four
/// row-by-cluster buffers.
pub open spec fn lloyd_workspace_elements(rows: int, dimensions: int, clusters: int) -> int {
    3 * (rows * dimensions) + 4 * (clusters * dimensions) + 2 * rows + 3 * clusters + 4 * (rows
        * clusters)
}

fn overflow() -> (error: OperationError)
    ensures
        error.kind == OperationErrorKind::WorkspaceArithmeticOverflow,
{
    kmeans_error(OperationErrorKind::WorkspaceArithmeticOverflow, "K-means workspace overflows u64")
}

/// Exact resources of one Lloyd step.
#[verifier::rlimit(40)]
pub fn kmeans_lloyd_requirements(rows: u64, dimensions: u64, clusters: u64) -> (requirements:
    OperationResult<KMeansRequirements>)
    ensures
        !kmeans_dimensions_valid(rows, dimensions, clusters) ==> (requirements matches Err(error)
            && error.kind == OperationErrorKind::UnsupportedConcreteShape),
        kmeans_dimensions_valid(rows, dimensions, clusters) && 4 * lloyd_workspace_elements(
            rows as int,
            dimensions as int,
            clusters as int,
        ) > u64::MAX ==> (requirements matches Err(error) && error.kind
            == OperationErrorKind::WorkspaceArithmeticOverflow),
        kmeans_dimensions_valid(rows, dimensions, clusters) && 4 * lloyd_workspace_elements(
            rows as int,
            dimensions as int,
            clusters as int,
        ) <= u64::MAX ==> requirements == Ok::<KMeansRequirements, OperationError>(
            KMeansRequirements {
                intermediate_values: KMEANS_LLOYD_INTERMEDIATES,
                kernels: KMEANS_LLOYD_KERNELS,
                workspace_bytes: ByteCount(
                    (4 * lloyd_workspace_elements(rows as int, dimensions as int, clusters as int)) as u64,
                ),
            },
        ),
{
    validate_dimensions(rows, dimensions, clusters)?;
    let ghost total = lloyd_workspace_elements(rows as int, dimensions as int, clusters as int);
    let ghost rd = rows * dimensions;
    let ghost cd = clusters * dimensions;
    let ghost rc = rows * clusters;
    assert(rd >= rows && cd >= clusters && rc >= rows && rd >= 0 && cd >= 0 && rc >= 0) by (nonlinear_arith)
        requires
            rows >= 1,
            dimensions >= 1,
            clusters >= 1,
            rd == rows * dimensions,
            cd == clusters * dimensions,
            rc == rows * clusters,
    ;
    let row_features = match rows.checked_mul(dimensions) {
        Some(v) => v,
        None => {
            return Err(overflow());
        },
    };
    let centroid_features = match clusters.checked_mul(dimensions) {
        Some(v) => v,
        None => {
            return Err(overflow());
        },
    };
    let assignments = match rows.checked_mul(clusters) {
        Some(v) => v,
        None => {
            return Err(overflow());
        },
    };
    let row_feature_workspace = match 3u64.checked_mul(row_features) {
        Some(v) => v,
        None => {
            return Err(overflow());
        },
    };
    let centroid_feature_workspace = match 4u64.checked_mul(centroid_features) {
        Some(v) => v,
        None => {
            return Err(overflow());
        },
    };
    let row_workspace = match 2u64.checked_mul(rows) {
        Some(v) => v,
        None => {
            return Err(overflow());
        },
    };
    let cluster_workspace = match 3u64.checked_mul(clusters) {
        Some(v) => v,
        None => {
            return Err(overflow());
        },
    };
    let assignment_workspace = match 4u64.checked_mul(assignments) {
        Some(v) => v,
        None => {
            return Err(overflow());
        },
    };
    let elements = match row_feature_workspace.checked_add(centroid_feature_workspace) {
        Some(v) => match v.checked_add(row_workspace) {
            Some(v) => match v.checked_add(cluster_workspace) {
                Some(v) => match v.checked_add(assignment_workspace) {
                    Some(v) => v,
                    None => {
                        return Err(overflow());
                    },
                },
                None => {
                    return Err(overflow());
                },
            },
            None => {
                return Err(overflow());
            },
        },
        None => {
            return Err(overflow());
        },
    };
    let bytes = match elements.checked_mul(4) {
        Some(v) => v,
        None => {
            return Err(overflow());
        },
    };
    Ok(
        KMeansRequirements {
            intermediate_values: KMEANS_LLOYD_INTERMEDIATES,
            kernels: KMEANS_LLOYD_KERNELS,
            workspace_bytes: ByteCount::new(bytes),
        },
    )
}

/// Check that a namespace and a workspace limit cover a K-means
/// reservation.
pub fn validate_resources(
    namespace: IdentityNamespace,
    workspace_limit: ByteCount,
    requirements: KMeansRequirements,
) -> (result: OperationResult<()>)
    ensures
        result is Ok <==> (requirements.intermediate_values <= namespace.value_capacity
            && requirements.kernels <= namespace.kernel_capacity && requirements.workspace_bytes.0
            <= workspace_limit.0),
        result matches Err(error) ==> error.kind == (if requirements.intermediate_values
            > namespace.value_capacity || requirements.kernels > namespace.kernel_capacity {
            OperationErrorKind::IdentityNamespaceExhausted
        } else {
            OperationErrorKind::WorkspaceLimitExceeded
        }),
{
    if requirements.intermediate_values > namespace.value_capacity() {
        return Err(
            kmeans_error(
                OperationErrorKind::IdentityNamespaceExhausted,
                "K-means needs more intermediate identities than the namespace reserves",
            ),
        );
    }
    if requirements.kernels > namespace.kernel_capacity() {
        return Err(
            kmeans_error(
                OperationErrorKind::IdentityNamespaceExhausted,
                "K-means needs more kernel identities than the namespace reserves",
            ),
        );
    }
    if requirements.workspace_bytes.get() > workspace_limit.get() {
        return Err(
            kmeans_error(
                OperationErrorKind::WorkspaceLimitExceeded,
                "K-means needs more workspace bytes than the limit",
            ),
        );
    }
    Ok(())
}

/// Deterministic first-state construction for a K-means block: centroid
/// `c` starts from training row `c mod rows`.
#[derive(Clone, Debug)]
pub struct KMeansInitializationRequest {
    pub points: TensorDecl,
    pub centroids: TensorDecl,
    pub identity_namespace: IdentityNamespace,
    pub workspace_limit: ByteCount,
}

/// One deterministic Lloyd state transition.
#[derive(Clone, Debug)]
pub struct KMeansLloydRequest {
    pub points: TensorDecl,
    pub prior_centroids: TensorDecl,
    pub updated_centroids: TensorDecl,
    pub distances: TensorDecl,
    pub tree_lanes: u32,
    pub identity_namespace: IdentityNamespace,
    pub workspace_limit: ByteCount,
}

/// A rank-two binary32 matrix.
pub open spec fn f32_matrix(tensor: TensorDecl) -> bool {
    tensor.dtype == DType::F32 && tensor.extents@.len() == 2
}

/// Why the resources do not fit the namespace and workspace limit.
pub open spec fn resources_verdict(
    namespace: IdentityNamespace,
    workspace_limit: ByteCount,
    requirements: KMeansRequirements,
) -> Option<OperationErrorKind> {
    if requirements.intermediate_values > namespace.value_capacity || requirements.kernels
        > namespace.kernel_capacity {
        Some(OperationErrorKind::IdentityNamespaceExhausted)
    } else if requirements.workspace_bytes.0 > workspace_limit.0 {
        Some(OperationErrorKind::WorkspaceLimitExceeded)
    } else {
        None
    }
}

impl KMeansInitializationRequest {
    /// The resources the initialization graph reserves, or why the request
    /// is refused, in the order the checks run.
    pub open spec fn admission(&self) -> Result<KMeansRequirements, OperationErrorKind> {
        let points = self.points;
        let centroids = self.centroids;
        if !f32_matrix(points) || !f32_matrix(centroids) {
            Err(OperationErrorKind::InvalidMaterializationRequest)
        } else if centroids.extents@[1] != points.extents@[1] {
            Err(OperationErrorKind::UnsupportedConcreteShape)
        } else if !kmeans_dimensions_valid(points.extents@[0], points.extents@[1], centroids.extents@[0]) {
            Err(OperationErrorKind::UnsupportedConcreteShape)
        } else {
            let requirements = KMeansRequirements {
                intermediate_values: KMEANS_INITIALIZATION_INTERMEDIATES,
                kernels: KMEANS_INITIALIZATION_KERNELS,
                workspace_bytes: ByteCount((centroids.extents@[0] * 4) as u64),
            };
            if resources_verdict(self.identity_namespace, self.workspace_limit, requirements) is Some {
                Err(resources_verdict(self.identity_namespace, self.workspace_limit, requirements)->Some_0)
            } else if fragment_boundary_verdict(self.identity_namespace, seq![points, centroids]) is Some {
                Err(fragment_boundary_verdict(self.identity_namespace, seq![points, centroids])->Some_0)
            } else {
                Ok(requirements)
            }
        }
    }
}

/// Check an initialization request and its reservation before the graph is
/// emitted.
pub fn reserve_kmeans_initialization(request: &KMeansInitializationRequest) -> (result: OperationResult<
    KMeansRequirements,
>)
    ensures
        match request.admission() {
            Ok(requirements) => result == Ok::<KMeansRequirements, OperationError>(requirements),
            Err(kind) => result matches Err(error) && error.kind == kind,
        },
{
    validate_f32_matrix(&request.points)?;
    validate_f32_matrix(&request.centroids)?;
    let rows = request.points.extents[0];
    let dimensions = request.points.extents[1];
    let clusters = request.centroids.extents[0];
    if request.centroids.extents[1] != dimensions {
        return Err(
            kmeans_error(
                OperationErrorKind::UnsupportedConcreteShape,
                "K-means centroid width differs from point width",
            ),
        );
    }
    validate_dimensions(rows, dimensions, clusters)?;
    let requirements = kmeans_initialization_requirements(clusters)?;
    validate_resources(request.identity_namespace, request.workspace_limit, requirements)?;
    let boundary = vec![&request.points, &request.centroids];
    assert(boundary@.map_values(|tensor: &TensorDecl| *tensor) =~= seq![request.points, request.centroids]);
    check_fragment_boundary(request.identity_namespace, &boundary)?;
    Ok(requirements)
}

impl KMeansLloydRequest {
    /// The boundary tensors, inputs first.
    pub open spec fn boundary_tensors(&self) -> Seq<TensorDecl> {
        seq![self.points, self.prior_centroids, self.updated_centroids, self.distances]
    }

    /// The outputs are distinct from every input and from each other.
    pub open spec fn outputs_distinct(&self) -> bool {
        &&& self.updated_centroids.id != self.points.id
        &&& self.updated_centroids.id != self.prior_centroids.id
        &&& self.updated_centroids.id != self.distances.id
        &&& self.distances.id != self.points.id
        &&& self.distances.id != self.prior_centroids.id
    }

    /// The resources one Lloyd step reserves, or why the request is
    /// refused, in the order the checks run.
    pub open spec fn admission(&self) -> Result<KMeansRequirements, OperationErrorKind> {
        let rows = self.points.extents@[0];
        let dimensions = self.points.extents@[1];
        let clusters = self.prior_centroids.extents@[0];
        if !f32_matrix(self.points) || !f32_matrix(self.prior_centroids) || !f32_matrix(
            self.updated_centroids,
        ) || !f32_matrix(self.distances) {
            Err(OperationErrorKind::InvalidMaterializationRequest)
        } else if !kmeans_dimensions_valid(rows, dimensions, clusters) {
            Err(OperationErrorKind::UnsupportedConcreteShape)
        } else if self.prior_centroids.extents@[1] != dimensions || self.updated_centroids.extents@
            != seq![clusters, dimensions] || self.distances.extents@ != seq![rows, clusters] {
            Err(OperationErrorKind::UnsupportedConcreteShape)
        } else if !tree_lanes_valid(self.tree_lanes as u64) {
            Err(OperationErrorKind::InvalidMaterializationRequest)
        } else if !self.outputs_distinct() {
            Err(OperationErrorKind::InvalidMaterializationRequest)
        } else if 4 * lloyd_workspace_elements(rows as int, dimensions as int, clusters as int) > u64::MAX {
            Err(OperationErrorKind::WorkspaceArithmeticOverflow)
        } else {
            let requirements = KMeansRequirements {
                intermediate_values: KMEANS_LLOYD_INTERMEDIATES,
                kernels: KMEANS_LLOYD_KERNELS,
                workspace_bytes: ByteCount(
                    (4 * lloyd_workspace_elements(rows as int, dimensions as int, clusters as int)) as u64,
                ),
            };
            if resources_verdict(self.identity_namespace, self.workspace_limit, requirements) is Some {
                Err(resources_verdict(self.identity_namespace, self.workspace_limit, requirements)->Some_0)
            } else if fragment_boundary_verdict(self.identity_namespace, self.boundary_tensors()) is Some {
                Err(fragment_boundary_verdict(self.identity_namespace, self.boundary_tensors())->Some_0)
            } else {
                Ok(requirements)
            }
        }
    }
}

fn matrix_shape(tensor: &TensorDecl, rows: u64, columns: u64) -> (same: bool)
    ensures
        same == (tensor.extents@ == seq![rows, columns]),
{
    let same = tensor.extents.len() == 2 && tensor.extents[0] == rows && tensor.extents[1] == columns;
    proof {
        if same {
            assert(tensor.extents@ =~= seq![rows, columns]);
        } else if tensor.extents@.len() == 2 {
            assert(tensor.extents@[0] != rows || tensor.extents@[1] != columns);
        }
    }
    same
}

/// Check a Lloyd-step request and its reservation before the graph is
/// emitted.
pub fn reserve_kmeans_lloyd_step(request: &KMeansLloydRequest) -> (result: OperationResult<KMeansRequirements>)
    ensures
        match request.admission() {
            Ok(requirements) => result == Ok::<KMeansRequirements, OperationError>(requirements),
            Err(kind) => result matches Err(error) && error.kind == kind,
        },
{
    validate_f32_matrix(&request.points)?;
    validate_f32_matrix(&request.prior_centroids)?;
    validate_f32_matrix(&request.updated_centroids)?;
    validate_f32_matrix(&request.distances)?;
    let rows = request.points.extents[0];
    let dimensions = request.points.extents[1];
    let clusters = request.prior_centroids.extents[0];
    validate_dimensions(rows, dimensions, clusters)?;
    if request.prior_centroids.extents[1] != dimensions || !matrix_shape(
        &request.updated_centroids,
        clusters,
        dimensions,
    ) {
        return Err(
            kmeans_error(
                OperationErrorKind::UnsupportedConcreteShape,
                "K-means prior and updated centroids must both be [clusters, point dimensions]",
            ),
        );
    }
    if !matrix_shape(&request.distances, rows, clusters) {
        return Err(
            kmeans_error(
                OperationErrorKind::UnsupportedConcreteShape,
                "K-means distances must be [rows, clusters]",
            ),
        );
    }
    if !valid_tree_lanes(request.tree_lanes as u64) {
        return Err(
            kmeans_error(
                OperationErrorKind::InvalidMaterializationRequest,
                "K-means tree lanes must be a power of two in 1..=1024",
            ),
        );
    }
    let updated = request.updated_centroids.id.0;
    let distances = request.distances.id.0;
    if updated == request.points.id.0 || updated == request.prior_centroids.id.0 || updated == distances
        || distances == request.points.id.0 || distances == request.prior_centroids.id.0 {
        return Err(
            kmeans_error(
                OperationErrorKind::InvalidMaterializationRequest,
                "K-means output tensor identities must be distinct from every input and each other",
            ),
        );
    }
    let requirements = kmeans_lloyd_requirements(rows, dimensions, clusters)?;
    validate_resources(request.identity_namespace, request.workspace_limit, requirements)?;
    let boundary = vec![
        &request.points,
        &request.prior_centroids,
        &request.updated_centroids,
        &request.distances,
    ];
    assert(boundary@.map_values(|tensor: &TensorDecl| *tensor) =~= request.boundary_tensors());
    check_fragment_boundary(request.identity_namespace, &boundary)?;
    Ok(requirements)
}

/// The initialization graph: an index map that counts centroids modulo the
/// row count, then a checked gather of those training rows.
pub open spec fn initialization_plan(request: KMeansInitializationRequest, v: Seq<ValueId>) -> Seq<NodeModel> {
    let rows = request.points.extents@[0];
    seq![
        index_map_node(
            v[0],
            IndexMapSpec { start: 0, element_step: 1, iteration_step: 0, modulus: Some(rows as i32) },
        ),
        gather_node(
            request.points.id,
            v[0],
            request.centroids.id,
            GatherSpec { axis: 0, rejects_out_of_bounds: true },
        ),
    ]
}

/// The emitted K-means initialization fragment.
#[derive(Debug)]
pub struct KMeansInitializationMaterialization {
    pub boundary_tensors: Vec<TensorDecl>,
    pub intermediate_tensors: Vec<TensorDecl>,
    pub nodes: Vec<CalculationNode>,
    pub intermediate_values: Vec<ValueId>,
    pub kernels: Vec<KernelTemplateId>,
    pub workspace_bytes: ByteCount,
    pub identity_namespace: IdentityNamespace,
}

/// The initialization graph's boundary: the points read, the centroids
/// written.
pub open spec fn initialization_boundary(request: KMeansInitializationRequest) -> Seq<TensorModel> {
    seq![flagged(request.points, true, false), flagged(request.centroids, false, true)]
}

/// The initialization graph's one intermediate: the `I32` row index of each
/// centroid, of extents `[clusters]`.
pub open spec fn initialization_intermediates(
    request: KMeansInitializationRequest,
    values: Seq<ValueId>,
) -> Seq<TensorModel> {
    let clusters = request.centroids.extents@[0];
    seq![
        TensorModel {
            id: values[0],
            dtype: DType::I32,
            extents: seq![clusters],
            storage_bytes: ByteCount((clusters * 4) as u64),
            external_input: false,
            external_output: false,
        },
    ]
}

/// `materialization` is the initialization graph of `request` under the
/// reservation `requirements`.
pub open spec fn initialization_materialized(
    request: KMeansInitializationRequest,
    requirements: KMeansRequirements,
    materialization: KMeansInitializationMaterialization,
) -> bool {
    let namespace = request.identity_namespace;
    let values = namespace_values(namespace, 1);
    let kernels = namespace_kernels(namespace, 2);
    let plan = initialization_plan(request, values);
    &&& tensor_models(materialization.boundary_tensors@) == initialization_boundary(request)
    &&& tensor_models(materialization.intermediate_tensors@) == initialization_intermediates(request, values)
    &&& materialization.intermediate_values@ == values
    &&& materialization.kernels@ == kernels
    &&& node_models(materialization.nodes@) == plan
    &&& node_alias_rules(materialization.nodes@) == all_forbidden(plan)
    &&& forall|j: int| 0 <= j < 2 ==> (#[trigger] materialization.nodes@[j]).kernel == kernels[j]
    &&& materialization.workspace_bytes == requirements.workspace_bytes
    &&& materialization.identity_namespace == namespace
}

/// Emit the initialization graph: centroid `c` starts from training row
/// `c mod rows`.
pub fn materialize_kmeans_initialization(request: &KMeansInitializationRequest) -> (result: OperationResult<
    KMeansInitializationMaterialization,
>)
    ensures
        match request.admission() {
            Ok(requirements) => result matches Ok(materialization) && initialization_materialized(
                *request,
                requirements,
                materialization,
            ),
            Err(kind) => result matches Err(error) && error.kind == kind,
        },
{
    let requirements = reserve_kmeans_initialization(request)?;
    let namespace = request.identity_namespace;
    let rows = request.points.extents[0];
    let clusters = request.centroids.extents[0];
    let declared = two(request.points.id, request.centroids.id);
    proof {
        let tensors = seq![request.points, request.centroids];
        assert(fragment_boundary_verdict(namespace, tensors) is None);
        assert(!namespace.reserves_value(tensors[0].id.0 as int));
        assert(!namespace.reserves_value(tensors[1].id.0 as int));
        assert(!GraphLedger::declared_overlaps(namespace, declared@));
    }
    let ledger = GraphLedger::new(namespace, declared.as_slice(), request.workspace_limit)?;
    let mut builder = FragmentBuilder::new(ledger);
    let sizes = one(clusters * 4);
    proof {
        reveal_with_fuel(total_bytes, 2);
        assert(sizes@.drop_last() =~= Seq::<u64>::empty());
        assert(total_bytes(sizes@) == clusters * 4);
    }
    let values = builder.reserve_all(&sizes)?;
    let ghost v = values@;
    let kernels = two(
        index_map(
            values[0],
            IndexMapSpec { start: 0, element_step: 1, iteration_step: 0, modulus: Some(rows as i32) },
        ),
        gather(request.points.id, values[0], request.centroids.id, GatherSpec { axis: 0, rejects_out_of_bounds: true }),
    );
    let ghost plan = initialization_plan(*request, v);
    proof {
        assert(v =~= namespace_values(namespace, 1));
        assert(emission_models(kernels@) =~= plan);
    }
    let rules = forbidden_alias_lists(&kernels);
    proof {
        assert(rule_views(rules@) =~= all_forbidden(plan));
        assert(node_models(builder.nodes()) =~= Seq::<NodeModel>::empty());
        assert(node_alias_rules(builder.nodes()) =~= Seq::<Seq<AliasRule>>::empty());
    }
    builder.emit_all(kernels, rules)?;
    let (nodes, intermediate_values, kernel_ids, workspace_bytes) = builder.finish(
        KMEANS_INITIALIZATION_INTERMEDIATES,
        KMEANS_INITIALIZATION_KERNELS,
        requirements.workspace_bytes,
    )?;
    let mut points = copy_tensor(&request.points);
    points.external_input = true;
    points.external_output = false;
    let mut centroids = copy_tensor(&request.centroids);
    centroids.external_input = false;
    centroids.external_output = true;
    let boundary_tensors = vec![points, centroids];
    let intermediate_tensors = vec![
        TensorDecl {
            id: intermediate_values[0],
            dtype: DType::I32,
            extents: vec![clusters],
            storage_bytes: ByteCount::new(clusters * 4),
            external_input: false,
            external_output: false,
        },
    ];
    proof {
        assert(tensor_models(boundary_tensors@) =~= initialization_boundary(*request));
        assert(intermediate_values@ == namespace_values(namespace, 1));
        assert(intermediate_values@[0] == v[0]);
        assert(intermediate_tensors@[0].extents@ =~= seq![clusters]);
        assert(tensor_models(intermediate_tensors@) =~= initialization_intermediates(*request, v));
    }
    let materialization = KMeansInitializationMaterialization {
        boundary_tensors,
        intermediate_tensors,
        nodes,
        intermediate_values,
        kernels: kernel_ids,
        workspace_bytes,
        identity_namespace: namespace,
    };
    proof {
        assert(node_models(materialization.nodes@) =~= plan);
        assert(node_alias_rules(materialization.nodes@) =~= all_forbidden(plan));
        assert forall|j: int| 0 <= j < 2 implies (#[trigger] materialization.nodes@[j]).kernel
            == namespace_kernels(namespace, 2)[j] by {
            assert(materialization.nodes@[0 + j] == materialization.nodes@[j]);
        }
        assert(materialization.kernels@ =~= namespace_kernels(namespace, 2));
    }
    Ok(materialization)
}

/// Storage bytes of the Lloyd-step intermediates, in allocation order:
/// squared points and centroids, their norms, the row products and prior
/// distances, the assignments, the cluster indices, the memberships, the
/// one seeds and ones, the sums and counts, the squared updated centroids,
/// their norms and the updated row products.
pub open spec fn lloyd_sizes(rows: int, dimensions: int, clusters: int) -> Seq<u64> {
    let row_features = (4 * (rows * dimensions)) as u64;
    let centroid_features = (4 * (clusters * dimensions)) as u64;
    let row_vector = (4 * rows) as u64;
    let cluster_vector = (4 * clusters) as u64;
    let assignments = (4 * (rows * clusters)) as u64;
    seq![
        row_features,
        centroid_features,
        row_vector,
        cluster_vector,
        assignments,
        assignments,
        row_vector,
        cluster_vector,
        assignments,
        row_features,
        row_features,
        centroid_features,
        centroid_features,
        centroid_features,
        cluster_vector,
        assignments,
    ]
}

/// The Lloyd-step graph over intermediates `v`: squared norms, row
/// products and rooted distances to the prior centroids; the lowest-index
/// nearest centroid of each row; one-hot memberships; member sums and
/// counts; the centroid update, which keeps an empty centroid; and the
/// distances to the updated centroids.
pub open spec fn lloyd_plan(request: KMeansLloydRequest, v: Seq<ValueId>) -> Seq<NodeModel> {
    let points = request.points.id;
    let prior = request.prior_centroids.id;
    let updated = request.updated_centroids.id;
    let lanes = request.tree_lanes;
    seq![
        elementwise_node(seq![points], seq![v[0]]),
        elementwise_node(seq![prior], seq![v[1]]),
        sum_node(v[0], v[2], seq![1usize], true, lanes),
        sum_node(v[1], v[3], seq![1usize], false, lanes),
        contraction_node(seq![points, prior], v[4], (1usize, 1usize)),
        elementwise_node(seq![v[2], v[3], v[4]], seq![v[5]]),
        reduce_node(v[5], v[6], ReduceOperator::Minimum, ReduceResult::Index, seq![1usize], true, lanes),
        index_map_node(v[7], IndexMapSpec { start: 0, element_step: 1, iteration_step: 0, modulus: None }),
        elementwise_node(seq![v[6], v[7]], seq![v[8]]),
        index_map_node(v[9], IndexMapSpec { start: 0, element_step: 0, iteration_step: 0, modulus: None }),
        elementwise_node(seq![v[9]], seq![v[10]]),
        contraction_node(seq![v[8], points], v[11], (0usize, 0usize)),
        contraction_node(seq![v[8], v[10]], v[12], (0usize, 0usize)),
        elementwise_node(seq![v[11], v[12], prior], seq![updated]),
        elementwise_node(seq![updated], seq![v[13]]),
        sum_node(v[13], v[14], seq![1usize], false, lanes),
        contraction_node(seq![points, updated], v[15], (1usize, 1usize)),
        elementwise_node(seq![v[2], v[14], v[15]], seq![request.distances.id]),
    ]
}

/// Kernel `u` of `plan` writes the updated centroids from member sums,
/// member counts and the prior centroids, in that order. Kernel `s` writes
/// the sums by contracting the memberships with the points over the row
/// axis; kernel `c` writes the counts by contracting the same memberships
/// over the row axis with a tensor of ones, which kernel `o` writes
/// elementwise from the constant index map that kernel `z` writes from no
/// input.
pub open spec fn member_mean_kernels(
    plan: Seq<NodeModel>,
    request: KMeansLloydRequest,
    u: int,
    s: int,
    c: int,
    o: int,
    z: int,
) -> bool {
    &&& 0 <= u < plan.len() && 0 <= s < plan.len() && 0 <= c < plan.len() && 0 <= o < plan.len() && 0 <= z
        < plan.len()
    &&& plan[u].outputs == seq![request.updated_centroids.id]
    &&& plan[u].inputs.len() == 3
    &&& plan[u].inputs[2] == request.prior_centroids.id
    &&& plan[s].outputs == seq![plan[u].inputs[0]]
    &&& plan[c].outputs == seq![plan[u].inputs[1]]
    &&& plan[s].inputs.len() == 2
    &&& plan[c].inputs.len() == 2
    &&& plan[s].inputs[1] == request.points.id
    &&& plan[c].inputs[0] == plan[s].inputs[0]
    &&& plan[s].kind == KindModel::Contraction { batch_axes: Seq::empty(), contract_axes: seq![(0usize, 0usize)] }
    &&& plan[c].kind == KindModel::Contraction { batch_axes: Seq::empty(), contract_axes: seq![(0usize, 0usize)] }
    &&& plan[o].outputs == seq![plan[c].inputs[1]]
    &&& plan[o].kind is Elementwise
    &&& plan[o].inputs == seq![plan[z].outputs[0]]
    &&& plan[z].inputs.len() == 0
    &&& plan[z].outputs.len() == 1
    &&& plan[z].kind matches KindModel::IndexMap(spec) && spec.element_step == 0 && spec.iteration_step == 0
}

/// The Lloyd step divides each cluster's member sum by its member count:
/// the counts contract the memberships with a constant tensor of ones,
/// not with the points, while the sums contract the same memberships with
/// the points.
pub proof fn lemma_lloyd_counts_contract_ones(request: KMeansLloydRequest, v: Seq<ValueId>)
    ensures
        exists|u: int, s: int, c: int, o: int, z: int| #[trigger] member_mean_kernels(
            lloyd_plan(request, v),
            request,
            u,
            s,
            c,
            o,
            z,
        ),
{
    assert(member_mean_kernels(lloyd_plan(request, v), request, 13, 11, 12, 10, 9));
}

/// In every materialized Lloyd step the member counts contract the
/// memberships with a constant tensor of ones.
pub proof fn lemma_materialized_lloyd_counts(
    request: KMeansLloydRequest,
    requirements: KMeansRequirements,
    materialization: KMeansLloydMaterialization,
)
    requires
        lloyd_materialized(request, requirements, materialization),
    ensures
        exists|u: int, s: int, c: int, o: int, z: int| #[trigger] member_mean_kernels(
            node_models(materialization.nodes@),
            request,
            u,
            s,
            c,
            o,
            z,
        ),
{
    lemma_lloyd_counts_contract_ones(request, namespace_values(request.identity_namespace, KMEANS_LLOYD_INTERMEDIATES as nat));
}

/// Position of the centroid-update kernel in the Lloyd-step graph.
pub const LLOYD_CENTROID_UPDATE: usize = 13;

/// The centroid update writes in place of the prior centroids: neither the
/// sums nor the counts may alias the result, and the prior centroids must
/// alias it exactly.
pub open spec fn centroid_update_rules() -> Seq<AliasRule> {
    seq![
        AliasRule { input: 0, output: 0, permission: AliasPermission::Forbidden },
        AliasRule { input: 1, output: 0, permission: AliasPermission::Forbidden },
        AliasRule { input: 2, output: 0, permission: AliasPermission::MustAliasExact },
    ]
}

/// The aliasing rules of the Lloyd-step graph.
pub open spec fn lloyd_alias_rules(plan: Seq<NodeModel>) -> Seq<Seq<AliasRule>> {
    all_forbidden(plan).update(LLOYD_CENTROID_UPDATE as int, centroid_update_rules())
}

/// The emitted Lloyd-step fragment.
#[derive(Debug)]
pub struct KMeansLloydMaterialization {
    pub boundary_tensors: Vec<TensorDecl>,
    pub intermediate_tensors: Vec<TensorDecl>,
    pub nodes: Vec<CalculationNode>,
    pub intermediate_values: Vec<ValueId>,
    pub kernels: Vec<KernelTemplateId>,
    pub centroid_update_kernel: KernelTemplateId,
    pub workspace_bytes: ByteCount,
    pub identity_namespace: IdentityNamespace,
}

/// The Lloyd-step graph's boundary: points and prior centroids read, the
/// updated centroids and distances written.
pub open spec fn lloyd_boundary(request: KMeansLloydRequest) -> Seq<TensorModel> {
    seq![
        flagged(request.points, true, false),
        flagged(request.prior_centroids, true, false),
        flagged(request.updated_centroids, false, true),
        flagged(request.distances, false, true),
    ]
}

/// An internal tensor of a graph: neither read nor written by its caller.
pub open spec fn internal(id: ValueId, dtype: DType, extents: Seq<u64>, bytes: u64) -> TensorModel {
    TensorModel {
        id,
        dtype,
        extents,
        storage_bytes: ByteCount(bytes),
        external_input: false,
        external_output: false,
    }
}

/// The Lloyd-step intermediates, in allocation order, with their element
/// types and extents.
pub open spec fn lloyd_intermediates(
    values: Seq<ValueId>,
    rows: u64,
    dimensions: u64,
    clusters: u64,
) -> Seq<TensorModel> {
    let sizes = lloyd_sizes(rows as int, dimensions as int, clusters as int);
    let f = DType::F32;
    let i = DType::I32;
    seq![
        internal(values[0], f, seq![rows, dimensions], sizes[0]),
        internal(values[1], f, seq![clusters, dimensions], sizes[1]),
        internal(values[2], f, seq![rows, 1], sizes[2]),
        internal(values[3], f, seq![clusters], sizes[3]),
        internal(values[4], f, seq![rows, clusters], sizes[4]),
        internal(values[5], f, seq![rows, clusters], sizes[5]),
        internal(values[6], i, seq![rows, 1], sizes[6]),
        internal(values[7], i, seq![clusters], sizes[7]),
        internal(values[8], f, seq![rows, clusters], sizes[8]),
        internal(values[9], i, seq![rows, dimensions], sizes[9]),
        internal(values[10], f, seq![rows, dimensions], sizes[10]),
        internal(values[11], f, seq![clusters, dimensions], sizes[11]),
        internal(values[12], f, seq![clusters, dimensions], sizes[12]),
        internal(values[13], f, seq![clusters, dimensions], sizes[13]),
        internal(values[14], f, seq![clusters], sizes[14]),
        internal(values[15], f, seq![rows, clusters], sizes[15]),
    ]
}

fn internal_tensor(id: ValueId, dtype: DType, extents: Vec<u64>, bytes: u64) -> (tensor: TensorDecl)
    ensures
        tensor_model(tensor) == internal(id, dtype, extents@, bytes),
{
    TensorDecl {
        id,
        dtype,
        extents,
        storage_bytes: ByteCount::new(bytes),
        external_input: false,
        external_output: false,
    }
}

fn extents_of_two(first: u64, second: u64) -> (extents: Vec<u64>)
    ensures
        extents@ == seq![first, second],
{
    let extents = vec![first, second];
    assert(extents@ =~= seq![first, second]);
    extents
}

fn extents_of_one(only: u64) -> (extents: Vec<u64>)
    ensures
        extents@ == seq![only],
{
    let extents = vec![only];
    assert(extents@ =~= seq![only]);
    extents
}

fn lloyd_intermediate_tensors(
    v: &Vec<ValueId>,
    sizes: &Vec<u64>,
    rows: u64,
    dimensions: u64,
    clusters: u64,
) -> (tensors: Vec<TensorDecl>)
    requires
        v@.len() == 16,
        sizes@ == lloyd_sizes(rows as int, dimensions as int, clusters as int),
    ensures
        tensor_models(tensors@) == lloyd_intermediates(v@, rows, dimensions, clusters),
{
    let f = DType::F32;
    let i = DType::I32;
    let tensors = vec![
        internal_tensor(v[0], f, extents_of_two(rows, dimensions), sizes[0]),
        internal_tensor(v[1], f, extents_of_two(clusters, dimensions), sizes[1]),
        internal_tensor(v[2], f, extents_of_two(rows, 1), sizes[2]),
        internal_tensor(v[3], f, extents_of_one(clusters), sizes[3]),
        internal_tensor(v[4], f, extents_of_two(rows, clusters), sizes[4]),
        internal_tensor(v[5], f, extents_of_two(rows, clusters), sizes[5]),
        internal_tensor(v[6], i, extents_of_two(rows, 1), sizes[6]),
        internal_tensor(v[7], i, extents_of_one(clusters), sizes[7]),
        internal_tensor(v[8], f, extents_of_two(rows, clusters), sizes[8]),
        internal_tensor(v[9], i, extents_of_two(rows, dimensions), sizes[9]),
        internal_tensor(v[10], f, extents_of_two(rows, dimensions), sizes[10]),
        internal_tensor(v[11], f, extents_of_two(clusters, dimensions), sizes[11]),
        internal_tensor(v[12], f, extents_of_two(clusters, dimensions), sizes[12]),
        internal_tensor(v[13], f, extents_of_two(clusters, dimensions), sizes[13]),
        internal_tensor(v[14], f, extents_of_one(clusters), sizes[14]),
        internal_tensor(v[15], f, extents_of_two(rows, clusters), sizes[15]),
    ];
    assert(tensor_models(tensors@) =~= lloyd_intermediates(v@, rows, dimensions, clusters));
    tensors
}

fn lloyd_boundary_tensors(request: &KMeansLloydRequest) -> (tensors: Vec<TensorDecl>)
    ensures
        tensor_models(tensors@) == lloyd_boundary(*request),
{
    let mut points = copy_tensor(&request.points);
    points.external_input = true;
    points.external_output = false;
    let mut prior = copy_tensor(&request.prior_centroids);
    prior.external_input = true;
    prior.external_output = false;
    let mut updated = copy_tensor(&request.updated_centroids);
    updated.external_input = false;
    updated.external_output = true;
    let mut distances = copy_tensor(&request.distances);
    distances.external_input = false;
    distances.external_output = true;
    let tensors = vec![points, prior, updated, distances];
    assert(tensor_models(tensors@) =~= lloyd_boundary(*request));
    tensors
}

/// `materialization` is the Lloyd-step graph of `request` under the
/// reservation `requirements`.
pub open spec fn lloyd_materialized(
    request: KMeansLloydRequest,
    requirements: KMeansRequirements,
    materialization: KMeansLloydMaterialization,
) -> bool {
    let namespace = request.identity_namespace;
    let values = namespace_values(namespace, KMEANS_LLOYD_INTERMEDIATES as nat);
    let kernels = namespace_kernels(namespace, KMEANS_LLOYD_KERNELS as nat);
    let plan = lloyd_plan(request, values);
    &&& tensor_models(materialization.boundary_tensors@) == lloyd_boundary(request)
    &&& tensor_models(materialization.intermediate_tensors@) == lloyd_intermediates(
        values,
        request.points.extents@[0],
        request.points.extents@[1],
        request.prior_centroids.extents@[0],
    )
    &&& materialization.intermediate_values@ == values
    &&& materialization.kernels@ == kernels
    &&& node_models(materialization.nodes@) == plan
    &&& node_alias_rules(materialization.nodes@) == lloyd_alias_rules(plan)
    &&& forall|j: int|
        0 <= j < KMEANS_LLOYD_KERNELS ==> (#[trigger] materialization.nodes@[j]).kernel == kernels[j]
    &&& materialization.centroid_update_kernel == kernels[LLOYD_CENTROID_UPDATE as int]
    &&& materialization.workspace_bytes == requirements.workspace_bytes
    &&& materialization.identity_namespace == namespace
}

/// The Lloyd-step intermediates take exactly the workspace its formula
/// reserves.
pub proof fn lemma_lloyd_sizes_total(rows: int, dimensions: int, clusters: int)
    requires
        rows >= 0,
        dimensions >= 0,
        clusters >= 0,
        4 * lloyd_workspace_elements(rows, dimensions, clusters) <= u64::MAX,
    ensures
        total_bytes(lloyd_sizes(rows, dimensions, clusters)) == 4 * lloyd_workspace_elements(
            rows,
            dimensions,
            clusters,
        ),
{
    let sizes = lloyd_sizes(rows, dimensions, clusters);
    assert(rows * dimensions >= 0 && clusters * dimensions >= 0 && rows * clusters >= 0) by (nonlinear_arith)
        requires
            rows >= 0,
            dimensions >= 0,
            clusters >= 0,
    ;
    assert(sizes.subrange(0, 0) =~= Seq::<u64>::empty());
    lemma_total_bytes_step(sizes, 0);
    lemma_total_bytes_step(sizes, 1);
    lemma_total_bytes_step(sizes, 2);
    lemma_total_bytes_step(sizes, 3);
    lemma_total_bytes_step(sizes, 4);
    lemma_total_bytes_step(sizes, 5);
    lemma_total_bytes_step(sizes, 6);
    lemma_total_bytes_step(sizes, 7);
    lemma_total_bytes_step(sizes, 8);
    lemma_total_bytes_step(sizes, 9);
    lemma_total_bytes_step(sizes, 10);
    lemma_total_bytes_step(sizes, 11);
    lemma_total_bytes_step(sizes, 12);
    lemma_total_bytes_step(sizes, 13);
    lemma_total_bytes_step(sizes, 14);
    lemma_total_bytes_step(sizes, 15);
    assert(sizes.subrange(0, 16) =~= sizes);
}

/// Emit one Lloyd step: assignment by rooted L2 distance with the
/// reduction tree's lowest-index tie rule, the mean of every nonempty
/// cluster, and the distances to the updated centroids.
#[verifier::rlimit(60)]
pub fn materialize_kmeans_lloyd_step(request: &KMeansLloydRequest) -> (result: OperationResult<
    KMeansLloydMaterialization,
>)
    ensures
        match request.admission() {
            Ok(requirements) => result matches Ok(materialization) && lloyd_materialized(
                *request,
                requirements,
                materialization,
            ),
            Err(kind) => result matches Err(error) && error.kind == kind,
        },
{
    let requirements = reserve_kmeans_lloyd_step(request)?;
    let namespace = request.identity_namespace;
    let rows = request.points.extents[0];
    let dimensions = request.points.extents[1];
    let clusters = request.prior_centroids.extents[0];
    let points = request.points.id;
    let prior = request.prior_centroids.id;
    let updated = request.updated_centroids.id;
    let distances = request.distances.id;
    let lanes = request.tree_lanes;
    let declared = four(points, prior, updated, distances);
    proof {
        let tensors = request.boundary_tensors();
        assert(fragment_boundary_verdict(namespace, tensors) is None);
        assert forall|i: int| 0 <= i < 4 implies !namespace.reserves_value(
            (#[trigger] declared@[i]).0 as int,
        ) by {
            assert(declared@[i] == tensors[i].id);
        }
        assert(!GraphLedger::declared_overlaps(namespace, declared@));
        assert(rows * dimensions >= 0 && clusters * dimensions >= 0 && rows * clusters >= 0) by (nonlinear_arith);
        lemma_lloyd_sizes_total(rows as int, dimensions as int, clusters as int);
    }
    let ledger = GraphLedger::new(namespace, declared.as_slice(), request.workspace_limit)?;
    let mut builder = FragmentBuilder::new(ledger);
    let row_features: u64 = 4 * (rows * dimensions);
    let centroid_features: u64 = 4 * (clusters * dimensions);
    let row_vector: u64 = 4 * rows;
    let cluster_vector: u64 = 4 * clusters;
    let assignments: u64 = 4 * (rows * clusters);
    let sizes = vec![
        row_features,
        centroid_features,
        row_vector,
        cluster_vector,
        assignments,
        assignments,
        row_vector,
        cluster_vector,
        assignments,
        row_features,
        row_features,
        centroid_features,
        centroid_features,
        centroid_features,
        cluster_vector,
        assignments,
    ];
    proof {
        assert(sizes@ =~= lloyd_sizes(rows as int, dimensions as int, clusters as int));
    }
    let v = builder.reserve_all(&sizes)?;
    let ghost values = v@;
    let no_modulus = IndexMapSpec { start: 0, element_step: 1, iteration_step: 0, modulus: None };
    let zeros = IndexMapSpec { start: 0, element_step: 0, iteration_step: 0, modulus: None };
    let kernels = vec![
        elementwise(one(points), one(v[0])),
        elementwise(one(prior), one(v[1])),
        sum(v[0], v[2], axis_list(1), true, lanes),
        sum(v[1], v[3], axis_list(1), false, lanes),
        contraction(points, prior, v[4], (1, 1)),
        elementwise(three(v[2], v[3], v[4]), one(v[5])),
        reduction(v[5], v[6], ReduceOperator::Minimum, ReduceResult::Index, axis_list(1), true, lanes),
        index_map(v[7], no_modulus),
        elementwise(two(v[6], v[7]), one(v[8])),
        index_map(v[9], zeros),
        elementwise(one(v[9]), one(v[10])),
        contraction(v[8], points, v[11], (0, 0)),
        contraction(v[8], v[10], v[12], (0, 0)),
        elementwise(three(v[11], v[12], prior), one(updated)),
        elementwise(one(updated), one(v[13])),
        sum(v[13], v[14], axis_list(1), false, lanes),
        contraction(points, updated, v[15], (1, 1)),
        elementwise(three(v[2], v[14], v[15]), one(distances)),
    ];
    let ghost plan = lloyd_plan(*request, values);
    proof {
        assert(values =~= namespace_values(namespace, KMEANS_LLOYD_INTERMEDIATES as nat));
        assert(emission_models(kernels@) =~= plan);
    }
    let mut rules = forbidden_alias_lists(&kernels);
    rules.set(
        LLOYD_CENTROID_UPDATE,
        three(
            AliasRule { input: 0, output: 0, permission: AliasPermission::Forbidden },
            AliasRule { input: 1, output: 0, permission: AliasPermission::Forbidden },
            AliasRule { input: 2, output: 0, permission: AliasPermission::MustAliasExact },
        ),
    );
    proof {
        assert(rule_views(rules@) =~= lloyd_alias_rules(plan));
        assert(node_models(builder.nodes()) =~= Seq::<NodeModel>::empty());
        assert(node_alias_rules(builder.nodes()) =~= Seq::<Seq<AliasRule>>::empty());
    }
    builder.emit_all(kernels, rules)?;
    let (nodes, intermediate_values, kernel_ids, workspace_bytes) = builder.finish(
        KMEANS_LLOYD_INTERMEDIATES,
        KMEANS_LLOYD_KERNELS,
        requirements.workspace_bytes,
    )?;
    let centroid_update_kernel = kernel_ids[LLOYD_CENTROID_UPDATE];
    let intermediate_tensors = lloyd_intermediate_tensors(&v, &sizes, rows, dimensions, clusters);
    let boundary_tensors = lloyd_boundary_tensors(request);
    let materialization = KMeansLloydMaterialization {
        boundary_tensors,
        intermediate_tensors,
        nodes,
        intermediate_values,
        kernels: kernel_ids,
        centroid_update_kernel,
        workspace_bytes,
        identity_namespace: namespace,
    };
    proof {
        let expected = namespace_kernels(namespace, KMEANS_LLOYD_KERNELS as nat);
        assert(node_models(materialization.nodes@) =~= plan);
        assert(node_alias_rules(materialization.nodes@) =~= lloyd_alias_rules(plan));
        assert forall|j: int| 0 <= j < KMEANS_LLOYD_KERNELS implies (#[trigger] materialization.nodes@[j]).kernel
            == expected[j] by {
            assert(materialization.nodes@[0 + j] == materialization.nodes@[j]);
        }
        assert(materialization.kernels@ =~= expected);
    }
    Ok(materialization)
}

} // verus!
