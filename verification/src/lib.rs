//! Canonical inventory and lowering boundary for Recipe's structured
//! operations: finite composition recipes, their static expansion, identity
//! and workspace reservations, and the exact resource formulas of the
//! graph-fragment builders.
use vstd::prelude::*;

pub mod binary_metrics;
pub mod boundary;
pub mod checked;
pub mod composition;
pub mod composition_table;
pub mod convolution;
pub mod error;
pub mod expansion;
pub mod fft;
pub mod fragment;
pub mod graph;
pub mod identity;
pub mod kmeans;
pub mod knn_outputs;
pub mod loss_metrics;
pub mod materialize;
pub mod names;
pub mod normalization;
pub mod optimizer;
pub mod parameters;
pub mod primitive;
pub mod registry;
pub mod request;
pub mod staging;
pub mod text;
pub mod training;
pub mod tree_split;
pub mod triangular;
pub mod types;

pub use binary_metrics::{
    BinaryClassificationMetricRequest, BinaryMetricMaterialization, BinaryMetricRequirements, MAX_CALIBRATION_BINS,
    MAX_EXACT_BINARY_EXAMPLES, MAX_RECALL_THRESHOLDS, RecallAtOutput, binary_metric_requirements,
    append_binary_classification_metrics, materialize_binary_classification_metrics,
    reserve_binary_classification_metrics,
};
pub use composition::{CompositionPayload, CompositionRecipe, CompositionStep, IterationBound};
pub use composition_table::composition_for_entry;
pub use convolution::{ChannelwiseConvolution1dPreparation, prepare_channelwise_convolution_1d};
pub use error::{OperationError, OperationErrorKind, OperationResult};
pub use expansion::{
    ResolvedBound, ResolvedComposition, ResolvedIteration, ResolvedStep, expand_composition,
};
pub use fragment::{GraphLedger, StageEmission, StageEmitter};
pub use graph::CalculationGraph;
pub use identity::{IdentityNamespace, validate_identity_namespaces};
pub use kmeans::{
    KMeansInitializationMaterialization, KMeansInitializationRequest, KMeansLloydMaterialization,
    KMeansLloydRequest, KMeansRequirements, kmeans_initialization_requirements, kmeans_lloyd_requirements,
    materialize_kmeans_initialization, materialize_kmeans_lloyd_step, reserve_kmeans_initialization,
    reserve_kmeans_lloyd_step,
};
pub use knn_outputs::{
    KnnAllOutputMaterialization, KnnAllOutputRequest, KnnAllOutputRequirements, KnnOutputRequest,
    KnnOutputRequirement, KnnOutputSpec, append_knn_all_outputs, knn_all_output_requirements,
    materialize_knn_all_outputs,
};
pub use materialize::{
    MaterializedComposition, WorkspaceAllocation, WorkspaceObject, materialize_composition,
};
pub use parameters::{PreparedParameter, PreparedParameters};
pub use primitive::{
    AxisRequirement, ContractionClass, PrimitiveKernel, PrimitiveKind, PrimitiveRecipe, RandomRecipe,
    check_index_map_lowering, check_primitive_lowering, check_primitive_recipe, primitive_recipe_of,
};
pub use registry::{
    LoweringAvailability, MissingConcreteComponent, OperationDescriptor, OperationRegistry,
    RemainingComposition, operation_registry, remaining_composition_manifest,
    remaining_composition_manifest_for, validate_composition,
};
pub use request::{MaterializationRequest, NamedTensor, TensorDecl};
pub use types::{
    ByteCount, CanonicalDTypeContract, DType, KernelTemplateId, OperationFamily, OperationId,
    PrimitiveFamily, ValueId,
};

