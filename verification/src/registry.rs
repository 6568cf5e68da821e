//! Source-qualified operation descriptors, the families that own a concrete
//! graph materializer, and the manifest of recipes that still fail closed.
use vstd::prelude::*;

use crate::composition::CompositionRecipe;
use crate::composition_table::{composition_for_entry, entry_summary, recipe_summary};
use crate::error::{OperationError, OperationErrorKind, OperationResult};
use crate::primitive::PrimitiveRecipe;
use crate::text::text_eq;
use crate::types::OperationId;

verus! {

/// How an operation is lowered.
#[derive(Debug, PartialEq, Eq)]
pub enum LoweringAvailability {
    Scalar,
    Primitive(PrimitiveRecipe),
    Composition(CompositionRecipe),
    Workspace,
    NonCalculation,
    Unsupported,
}

/// One source-qualified row of the public operation surface.
#[derive(Debug, PartialEq, Eq)]
pub struct OperationDescriptor {
    pub id: OperationId,
    pub symbol: &'static str,
    pub source: &'static str,
    pub lowering: LoweringAvailability,
}

/// The ordered descriptors of an operation surface.
#[derive(Debug)]
pub struct OperationRegistry {
    pub descriptors: Vec<OperationDescriptor>,
}

/// Concrete information still absent for a structured surface operation.
#[derive(Clone, Copy, Debug, PartialEq, Eq, Structural)]
pub enum MissingConcreteComponent {
    TensorAbi,
    ScalarFormula,
    PrimitiveParameters,
    WorkspacePolicy,
}

/// Every component a descriptive recipe still lacks.
pub open spec fn all_missing_components() -> [MissingConcreteComponent; 4] {
    [
        MissingConcreteComponent::TensorAbi,
        MissingConcreteComponent::ScalarFormula,
        MissingConcreteComponent::PrimitiveParameters,
        MissingConcreteComponent::WorkspacePolicy,
    ]
}

/// Exact source-qualified manifest row for a composition that still fails
/// closed at materialization.
#[derive(Clone, Copy, Debug, PartialEq, Eq)]
pub struct RemainingComposition {
    pub operation: OperationId,
    pub symbol: &'static str,
    pub source: &'static str,
    pub recipe: &'static str,
    pub missing: [MissingConcreteComponent; 4],
}

impl RemainingComposition {
    #[must_use]
    pub fn operation(self) -> (operation: OperationId)
        ensures
            operation == self.operation,
    {
        self.operation
    }

    #[must_use]
    pub fn symbol(self) -> (symbol: &'static str)
        ensures
            symbol == self.symbol,
    {
        self.symbol
    }

    #[must_use]
    pub fn source(self) -> (source: &'static str)
        ensures
            source == self.source,
    {
        self.source
    }

    #[must_use]
    pub fn recipe(self) -> (recipe: &'static str)
        ensures
            recipe == self.recipe,
    {
        self.recipe
    }

    #[must_use]
    pub fn missing(self) -> (missing: [MissingConcreteComponent; 4])
        ensures
            missing == self.missing,
    {
        self.missing
    }
}

/// Source-qualified rows owned by the loss and metric materializers.
pub open spec fn loss_metric_rows() -> Seq<(Seq<char>, Seq<char>)> {
    seq![
        ("gpu_accuracy"@, "gpu-core/src/kernels.rs:4472"@),
        ("gpu_accuracy_into"@, "gpu-core/src/kernels.rs:2914"@),
        ("gpu_argmax_accuracy_into"@, "gpu-core/src/kernels.rs:2963"@),
        ("gpu_contrastive_loss"@, "gpu-core/src/losses.rs:328"@),
        ("gpu_cosine_embedding_loss"@, "gpu-core/src/losses.rs:270"@),
        ("gpu_has_nan"@, "gpu-core/src/math_ops.rs:456"@),
        ("gpu_hinge_loss"@, "gpu-core/src/losses.rs:246"@),
        ("gpu_isfinite_all"@, "gpu-core/src/math_ops.rs:476"@),
        ("gpu_kl_div_loss"@, "gpu-core/src/losses.rs:225"@),
        ("gpu_mean_all"@, "gpu-core/src/reductions.rs:275"@),
        ("gpu_mse_into"@, "gpu-core/src/kernels.rs:2888"@),
        ("gpu_reduce_mean_cols"@, "gpu-core/src/kernels.rs:5176"@),
        ("gpu_reduce_var_cols"@, "gpu-core/src/kernels.rs:5209"@),
        ("gpu_ss_res_into"@, "gpu-core/src/kernels.rs:2862"@),
        ("gpu_triplet_loss"@, "gpu-core/src/losses.rs:299"@),
    ]
}

/// Source-qualified rows owned by the training materializers.
pub open spec fn training_rows() -> Seq<(Seq<char>, Seq<char>)> {
    seq![
        ("gpu_bce_with_logits"@, "gpu-core/src/losses.rs:145"@),
        ("gpu_linear_backward_full_into"@, "gpu-core/src/kernels.rs:3434"@),
        ("gpu_linear_backward_weights_only_into"@, "gpu-core/src/kernels.rs:3400"@),
        ("gpu_linear_f32"@, "gpu-core/src/nn_f32.rs:200"@),
        ("gpu_linear_into"@, "gpu-core/src/kernels.rs:2796"@),
        ("gpu_matvec_bias_into"@, "gpu-core/src/kernels.rs:3084"@),
    ]
}

/// Source-qualified rows owned by the tree and boosting materializers.
pub open spec fn tree_boosting_rows() -> Seq<(Seq<char>, Seq<char>)> {
    seq![
        ("gpu_argmax_write_split"@, "gpu-core/src/kernels.rs:4155"@),
        ("gpu_bootstrap_sample"@, "gpu-core/src/forest.rs:58"@),
        ("gpu_feature_subset"@, "gpu-core/src/forest.rs:82"@),
        ("gpu_grad_hess_into"@, "gpu-core/src/kernels.rs:3703"@),
        ("gpu_histogram_build"@, "gpu-core/src/kernels.rs:6745"@),
        ("gpu_leaf_finalize"@, "gpu-core/src/kernels.rs:4372"@),
        ("gpu_leaf_reduce"@, "gpu-core/src/kernels.rs:4346"@),
        ("gpu_leaf_split_apply"@, "gpu-core/src/kernels.rs:7173"@),
        ("gpu_lgbm_best_split"@, "gpu-core/src/kernels.rs:7080"@),
        ("gpu_lgbm_hist_subtract"@, "gpu-core/src/kernels.rs:7053"@),
        ("gpu_lgbm_histogram"@, "gpu-core/src/kernels.rs:7018"@),
        ("gpu_lgbm_leaf_reduce"@, "gpu-core/src/kernels.rs:7119"@),
        ("gpu_oblivious_histogram"@, "gpu-core/src/kernels.rs:4205"@),
        ("gpu_oblivious_split_eval"@, "gpu-core/src/kernels.rs:4396"@),
        ("gpu_ordered_target_stats"@, "gpu-core/src/catboost.rs:100"@),
        ("gpu_random_threshold_split"@, "gpu-core/src/forest.rs:108"@),
        ("gpu_scatter_add_by_leaf"@, "gpu-core/src/kernels.rs:4323"@),
        ("gpu_scatter_add_by_leaf_col"@, "gpu-core/src/kernels.rs:4497"@),
        ("gpu_split_eval"@, "gpu-core/src/kernels.rs:6778"@),
        ("gpu_tb_histogram"@, "gpu-core/src/kernels.rs:3737"@),
        ("gpu_tb_leaf_sum"@, "gpu-core/src/kernels.rs:3830"@),
        ("gpu_tb_leaf_val"@, "gpu-core/src/kernels.rs:3856"@),
        ("gpu_tb_split_eval"@, "gpu-core/src/kernels.rs:3770"@),
        ("gpu_write_split"@, "gpu-core/src/kernels.rs:4182"@),
    ]
}

/// Some family owns a concrete materializer for the source-qualified row.
pub open spec fn has_concrete_materializer_spec(symbol: Seq<char>, source: Seq<char>) -> bool {
    ||| loss_metric_rows().contains((symbol, source))
    ||| training_rows().contains((symbol, source))
    ||| tree_boosting_rows().contains((symbol, source))
}

/// The character view of a list of literal row pairs.
pub open spec fn rows_view(rows: Seq<(&'static str, &'static str)>) -> Seq<(Seq<char>, Seq<char>)> {
    rows.map_values(|row: (&'static str, &'static str)| (row.0@, row.1@))
}

fn loss_metric_row_table() -> (rows: Vec<(&'static str, &'static str)>)
    ensures
        rows_view(rows@) == loss_metric_rows(),
{
    let rows = vec![
        ("gpu_accuracy", "gpu-core/src/kernels.rs:4472"),
        ("gpu_accuracy_into", "gpu-core/src/kernels.rs:2914"),
        ("gpu_argmax_accuracy_into", "gpu-core/src/kernels.rs:2963"),
        ("gpu_contrastive_loss", "gpu-core/src/losses.rs:328"),
        ("gpu_cosine_embedding_loss", "gpu-core/src/losses.rs:270"),
        ("gpu_has_nan", "gpu-core/src/math_ops.rs:456"),
        ("gpu_hinge_loss", "gpu-core/src/losses.rs:246"),
        ("gpu_isfinite_all", "gpu-core/src/math_ops.rs:476"),
        ("gpu_kl_div_loss", "gpu-core/src/losses.rs:225"),
        ("gpu_mean_all", "gpu-core/src/reductions.rs:275"),
        ("gpu_mse_into", "gpu-core/src/kernels.rs:2888"),
        ("gpu_reduce_mean_cols", "gpu-core/src/kernels.rs:5176"),
        ("gpu_reduce_var_cols", "gpu-core/src/kernels.rs:5209"),
        ("gpu_ss_res_into", "gpu-core/src/kernels.rs:2862"),
        ("gpu_triplet_loss", "gpu-core/src/losses.rs:299"),
    ];
    assert(rows_view(rows@) =~= loss_metric_rows());
    rows
}

fn training_row_table() -> (rows: Vec<(&'static str, &'static str)>)
    ensures
        rows_view(rows@) == training_rows(),
{
    let rows = vec![
        ("gpu_bce_with_logits", "gpu-core/src/losses.rs:145"),
        ("gpu_linear_backward_full_into", "gpu-core/src/kernels.rs:3434"),
        ("gpu_linear_backward_weights_only_into", "gpu-core/src/kernels.rs:3400"),
        ("gpu_linear_f32", "gpu-core/src/nn_f32.rs:200"),
        ("gpu_linear_into", "gpu-core/src/kernels.rs:2796"),
        ("gpu_matvec_bias_into", "gpu-core/src/kernels.rs:3084"),
    ];
    assert(rows_view(rows@) =~= training_rows());
    rows
}

fn tree_boosting_row_table() -> (rows: Vec<(&'static str, &'static str)>)
    ensures
        rows_view(rows@) == tree_boosting_rows(),
{
    let rows = vec![
        ("gpu_argmax_write_split", "gpu-core/src/kernels.rs:4155"),
        ("gpu_bootstrap_sample", "gpu-core/src/forest.rs:58"),
        ("gpu_feature_subset", "gpu-core/src/forest.rs:82"),
        ("gpu_grad_hess_into", "gpu-core/src/kernels.rs:3703"),
        ("gpu_histogram_build", "gpu-core/src/kernels.rs:6745"),
        ("gpu_leaf_finalize", "gpu-core/src/kernels.rs:4372"),
        ("gpu_leaf_reduce", "gpu-core/src/kernels.rs:4346"),
        ("gpu_leaf_split_apply", "gpu-core/src/kernels.rs:7173"),
        ("gpu_lgbm_best_split", "gpu-core/src/kernels.rs:7080"),
        ("gpu_lgbm_hist_subtract", "gpu-core/src/kernels.rs:7053"),
        ("gpu_lgbm_histogram", "gpu-core/src/kernels.rs:7018"),
        ("gpu_lgbm_leaf_reduce", "gpu-core/src/kernels.rs:7119"),
        ("gpu_oblivious_histogram", "gpu-core/src/kernels.rs:4205"),
        ("gpu_oblivious_split_eval", "gpu-core/src/kernels.rs:4396"),
        ("gpu_ordered_target_stats", "gpu-core/src/catboost.rs:100"),
        ("gpu_random_threshold_split", "gpu-core/src/forest.rs:108"),
        ("gpu_scatter_add_by_leaf", "gpu-core/src/kernels.rs:4323"),
        ("gpu_scatter_add_by_leaf_col", "gpu-core/src/kernels.rs:4497"),
        ("gpu_split_eval", "gpu-core/src/kernels.rs:6778"),
        ("gpu_tb_histogram", "gpu-core/src/kernels.rs:3737"),
        ("gpu_tb_leaf_sum", "gpu-core/src/kernels.rs:3830"),
        ("gpu_tb_leaf_val", "gpu-core/src/kernels.rs:3856"),
        ("gpu_tb_split_eval", "gpu-core/src/kernels.rs:3770"),
        ("gpu_write_split", "gpu-core/src/kernels.rs:4182"),
    ];
    assert(rows_view(rows@) =~= tree_boosting_rows());
    rows
}

/// Whether `rows` holds the source-qualified pair.
fn rows_contain(rows: &Vec<(&'static str, &'static str)>, symbol: &str, source: &str) -> (found: bool)
    ensures
        found == rows_view(rows@).contains((symbol@, source@)),
{
    let mut index: usize = 0;
    while index < rows.len()
        invariant
            index <= rows.len(),
            forall|i: int| 0 <= i < index ==> rows_view(rows@)[i] != (symbol@, source@),
        decreases rows.len() - index,
    {
        let (row_symbol, row_source) = rows[index];
        if text_eq(row_symbol, symbol) && text_eq(row_source, source) {
            assert(rows_view(rows@)[index as int] == (symbol@, source@));
            return true;
        }
        index = index + 1;
    }
    false
}

/// Whether some family owns a concrete materializer for the descriptor's
/// source-qualified row.
pub fn has_concrete_materializer(descriptor: &OperationDescriptor) -> (owned: bool)
    ensures
        owned == has_concrete_materializer_spec(descriptor.symbol@, descriptor.source@),
{
    rows_contain(&loss_metric_row_table(), descriptor.symbol, descriptor.source)
        || rows_contain(&training_row_table(), descriptor.symbol, descriptor.source)
        || rows_contain(&tree_boosting_row_table(), descriptor.symbol, descriptor.source)
}

/// Whether the loss and metric materializers own the descriptor's
/// source-qualified row.
pub fn loss_metric_supports(descriptor: &OperationDescriptor) -> (owned: bool)
    ensures
        owned == loss_metric_rows().contains((descriptor.symbol@, descriptor.source@)),
{
    rows_contain(&loss_metric_row_table(), descriptor.symbol, descriptor.source)
}

/// Whether the training materializers own the descriptor's
/// source-qualified row.
pub fn training_supports(descriptor: &OperationDescriptor) -> (owned: bool)
    ensures
        owned == training_rows().contains((descriptor.symbol@, descriptor.source@)),
{
    rows_contain(&training_row_table(), descriptor.symbol, descriptor.source)
}

/// The manifest row a descriptor contributes: a structured descriptor
/// without a concrete materializer remains, with every component missing.
pub open spec fn remaining_row(descriptor: OperationDescriptor) -> Option<RemainingComposition> {
    match descriptor.lowering {
        LoweringAvailability::Composition(recipe) => if has_concrete_materializer_spec(
            descriptor.symbol@,
            descriptor.source@,
        ) {
            None
        } else {
            Some(
                RemainingComposition {
                    operation: descriptor.id,
                    symbol: descriptor.symbol,
                    source: descriptor.source,
                    recipe: recipe.name,
                    missing: all_missing_components(),
                },
            )
        },
        _ => None,
    }
}

/// The manifest of a descriptor list, in registry order.
pub open spec fn remaining_manifest(descriptors: Seq<OperationDescriptor>) -> Seq<RemainingComposition>
    decreases descriptors.len(),
{
    if descriptors.len() == 0 {
        Seq::empty()
    } else {
        let prefix = remaining_manifest(descriptors.drop_last());
        match remaining_row(descriptors.last()) {
            Some(row) => prefix.push(row),
            None => prefix,
        }
    }
}

/// Every structured descriptor of `registry` that cannot yet be materialized
/// without inventing semantics, in registry order.
pub fn remaining_composition_manifest_for(registry: &OperationRegistry) -> (manifest: Vec<
    RemainingComposition,
>)
    ensures
        manifest@ == remaining_manifest(registry.descriptors@),
{
    let descriptors = &registry.descriptors;
    let mut manifest: Vec<RemainingComposition> = Vec::new();
    let mut index: usize = 0;
    while index < descriptors.len()
        invariant
            index <= descriptors.len(),
            manifest@ == remaining_manifest(descriptors@.subrange(0, index as int)),
        decreases descriptors.len() - index,
    {
        let descriptor = &descriptors[index];
        assert(descriptors@.subrange(0, index + 1).drop_last() =~= descriptors@.subrange(
            0,
            index as int,
        ));
        if let LoweringAvailability::Composition(recipe) = &descriptor.lowering {
            if !has_concrete_materializer(descriptor) {
                manifest.push(
                    RemainingComposition {
                        operation: descriptor.id,
                        symbol: descriptor.symbol,
                        source: descriptor.source,
                        recipe: recipe.name,
                        missing: [
                            MissingConcreteComponent::TensorAbi,
                            MissingConcreteComponent::ScalarFormula,
                            MissingConcreteComponent::PrimitiveParameters,
                            MissingConcreteComponent::WorkspacePolicy,
                        ],
                    },
                );
            }
        }
        index = index + 1;
    }
    assert(descriptors@.subrange(0, descriptors@.len() as int) =~= descriptors@);
    manifest
}

/// Source-qualified rows outside the families above whose recipes still
/// lack a concrete materializer.
pub open spec fn descriptive_rows() -> Seq<(Seq<char>, Seq<char>)> {
    seq![
        ("gpu_oob_mask"@, "gpu-core/src/forest.rs:174"@),
        ("gpu_tb_scatter"@, "gpu-core/src/kernels.rs:3881"@),
    ]
}

/// Every source-qualified row this crate's tables name, in registry order.
pub open spec fn registry_rows() -> Seq<(Seq<char>, Seq<char>)> {
    loss_metric_rows() + training_rows() + tree_boosting_rows() + descriptive_rows()
}

fn registry_row_table() -> (rows: Vec<(&'static str, &'static str)>)
    ensures
        rows_view(rows@) == registry_rows(),
{
    let mut rows = loss_metric_row_table();
    let mut training = training_row_table();
    let mut tree = tree_boosting_row_table();
    let mut descriptive = vec![
        ("gpu_oob_mask", "gpu-core/src/forest.rs:174"),
        ("gpu_tb_scatter", "gpu-core/src/kernels.rs:3881"),
    ];
    assert(rows_view(descriptive@) =~= descriptive_rows());
    let ghost a = rows@;
    let ghost b = training@;
    let ghost c = tree@;
    let ghost d = descriptive@;
    rows.append(&mut training);
    rows.append(&mut tree);
    rows.append(&mut descriptive);
    assert(rows@ =~= a + b + c + d);
    assert(rows_view(a + b + c + d) =~= rows_view(a) + rows_view(b) + rows_view(c) + rows_view(d));
    rows
}

/// How the registry lowers a source-qualified row: as a well-formed
/// composition whose summary is the table's entry when the recipe table has
/// one, and as unsupported otherwise.
pub open spec fn lowering_matches_table(
    lowering: LoweringAvailability,
    symbol: Seq<char>,
    source: Seq<char>,
) -> bool {
    match entry_summary(symbol, source) {
        Some(summary) => lowering matches LoweringAvailability::Composition(recipe) && recipe.well_formed()
            && recipe_summary(recipe) == summary,
        None => lowering is Unsupported,
    }
}

/// The descriptors hold exactly `rows`, in order: descriptor `i` has
/// identity `i`, the symbol and source of row `i`, and the table's lowering.
pub open spec fn descriptors_hold_rows(
    descriptors: Seq<OperationDescriptor>,
    rows: Seq<(Seq<char>, Seq<char>)>,
) -> bool {
    &&& descriptors.len() == rows.len()
    &&& forall|i: int|
        0 <= i < rows.len() ==> {
            let descriptor = #[trigger] descriptors[i];
            &&& descriptor.id == OperationId(i as u32)
            &&& (descriptor.symbol@, descriptor.source@) == rows[i]
            &&& lowering_matches_table(descriptor.lowering, rows[i].0, rows[i].1)
        }
}

/// The registry holds exactly `rows`, in order.
pub open spec fn registry_holds_rows(registry: OperationRegistry, rows: Seq<(Seq<char>, Seq<char>)>) -> bool {
    descriptors_hold_rows(registry.descriptors@, rows)
}

/// The registry of the source-qualified rows that this crate's tables name:
/// the rows owned by its loss and metric, training, and tree and boosting
/// materializers, then the descriptive rows. It is a part of the operation
/// surface, not the whole of it: rows that none of these tables names are
/// not listed.
pub fn operation_registry() -> (registry: OperationRegistry)
    ensures
        registry_holds_rows(registry, registry_rows()),
{
    let rows = registry_row_table();
    assert(rows_view(rows@).len() == rows@.len());
    assert(registry_rows().len() == 47);
    let mut descriptors: Vec<OperationDescriptor> = Vec::new();
    let mut index: usize = 0;
    while index < rows.len()
        invariant
            index <= rows@.len(),
            rows_view(rows@) == registry_rows(),
            rows@.len() < 1000,
            registry_holds_rows(
                OperationRegistry { descriptors },
                rows_view(rows@).subrange(0, index as int),
            ),
        decreases rows.len() - index,
    {
        let (symbol, source) = rows[index];
        let lowering = match composition_for_entry(symbol, source) {
            Some(recipe) => LoweringAvailability::Composition(recipe),
            None => LoweringAvailability::Unsupported,
        };
        let ghost before = descriptors@;
        descriptors.push(OperationDescriptor { id: OperationId(index as u32), symbol, source, lowering });
        proof {
            let grown = rows_view(rows@).subrange(0, index + 1);
            assert(grown[index as int] == (symbol@, source@));
            assert forall|i: int| 0 <= i < grown.len() implies {
                let descriptor = #[trigger] descriptors@[i];
                &&& descriptor.id == OperationId(i as u32)
                &&& (descriptor.symbol@, descriptor.source@) == grown[i]
                &&& lowering_matches_table(descriptor.lowering, grown[i].0, grown[i].1)
            } by {
                if i < index {
                    assert(descriptors@[i] == before[i]);
                    assert(grown[i] == rows_view(rows@).subrange(0, index as int)[i]);
                }
            }
        }
        index = index + 1;
    }
    assert(rows_view(rows@).subrange(0, rows@.len() as int) =~= rows_view(rows@));
    OperationRegistry { descriptors }
}

/// What a manifest row shows: its operation, symbol, source and recipe name.
pub open spec fn manifest_view(
    manifest: Seq<RemainingComposition>,
) -> Seq<(OperationId, Seq<char>, Seq<char>, Seq<char>)> {
    manifest.map_values(
        |entry: RemainingComposition| (entry.operation, entry.symbol@, entry.source@, entry.recipe@),
    )
}

/// The manifest row of row `index` of an operation surface: a row that the
/// recipe table names and that no family materializes remains, under the
/// recipe's name.
pub open spec fn expected_row(index: int, row: (Seq<char>, Seq<char>)) -> Option<
    (OperationId, Seq<char>, Seq<char>, Seq<char>),
> {
    match entry_summary(row.0, row.1) {
        Some(summary) => if has_concrete_materializer_spec(row.0, row.1) {
            None
        } else {
            Some((OperationId(index as u32), row.0, row.1, summary.0))
        },
        None => None,
    }
}

/// The manifest of an operation surface's rows, in row order.
pub open spec fn expected_manifest(rows: Seq<(Seq<char>, Seq<char>)>) -> Seq<
    (OperationId, Seq<char>, Seq<char>, Seq<char>),
>
    decreases rows.len(),
{
    if rows.len() == 0 {
        Seq::empty()
    } else {
        let prefix = expected_manifest(rows.drop_last());
        match expected_row(rows.len() - 1, rows.last()) {
            Some(row) => prefix.push(row),
            None => prefix,
        }
    }
}

/// Every source-qualified structured operation of the registry that cannot
/// yet be materialized without inventing semantics, in registry order, each
/// with every concrete component missing.
pub fn remaining_composition_manifest() -> (manifest: Vec<RemainingComposition>)
    ensures
        manifest_view(manifest@) == expected_manifest(registry_rows()),
        forall|i: int|
            0 <= i < manifest@.len() ==> (#[trigger] manifest@[i]).missing == all_missing_components(),
{
    let registry = operation_registry();
    let manifest = remaining_composition_manifest_for(&registry);
    proof {
        lemma_manifest_rows(registry.descriptors@, registry_rows());
    }
    manifest
}

/// The manifest of descriptors that hold an operation surface's rows is the
/// manifest of those rows.
proof fn lemma_manifest_rows(descriptors: Seq<OperationDescriptor>, rows: Seq<(Seq<char>, Seq<char>)>)
    requires
        descriptors_hold_rows(descriptors, rows),
    ensures
        manifest_view(remaining_manifest(descriptors)) == expected_manifest(rows),
        forall|i: int|
            0 <= i < remaining_manifest(descriptors).len() ==> (#[trigger] remaining_manifest(
                descriptors,
            )[i]).missing == all_missing_components(),
    decreases descriptors.len(),
{
    if descriptors.len() > 0 {
        let prefix = descriptors.drop_last();
        let shorter = rows.drop_last();
        assert forall|i: int| 0 <= i < shorter.len() implies {
            let descriptor = #[trigger] prefix[i];
            &&& descriptor.id == OperationId(i as u32)
            &&& (descriptor.symbol@, descriptor.source@) == shorter[i]
            &&& lowering_matches_table(descriptor.lowering, shorter[i].0, shorter[i].1)
        } by {
            assert(prefix[i] == descriptors[i]);
            assert(shorter[i] == rows[i]);
        }
        lemma_manifest_rows(prefix, shorter);
        let last = descriptors.last();
        let n = descriptors.len() - 1;
        assert(last == descriptors[n]);
        assert((last.symbol@, last.source@) == rows[n]);
        assert(rows.last() == rows[n]);
        let before = remaining_manifest(prefix);
        let after = remaining_manifest(descriptors);
        match remaining_row(last) {
            Some(row) => {
                assert(after == before.push(row));
                assert(manifest_view(after) =~= manifest_view(before).push(
                    (row.operation, row.symbol@, row.source@, row.recipe@),
                ));
            },
            None => {
                assert(after == before);
            },
        }
        assert forall|i: int| 0 <= i < after.len() implies (#[trigger] after[i]).missing
            == all_missing_components() by {
            if i < before.len() {
                assert(after[i] == before[i]);
            }
        }
    } else {
        assert(manifest_view(remaining_manifest(descriptors)) =~= expected_manifest(rows));
    }
}

/// Validate a descriptor that owns a multi-stage composition: its error is
/// the recipe's own validation error, tagged with the operation.
pub fn validate_composition(descriptor: &OperationDescriptor) -> (result: OperationResult<()>)
    ensures
        result is Ok <==> (descriptor.lowering matches LoweringAvailability::Composition(recipe)
            && recipe.well_formed()),
        result matches Err(error) ==> error.operation == Some(descriptor.id) && error.kind == (
        if descriptor.lowering is Composition {
            OperationErrorKind::InvalidCompositionRecipe
        } else {
            OperationErrorKind::WrongLoweringKind
        }),
        descriptor.lowering matches LoweringAvailability::Composition(recipe) ==> (result matches Err(
            error,
        ) ==> Some(error.detail@) == recipe.recipe_fault()),
        !(descriptor.lowering is Composition) ==> (result matches Err(error) && error.detail@
            == "operation does not own a multi-stage composition"@),
{
    match &descriptor.lowering {
        LoweringAvailability::Composition(recipe) => match recipe.validate() {
            Ok(()) => Ok(()),
            Err(error) => Err(error.for_operation(descriptor.id)),
        },
        _ => Err(
            OperationError::new(
                OperationErrorKind::WrongLoweringKind,
                "operation does not own a multi-stage composition",
            ).for_operation(descriptor.id),
        ),
    }
}

} // verus!
