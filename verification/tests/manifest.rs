use std::collections::BTreeSet;

use recipe_ops::{operation_registry, remaining_composition_manifest, validate_composition};

const GRAPH_CLUSTER_MATERIALIZED: &[&str] = &[
    "gpu_boruvka_mst",
    "gpu_categorical_logprob",
    "gpu_centroid_update",
    "gpu_core_distance",
    "gpu_csr_spmm",
    "gpu_csr_spmv",
    "gpu_degree",
    "gpu_discounted_returns",
    "gpu_fixed_radius_neighbors",
    "gpu_gae",
    "gpu_gaussian_logprob",
    "gpu_gcn_norm",
    "gpu_neighbor_aggregate",
    "gpu_td_targets",
    "gpu_union_find_cc",
];

const TRAINING_MATERIALIZED: &[(&str, &str)] = &[
    ("gpu_bce_with_logits", "gpu-core/src/losses.rs:145"),
    ("gpu_linear_backward_full_into", "gpu-core/src/kernels.rs:3434"),
    ("gpu_linear_backward_weights_only_into", "gpu-core/src/kernels.rs:3400"),
    ("gpu_linear_f32", "gpu-core/src/nn_f32.rs:200"),
    ("gpu_linear_into", "gpu-core/src/kernels.rs:2796"),
    ("gpu_matvec_bias_into", "gpu-core/src/kernels.rs:3084"),
];

const TREE_MATERIALIZED: &[(&str, &str)] = &[
    ("gpu_argmax_write_split", "gpu-core/src/kernels.rs:4155"),
    ("gpu_bootstrap_sample", "gpu-core/src/forest.rs:58"),
    ("gpu_feature_subset", "gpu-core/src/forest.rs:82"),
    ("gpu_grad_hess_into", "gpu-core/src/kernels.rs:3703"),
    ("gpu_histogram_build", "gpu-core/src/kernels.rs:6745"),
    ("gpu_leaf_finalize", "gpu-core/src/kernels.rs:4372"),
    ("gpu_leaf_reduce", "gpu-core/src/kernels.rs:4346"),
    ("gpu_leaf_split_apply", "gpu-core/src/kernels.rs:7173"),
    ("gpu_lgbm_best_split", "gpu-core/src/kernels.rs:7080"),
    ("gpu_lgbm_hist_subtract", "gpu-core/src/kernels.rs:7053"),
    ("gpu_lgbm_histogram", "gpu-core/src/kernels.rs:7018"),
    ("gpu_lgbm_leaf_reduce", "gpu-core/src/kernels.rs:7119"),
    ("gpu_oblivious_histogram", "gpu-core/src/kernels.rs:4205"),
    ("gpu_oblivious_split_eval", "gpu-core/src/kernels.rs:4396"),
    ("gpu_ordered_target_stats", "gpu-core/src/catboost.rs:100"),
    ("gpu_random_threshold_split", "gpu-core/src/forest.rs:108"),
    ("gpu_scatter_add_by_leaf", "gpu-core/src/kernels.rs:4323"),
    ("gpu_scatter_add_by_leaf_col", "gpu-core/src/kernels.rs:4497"),
    ("gpu_split_eval", "gpu-core/src/kernels.rs:6778"),
    ("gpu_tb_histogram", "gpu-core/src/kernels.rs:3737"),
    ("gpu_tb_leaf_sum", "gpu-core/src/kernels.rs:3830"),
    ("gpu_tb_leaf_val", "gpu-core/src/kernels.rs:3856"),
    ("gpu_tb_split_eval", "gpu-core/src/kernels.rs:3770"),
    ("gpu_write_split", "gpu-core/src/kernels.rs:4182"),
];

#[test]
fn source_qualified_batch_is_removed_from_the_remaining_manifest() {
    let remaining = remaining_composition_manifest();
    for symbol in GRAPH_CLUSTER_MATERIALIZED {
        assert!(
            remaining.iter().all(|entry| entry.symbol() != *symbol),
            "{symbol} remained descriptive"
        );
    }
}

#[test]
fn source_qualified_training_materializers_leave_the_remaining_manifest() {
    let remaining = remaining_composition_manifest()
        .into_iter()
        .map(|entry| (entry.symbol(), entry.source()))
        .collect::<BTreeSet<_>>();
    for entry in TRAINING_MATERIALIZED {
        assert!(!remaining.contains(entry));
    }
}

#[test]
fn source_qualified_tree_batch_leaves_only_honest_recipes_materialized() {
    let remaining = remaining_composition_manifest();
    for (symbol, source) in TREE_MATERIALIZED {
        assert!(
            remaining
                .iter()
                .all(|entry| entry.symbol() != *symbol || entry.source() != *source),
            "({symbol}, {source}) remained descriptive"
        );
    }
    for (symbol, source) in [
        ("gpu_oob_mask", "gpu-core/src/forest.rs:174"),
        ("gpu_tb_scatter", "gpu-core/src/kernels.rs:3881"),
    ] {
        assert!(
            remaining
                .iter()
                .any(|entry| entry.symbol() == symbol && entry.source() == source),
            "({symbol}, {source}) should fail closed until its recipe order is corrected"
        );
    }
}

#[test]
fn every_registered_composition_validates() {
    let registry = operation_registry();
    assert_eq!(registry.descriptors.len(), 47);
    for descriptor in &registry.descriptors {
        assert!(validate_composition(descriptor).is_ok(), "{}", descriptor.symbol);
    }
}

#[test]
fn registry_lowers_rows_through_the_recipe_table() {
    let registry = operation_registry();
    for (index, descriptor) in registry.descriptors.iter().enumerate() {
        assert_eq!(descriptor.id.0 as usize, index);
        match (&descriptor.lowering, recipe_ops::composition_for_entry(descriptor.symbol, descriptor.source)) {
            (recipe_ops::LoweringAvailability::Composition(recipe), Some(expected)) => assert_eq!(*recipe, expected),
            (recipe_ops::LoweringAvailability::Unsupported, None) => {}
            _ => panic!("{} lowered apart from the recipe table", descriptor.symbol),
        }
    }
}

#[test]
fn manifest_lists_every_unmaterialized_row_in_registry_order() {
    let remaining = remaining_composition_manifest();
    let rows: Vec<(&str, &str, &str)> = remaining.iter().map(|entry| (entry.symbol(), entry.source(), entry.recipe())).collect();
    assert_eq!(rows.len(), 2);
    assert_eq!((rows[0].0, rows[0].1), ("gpu_oob_mask", "gpu-core/src/forest.rs:174"));
    assert_eq!((rows[1].0, rows[1].1), ("gpu_tb_scatter", "gpu-core/src/kernels.rs:3881"));
    assert!(remaining[0].operation().0 < remaining[1].operation().0);
    assert_eq!(remaining, remaining_composition_manifest());
}
