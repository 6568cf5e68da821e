use recipe_ops::composition::validate_steps;
use recipe_ops::{
    CanonicalDTypeContract, CompositionPayload, CompositionRecipe, CompositionStep, IterationBound,
    LoweringAvailability, OperationDescriptor, OperationErrorKind, OperationFamily, OperationId,
    PrimitiveFamily, composition_for_entry, validate_composition,
};

fn map(role: &'static str) -> CompositionStep {
    CompositionStep::primitive(PrimitiveFamily::Elementwise, role)
}

fn recipe(steps: Vec<CompositionStep>) -> CompositionRecipe {
    CompositionRecipe::new("custom", "a hand-written recipe", steps, CompositionPayload::F32, OperationFamily::Other)
}

fn nested(depth: usize) -> CompositionStep {
    if depth == 0 {
        map("leaf")
    } else {
        CompositionStep::repeat(IterationBound::Fixed(1), "level", vec![nested(depth - 1)])
    }
}

#[test]
fn table_recipes_carry_their_names_and_families() {
    let fft = composition_for_entry("gpu_fft_c2c_1d", "gpu-core/src/fft.rs:1").unwrap();
    assert_eq!(fft.name(), "stockham_fft_1d");
    assert_eq!(fft.operation_family(), OperationFamily::Fft);
    assert_eq!(fft.payload(), CompositionPayload::F32AndI32);
    assert_eq!(fft.validate(), Ok(()));
    let rfft = composition_for_entry("gpu_rfft_1d", "anywhere").unwrap();
    assert_eq!(rfft.name(), "stockham_fft_1d");
    let subset = composition_for_entry("gpu_feature_subset", "gpu-core/src/forest.rs:82").unwrap();
    assert_eq!(subset.name(), "feature_subset");
    assert_eq!(subset.definition(), "gather the prepared checked int32 feature indexes from every row");
    assert_eq!(subset.operation_family(), OperationFamily::Tree);
    assert_eq!(composition_for_entry("gpu_not_an_operation", "nowhere"), None);
}

#[test]
fn model_family_recipes_depend_on_the_source() {
    let catboost = composition_for_entry("predict", "models/catboost/predict.rs:10").unwrap();
    assert_eq!(catboost.name(), "catboost_inference");
    let lightgbm = composition_for_entry("predict_proba", "models/lightgbm/mod.rs:3").unwrap();
    assert_eq!(lightgbm.name(), "lightgbm_inference");
    let xgboost = composition_for_entry("train", "models/xgboost/train.rs:1").unwrap();
    assert_eq!(xgboost.name(), "xgboost_training");
    assert_eq!(composition_for_entry("predict", "models/sklearn/tree.rs:1"), None);
    let greedy = composition_for_entry("greedy", "anywhere").unwrap();
    assert_eq!(greedy.name(), "greedy_token_selection");
    assert_eq!(greedy.operation_family(), OperationFamily::Inference);
}

#[test]
fn payload_contracts() {
    assert_eq!(CompositionPayload::F32.dtype_contract(), CanonicalDTypeContract::F32Payload);
    assert_eq!(CompositionPayload::I32.dtype_contract(), CanonicalDTypeContract::I32Payload);
    assert_eq!(CompositionPayload::F32AndI32.dtype_contract(), CanonicalDTypeContract::F32AndI32Payloads);
    assert_eq!(CompositionPayload::F32OrI32.dtype_contract(), CanonicalDTypeContract::F32OrI32Payload);
}

#[test]
fn malformed_recipes_are_invalid() {
    let invalid = |recipe: CompositionRecipe| recipe.validate().unwrap_err().kind;
    assert_eq!(recipe(vec![map("map")]).validate(), Ok(()));
    assert_eq!(invalid(recipe(vec![])), OperationErrorKind::InvalidCompositionRecipe);
    assert_eq!(invalid(recipe(vec![map("")])), OperationErrorKind::InvalidCompositionRecipe);
    assert_eq!(
        invalid(recipe(vec![CompositionStep::repeat(IterationBound::Fixed(0), "never", vec![map("map")])])),
        OperationErrorKind::InvalidCompositionRecipe
    );
    assert_eq!(
        invalid(recipe(vec![CompositionStep::repeat(IterationBound::Fixed(2), "empty", vec![])])),
        OperationErrorKind::InvalidCompositionRecipe
    );
    assert_eq!(
        invalid(recipe(vec![CompositionStep::repeat(
            IterationBound::PreparedParameter { name: "" },
            "unnamed",
            vec![map("map")],
        )])),
        OperationErrorKind::InvalidCompositionRecipe
    );
    let unnamed = CompositionRecipe::new("", "definition", vec![map("map")], CompositionPayload::F32, OperationFamily::Other);
    assert_eq!(invalid(unnamed), OperationErrorKind::InvalidCompositionRecipe);
    let undefined = CompositionRecipe::new("name", "", vec![map("map")], CompositionPayload::F32, OperationFamily::Other);
    assert_eq!(invalid(undefined), OperationErrorKind::InvalidCompositionRecipe);
}

#[test]
fn repeat_nesting_is_limited_to_eight_levels() {
    assert_eq!(recipe(vec![nested(8)]).validate(), Ok(()));
    assert_eq!(recipe(vec![nested(9)]).validate().unwrap_err().kind, OperationErrorKind::InvalidCompositionRecipe);
    assert_eq!(validate_steps(&vec![map("map")], 8), Ok(()));
    assert_eq!(validate_steps(&vec![map("map")], 9).unwrap_err().kind, OperationErrorKind::InvalidCompositionRecipe);
}

#[test]
fn step_roles_and_recipe_accessors() {
    assert_eq!(map("scale").role(), "scale");
    assert_eq!(nested(1).role(), "level");
    let recipe = recipe(vec![map("a"), map("b")]);
    assert_eq!(recipe.steps().len(), 2);
    assert_eq!(recipe.steps()[1], map("b"));
}

#[test]
fn composition_validation_names_the_descriptor() {
    let valid = OperationDescriptor {
        id: OperationId(9),
        symbol: "custom",
        source: "tests",
        lowering: LoweringAvailability::Composition(recipe(vec![map("map")])),
    };
    assert_eq!(validate_composition(&valid), Ok(()));
    let invalid = OperationDescriptor {
        id: OperationId(9),
        symbol: "custom",
        source: "tests",
        lowering: LoweringAvailability::Composition(recipe(vec![])),
    };
    let error = validate_composition(&invalid).unwrap_err();
    assert_eq!(error.kind, OperationErrorKind::InvalidCompositionRecipe);
    assert_eq!(error.operation, Some(OperationId(9)));
    let scalar = OperationDescriptor { id: OperationId(9), symbol: "custom", source: "tests", lowering: LoweringAvailability::Scalar };
    let error = validate_composition(&scalar).unwrap_err();
    assert_eq!(error.kind, OperationErrorKind::WrongLoweringKind);
    assert_eq!(error.operation, Some(OperationId(9)));
}

#[test]
fn table_recipes_carry_their_repeat_bounds_and_bodies() {
    let xgboost = composition_for_entry("train", "xgboost/src/gbm.rs:1").unwrap();
    assert_eq!(xgboost.name(), "xgboost_training");
    assert_eq!(xgboost.steps().len(), 1);
    match &xgboost.steps()[0] {
        CompositionStep::Repeat { bound, body, .. } => {
            assert_eq!(*bound, IterationBound::PreparedParameter { name: "boosting_rounds" });
            assert_eq!(body.len(), 7);
        }
        CompositionStep::Primitive { .. } => panic!("boosting rounds repeat"),
    }
    let fft = composition_for_entry("gpu_fft_c2c_1d", "gpu-core/src/fft.rs:1").unwrap();
    match &fft.steps()[0] {
        CompositionStep::Repeat { bound, body, .. } => {
            assert_eq!(*bound, IterationBound::CeilingLog2ShapeExtent { axis: 0 });
            let families: Vec<PrimitiveFamily> = body
                .iter()
                .map(|step| match step {
                    CompositionStep::Primitive { family, .. } => *family,
                    CompositionStep::Repeat { .. } => panic!("flat body"),
                })
                .collect();
            assert_eq!(families, vec![PrimitiveFamily::Gather, PrimitiveFamily::Elementwise, PrimitiveFamily::Scatter]);
        }
        CompositionStep::Primitive { .. } => panic!("stage repeat"),
    }
    assert_eq!(composition_for_entry("gpu_potrs", "a"), composition_for_entry("gpu_cholesky_solve", "b"));
}

#[test]
fn validation_reports_the_first_failing_check() {
    let error = recipe(vec![map("map"), map("")]).validate().unwrap_err();
    assert_eq!(error.detail, "every composition step requires a role");
    assert_eq!(error.operation, None);
    let error = recipe(vec![nested(9)]).validate().unwrap_err();
    assert_eq!(error.detail, "composition nesting exceeds eight levels");
    let error = recipe(vec![CompositionStep::repeat(IterationBound::Fixed(0), "never", vec![])]).validate().unwrap_err();
    assert_eq!(error.detail, "repeat body must be nonempty");
    let descriptor = OperationDescriptor {
        id: OperationId(4),
        symbol: "custom",
        source: "tests",
        lowering: LoweringAvailability::Composition(recipe(vec![CompositionStep::repeat(
            IterationBound::Fixed(0),
            "never",
            vec![map("map")],
        )])),
    };
    let error = validate_composition(&descriptor).unwrap_err();
    assert_eq!(error.detail, "fixed repeat bound must be nonzero");
    assert_eq!(error.operation, Some(OperationId(4)));
}
