use recipe_ops::expansion::{ceiling_log_two, resolve_bound};
use recipe_ops::{
    CompositionPayload, CompositionRecipe, CompositionStep, IterationBound, LoweringAvailability,
    OperationDescriptor, OperationErrorKind, OperationFamily, OperationId, PreparedParameter,
    PreparedParameters, PrimitiveFamily, ResolvedBound, composition_for_entry, expand_composition,
};

fn structured(symbol: &'static str, source: &'static str) -> OperationDescriptor {
    OperationDescriptor {
        id: OperationId(11),
        symbol,
        source,
        lowering: LoweringAvailability::Composition(composition_for_entry(symbol, source).unwrap()),
    }
}

fn parameters(values: &[(&str, PreparedParameter)]) -> PreparedParameters {
    let mut parameters = PreparedParameters::new();
    for (name, value) in values {
        parameters.insert((*name).to_owned(), *value);
    }
    parameters
}

fn custom(steps: Vec<CompositionStep>) -> OperationDescriptor {
    OperationDescriptor {
        id: OperationId(12),
        symbol: "custom",
        source: "tests",
        lowering: LoweringAvailability::Composition(CompositionRecipe::new(
            "custom",
            "a hand-written recipe",
            steps,
            CompositionPayload::F32,
            OperationFamily::Other,
        )),
    }
}

#[test]
fn resolves_shape_and_named_bounds_into_a_finite_dependency_dag() {
    let fft = structured("gpu_fft_c2c_1d", "gpu-core/src/fft.rs:1");
    let expanded = expand_composition(&fft, &[9, 2], &PreparedParameters::new()).unwrap();
    assert_eq!(expanded.bounds().len(), 1);
    assert_eq!(expanded.bounds()[0].value(), 4);
    assert_eq!(expanded.steps().len(), 12);
    for (ordinal, step) in expanded.steps().iter().enumerate() {
        assert_eq!(step.ordinal(), ordinal);
        assert_eq!(step.dependencies(), ordinal.checked_sub(1).as_slice());
        assert_eq!(step.iterations().len(), 1);
        assert_eq!(step.iterations()[0].index(), u64::try_from(ordinal / 3).unwrap());
    }

    let svd = structured("gpu_svd", "gpu-core/src/linalg.rs:1");
    let prepared = parameters(&[("bidiagonal_qr_sweeps", PreparedParameter::U64(2))]);
    let expanded = expand_composition(&svd, &[3, 5], &prepared).unwrap();
    assert_eq!(expanded.bounds().iter().map(ResolvedBound::value).collect::<Vec<_>>(), [3, 2]);
    assert_eq!(expanded.steps().len(), 15);
}

#[test]
fn fixed_repeats_unroll_their_body_in_order() {
    let descriptor = custom(vec![
        CompositionStep::primitive(PrimitiveFamily::Elementwise, "prepare"),
        CompositionStep::repeat(
            IterationBound::Fixed(3),
            "round",
            vec![
                CompositionStep::primitive(PrimitiveFamily::Reduce, "reduce"),
                CompositionStep::primitive(PrimitiveFamily::Scan, "scan"),
            ],
        ),
        CompositionStep::primitive(PrimitiveFamily::Sort, "finish"),
    ]);
    let expanded = expand_composition(&descriptor, &[], &PreparedParameters::new()).unwrap();
    assert_eq!(expanded.operation(), OperationId(12));
    assert_eq!(expanded.bounds().len(), 1);
    assert_eq!(expanded.bounds()[0].value(), 3);
    assert_eq!(expanded.bounds()[0].role(), "round");
    assert_eq!(expanded.bounds()[0].bound(), IterationBound::Fixed(3));
    assert!(expanded.bounds()[0].outer_iterations().is_empty());
    let families = expanded.steps().iter().map(|step| step.family()).collect::<Vec<_>>();
    assert_eq!(
        families,
        [
            PrimitiveFamily::Elementwise,
            PrimitiveFamily::Reduce,
            PrimitiveFamily::Scan,
            PrimitiveFamily::Reduce,
            PrimitiveFamily::Scan,
            PrimitiveFamily::Reduce,
            PrimitiveFamily::Scan,
            PrimitiveFamily::Sort,
        ]
    );
    assert_eq!(expanded.steps()[0].iterations().len(), 0);
    assert_eq!(expanded.steps()[5].role(), "reduce");
    assert_eq!(expanded.steps()[5].iterations()[0].index(), 2);
    assert_eq!(expanded.steps()[5].iterations()[0].count(), 3);
    assert_eq!(expanded.steps()[5].iterations()[0].role(), "round");
    for (ordinal, step) in expanded.steps().iter().enumerate() {
        assert_eq!(step.ordinal(), ordinal);
        assert_eq!(step.dependencies(), ordinal.checked_sub(1).as_slice());
    }
}

#[test]
fn unresolvable_bounds_fail_with_the_operation() {
    let descriptor = custom(vec![CompositionStep::repeat(
        IterationBound::ShapeExtent { axis: 2 },
        "rows",
        vec![CompositionStep::primitive(PrimitiveFamily::Elementwise, "map")],
    )]);
    let error = expand_composition(&descriptor, &[4, 5], &PreparedParameters::new()).unwrap_err();
    assert_eq!(error.kind, OperationErrorKind::IterationBoundUnresolved);
    assert_eq!(error.operation, Some(OperationId(12)));

    let named = custom(vec![CompositionStep::repeat(
        IterationBound::PreparedParameter { name: "sweeps" },
        "sweeps",
        vec![CompositionStep::primitive(PrimitiveFamily::Elementwise, "map")],
    )]);
    let missing = expand_composition(&named, &[4], &PreparedParameters::new()).unwrap_err();
    assert_eq!(missing.kind, OperationErrorKind::MissingPreparedParameter);
    let mistyped = expand_composition(&named, &[4], &parameters(&[("sweeps", PreparedParameter::Bool(true))]))
        .unwrap_err();
    assert_eq!(mistyped.kind, OperationErrorKind::PreparedParameterTypeMismatch);
    let zero = expand_composition(&named, &[4], &parameters(&[("sweeps", PreparedParameter::U64(0))])).unwrap();
    assert_eq!(zero.bounds().len(), 1);
    assert_eq!(zero.bounds()[0].value(), 0);
    assert!(zero.steps().is_empty());

    let empty_shape = custom(vec![CompositionStep::repeat(
        IterationBound::MinimumShapeExtent,
        "rows",
        vec![CompositionStep::primitive(PrimitiveFamily::Elementwise, "map")],
    )]);
    let error = expand_composition(&empty_shape, &[], &PreparedParameters::new()).unwrap_err();
    assert_eq!(error.kind, OperationErrorKind::IterationBoundUnresolved);
    let smallest = expand_composition(&empty_shape, &[7, 2, 5], &PreparedParameters::new()).unwrap();
    assert_eq!(smallest.bounds()[0].value(), 2);
    assert_eq!(smallest.steps().len(), 2);
}

#[test]
fn invalid_recipes_and_other_lowerings_are_refused() {
    let zero = custom(vec![CompositionStep::repeat(
        IterationBound::Fixed(0),
        "never",
        vec![CompositionStep::primitive(PrimitiveFamily::Elementwise, "map")],
    )]);
    let error = expand_composition(&zero, &[1], &PreparedParameters::new()).unwrap_err();
    assert_eq!(error.kind, OperationErrorKind::InvalidCompositionRecipe);
    assert_eq!(error.operation, Some(OperationId(12)));

    let mut scalar = custom(vec![]);
    scalar.lowering = LoweringAvailability::Scalar;
    let error = expand_composition(&scalar, &[1], &PreparedParameters::new()).unwrap_err();
    assert_eq!(error.kind, OperationErrorKind::WrongLoweringKind);
    assert_eq!(error.operation, Some(OperationId(12)));
}

#[test]
fn expansions_beyond_the_step_limit_overflow() {
    let descriptor = custom(vec![CompositionStep::repeat(
        IterationBound::Fixed(1_000_001),
        "rounds",
        vec![CompositionStep::primitive(PrimitiveFamily::Elementwise, "map")],
    )]);
    let error = expand_composition(&descriptor, &[], &PreparedParameters::new()).unwrap_err();
    assert_eq!(error.kind, OperationErrorKind::CompositionExpansionOverflow);
}

#[test]
fn ceiling_log_two_values() {
    for (value, expected) in [(0, 0), (1, 0), (2, 1), (3, 2), (4, 2), (5, 3), (9, 4), (1024, 10), (1025, 11), (u64::MAX, 64)] {
        assert_eq!(ceiling_log_two(value), expected, "ceiling_log_two({value})");
    }
}

#[test]
fn bounds_resolve_from_shape_and_parameters() {
    let prepared = parameters(&[("rounds", PreparedParameter::U64(7))]);
    assert_eq!(resolve_bound(&[6, 8], &prepared, IterationBound::Fixed(5)), Ok(5));
    assert_eq!(resolve_bound(&[6, 8], &prepared, IterationBound::ShapeExtent { axis: 1 }), Ok(8));
    assert_eq!(resolve_bound(&[6, 8], &prepared, IterationBound::PreparedParameter { name: "rounds" }), Ok(7));
    assert_eq!(resolve_bound(&[6, 8], &prepared, IterationBound::MinimumShapeExtent), Ok(6));
    assert_eq!(resolve_bound(&[6, 9], &prepared, IterationBound::CeilingLog2ShapeExtent { axis: 1 }), Ok(4));
    assert_eq!(
        resolve_bound(&[6, 8], &prepared, IterationBound::ShapeExtent { axis: 2 }).unwrap_err().kind,
        OperationErrorKind::IterationBoundUnresolved
    );
}
