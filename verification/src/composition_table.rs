//! The table of owned multi-stage recipes, keyed by operation symbol and,
//! where the symbol alone is ambiguous, by its source.
use vstd::prelude::*;

use crate::composition::{
    CompositionPayload, CompositionRecipe, CompositionStep, IterationBound, step_valid, steps_valid,
};
use crate::text::{contains_run, text_contains, text_eq};
use crate::types::{OperationFamily, PrimitiveFamily};

verus! {

/// The shape of a repeat bound, with a parameter name by its characters.
pub enum BoundOutline {
    Fixed(u32),
    ShapeExtent(usize),
    MinimumShapeExtent,
    CeilingLog2ShapeExtent(usize),
    PreparedParameter(Seq<char>),
}

/// The outline of a repeat bound.
pub open spec fn bound_outline(bound: IterationBound) -> BoundOutline {
    match bound {
        IterationBound::Fixed(count) => BoundOutline::Fixed(count),
        IterationBound::ShapeExtent { axis } => BoundOutline::ShapeExtent(axis),
        IterationBound::MinimumShapeExtent => BoundOutline::MinimumShapeExtent,
        IterationBound::CeilingLog2ShapeExtent { axis } => BoundOutline::CeilingLog2ShapeExtent(axis),
        IterationBound::PreparedParameter { name } => BoundOutline::PreparedParameter(name@),
    }
}

/// What a step shows: the primitive family it runs and its role, or, for a
/// repeat, its bound, its role and the outline of its body.
pub enum StepOutline {
    Primitive(PrimitiveFamily, Seq<char>),
    Repeat(BoundOutline, Seq<char>, Seq<StepOutline>),
}

/// The outline of a step inside a repeat body: a primitive shows its family
/// and role, a further nested repeat its bound and role.
pub open spec fn body_step_outline(step: CompositionStep) -> StepOutline {
    match step {
        CompositionStep::Primitive { family, role } => StepOutline::Primitive(family, role@),
        CompositionStep::Repeat { bound, role, .. } => {
            StepOutline::Repeat(bound_outline(bound), role@, Seq::empty())
        },
    }
}

/// The outline of a step of a recipe's top-level list: a primitive's family
/// and role, or a repeat's bound, role and body steps.
pub open spec fn step_outline(step: CompositionStep) -> StepOutline {
    match step {
        CompositionStep::Primitive { family, role } => StepOutline::Primitive(family, role@),
        CompositionStep::Repeat { bound, role, body } => StepOutline::Repeat(
            bound_outline(bound),
            role@,
            body@.map_values(|inner: CompositionStep| body_step_outline(inner)),
        ),
    }
}

/// The outline of every step of a list, in order.
pub open spec fn steps_outline(steps: Seq<CompositionStep>) -> Seq<StepOutline> {
    steps.map_values(|step: CompositionStep| step_outline(step))
}

/// A recipe's name, definition, payload, family and step outline.
pub open spec fn recipe_summary(recipe: CompositionRecipe) -> (
    Seq<char>,
    Seq<char>,
    CompositionPayload,
    OperationFamily,
    Seq<StepOutline>,
) {
    (recipe.name@, recipe.definition@, recipe.payload, recipe.family, steps_outline(recipe.steps@))
}

/// The outline of the `attention_backward_steps` step list.
pub open spec fn outline_attention_backward_steps() -> Seq<StepOutline> {
    seq![
        StepOutline::Primitive(PrimitiveFamily::Contraction, "form value and probability gradients"@),
        StepOutline::Primitive(PrimitiveFamily::Reduce, "compute fixed-tree softmax gradient statistics"@),
        StepOutline::Primitive(PrimitiveFamily::Elementwise, "apply the softmax Jacobian and mask"@),
        StepOutline::Primitive(PrimitiveFamily::Contraction, "form query gradients"@),
        StepOutline::Primitive(PrimitiveFamily::Contraction, "form key gradients"@),
        StepOutline::Primitive(PrimitiveFamily::Contraction, "form value gradients"@),
    ]
}

fn steps_attention_backward_steps() -> (steps: Vec<CompositionStep>)
    ensures
        steps.len() == 6,
        steps_outline(steps@) == outline_attention_backward_steps(),
        steps_valid(steps@, 0),
        steps_valid(steps@, 1),
        steps@.map_values(|inner: CompositionStep| body_step_outline(inner)) == outline_attention_backward_steps(),
{
    proof {
        reveal_strlit("apply the softmax Jacobian and mask");
        reveal_strlit("compute fixed-tree softmax gradient statistics");
        reveal_strlit("form key gradients");
        reveal_strlit("form query gradients");
        reveal_strlit("form value and probability gradients");
        reveal_strlit("form value gradients");
    }
    let steps = vec![
        CompositionStep::Primitive { family: PrimitiveFamily::Contraction, role: "form value and probability gradients" },
        CompositionStep::Primitive { family: PrimitiveFamily::Reduce, role: "compute fixed-tree softmax gradient statistics" },
        CompositionStep::Primitive { family: PrimitiveFamily::Elementwise, role: "apply the softmax Jacobian and mask" },
        CompositionStep::Primitive { family: PrimitiveFamily::Contraction, role: "form query gradients" },
        CompositionStep::Primitive { family: PrimitiveFamily::Contraction, role: "form key gradients" },
        CompositionStep::Primitive { family: PrimitiveFamily::Contraction, role: "form value gradients" },
    ];
    assert(steps_outline(steps@) =~= outline_attention_backward_steps());
    assert(steps@.map_values(|inner: CompositionStep| body_step_outline(inner)) =~= outline_attention_backward_steps());
    steps
}

/// The outline of the `attention_steps` step list.
pub open spec fn outline_attention_steps() -> Seq<StepOutline> {
    seq![
        StepOutline::Primitive(PrimitiveFamily::Contraction, "form scaled query-key scores in canonical order"@),
        StepOutline::Primitive(PrimitiveFamily::Elementwise, "apply the causal or supplied int32 mask"@),
        StepOutline::Primitive(PrimitiveFamily::Reduce, "compute fixed-tree score maxima"@),
        StepOutline::Primitive(PrimitiveFamily::Elementwise, "subtract maxima and apply the owned binary32 exponential"@),
        StepOutline::Primitive(PrimitiveFamily::Reduce, "compute fixed-tree exponential sums"@),
        StepOutline::Primitive(PrimitiveFamily::Elementwise, "divide by checked nonzero exponential sums"@),
        StepOutline::Primitive(PrimitiveFamily::Contraction, "contract normalized scores with values"@),
    ]
}

fn steps_attention_steps() -> (steps: Vec<CompositionStep>)
    ensures
        steps.len() == 7,
        steps_outline(steps@) == outline_attention_steps(),
        steps_valid(steps@, 0),
        steps_valid(steps@, 1),
        steps@.map_values(|inner: CompositionStep| body_step_outline(inner)) == outline_attention_steps(),
{
    proof {
        reveal_strlit("apply the causal or supplied int32 mask");
        reveal_strlit("compute fixed-tree exponential sums");
        reveal_strlit("compute fixed-tree score maxima");
        reveal_strlit("contract normalized scores with values");
        reveal_strlit("divide by checked nonzero exponential sums");
        reveal_strlit("form scaled query-key scores in canonical order");
        reveal_strlit("subtract maxima and apply the owned binary32 exponential");
    }
    let steps = vec![
        CompositionStep::Primitive { family: PrimitiveFamily::Contraction, role: "form scaled query-key scores in canonical order" },
        CompositionStep::Primitive { family: PrimitiveFamily::Elementwise, role: "apply the causal or supplied int32 mask" },
        CompositionStep::Primitive { family: PrimitiveFamily::Reduce, role: "compute fixed-tree score maxima" },
        CompositionStep::Primitive { family: PrimitiveFamily::Elementwise, role: "subtract maxima and apply the owned binary32 exponential" },
        CompositionStep::Primitive { family: PrimitiveFamily::Reduce, role: "compute fixed-tree exponential sums" },
        CompositionStep::Primitive { family: PrimitiveFamily::Elementwise, role: "divide by checked nonzero exponential sums" },
        CompositionStep::Primitive { family: PrimitiveFamily::Contraction, role: "contract normalized scores with values" },
    ];
    assert(steps_outline(steps@) =~= outline_attention_steps());
    assert(steps@.map_values(|inner: CompositionStep| body_step_outline(inner)) =~= outline_attention_steps());
    steps
}

/// The outline of the `bitonic_compare_steps` step list.
pub open spec fn outline_bitonic_compare_steps() -> Seq<StepOutline> {
    seq![
        StepOutline::Primitive(PrimitiveFamily::Sort, "execute exactly one prepared bitonic compare-exchange distance and merge-width level"@),
    ]
}

fn steps_bitonic_compare_steps() -> (steps: Vec<CompositionStep>)
    ensures
        steps.len() == 1,
        steps_outline(steps@) == outline_bitonic_compare_steps(),
        steps_valid(steps@, 0),
        steps_valid(steps@, 1),
        steps@.map_values(|inner: CompositionStep| body_step_outline(inner)) == outline_bitonic_compare_steps(),
{
    proof {
        reveal_strlit("execute exactly one prepared bitonic compare-exchange distance and merge-width level");
    }
    let steps = vec![
        CompositionStep::Primitive { family: PrimitiveFamily::Sort, role: "execute exactly one prepared bitonic compare-exchange distance and merge-width level" },
    ];
    assert(steps_outline(steps@) =~= outline_bitonic_compare_steps());
    assert(steps@.map_values(|inner: CompositionStep| body_step_outline(inner)) =~= outline_bitonic_compare_steps());
    steps
}

/// The outline of the `boost_train_body` step list.
pub open spec fn outline_boost_train_body() -> Seq<StepOutline> {
    seq![
        StepOutline::Primitive(PrimitiveFamily::Elementwise, "compute the source objective's f32 gradients and Hessians"@),
        StepOutline::Primitive(PrimitiveFamily::Histogram, "accumulate checked feature-bin statistics"@),
        StepOutline::Primitive(PrimitiveFamily::Scan, "form deterministic prefix statistics"@),
        StepOutline::Primitive(PrimitiveFamily::Elementwise, "score every legal split"@),
        StepOutline::Primitive(PrimitiveFamily::Reduce, "select the lowest-index maximum-gain split"@),
        StepOutline::Primitive(PrimitiveFamily::Gather, "route rows through the accepted split"@),
        StepOutline::Primitive(PrimitiveFamily::Scatter, "write checked leaf assignments and updates"@),
    ]
}

fn steps_boost_train_body() -> (steps: Vec<CompositionStep>)
    ensures
        steps.len() == 7,
        steps_outline(steps@) == outline_boost_train_body(),
        steps_valid(steps@, 0),
        steps_valid(steps@, 1),
        steps@.map_values(|inner: CompositionStep| body_step_outline(inner)) == outline_boost_train_body(),
{
    proof {
        reveal_strlit("accumulate checked feature-bin statistics");
        reveal_strlit("compute the source objective's f32 gradients and Hessians");
        reveal_strlit("form deterministic prefix statistics");
        reveal_strlit("route rows through the accepted split");
        reveal_strlit("score every legal split");
        reveal_strlit("select the lowest-index maximum-gain split");
        reveal_strlit("write checked leaf assignments and updates");
    }
    let steps = vec![
        CompositionStep::Primitive { family: PrimitiveFamily::Elementwise, role: "compute the source objective's f32 gradients and Hessians" },
        CompositionStep::Primitive { family: PrimitiveFamily::Histogram, role: "accumulate checked feature-bin statistics" },
        CompositionStep::Primitive { family: PrimitiveFamily::Scan, role: "form deterministic prefix statistics" },
        CompositionStep::Primitive { family: PrimitiveFamily::Elementwise, role: "score every legal split" },
        CompositionStep::Primitive { family: PrimitiveFamily::Reduce, role: "select the lowest-index maximum-gain split" },
        CompositionStep::Primitive { family: PrimitiveFamily::Gather, role: "route rows through the accepted split" },
        CompositionStep::Primitive { family: PrimitiveFamily::Scatter, role: "write checked leaf assignments and updates" },
    ];
    assert(steps_outline(steps@) =~= outline_boost_train_body());
    assert(steps@.map_values(|inner: CompositionStep| body_step_outline(inner)) =~= outline_boost_train_body());
    steps
}

/// The outline of the `boost_train_steps` step list.
pub open spec fn outline_boost_train_steps() -> Seq<StepOutline> {
    seq![
        StepOutline::Repeat(BoundOutline::PreparedParameter("boosting_rounds"@), "execute one statically prepared boosting round"@, outline_boost_train_body()),
    ]
}

fn steps_boost_train_steps() -> (steps: Vec<CompositionStep>)
    ensures
        steps.len() == 1,
        steps_outline(steps@) == outline_boost_train_steps(),
        steps_valid(steps@, 0),
{
    let steps_boost_train_body = steps_boost_train_body();
    proof {
        reveal_strlit("execute one statically prepared boosting round");
    }
    let steps = vec![
        CompositionStep::Repeat {
            bound: IterationBound::PreparedParameter { name: "boosting_rounds", },
            role: "execute one statically prepared boosting round",
            body: steps_boost_train_body,
        },
    ];
    proof {
        reveal_strlit("boosting_rounds");
        assert(step_valid(steps@[0], 0));
    }
    assert(steps_outline(steps@) =~= outline_boost_train_steps());
    steps
}

/// The outline of the `boruvka_body` step list.
pub open spec fn outline_boruvka_body() -> Seq<StepOutline> {
    seq![
        StepOutline::Primitive(PrimitiveFamily::Gather, "read checked component endpoints"@),
        StepOutline::Primitive(PrimitiveFamily::Reduce, "select each component's minimum edge deterministically"@),
        StepOutline::Primitive(PrimitiveFamily::Scatter, "union components with ordered atomic updates"@),
    ]
}

fn steps_boruvka_body() -> (steps: Vec<CompositionStep>)
    ensures
        steps.len() == 3,
        steps_outline(steps@) == outline_boruvka_body(),
        steps_valid(steps@, 0),
        steps_valid(steps@, 1),
        steps@.map_values(|inner: CompositionStep| body_step_outline(inner)) == outline_boruvka_body(),
{
    proof {
        reveal_strlit("read checked component endpoints");
        reveal_strlit("select each component's minimum edge deterministically");
        reveal_strlit("union components with ordered atomic updates");
    }
    let steps = vec![
        CompositionStep::Primitive { family: PrimitiveFamily::Gather, role: "read checked component endpoints" },
        CompositionStep::Primitive { family: PrimitiveFamily::Reduce, role: "select each component's minimum edge deterministically" },
        CompositionStep::Primitive { family: PrimitiveFamily::Scatter, role: "union components with ordered atomic updates" },
    ];
    assert(steps_outline(steps@) =~= outline_boruvka_body());
    assert(steps@.map_values(|inner: CompositionStep| body_step_outline(inner)) =~= outline_boruvka_body());
    steps
}

/// The outline of the `boruvka_steps` step list.
pub open spec fn outline_boruvka_steps() -> Seq<StepOutline> {
    seq![
        StepOutline::Repeat(BoundOutline::CeilingLog2ShapeExtent(0), "execute the statically bounded Boruvka contraction rounds"@, outline_boruvka_body()),
    ]
}

fn steps_boruvka_steps() -> (steps: Vec<CompositionStep>)
    ensures
        steps.len() == 1,
        steps_outline(steps@) == outline_boruvka_steps(),
        steps_valid(steps@, 0),
{
    let steps_boruvka_body = steps_boruvka_body();
    proof {
        reveal_strlit("execute the statically bounded Boruvka contraction rounds");
    }
    let steps = vec![
        CompositionStep::Repeat {
            bound: IterationBound::CeilingLog2ShapeExtent { axis: 0 },
            role: "execute the statically bounded Boruvka contraction rounds",
            body: steps_boruvka_body,
        },
    ];
    proof {
        assert(step_valid(steps@[0], 0));
    }
    assert(steps_outline(steps@) =~= outline_boruvka_steps());
    steps
}

/// The outline of the `cholesky_body` step list.
pub open spec fn outline_cholesky_body() -> Seq<StepOutline> {
    seq![
        StepOutline::Primitive(PrimitiveFamily::Reduce, "form the fixed-order diagonal or column dot product"@),
        StepOutline::Primitive(PrimitiveFamily::Elementwise, "check positivity and compute the pivot"@),
        StepOutline::Primitive(PrimitiveFamily::Scatter, "write the disjoint lower-triangular panel"@),
    ]
}

fn steps_cholesky_body() -> (steps: Vec<CompositionStep>)
    ensures
        steps.len() == 3,
        steps_outline(steps@) == outline_cholesky_body(),
        steps_valid(steps@, 0),
        steps_valid(steps@, 1),
        steps@.map_values(|inner: CompositionStep| body_step_outline(inner)) == outline_cholesky_body(),
{
    proof {
        reveal_strlit("check positivity and compute the pivot");
        reveal_strlit("form the fixed-order diagonal or column dot product");
        reveal_strlit("write the disjoint lower-triangular panel");
    }
    let steps = vec![
        CompositionStep::Primitive { family: PrimitiveFamily::Reduce, role: "form the fixed-order diagonal or column dot product" },
        CompositionStep::Primitive { family: PrimitiveFamily::Elementwise, role: "check positivity and compute the pivot" },
        CompositionStep::Primitive { family: PrimitiveFamily::Scatter, role: "write the disjoint lower-triangular panel" },
    ];
    assert(steps_outline(steps@) =~= outline_cholesky_body());
    assert(steps@.map_values(|inner: CompositionStep| body_step_outline(inner)) =~= outline_cholesky_body());
    steps
}

/// The outline of the `cholesky_steps` step list.
pub open spec fn outline_cholesky_steps() -> Seq<StepOutline> {
    seq![
        StepOutline::Repeat(BoundOutline::ShapeExtent(0), "factor one matrix column per statically counted step"@, outline_cholesky_body()),
    ]
}

fn steps_cholesky_steps() -> (steps: Vec<CompositionStep>)
    ensures
        steps.len() == 1,
        steps_outline(steps@) == outline_cholesky_steps(),
        steps_valid(steps@, 0),
{
    let steps_cholesky_body = steps_cholesky_body();
    proof {
        reveal_strlit("factor one matrix column per statically counted step");
    }
    let steps = vec![
        CompositionStep::Repeat {
            bound: IterationBound::ShapeExtent { axis: 0 },
            role: "factor one matrix column per statically counted step",
            body: steps_cholesky_body,
        },
    ];
    proof {
        assert(step_valid(steps@[0], 0));
    }
    assert(steps_outline(steps@) =~= outline_cholesky_steps());
    steps
}

/// The outline of the `contract_map` step list.
pub open spec fn outline_contract_map() -> Seq<StepOutline> {
    seq![
        StepOutline::Primitive(PrimitiveFamily::Contraction, "visit contracted coordinates in canonical order"@),
        StepOutline::Primitive(PrimitiveFamily::Elementwise, "apply the operation-specific typed scalar SSA formula"@),
    ]
}

fn steps_contract_map() -> (steps: Vec<CompositionStep>)
    ensures
        steps.len() == 2,
        steps_outline(steps@) == outline_contract_map(),
        steps_valid(steps@, 0),
        steps_valid(steps@, 1),
        steps@.map_values(|inner: CompositionStep| body_step_outline(inner)) == outline_contract_map(),
{
    proof {
        reveal_strlit("apply the operation-specific typed scalar SSA formula");
        reveal_strlit("visit contracted coordinates in canonical order");
    }
    let steps = vec![
        CompositionStep::Primitive { family: PrimitiveFamily::Contraction, role: "visit contracted coordinates in canonical order" },
        CompositionStep::Primitive { family: PrimitiveFamily::Elementwise, role: "apply the operation-specific typed scalar SSA formula" },
    ];
    assert(steps_outline(steps@) =~= outline_contract_map());
    assert(steps@.map_values(|inner: CompositionStep| body_step_outline(inner)) =~= outline_contract_map());
    steps
}

/// The outline of the `contract_map_reduce` step list.
pub open spec fn outline_contract_map_reduce() -> Seq<StepOutline> {
    seq![
        StepOutline::Primitive(PrimitiveFamily::Contraction, "visit contracted coordinates in canonical order"@),
        StepOutline::Primitive(PrimitiveFamily::Elementwise, "apply the operation-specific typed scalar SSA formula"@),
        StepOutline::Primitive(PrimitiveFamily::Reduce, "combine values with a fixed, recorded reduction tree"@),
    ]
}

fn steps_contract_map_reduce() -> (steps: Vec<CompositionStep>)
    ensures
        steps.len() == 3,
        steps_outline(steps@) == outline_contract_map_reduce(),
        steps_valid(steps@, 0),
        steps_valid(steps@, 1),
        steps@.map_values(|inner: CompositionStep| body_step_outline(inner)) == outline_contract_map_reduce(),
{
    proof {
        reveal_strlit("apply the operation-specific typed scalar SSA formula");
        reveal_strlit("combine values with a fixed, recorded reduction tree");
        reveal_strlit("visit contracted coordinates in canonical order");
    }
    let steps = vec![
        CompositionStep::Primitive { family: PrimitiveFamily::Contraction, role: "visit contracted coordinates in canonical order" },
        CompositionStep::Primitive { family: PrimitiveFamily::Elementwise, role: "apply the operation-specific typed scalar SSA formula" },
        CompositionStep::Primitive { family: PrimitiveFamily::Reduce, role: "combine values with a fixed, recorded reduction tree" },
    ];
    assert(steps_outline(steps@) =~= outline_contract_map_reduce());
    assert(steps@.map_values(|inner: CompositionStep| body_step_outline(inner)) =~= outline_contract_map_reduce());
    steps
}

/// The outline of the `conv_backward_steps` step list.
pub open spec fn outline_conv_backward_steps() -> Seq<StepOutline> {
    seq![
        StepOutline::Primitive(PrimitiveFamily::Gather, "lower the required checked gradient receptive fields"@),
        StepOutline::Primitive(PrimitiveFamily::Contraction, "contract gradients in canonical order"@),
        StepOutline::Primitive(PrimitiveFamily::Scatter, "accumulate overlapping input-gradient contributions with explicit atomics"@),
    ]
}

fn steps_conv_backward_steps() -> (steps: Vec<CompositionStep>)
    ensures
        steps.len() == 3,
        steps_outline(steps@) == outline_conv_backward_steps(),
        steps_valid(steps@, 0),
        steps_valid(steps@, 1),
        steps@.map_values(|inner: CompositionStep| body_step_outline(inner)) == outline_conv_backward_steps(),
{
    proof {
        reveal_strlit("accumulate overlapping input-gradient contributions with explicit atomics");
        reveal_strlit("contract gradients in canonical order");
        reveal_strlit("lower the required checked gradient receptive fields");
    }
    let steps = vec![
        CompositionStep::Primitive { family: PrimitiveFamily::Gather, role: "lower the required checked gradient receptive fields" },
        CompositionStep::Primitive { family: PrimitiveFamily::Contraction, role: "contract gradients in canonical order" },
        CompositionStep::Primitive { family: PrimitiveFamily::Scatter, role: "accumulate overlapping input-gradient contributions with explicit atomics" },
    ];
    assert(steps_outline(steps@) =~= outline_conv_backward_steps());
    assert(steps@.map_values(|inner: CompositionStep| body_step_outline(inner)) =~= outline_conv_backward_steps());
    steps
}

/// The outline of the `conv_steps` step list.
pub open spec fn outline_conv_steps() -> Seq<StepOutline> {
    seq![
        StepOutline::Primitive(PrimitiveFamily::Gather, "lower checked receptive fields to a static logical view"@),
        StepOutline::Primitive(PrimitiveFamily::Contraction, "contract receptive fields and filters in canonical order"@),
        StepOutline::Primitive(PrimitiveFamily::Elementwise, "apply the optional bias or activation"@),
    ]
}

fn steps_conv_steps() -> (steps: Vec<CompositionStep>)
    ensures
        steps.len() == 3,
        steps_outline(steps@) == outline_conv_steps(),
        steps_valid(steps@, 0),
        steps_valid(steps@, 1),
        steps@.map_values(|inner: CompositionStep| body_step_outline(inner)) == outline_conv_steps(),
{
    proof {
        reveal_strlit("apply the optional bias or activation");
        reveal_strlit("contract receptive fields and filters in canonical order");
        reveal_strlit("lower checked receptive fields to a static logical view");
    }
    let steps = vec![
        CompositionStep::Primitive { family: PrimitiveFamily::Gather, role: "lower checked receptive fields to a static logical view" },
        CompositionStep::Primitive { family: PrimitiveFamily::Contraction, role: "contract receptive fields and filters in canonical order" },
        CompositionStep::Primitive { family: PrimitiveFamily::Elementwise, role: "apply the optional bias or activation" },
    ];
    assert(steps_outline(steps@) =~= outline_conv_steps());
    assert(steps@.map_values(|inner: CompositionStep| body_step_outline(inner)) =~= outline_conv_steps());
    steps
}

/// The outline of the `cosine_embedding_steps` step list.
pub open spec fn outline_cosine_embedding_steps() -> Seq<StepOutline> {
    seq![
        StepOutline::Primitive(PrimitiveFamily::Elementwise, "form per-feature dot-product and squared-norm terms"@),
        StepOutline::Primitive(PrimitiveFamily::Reduce, "sum each example's dot-product terms in fixed order"@),
        StepOutline::Primitive(PrimitiveFamily::Reduce, "sum each left input squared norm in fixed order"@),
        StepOutline::Primitive(PrimitiveFamily::Reduce, "sum each right input squared norm in fixed order"@),
        StepOutline::Primitive(PrimitiveFamily::Elementwise, "apply the checked cosine and labeled margin formula per example"@),
    ]
}

fn steps_cosine_embedding_steps() -> (steps: Vec<CompositionStep>)
    ensures
        steps.len() == 5,
        steps_outline(steps@) == outline_cosine_embedding_steps(),
        steps_valid(steps@, 0),
        steps_valid(steps@, 1),
        steps@.map_values(|inner: CompositionStep| body_step_outline(inner)) == outline_cosine_embedding_steps(),
{
    proof {
        reveal_strlit("apply the checked cosine and labeled margin formula per example");
        reveal_strlit("form per-feature dot-product and squared-norm terms");
        reveal_strlit("sum each example's dot-product terms in fixed order");
        reveal_strlit("sum each left input squared norm in fixed order");
        reveal_strlit("sum each right input squared norm in fixed order");
    }
    let steps = vec![
        CompositionStep::Primitive { family: PrimitiveFamily::Elementwise, role: "form per-feature dot-product and squared-norm terms" },
        CompositionStep::Primitive { family: PrimitiveFamily::Reduce, role: "sum each example's dot-product terms in fixed order" },
        CompositionStep::Primitive { family: PrimitiveFamily::Reduce, role: "sum each left input squared norm in fixed order" },
        CompositionStep::Primitive { family: PrimitiveFamily::Reduce, role: "sum each right input squared norm in fixed order" },
        CompositionStep::Primitive { family: PrimitiveFamily::Elementwise, role: "apply the checked cosine and labeled margin formula per example" },
    ];
    assert(steps_outline(steps@) =~= outline_cosine_embedding_steps());
    assert(steps@.map_values(|inner: CompositionStep| body_step_outline(inner)) =~= outline_cosine_embedding_steps());
    steps
}

/// The outline of the `count_distinct_steps` step list.
pub open spec fn outline_count_distinct_steps() -> Seq<StepOutline> {
    seq![
        StepOutline::Primitive(PrimitiveFamily::Sort, "stably sort values by IEEE total order"@),
        StepOutline::Primitive(PrimitiveFamily::Elementwise, "mark transitions between adjacent sorted values"@),
        StepOutline::Primitive(PrimitiveFamily::Scan, "prefix-sum transition flags"@),
        StepOutline::Primitive(PrimitiveFamily::Scatter, "write unique values and run counts to bounded outputs"@),
    ]
}

fn steps_count_distinct_steps() -> (steps: Vec<CompositionStep>)
    ensures
        steps.len() == 4,
        steps_outline(steps@) == outline_count_distinct_steps(),
        steps_valid(steps@, 0),
        steps_valid(steps@, 1),
        steps@.map_values(|inner: CompositionStep| body_step_outline(inner)) == outline_count_distinct_steps(),
{
    proof {
        reveal_strlit("mark transitions between adjacent sorted values");
        reveal_strlit("prefix-sum transition flags");
        reveal_strlit("stably sort values by IEEE total order");
        reveal_strlit("write unique values and run counts to bounded outputs");
    }
    let steps = vec![
        CompositionStep::Primitive { family: PrimitiveFamily::Sort, role: "stably sort values by IEEE total order" },
        CompositionStep::Primitive { family: PrimitiveFamily::Elementwise, role: "mark transitions between adjacent sorted values" },
        CompositionStep::Primitive { family: PrimitiveFamily::Scan, role: "prefix-sum transition flags" },
        CompositionStep::Primitive { family: PrimitiveFamily::Scatter, role: "write unique values and run counts to bounded outputs" },
    ];
    assert(steps_outline(steps@) =~= outline_count_distinct_steps());
    assert(steps@.map_values(|inner: CompositionStep| body_step_outline(inner)) =~= outline_count_distinct_steps());
    steps
}

/// The outline of the `cross_entropy_steps` step list.
pub open spec fn outline_cross_entropy_steps() -> Seq<StepOutline> {
    seq![
        StepOutline::Primitive(PrimitiveFamily::Reduce, "compute each row maximum with a fixed tree"@),
        StepOutline::Primitive(PrimitiveFamily::Elementwise, "subtract row maxima and apply the owned binary32 exponential"@),
        StepOutline::Primitive(PrimitiveFamily::Reduce, "compute each row exponential sum with a fixed tree"@),
        StepOutline::Primitive(PrimitiveFamily::Gather, "read the checked int32 target logit"@),
        StepOutline::Primitive(PrimitiveFamily::Elementwise, "form row log-sum-exp minus the selected target logit"@),
    ]
}

fn steps_cross_entropy_steps() -> (steps: Vec<CompositionStep>)
    ensures
        steps.len() == 5,
        steps_outline(steps@) == outline_cross_entropy_steps(),
        steps_valid(steps@, 0),
        steps_valid(steps@, 1),
        steps@.map_values(|inner: CompositionStep| body_step_outline(inner)) == outline_cross_entropy_steps(),
{
    proof {
        reveal_strlit("compute each row exponential sum with a fixed tree");
        reveal_strlit("compute each row maximum with a fixed tree");
        reveal_strlit("form row log-sum-exp minus the selected target logit");
        reveal_strlit("read the checked int32 target logit");
        reveal_strlit("subtract row maxima and apply the owned binary32 exponential");
    }
    let steps = vec![
        CompositionStep::Primitive { family: PrimitiveFamily::Reduce, role: "compute each row maximum with a fixed tree" },
        CompositionStep::Primitive { family: PrimitiveFamily::Elementwise, role: "subtract row maxima and apply the owned binary32 exponential" },
        CompositionStep::Primitive { family: PrimitiveFamily::Reduce, role: "compute each row exponential sum with a fixed tree" },
        CompositionStep::Primitive { family: PrimitiveFamily::Gather, role: "read the checked int32 target logit" },
        CompositionStep::Primitive { family: PrimitiveFamily::Elementwise, role: "form row log-sum-exp minus the selected target logit" },
    ];
    assert(steps_outline(steps@) =~= outline_cross_entropy_steps());
    assert(steps@.map_values(|inner: CompositionStep| body_step_outline(inner)) =~= outline_cross_entropy_steps());
    steps
}

/// The outline of the `dense_argmax_accuracy_steps` step list.
pub open spec fn outline_dense_argmax_accuracy_steps() -> Seq<StepOutline> {
    seq![
        StepOutline::Primitive(PrimitiveFamily::Reduce, "select each prediction row argmax with lowest-index ties"@),
        StepOutline::Primitive(PrimitiveFamily::Reduce, "select each dense target row argmax with lowest-index ties"@),
        StepOutline::Primitive(PrimitiveFamily::Elementwise, "compare the two canonical int32 class indexes"@),
        StepOutline::Primitive(PrimitiveFamily::Reduce, "sum the per-row match flags in fixed order"@),
        StepOutline::Primitive(PrimitiveFamily::Elementwise, "multiply the match count by the checked reciprocal row count"@),
    ]
}

fn steps_dense_argmax_accuracy_steps() -> (steps: Vec<CompositionStep>)
    ensures
        steps.len() == 5,
        steps_outline(steps@) == outline_dense_argmax_accuracy_steps(),
        steps_valid(steps@, 0),
        steps_valid(steps@, 1),
        steps@.map_values(|inner: CompositionStep| body_step_outline(inner)) == outline_dense_argmax_accuracy_steps(),
{
    proof {
        reveal_strlit("compare the two canonical int32 class indexes");
        reveal_strlit("multiply the match count by the checked reciprocal row count");
        reveal_strlit("select each dense target row argmax with lowest-index ties");
        reveal_strlit("select each prediction row argmax with lowest-index ties");
        reveal_strlit("sum the per-row match flags in fixed order");
    }
    let steps = vec![
        CompositionStep::Primitive { family: PrimitiveFamily::Reduce, role: "select each prediction row argmax with lowest-index ties" },
        CompositionStep::Primitive { family: PrimitiveFamily::Reduce, role: "select each dense target row argmax with lowest-index ties" },
        CompositionStep::Primitive { family: PrimitiveFamily::Elementwise, role: "compare the two canonical int32 class indexes" },
        CompositionStep::Primitive { family: PrimitiveFamily::Reduce, role: "sum the per-row match flags in fixed order" },
        CompositionStep::Primitive { family: PrimitiveFamily::Elementwise, role: "multiply the match count by the checked reciprocal row count" },
    ];
    assert(steps_outline(steps@) =~= outline_dense_argmax_accuracy_steps());
    assert(steps@.map_values(|inner: CompositionStep| body_step_outline(inner)) =~= outline_dense_argmax_accuracy_steps());
    steps
}

/// The outline of the `distance_loss_steps` step list.
pub open spec fn outline_distance_loss_steps() -> Seq<StepOutline> {
    seq![
        StepOutline::Primitive(PrimitiveFamily::Elementwise, "form each squared feature difference"@),
        StepOutline::Primitive(PrimitiveFamily::Reduce, "sum each example's squared feature differences in fixed order"@),
        StepOutline::Primitive(PrimitiveFamily::Elementwise, "apply the operation-specific distance and margin formula per example"@),
    ]
}

fn steps_distance_loss_steps() -> (steps: Vec<CompositionStep>)
    ensures
        steps.len() == 3,
        steps_outline(steps@) == outline_distance_loss_steps(),
        steps_valid(steps@, 0),
        steps_valid(steps@, 1),
        steps@.map_values(|inner: CompositionStep| body_step_outline(inner)) == outline_distance_loss_steps(),
{
    proof {
        reveal_strlit("apply the operation-specific distance and margin formula per example");
        reveal_strlit("form each squared feature difference");
        reveal_strlit("sum each example's squared feature differences in fixed order");
    }
    let steps = vec![
        CompositionStep::Primitive { family: PrimitiveFamily::Elementwise, role: "form each squared feature difference" },
        CompositionStep::Primitive { family: PrimitiveFamily::Reduce, role: "sum each example's squared feature differences in fixed order" },
        CompositionStep::Primitive { family: PrimitiveFamily::Elementwise, role: "apply the operation-specific distance and margin formula per example" },
    ];
    assert(steps_outline(steps@) =~= outline_distance_loss_steps());
    assert(steps@.map_values(|inner: CompositionStep| body_step_outline(inner)) =~= outline_distance_loss_steps());
    steps
}

/// The outline of the `dynamic_program_body` step list.
pub open spec fn outline_dynamic_program_body() -> Seq<StepOutline> {
    seq![
        StepOutline::Primitive(PrimitiveFamily::Gather, "read legal predecessor states"@),
        StepOutline::Primitive(PrimitiveFamily::Elementwise, "form the operation-specific transition score"@),
        StepOutline::Primitive(PrimitiveFamily::Reduce, "select or combine predecessors with fixed tie breaking"@),
        StepOutline::Primitive(PrimitiveFamily::Scatter, "write the disjoint next state"@),
    ]
}

fn steps_dynamic_program_body() -> (steps: Vec<CompositionStep>)
    ensures
        steps.len() == 4,
        steps_outline(steps@) == outline_dynamic_program_body(),
        steps_valid(steps@, 0),
        steps_valid(steps@, 1),
        steps@.map_values(|inner: CompositionStep| body_step_outline(inner)) == outline_dynamic_program_body(),
{
    proof {
        reveal_strlit("form the operation-specific transition score");
        reveal_strlit("read legal predecessor states");
        reveal_strlit("select or combine predecessors with fixed tie breaking");
        reveal_strlit("write the disjoint next state");
    }
    let steps = vec![
        CompositionStep::Primitive { family: PrimitiveFamily::Gather, role: "read legal predecessor states" },
        CompositionStep::Primitive { family: PrimitiveFamily::Elementwise, role: "form the operation-specific transition score" },
        CompositionStep::Primitive { family: PrimitiveFamily::Reduce, role: "select or combine predecessors with fixed tie breaking" },
        CompositionStep::Primitive { family: PrimitiveFamily::Scatter, role: "write the disjoint next state" },
    ];
    assert(steps_outline(steps@) =~= outline_dynamic_program_body());
    assert(steps@.map_values(|inner: CompositionStep| body_step_outline(inner)) =~= outline_dynamic_program_body());
    steps
}

/// The outline of the `dynamic_program_steps` step list.
pub open spec fn outline_dynamic_program_steps() -> Seq<StepOutline> {
    seq![
        StepOutline::Repeat(BoundOutline::PreparedParameter("dynamic_program_steps"@), "advance one statically counted dynamic-programming position"@, outline_dynamic_program_body()),
    ]
}

fn steps_dynamic_program_steps() -> (steps: Vec<CompositionStep>)
    ensures
        steps.len() == 1,
        steps_outline(steps@) == outline_dynamic_program_steps(),
        steps_valid(steps@, 0),
{
    let steps_dynamic_program_body = steps_dynamic_program_body();
    proof {
        reveal_strlit("advance one statically counted dynamic-programming position");
    }
    let steps = vec![
        CompositionStep::Repeat {
            bound: IterationBound::PreparedParameter { name: "dynamic_program_steps", },
            role: "advance one statically counted dynamic-programming position",
            body: steps_dynamic_program_body,
        },
    ];
    proof {
        reveal_strlit("dynamic_program_steps");
        assert(step_valid(steps@[0], 0));
    }
    assert(steps_outline(steps@) =~= outline_dynamic_program_steps());
    steps
}

/// The outline of the `eigh_steps` step list.
pub open spec fn outline_eigh_steps() -> Seq<StepOutline> {
    seq![
        StepOutline::Repeat(BoundOutline::PreparedParameter("jacobi_sweeps"@), "execute the exact prepared Jacobi sweep count"@, outline_jacobi_body()),
        StepOutline::Primitive(PrimitiveFamily::Sort, "stable-sort eigenvalues and carry eigenvector columns with lowest-index ties"@),
    ]
}

fn steps_eigh_steps() -> (steps: Vec<CompositionStep>)
    ensures
        steps.len() == 2,
        steps_outline(steps@) == outline_eigh_steps(),
        steps_valid(steps@, 0),
{
    let steps_jacobi_body = steps_jacobi_body();
    proof {
        reveal_strlit("execute the exact prepared Jacobi sweep count");
        reveal_strlit("stable-sort eigenvalues and carry eigenvector columns with lowest-index ties");
    }
    let steps = vec![
        CompositionStep::Repeat {
            bound: IterationBound::PreparedParameter { name: "jacobi_sweeps", },
            role: "execute the exact prepared Jacobi sweep count",
            body: steps_jacobi_body,
        },
        CompositionStep::Primitive { family: PrimitiveFamily::Sort, role: "stable-sort eigenvalues and carry eigenvector columns with lowest-index ties" },
    ];
    proof {
        reveal_strlit("jacobi_sweeps");
        assert(step_valid(steps@[0], 0));
    }
    assert(steps_outline(steps@) =~= outline_eigh_steps());
    steps
}

/// The outline of the `fft_butterfly_body` step list.
pub open spec fn outline_fft_butterfly_body() -> Seq<StepOutline> {
    seq![
        StepOutline::Primitive(PrimitiveFamily::Gather, "read bit-reversed butterfly partners"@),
        StepOutline::Primitive(PrimitiveFamily::Elementwise, "apply owned sine/cosine twiddles and complex pair arithmetic"@),
        StepOutline::Primitive(PrimitiveFamily::Scatter, "write disjoint butterfly outputs"@),
    ]
}

fn steps_fft_butterfly_body() -> (steps: Vec<CompositionStep>)
    ensures
        steps.len() == 3,
        steps_outline(steps@) == outline_fft_butterfly_body(),
        steps_valid(steps@, 0),
        steps_valid(steps@, 1),
        steps@.map_values(|inner: CompositionStep| body_step_outline(inner)) == outline_fft_butterfly_body(),
{
    proof {
        reveal_strlit("apply owned sine/cosine twiddles and complex pair arithmetic");
        reveal_strlit("read bit-reversed butterfly partners");
        reveal_strlit("write disjoint butterfly outputs");
    }
    let steps = vec![
        CompositionStep::Primitive { family: PrimitiveFamily::Gather, role: "read bit-reversed butterfly partners" },
        CompositionStep::Primitive { family: PrimitiveFamily::Elementwise, role: "apply owned sine/cosine twiddles and complex pair arithmetic" },
        CompositionStep::Primitive { family: PrimitiveFamily::Scatter, role: "write disjoint butterfly outputs" },
    ];
    assert(steps_outline(steps@) =~= outline_fft_butterfly_body());
    assert(steps@.map_values(|inner: CompositionStep| body_step_outline(inner)) =~= outline_fft_butterfly_body());
    steps
}

/// The outline of the `fft_steps` step list.
pub open spec fn outline_fft_steps() -> Seq<StepOutline> {
    seq![
        StepOutline::Repeat(BoundOutline::CeilingLog2ShapeExtent(0), "execute every radix-2 Stockham stage"@, outline_fft_butterfly_body()),
    ]
}

fn steps_fft_steps() -> (steps: Vec<CompositionStep>)
    ensures
        steps.len() == 1,
        steps_outline(steps@) == outline_fft_steps(),
        steps_valid(steps@, 0),
{
    let steps_fft_butterfly_body = steps_fft_butterfly_body();
    proof {
        reveal_strlit("execute every radix-2 Stockham stage");
    }
    let steps = vec![
        CompositionStep::Repeat {
            bound: IterationBound::CeilingLog2ShapeExtent { axis: 0 },
            role: "execute every radix-2 Stockham stage",
            body: steps_fft_butterfly_body,
        },
    ];
    proof {
        assert(step_valid(steps@[0], 0));
    }
    assert(steps_outline(steps@) =~= outline_fft_steps());
    steps
}

/// The outline of the `gather_map` step list.
pub open spec fn outline_gather_map() -> Seq<StepOutline> {
    seq![
        StepOutline::Primitive(PrimitiveFamily::Gather, "perform checked int32-indexed reads"@),
        StepOutline::Primitive(PrimitiveFamily::Elementwise, "apply the operation-specific typed scalar SSA formula"@),
    ]
}

fn steps_gather_map() -> (steps: Vec<CompositionStep>)
    ensures
        steps.len() == 2,
        steps_outline(steps@) == outline_gather_map(),
        steps_valid(steps@, 0),
        steps_valid(steps@, 1),
        steps@.map_values(|inner: CompositionStep| body_step_outline(inner)) == outline_gather_map(),
{
    proof {
        reveal_strlit("apply the operation-specific typed scalar SSA formula");
        reveal_strlit("perform checked int32-indexed reads");
    }
    let steps = vec![
        CompositionStep::Primitive { family: PrimitiveFamily::Gather, role: "perform checked int32-indexed reads" },
        CompositionStep::Primitive { family: PrimitiveFamily::Elementwise, role: "apply the operation-specific typed scalar SSA formula" },
    ];
    assert(steps_outline(steps@) =~= outline_gather_map());
    assert(steps@.map_values(|inner: CompositionStep| body_step_outline(inner)) =~= outline_gather_map());
    steps
}

/// The outline of the `gather_map_reduce` step list.
pub open spec fn outline_gather_map_reduce() -> Seq<StepOutline> {
    seq![
        StepOutline::Primitive(PrimitiveFamily::Gather, "perform checked int32-indexed reads"@),
        StepOutline::Primitive(PrimitiveFamily::Elementwise, "apply the operation-specific typed scalar SSA formula"@),
        StepOutline::Primitive(PrimitiveFamily::Reduce, "combine values with a fixed, recorded reduction tree"@),
    ]
}

fn steps_gather_map_reduce() -> (steps: Vec<CompositionStep>)
    ensures
        steps.len() == 3,
        steps_outline(steps@) == outline_gather_map_reduce(),
        steps_valid(steps@, 0),
        steps_valid(steps@, 1),
        steps@.map_values(|inner: CompositionStep| body_step_outline(inner)) == outline_gather_map_reduce(),
{
    proof {
        reveal_strlit("apply the operation-specific typed scalar SSA formula");
        reveal_strlit("combine values with a fixed, recorded reduction tree");
        reveal_strlit("perform checked int32-indexed reads");
    }
    let steps = vec![
        CompositionStep::Primitive { family: PrimitiveFamily::Gather, role: "perform checked int32-indexed reads" },
        CompositionStep::Primitive { family: PrimitiveFamily::Elementwise, role: "apply the operation-specific typed scalar SSA formula" },
        CompositionStep::Primitive { family: PrimitiveFamily::Reduce, role: "combine values with a fixed, recorded reduction tree" },
    ];
    assert(steps_outline(steps@) =~= outline_gather_map_reduce());
    assert(steps@.map_values(|inner: CompositionStep| body_step_outline(inner)) =~= outline_gather_map_reduce());
    steps
}

/// The outline of the `gather_map_scatter` step list.
pub open spec fn outline_gather_map_scatter() -> Seq<StepOutline> {
    seq![
        StepOutline::Primitive(PrimitiveFamily::Gather, "perform checked int32-indexed reads"@),
        StepOutline::Primitive(PrimitiveFamily::Elementwise, "apply the operation-specific typed scalar SSA formula"@),
        StepOutline::Primitive(PrimitiveFamily::Scatter, "perform checked writes with an explicit conflict policy"@),
    ]
}

fn steps_gather_map_scatter() -> (steps: Vec<CompositionStep>)
    ensures
        steps.len() == 3,
        steps_outline(steps@) == outline_gather_map_scatter(),
        steps_valid(steps@, 0),
        steps_valid(steps@, 1),
        steps@.map_values(|inner: CompositionStep| body_step_outline(inner)) == outline_gather_map_scatter(),
{
    proof {
        reveal_strlit("apply the operation-specific typed scalar SSA formula");
        reveal_strlit("perform checked int32-indexed reads");
        reveal_strlit("perform checked writes with an explicit conflict policy");
    }
    let steps = vec![
        CompositionStep::Primitive { family: PrimitiveFamily::Gather, role: "perform checked int32-indexed reads" },
        CompositionStep::Primitive { family: PrimitiveFamily::Elementwise, role: "apply the operation-specific typed scalar SSA formula" },
        CompositionStep::Primitive { family: PrimitiveFamily::Scatter, role: "perform checked writes with an explicit conflict policy" },
    ];
    assert(steps_outline(steps@) =~= outline_gather_map_scatter());
    assert(steps@.map_values(|inner: CompositionStep| body_step_outline(inner)) =~= outline_gather_map_scatter());
    steps
}

/// The outline of the `generation_body` step list.
pub open spec fn outline_generation_body() -> Seq<StepOutline> {
    seq![
        StepOutline::Primitive(PrimitiveFamily::Gather, "read checked model, token, and KV-state slices"@),
        StepOutline::Primitive(PrimitiveFamily::Contraction, "run model contractions in canonical order"@),
        StepOutline::Primitive(PrimitiveFamily::Elementwise, "apply owned activation and normalization formulas"@),
        StepOutline::Primitive(PrimitiveFamily::Reduce, "select or score the next token with fixed tie breaking"@),
        StepOutline::Primitive(PrimitiveFamily::Scatter, "write the disjoint next token and KV-state slots within prepared bounds"@),
    ]
}

fn steps_generation_body() -> (steps: Vec<CompositionStep>)
    ensures
        steps.len() == 5,
        steps_outline(steps@) == outline_generation_body(),
        steps_valid(steps@, 0),
        steps_valid(steps@, 1),
        steps@.map_values(|inner: CompositionStep| body_step_outline(inner)) == outline_generation_body(),
{
    proof {
        reveal_strlit("apply owned activation and normalization formulas");
        reveal_strlit("read checked model, token, and KV-state slices");
        reveal_strlit("run model contractions in canonical order");
        reveal_strlit("select or score the next token with fixed tie breaking");
        reveal_strlit("write the disjoint next token and KV-state slots within prepared bounds");
    }
    let steps = vec![
        CompositionStep::Primitive { family: PrimitiveFamily::Gather, role: "read checked model, token, and KV-state slices" },
        CompositionStep::Primitive { family: PrimitiveFamily::Contraction, role: "run model contractions in canonical order" },
        CompositionStep::Primitive { family: PrimitiveFamily::Elementwise, role: "apply owned activation and normalization formulas" },
        CompositionStep::Primitive { family: PrimitiveFamily::Reduce, role: "select or score the next token with fixed tie breaking" },
        CompositionStep::Primitive { family: PrimitiveFamily::Scatter, role: "write the disjoint next token and KV-state slots within prepared bounds" },
    ];
    assert(steps_outline(steps@) =~= outline_generation_body());
    assert(steps@.map_values(|inner: CompositionStep| body_step_outline(inner)) =~= outline_generation_body());
    steps
}

/// The outline of the `generation_steps` step list.
pub open spec fn outline_generation_steps() -> Seq<StepOutline> {
    seq![
        StepOutline::Repeat(BoundOutline::PreparedParameter("maximum_generated_tokens"@), "execute one prepared autoregressive decoding position"@, outline_generation_body()),
    ]
}

fn steps_generation_steps() -> (steps: Vec<CompositionStep>)
    ensures
        steps.len() == 1,
        steps_outline(steps@) == outline_generation_steps(),
        steps_valid(steps@, 0),
{
    let steps_generation_body = steps_generation_body();
    proof {
        reveal_strlit("execute one prepared autoregressive decoding position");
    }
    let steps = vec![
        CompositionStep::Repeat {
            bound: IterationBound::PreparedParameter { name: "maximum_generated_tokens", },
            role: "execute one prepared autoregressive decoding position",
            body: steps_generation_body,
        },
    ];
    proof {
        reveal_strlit("maximum_generated_tokens");
        assert(step_valid(steps@[0], 0));
    }
    assert(steps_outline(steps@) =~= outline_generation_steps());
    steps
}

/// The outline of the `histogram_reduce_map` step list.
pub open spec fn outline_histogram_reduce_map() -> Seq<StepOutline> {
    seq![
        StepOutline::Primitive(PrimitiveFamily::Histogram, "accumulate into statically bounded bins"@),
        StepOutline::Primitive(PrimitiveFamily::Reduce, "combine values with a fixed, recorded reduction tree"@),
        StepOutline::Primitive(PrimitiveFamily::Elementwise, "apply the operation-specific typed scalar SSA formula"@),
    ]
}

fn steps_histogram_reduce_map() -> (steps: Vec<CompositionStep>)
    ensures
        steps.len() == 3,
        steps_outline(steps@) == outline_histogram_reduce_map(),
        steps_valid(steps@, 0),
        steps_valid(steps@, 1),
        steps@.map_values(|inner: CompositionStep| body_step_outline(inner)) == outline_histogram_reduce_map(),
{
    proof {
        reveal_strlit("accumulate into statically bounded bins");
        reveal_strlit("apply the operation-specific typed scalar SSA formula");
        reveal_strlit("combine values with a fixed, recorded reduction tree");
    }
    let steps = vec![
        CompositionStep::Primitive { family: PrimitiveFamily::Histogram, role: "accumulate into statically bounded bins" },
        CompositionStep::Primitive { family: PrimitiveFamily::Reduce, role: "combine values with a fixed, recorded reduction tree" },
        CompositionStep::Primitive { family: PrimitiveFamily::Elementwise, role: "apply the operation-specific typed scalar SSA formula" },
    ];
    assert(steps_outline(steps@) =~= outline_histogram_reduce_map());
    assert(steps@.map_values(|inner: CompositionStep| body_step_outline(inner)) =~= outline_histogram_reduce_map());
    steps
}

/// The outline of the `jacobi_body` step list.
pub open spec fn outline_jacobi_body() -> Seq<StepOutline> {
    seq![
        StepOutline::Primitive(PrimitiveFamily::Elementwise, "compute the stable Jacobi rotation"@),
        StepOutline::Primitive(PrimitiveFamily::Contraction, "apply the two-sided rotation in canonical order"@),
        StepOutline::Primitive(PrimitiveFamily::Reduce, "measure off-diagonal residual with a fixed tree"@),
    ]
}

fn steps_jacobi_body() -> (steps: Vec<CompositionStep>)
    ensures
        steps.len() == 3,
        steps_outline(steps@) == outline_jacobi_body(),
        steps_valid(steps@, 0),
        steps_valid(steps@, 1),
        steps@.map_values(|inner: CompositionStep| body_step_outline(inner)) == outline_jacobi_body(),
{
    proof {
        reveal_strlit("apply the two-sided rotation in canonical order");
        reveal_strlit("compute the stable Jacobi rotation");
        reveal_strlit("measure off-diagonal residual with a fixed tree");
    }
    let steps = vec![
        CompositionStep::Primitive { family: PrimitiveFamily::Elementwise, role: "compute the stable Jacobi rotation" },
        CompositionStep::Primitive { family: PrimitiveFamily::Contraction, role: "apply the two-sided rotation in canonical order" },
        CompositionStep::Primitive { family: PrimitiveFamily::Reduce, role: "measure off-diagonal residual with a fixed tree" },
    ];
    assert(steps_outline(steps@) =~= outline_jacobi_body());
    assert(steps@.map_values(|inner: CompositionStep| body_step_outline(inner)) =~= outline_jacobi_body());
    steps
}

/// The outline of the `lamb_trust_steps` step list.
pub open spec fn outline_lamb_trust_steps() -> Seq<StepOutline> {
    seq![
        StepOutline::Primitive(PrimitiveFamily::Elementwise, "form squared parameter and direction values"@),
        StepOutline::Primitive(PrimitiveFamily::Reduce, "sum squared parameter values in fixed order"@),
        StepOutline::Primitive(PrimitiveFamily::Reduce, "sum squared direction values in fixed order"@),
        StepOutline::Primitive(PrimitiveFamily::Elementwise, "form checked norms and trust ratio and update parameters"@),
    ]
}

fn steps_lamb_trust_steps() -> (steps: Vec<CompositionStep>)
    ensures
        steps.len() == 4,
        steps_outline(steps@) == outline_lamb_trust_steps(),
        steps_valid(steps@, 0),
        steps_valid(steps@, 1),
        steps@.map_values(|inner: CompositionStep| body_step_outline(inner)) == outline_lamb_trust_steps(),
{
    proof {
        reveal_strlit("form checked norms and trust ratio and update parameters");
        reveal_strlit("form squared parameter and direction values");
        reveal_strlit("sum squared direction values in fixed order");
        reveal_strlit("sum squared parameter values in fixed order");
    }
    let steps = vec![
        CompositionStep::Primitive { family: PrimitiveFamily::Elementwise, role: "form squared parameter and direction values" },
        CompositionStep::Primitive { family: PrimitiveFamily::Reduce, role: "sum squared parameter values in fixed order" },
        CompositionStep::Primitive { family: PrimitiveFamily::Reduce, role: "sum squared direction values in fixed order" },
        CompositionStep::Primitive { family: PrimitiveFamily::Elementwise, role: "form checked norms and trust ratio and update parameters" },
    ];
    assert(steps_outline(steps@) =~= outline_lamb_trust_steps());
    assert(steps@.map_values(|inner: CompositionStep| body_step_outline(inner)) =~= outline_lamb_trust_steps());
    steps
}

/// The outline of the `linear_backward_full_steps` step list.
pub open spec fn outline_linear_backward_full_steps() -> Seq<StepOutline> {
    seq![
        StepOutline::Primitive(PrimitiveFamily::Contraction, "contract the output gradient with the transposed weight to form the input gradient"@),
        StepOutline::Primitive(PrimitiveFamily::Contraction, "contract the transposed input with the output gradient to form the weight gradient"@),
        StepOutline::Primitive(PrimitiveFamily::Reduce, "sum the output gradient over rows with a fixed tree to form the bias gradient"@),
    ]
}

fn steps_linear_backward_full_steps() -> (steps: Vec<CompositionStep>)
    ensures
        steps.len() == 3,
        steps_outline(steps@) == outline_linear_backward_full_steps(),
        steps_valid(steps@, 0),
        steps_valid(steps@, 1),
        steps@.map_values(|inner: CompositionStep| body_step_outline(inner)) == outline_linear_backward_full_steps(),
{
    proof {
        reveal_strlit("contract the output gradient with the transposed weight to form the input gradient");
        reveal_strlit("contract the transposed input with the output gradient to form the weight gradient");
        reveal_strlit("sum the output gradient over rows with a fixed tree to form the bias gradient");
    }
    let steps = vec![
        CompositionStep::Primitive { family: PrimitiveFamily::Contraction, role: "contract the output gradient with the transposed weight to form the input gradient" },
        CompositionStep::Primitive { family: PrimitiveFamily::Contraction, role: "contract the transposed input with the output gradient to form the weight gradient" },
        CompositionStep::Primitive { family: PrimitiveFamily::Reduce, role: "sum the output gradient over rows with a fixed tree to form the bias gradient" },
    ];
    assert(steps_outline(steps@) =~= outline_linear_backward_full_steps());
    assert(steps@.map_values(|inner: CompositionStep| body_step_outline(inner)) =~= outline_linear_backward_full_steps());
    steps
}

/// The outline of the `linear_backward_weights_only_steps` step list.
pub open spec fn outline_linear_backward_weights_only_steps() -> Seq<StepOutline> {
    seq![
        StepOutline::Primitive(PrimitiveFamily::Contraction, "contract the transposed input with the output gradient to form the weight gradient"@),
        StepOutline::Primitive(PrimitiveFamily::Reduce, "sum the output gradient over rows with a fixed tree to form the bias gradient"@),
    ]
}

fn steps_linear_backward_weights_only_steps() -> (steps: Vec<CompositionStep>)
    ensures
        steps.len() == 2,
        steps_outline(steps@) == outline_linear_backward_weights_only_steps(),
        steps_valid(steps@, 0),
        steps_valid(steps@, 1),
        steps@.map_values(|inner: CompositionStep| body_step_outline(inner)) == outline_linear_backward_weights_only_steps(),
{
    proof {
        reveal_strlit("contract the transposed input with the output gradient to form the weight gradient");
        reveal_strlit("sum the output gradient over rows with a fixed tree to form the bias gradient");
    }
    let steps = vec![
        CompositionStep::Primitive { family: PrimitiveFamily::Contraction, role: "contract the transposed input with the output gradient to form the weight gradient" },
        CompositionStep::Primitive { family: PrimitiveFamily::Reduce, role: "sum the output gradient over rows with a fixed tree to form the bias gradient" },
    ];
    assert(steps_outline(steps@) =~= outline_linear_backward_weights_only_steps());
    assert(steps@.map_values(|inner: CompositionStep| body_step_outline(inner)) =~= outline_linear_backward_weights_only_steps());
    steps
}

/// The outline of the `log_softmax_steps` step list.
pub open spec fn outline_log_softmax_steps() -> Seq<StepOutline> {
    seq![
        StepOutline::Primitive(PrimitiveFamily::Reduce, "compute each row maximum with a fixed tree"@),
        StepOutline::Primitive(PrimitiveFamily::Elementwise, "subtract row maxima and apply the owned binary32 exponential"@),
        StepOutline::Primitive(PrimitiveFamily::Reduce, "compute each row exponential sum with a fixed tree"@),
        StepOutline::Primitive(PrimitiveFamily::Elementwise, "subtract max plus the owned logarithm of the checked row sum"@),
    ]
}

fn steps_log_softmax_steps() -> (steps: Vec<CompositionStep>)
    ensures
        steps.len() == 4,
        steps_outline(steps@) == outline_log_softmax_steps(),
        steps_valid(steps@, 0),
        steps_valid(steps@, 1),
        steps@.map_values(|inner: CompositionStep| body_step_outline(inner)) == outline_log_softmax_steps(),
{
    proof {
        reveal_strlit("compute each row exponential sum with a fixed tree");
        reveal_strlit("compute each row maximum with a fixed tree");
        reveal_strlit("subtract max plus the owned logarithm of the checked row sum");
        reveal_strlit("subtract row maxima and apply the owned binary32 exponential");
    }
    let steps = vec![
        CompositionStep::Primitive { family: PrimitiveFamily::Reduce, role: "compute each row maximum with a fixed tree" },
        CompositionStep::Primitive { family: PrimitiveFamily::Elementwise, role: "subtract row maxima and apply the owned binary32 exponential" },
        CompositionStep::Primitive { family: PrimitiveFamily::Reduce, role: "compute each row exponential sum with a fixed tree" },
        CompositionStep::Primitive { family: PrimitiveFamily::Elementwise, role: "subtract max plus the owned logarithm of the checked row sum" },
    ];
    assert(steps_outline(steps@) =~= outline_log_softmax_steps());
    assert(steps@.map_values(|inner: CompositionStep| body_step_outline(inner)) =~= outline_log_softmax_steps());
    steps
}

/// The outline of the `lu_body` step list.
pub open spec fn outline_lu_body() -> Seq<StepOutline> {
    seq![
        StepOutline::Primitive(PrimitiveFamily::Reduce, "select the absolute pivot with lowest-index tie breaking"@),
        StepOutline::Primitive(PrimitiveFamily::Gather, "apply the deterministic row permutation"@),
        StepOutline::Primitive(PrimitiveFamily::Elementwise, "check and scale the pivot column"@),
        StepOutline::Primitive(PrimitiveFamily::Contraction, "update the trailing matrix in canonical order"@),
    ]
}

fn steps_lu_body() -> (steps: Vec<CompositionStep>)
    ensures
        steps.len() == 4,
        steps_outline(steps@) == outline_lu_body(),
        steps_valid(steps@, 0),
        steps_valid(steps@, 1),
        steps@.map_values(|inner: CompositionStep| body_step_outline(inner)) == outline_lu_body(),
{
    proof {
        reveal_strlit("apply the deterministic row permutation");
        reveal_strlit("check and scale the pivot column");
        reveal_strlit("select the absolute pivot with lowest-index tie breaking");
        reveal_strlit("update the trailing matrix in canonical order");
    }
    let steps = vec![
        CompositionStep::Primitive { family: PrimitiveFamily::Reduce, role: "select the absolute pivot with lowest-index tie breaking" },
        CompositionStep::Primitive { family: PrimitiveFamily::Gather, role: "apply the deterministic row permutation" },
        CompositionStep::Primitive { family: PrimitiveFamily::Elementwise, role: "check and scale the pivot column" },
        CompositionStep::Primitive { family: PrimitiveFamily::Contraction, role: "update the trailing matrix in canonical order" },
    ];
    assert(steps_outline(steps@) =~= outline_lu_body());
    assert(steps@.map_values(|inner: CompositionStep| body_step_outline(inner)) =~= outline_lu_body());
    steps
}

/// The outline of the `lu_steps` step list.
pub open spec fn outline_lu_steps() -> Seq<StepOutline> {
    seq![
        StepOutline::Repeat(BoundOutline::MinimumShapeExtent, "factor one pivoted panel per statically counted step"@, outline_lu_body()),
    ]
}

fn steps_lu_steps() -> (steps: Vec<CompositionStep>)
    ensures
        steps.len() == 1,
        steps_outline(steps@) == outline_lu_steps(),
        steps_valid(steps@, 0),
{
    let steps_lu_body = steps_lu_body();
    proof {
        reveal_strlit("factor one pivoted panel per statically counted step");
    }
    let steps = vec![
        CompositionStep::Repeat {
            bound: IterationBound::MinimumShapeExtent,
            role: "factor one pivoted panel per statically counted step",
            body: steps_lu_body,
        },
    ];
    proof {
        assert(step_valid(steps@[0], 0));
    }
    assert(steps_outline(steps@) =~= outline_lu_steps());
    steps
}

/// The outline of the `map_histogram` step list.
pub open spec fn outline_map_histogram() -> Seq<StepOutline> {
    seq![
        StepOutline::Primitive(PrimitiveFamily::Elementwise, "apply the operation-specific typed scalar SSA formula"@),
        StepOutline::Primitive(PrimitiveFamily::Histogram, "accumulate into statically bounded bins"@),
    ]
}

fn steps_map_histogram() -> (steps: Vec<CompositionStep>)
    ensures
        steps.len() == 2,
        steps_outline(steps@) == outline_map_histogram(),
        steps_valid(steps@, 0),
        steps_valid(steps@, 1),
        steps@.map_values(|inner: CompositionStep| body_step_outline(inner)) == outline_map_histogram(),
{
    proof {
        reveal_strlit("accumulate into statically bounded bins");
        reveal_strlit("apply the operation-specific typed scalar SSA formula");
    }
    let steps = vec![
        CompositionStep::Primitive { family: PrimitiveFamily::Elementwise, role: "apply the operation-specific typed scalar SSA formula" },
        CompositionStep::Primitive { family: PrimitiveFamily::Histogram, role: "accumulate into statically bounded bins" },
    ];
    assert(steps_outline(steps@) =~= outline_map_histogram());
    assert(steps@.map_values(|inner: CompositionStep| body_step_outline(inner)) =~= outline_map_histogram());
    steps
}

/// The outline of the `map_only` step list.
pub open spec fn outline_map_only() -> Seq<StepOutline> {
    seq![
        StepOutline::Primitive(PrimitiveFamily::Elementwise, "apply the operation-specific typed scalar SSA formula"@),
    ]
}

fn steps_map_only() -> (steps: Vec<CompositionStep>)
    ensures
        steps.len() == 1,
        steps_outline(steps@) == outline_map_only(),
        steps_valid(steps@, 0),
        steps_valid(steps@, 1),
        steps@.map_values(|inner: CompositionStep| body_step_outline(inner)) == outline_map_only(),
{
    proof {
        reveal_strlit("apply the operation-specific typed scalar SSA formula");
    }
    let steps = vec![
        CompositionStep::Primitive { family: PrimitiveFamily::Elementwise, role: "apply the operation-specific typed scalar SSA formula" },
    ];
    assert(steps_outline(steps@) =~= outline_map_only());
    assert(steps@.map_values(|inner: CompositionStep| body_step_outline(inner)) =~= outline_map_only());
    steps
}

/// The outline of the `map_reduce` step list.
pub open spec fn outline_map_reduce() -> Seq<StepOutline> {
    seq![
        StepOutline::Primitive(PrimitiveFamily::Elementwise, "apply the operation-specific typed scalar SSA formula"@),
        StepOutline::Primitive(PrimitiveFamily::Reduce, "combine values with a fixed, recorded reduction tree"@),
    ]
}

fn steps_map_reduce() -> (steps: Vec<CompositionStep>)
    ensures
        steps.len() == 2,
        steps_outline(steps@) == outline_map_reduce(),
        steps_valid(steps@, 0),
        steps_valid(steps@, 1),
        steps@.map_values(|inner: CompositionStep| body_step_outline(inner)) == outline_map_reduce(),
{
    proof {
        reveal_strlit("apply the operation-specific typed scalar SSA formula");
        reveal_strlit("combine values with a fixed, recorded reduction tree");
    }
    let steps = vec![
        CompositionStep::Primitive { family: PrimitiveFamily::Elementwise, role: "apply the operation-specific typed scalar SSA formula" },
        CompositionStep::Primitive { family: PrimitiveFamily::Reduce, role: "combine values with a fixed, recorded reduction tree" },
    ];
    assert(steps_outline(steps@) =~= outline_map_reduce());
    assert(steps@.map_values(|inner: CompositionStep| body_step_outline(inner)) =~= outline_map_reduce());
    steps
}

/// The outline of the `map_reduce_map` step list.
pub open spec fn outline_map_reduce_map() -> Seq<StepOutline> {
    seq![
        StepOutline::Primitive(PrimitiveFamily::Elementwise, "apply the operation-specific typed scalar SSA formula"@),
        StepOutline::Primitive(PrimitiveFamily::Reduce, "combine values with a fixed, recorded reduction tree"@),
        StepOutline::Primitive(PrimitiveFamily::Elementwise, "apply the operation-specific typed scalar SSA formula"@),
    ]
}

fn steps_map_reduce_map() -> (steps: Vec<CompositionStep>)
    ensures
        steps.len() == 3,
        steps_outline(steps@) == outline_map_reduce_map(),
        steps_valid(steps@, 0),
        steps_valid(steps@, 1),
        steps@.map_values(|inner: CompositionStep| body_step_outline(inner)) == outline_map_reduce_map(),
{
    proof {
        reveal_strlit("apply the operation-specific typed scalar SSA formula");
        reveal_strlit("combine values with a fixed, recorded reduction tree");
    }
    let steps = vec![
        CompositionStep::Primitive { family: PrimitiveFamily::Elementwise, role: "apply the operation-specific typed scalar SSA formula" },
        CompositionStep::Primitive { family: PrimitiveFamily::Reduce, role: "combine values with a fixed, recorded reduction tree" },
        CompositionStep::Primitive { family: PrimitiveFamily::Elementwise, role: "apply the operation-specific typed scalar SSA formula" },
    ];
    assert(steps_outline(steps@) =~= outline_map_reduce_map());
    assert(steps@.map_values(|inner: CompositionStep| body_step_outline(inner)) =~= outline_map_reduce_map());
    steps
}

/// The outline of the `map_scan` step list.
pub open spec fn outline_map_scan() -> Seq<StepOutline> {
    seq![
        StepOutline::Primitive(PrimitiveFamily::Elementwise, "apply the operation-specific typed scalar SSA formula"@),
        StepOutline::Primitive(PrimitiveFamily::Scan, "apply a fixed-tree prefix recurrence"@),
    ]
}

fn steps_map_scan() -> (steps: Vec<CompositionStep>)
    ensures
        steps.len() == 2,
        steps_outline(steps@) == outline_map_scan(),
        steps_valid(steps@, 0),
        steps_valid(steps@, 1),
        steps@.map_values(|inner: CompositionStep| body_step_outline(inner)) == outline_map_scan(),
{
    proof {
        reveal_strlit("apply a fixed-tree prefix recurrence");
        reveal_strlit("apply the operation-specific typed scalar SSA formula");
    }
    let steps = vec![
        CompositionStep::Primitive { family: PrimitiveFamily::Elementwise, role: "apply the operation-specific typed scalar SSA formula" },
        CompositionStep::Primitive { family: PrimitiveFamily::Scan, role: "apply a fixed-tree prefix recurrence" },
    ];
    assert(steps_outline(steps@) =~= outline_map_scan());
    assert(steps@.map_values(|inner: CompositionStep| body_step_outline(inner)) =~= outline_map_scan());
    steps
}

/// The outline of the `map_scatter` step list.
pub open spec fn outline_map_scatter() -> Seq<StepOutline> {
    seq![
        StepOutline::Primitive(PrimitiveFamily::Elementwise, "apply the operation-specific typed scalar SSA formula"@),
        StepOutline::Primitive(PrimitiveFamily::Scatter, "perform checked writes with an explicit conflict policy"@),
    ]
}

fn steps_map_scatter() -> (steps: Vec<CompositionStep>)
    ensures
        steps.len() == 2,
        steps_outline(steps@) == outline_map_scatter(),
        steps_valid(steps@, 0),
        steps_valid(steps@, 1),
        steps@.map_values(|inner: CompositionStep| body_step_outline(inner)) == outline_map_scatter(),
{
    proof {
        reveal_strlit("apply the operation-specific typed scalar SSA formula");
        reveal_strlit("perform checked writes with an explicit conflict policy");
    }
    let steps = vec![
        CompositionStep::Primitive { family: PrimitiveFamily::Elementwise, role: "apply the operation-specific typed scalar SSA formula" },
        CompositionStep::Primitive { family: PrimitiveFamily::Scatter, role: "perform checked writes with an explicit conflict policy" },
    ];
    assert(steps_outline(steps@) =~= outline_map_scatter());
    assert(steps@.map_values(|inner: CompositionStep| body_step_outline(inner)) =~= outline_map_scatter());
    steps
}

/// The outline of the `map_sort` step list.
pub open spec fn outline_map_sort() -> Seq<StepOutline> {
    seq![
        StepOutline::Primitive(PrimitiveFamily::Elementwise, "apply the operation-specific typed scalar SSA formula"@),
        StepOutline::Primitive(PrimitiveFamily::Sort, "apply the stable total-order sorting network"@),
    ]
}

fn steps_map_sort() -> (steps: Vec<CompositionStep>)
    ensures
        steps.len() == 2,
        steps_outline(steps@) == outline_map_sort(),
        steps_valid(steps@, 0),
        steps_valid(steps@, 1),
        steps@.map_values(|inner: CompositionStep| body_step_outline(inner)) == outline_map_sort(),
{
    proof {
        reveal_strlit("apply the operation-specific typed scalar SSA formula");
        reveal_strlit("apply the stable total-order sorting network");
    }
    let steps = vec![
        CompositionStep::Primitive { family: PrimitiveFamily::Elementwise, role: "apply the operation-specific typed scalar SSA formula" },
        CompositionStep::Primitive { family: PrimitiveFamily::Sort, role: "apply the stable total-order sorting network" },
    ];
    assert(steps_outline(steps@) =~= outline_map_sort());
    assert(steps@.map_values(|inner: CompositionStep| body_step_outline(inner)) =~= outline_map_sort());
    steps
}

/// The outline of the `map_sort_gather` step list.
pub open spec fn outline_map_sort_gather() -> Seq<StepOutline> {
    seq![
        StepOutline::Primitive(PrimitiveFamily::Elementwise, "apply the operation-specific typed scalar SSA formula"@),
        StepOutline::Primitive(PrimitiveFamily::Sort, "apply the stable total-order sorting network"@),
        StepOutline::Primitive(PrimitiveFamily::Gather, "perform checked int32-indexed reads"@),
    ]
}

fn steps_map_sort_gather() -> (steps: Vec<CompositionStep>)
    ensures
        steps.len() == 3,
        steps_outline(steps@) == outline_map_sort_gather(),
        steps_valid(steps@, 0),
        steps_valid(steps@, 1),
        steps@.map_values(|inner: CompositionStep| body_step_outline(inner)) == outline_map_sort_gather(),
{
    proof {
        reveal_strlit("apply the operation-specific typed scalar SSA formula");
        reveal_strlit("apply the stable total-order sorting network");
        reveal_strlit("perform checked int32-indexed reads");
    }
    let steps = vec![
        CompositionStep::Primitive { family: PrimitiveFamily::Elementwise, role: "apply the operation-specific typed scalar SSA formula" },
        CompositionStep::Primitive { family: PrimitiveFamily::Sort, role: "apply the stable total-order sorting network" },
        CompositionStep::Primitive { family: PrimitiveFamily::Gather, role: "perform checked int32-indexed reads" },
    ];
    assert(steps_outline(steps@) =~= outline_map_sort_gather());
    assert(steps@.map_values(|inner: CompositionStep| body_step_outline(inner)) =~= outline_map_sort_gather());
    steps
}

/// The outline of the `normalize_backward_steps` step list.
pub open spec fn outline_normalize_backward_steps() -> Seq<StepOutline> {
    seq![
        StepOutline::Primitive(PrimitiveFamily::Elementwise, "form the operation-specific f32 gradient statistic terms"@),
        StepOutline::Primitive(PrimitiveFamily::Reduce, "compute the first fixed-order gradient statistic"@),
        StepOutline::Primitive(PrimitiveFamily::Reduce, "compute the second fixed-order gradient statistic"@),
        StepOutline::Primitive(PrimitiveFamily::Elementwise, "apply the analytic normalization gradient"@),
        StepOutline::Primitive(PrimitiveFamily::Reduce, "reduce affine-parameter gradients in fixed order"@),
    ]
}

fn steps_normalize_backward_steps() -> (steps: Vec<CompositionStep>)
    ensures
        steps.len() == 5,
        steps_outline(steps@) == outline_normalize_backward_steps(),
        steps_valid(steps@, 0),
        steps_valid(steps@, 1),
        steps@.map_values(|inner: CompositionStep| body_step_outline(inner)) == outline_normalize_backward_steps(),
{
    proof {
        reveal_strlit("apply the analytic normalization gradient");
        reveal_strlit("compute the first fixed-order gradient statistic");
        reveal_strlit("compute the second fixed-order gradient statistic");
        reveal_strlit("form the operation-specific f32 gradient statistic terms");
        reveal_strlit("reduce affine-parameter gradients in fixed order");
    }
    let steps = vec![
        CompositionStep::Primitive { family: PrimitiveFamily::Elementwise, role: "form the operation-specific f32 gradient statistic terms" },
        CompositionStep::Primitive { family: PrimitiveFamily::Reduce, role: "compute the first fixed-order gradient statistic" },
        CompositionStep::Primitive { family: PrimitiveFamily::Reduce, role: "compute the second fixed-order gradient statistic" },
        CompositionStep::Primitive { family: PrimitiveFamily::Elementwise, role: "apply the analytic normalization gradient" },
        CompositionStep::Primitive { family: PrimitiveFamily::Reduce, role: "reduce affine-parameter gradients in fixed order" },
    ];
    assert(steps_outline(steps@) =~= outline_normalize_backward_steps());
    assert(steps@.map_values(|inner: CompositionStep| body_step_outline(inner)) =~= outline_normalize_backward_steps());
    steps
}

/// The outline of the `normalize_steps` step list.
pub open spec fn outline_normalize_steps() -> Seq<StepOutline> {
    seq![
        StepOutline::Primitive(PrimitiveFamily::Elementwise, "form the operation-specific f32 statistic terms"@),
        StepOutline::Primitive(PrimitiveFamily::Reduce, "compute the first fixed-order row statistic"@),
        StepOutline::Primitive(PrimitiveFamily::Reduce, "compute the second fixed-order row statistic when required"@),
        StepOutline::Primitive(PrimitiveFamily::Elementwise, "normalize with the operation epsilon and apply affine parameters"@),
    ]
}

fn steps_normalize_steps() -> (steps: Vec<CompositionStep>)
    ensures
        steps.len() == 4,
        steps_outline(steps@) == outline_normalize_steps(),
        steps_valid(steps@, 0),
        steps_valid(steps@, 1),
        steps@.map_values(|inner: CompositionStep| body_step_outline(inner)) == outline_normalize_steps(),
{
    proof {
        reveal_strlit("compute the first fixed-order row statistic");
        reveal_strlit("compute the second fixed-order row statistic when required");
        reveal_strlit("form the operation-specific f32 statistic terms");
        reveal_strlit("normalize with the operation epsilon and apply affine parameters");
    }
    let steps = vec![
        CompositionStep::Primitive { family: PrimitiveFamily::Elementwise, role: "form the operation-specific f32 statistic terms" },
        CompositionStep::Primitive { family: PrimitiveFamily::Reduce, role: "compute the first fixed-order row statistic" },
        CompositionStep::Primitive { family: PrimitiveFamily::Reduce, role: "compute the second fixed-order row statistic when required" },
        CompositionStep::Primitive { family: PrimitiveFamily::Elementwise, role: "normalize with the operation epsilon and apply affine parameters" },
    ];
    assert(steps_outline(steps@) =~= outline_normalize_steps());
    assert(steps@.map_values(|inner: CompositionStep| body_step_outline(inner)) =~= outline_normalize_steps());
    steps
}

/// The outline of the `optimizer_steps` step list.
pub open spec fn outline_optimizer_steps() -> Seq<StepOutline> {
    seq![
        StepOutline::Primitive(PrimitiveFamily::Elementwise, "update optimizer state with the named recurrence"@),
        StepOutline::Primitive(PrimitiveFamily::Elementwise, "update parameters after checked scalar normalization"@),
    ]
}

fn steps_optimizer_steps() -> (steps: Vec<CompositionStep>)
    ensures
        steps.len() == 2,
        steps_outline(steps@) == outline_optimizer_steps(),
        steps_valid(steps@, 0),
        steps_valid(steps@, 1),
        steps@.map_values(|inner: CompositionStep| body_step_outline(inner)) == outline_optimizer_steps(),
{
    proof {
        reveal_strlit("update optimizer state with the named recurrence");
        reveal_strlit("update parameters after checked scalar normalization");
    }
    let steps = vec![
        CompositionStep::Primitive { family: PrimitiveFamily::Elementwise, role: "update optimizer state with the named recurrence" },
        CompositionStep::Primitive { family: PrimitiveFamily::Elementwise, role: "update parameters after checked scalar normalization" },
    ];
    assert(steps_outline(steps@) =~= outline_optimizer_steps());
    assert(steps@.map_values(|inner: CompositionStep| body_step_outline(inner)) =~= outline_optimizer_steps());
    steps
}

/// The outline of the `pairwise_l2_steps` step list.
pub open spec fn outline_pairwise_l2_steps() -> Seq<StepOutline> {
    seq![
        StepOutline::Primitive(PrimitiveFamily::Elementwise, "apply the operation-specific typed scalar SSA formula"@),
        StepOutline::Primitive(PrimitiveFamily::Reduce, "combine values with a fixed, recorded reduction tree"@),
        StepOutline::Primitive(PrimitiveFamily::Contraction, "visit contracted coordinates in canonical order"@),
        StepOutline::Primitive(PrimitiveFamily::Elementwise, "apply the operation-specific typed scalar SSA formula"@),
    ]
}

fn steps_pairwise_l2_steps() -> (steps: Vec<CompositionStep>)
    ensures
        steps.len() == 4,
        steps_outline(steps@) == outline_pairwise_l2_steps(),
        steps_valid(steps@, 0),
        steps_valid(steps@, 1),
        steps@.map_values(|inner: CompositionStep| body_step_outline(inner)) == outline_pairwise_l2_steps(),
{
    proof {
        reveal_strlit("apply the operation-specific typed scalar SSA formula");
        reveal_strlit("combine values with a fixed, recorded reduction tree");
        reveal_strlit("visit contracted coordinates in canonical order");
    }
    let steps = vec![
        CompositionStep::Primitive { family: PrimitiveFamily::Elementwise, role: "apply the operation-specific typed scalar SSA formula" },
        CompositionStep::Primitive { family: PrimitiveFamily::Reduce, role: "combine values with a fixed, recorded reduction tree" },
        CompositionStep::Primitive { family: PrimitiveFamily::Contraction, role: "visit contracted coordinates in canonical order" },
        CompositionStep::Primitive { family: PrimitiveFamily::Elementwise, role: "apply the operation-specific typed scalar SSA formula" },
    ];
    assert(steps_outline(steps@) =~= outline_pairwise_l2_steps());
    assert(steps@.map_values(|inner: CompositionStep| body_step_outline(inner)) =~= outline_pairwise_l2_steps());
    steps
}

/// The outline of the `pool_backward_steps` step list.
pub open spec fn outline_pool_backward_steps() -> Seq<StepOutline> {
    seq![
        StepOutline::Primitive(PrimitiveFamily::Gather, "reconstruct checked source-window coordinates"@),
        StepOutline::Primitive(PrimitiveFamily::Elementwise, "compute each source contribution"@),
        StepOutline::Primitive(PrimitiveFamily::Scatter, "accumulate overlapping contributions with explicit atomic addition"@),
    ]
}

fn steps_pool_backward_steps() -> (steps: Vec<CompositionStep>)
    ensures
        steps.len() == 3,
        steps_outline(steps@) == outline_pool_backward_steps(),
        steps_valid(steps@, 0),
        steps_valid(steps@, 1),
        steps@.map_values(|inner: CompositionStep| body_step_outline(inner)) == outline_pool_backward_steps(),
{
    proof {
        reveal_strlit("accumulate overlapping contributions with explicit atomic addition");
        reveal_strlit("compute each source contribution");
        reveal_strlit("reconstruct checked source-window coordinates");
    }
    let steps = vec![
        CompositionStep::Primitive { family: PrimitiveFamily::Gather, role: "reconstruct checked source-window coordinates" },
        CompositionStep::Primitive { family: PrimitiveFamily::Elementwise, role: "compute each source contribution" },
        CompositionStep::Primitive { family: PrimitiveFamily::Scatter, role: "accumulate overlapping contributions with explicit atomic addition" },
    ];
    assert(steps_outline(steps@) =~= outline_pool_backward_steps());
    assert(steps@.map_values(|inner: CompositionStep| body_step_outline(inner)) =~= outline_pool_backward_steps());
    steps
}

/// The outline of the `pool_steps` step list.
pub open spec fn outline_pool_steps() -> Seq<StepOutline> {
    seq![
        StepOutline::Primitive(PrimitiveFamily::Gather, "enumerate the checked pooling window"@),
        StepOutline::Primitive(PrimitiveFamily::Reduce, "reduce each window in a fixed order"@),
        StepOutline::Primitive(PrimitiveFamily::Elementwise, "apply the average divisor or maximum tie policy"@),
    ]
}

fn steps_pool_steps() -> (steps: Vec<CompositionStep>)
    ensures
        steps.len() == 3,
        steps_outline(steps@) == outline_pool_steps(),
        steps_valid(steps@, 0),
        steps_valid(steps@, 1),
        steps@.map_values(|inner: CompositionStep| body_step_outline(inner)) == outline_pool_steps(),
{
    proof {
        reveal_strlit("apply the average divisor or maximum tie policy");
        reveal_strlit("enumerate the checked pooling window");
        reveal_strlit("reduce each window in a fixed order");
    }
    let steps = vec![
        CompositionStep::Primitive { family: PrimitiveFamily::Gather, role: "enumerate the checked pooling window" },
        CompositionStep::Primitive { family: PrimitiveFamily::Reduce, role: "reduce each window in a fixed order" },
        CompositionStep::Primitive { family: PrimitiveFamily::Elementwise, role: "apply the average divisor or maximum tie policy" },
    ];
    assert(steps_outline(steps@) =~= outline_pool_steps());
    assert(steps@.map_values(|inner: CompositionStep| body_step_outline(inner)) =~= outline_pool_steps());
    steps
}

/// The outline of the `qr_body` step list.
pub open spec fn outline_qr_body() -> Seq<StepOutline> {
    seq![
        StepOutline::Primitive(PrimitiveFamily::Reduce, "compute the Householder norm in fixed order"@),
        StepOutline::Primitive(PrimitiveFamily::Elementwise, "construct the signed Householder reflector"@),
        StepOutline::Primitive(PrimitiveFamily::Contraction, "apply the reflector in canonical order"@),
    ]
}

fn steps_qr_body() -> (steps: Vec<CompositionStep>)
    ensures
        steps.len() == 3,
        steps_outline(steps@) == outline_qr_body(),
        steps_valid(steps@, 0),
        steps_valid(steps@, 1),
        steps@.map_values(|inner: CompositionStep| body_step_outline(inner)) == outline_qr_body(),
{
    proof {
        reveal_strlit("apply the reflector in canonical order");
        reveal_strlit("compute the Householder norm in fixed order");
        reveal_strlit("construct the signed Householder reflector");
    }
    let steps = vec![
        CompositionStep::Primitive { family: PrimitiveFamily::Reduce, role: "compute the Householder norm in fixed order" },
        CompositionStep::Primitive { family: PrimitiveFamily::Elementwise, role: "construct the signed Householder reflector" },
        CompositionStep::Primitive { family: PrimitiveFamily::Contraction, role: "apply the reflector in canonical order" },
    ];
    assert(steps_outline(steps@) =~= outline_qr_body());
    assert(steps@.map_values(|inner: CompositionStep| body_step_outline(inner)) =~= outline_qr_body());
    steps
}

/// The outline of the `qr_steps` step list.
pub open spec fn outline_qr_steps() -> Seq<StepOutline> {
    seq![
        StepOutline::Repeat(BoundOutline::MinimumShapeExtent, "apply one Householder reflector per statically counted step"@, outline_qr_body()),
    ]
}

fn steps_qr_steps() -> (steps: Vec<CompositionStep>)
    ensures
        steps.len() == 1,
        steps_outline(steps@) == outline_qr_steps(),
        steps_valid(steps@, 0),
{
    let steps_qr_body = steps_qr_body();
    proof {
        reveal_strlit("apply one Householder reflector per statically counted step");
    }
    let steps = vec![
        CompositionStep::Repeat {
            bound: IterationBound::MinimumShapeExtent,
            role: "apply one Householder reflector per statically counted step",
            body: steps_qr_body,
        },
    ];
    proof {
        assert(step_valid(steps@[0], 0));
    }
    assert(steps_outline(steps@) =~= outline_qr_steps());
    steps
}

/// The outline of the `random_gather` step list.
pub open spec fn outline_random_gather() -> Seq<StepOutline> {
    seq![
        StepOutline::Primitive(PrimitiveFamily::Random, "generate counter-keyed Philox4x32-10 values"@),
        StepOutline::Primitive(PrimitiveFamily::Gather, "perform checked int32-indexed reads"@),
    ]
}

fn steps_random_gather() -> (steps: Vec<CompositionStep>)
    ensures
        steps.len() == 2,
        steps_outline(steps@) == outline_random_gather(),
        steps_valid(steps@, 0),
        steps_valid(steps@, 1),
        steps@.map_values(|inner: CompositionStep| body_step_outline(inner)) == outline_random_gather(),
{
    proof {
        reveal_strlit("generate counter-keyed Philox4x32-10 values");
        reveal_strlit("perform checked int32-indexed reads");
    }
    let steps = vec![
        CompositionStep::Primitive { family: PrimitiveFamily::Random, role: "generate counter-keyed Philox4x32-10 values" },
        CompositionStep::Primitive { family: PrimitiveFamily::Gather, role: "perform checked int32-indexed reads" },
    ];
    assert(steps_outline(steps@) =~= outline_random_gather());
    assert(steps@.map_values(|inner: CompositionStep| body_step_outline(inner)) =~= outline_random_gather());
    steps
}

/// The outline of the `random_map` step list.
pub open spec fn outline_random_map() -> Seq<StepOutline> {
    seq![
        StepOutline::Primitive(PrimitiveFamily::Random, "generate counter-keyed Philox4x32-10 values"@),
        StepOutline::Primitive(PrimitiveFamily::Elementwise, "apply the operation-specific typed scalar SSA formula"@),
    ]
}

fn steps_random_map() -> (steps: Vec<CompositionStep>)
    ensures
        steps.len() == 2,
        steps_outline(steps@) == outline_random_map(),
        steps_valid(steps@, 0),
        steps_valid(steps@, 1),
        steps@.map_values(|inner: CompositionStep| body_step_outline(inner)) == outline_random_map(),
{
    proof {
        reveal_strlit("apply the operation-specific typed scalar SSA formula");
        reveal_strlit("generate counter-keyed Philox4x32-10 values");
    }
    let steps = vec![
        CompositionStep::Primitive { family: PrimitiveFamily::Random, role: "generate counter-keyed Philox4x32-10 values" },
        CompositionStep::Primitive { family: PrimitiveFamily::Elementwise, role: "apply the operation-specific typed scalar SSA formula" },
    ];
    assert(steps_outline(steps@) =~= outline_random_map());
    assert(steps@.map_values(|inner: CompositionStep| body_step_outline(inner)) =~= outline_random_map());
    steps
}

/// The outline of the `random_sort_gather` step list.
pub open spec fn outline_random_sort_gather() -> Seq<StepOutline> {
    seq![
        StepOutline::Primitive(PrimitiveFamily::Random, "generate counter-keyed Philox4x32-10 values"@),
        StepOutline::Primitive(PrimitiveFamily::Sort, "apply the stable total-order sorting network"@),
        StepOutline::Primitive(PrimitiveFamily::Gather, "perform checked int32-indexed reads"@),
    ]
}

fn steps_random_sort_gather() -> (steps: Vec<CompositionStep>)
    ensures
        steps.len() == 3,
        steps_outline(steps@) == outline_random_sort_gather(),
        steps_valid(steps@, 0),
        steps_valid(steps@, 1),
        steps@.map_values(|inner: CompositionStep| body_step_outline(inner)) == outline_random_sort_gather(),
{
    proof {
        reveal_strlit("apply the stable total-order sorting network");
        reveal_strlit("generate counter-keyed Philox4x32-10 values");
        reveal_strlit("perform checked int32-indexed reads");
    }
    let steps = vec![
        CompositionStep::Primitive { family: PrimitiveFamily::Random, role: "generate counter-keyed Philox4x32-10 values" },
        CompositionStep::Primitive { family: PrimitiveFamily::Sort, role: "apply the stable total-order sorting network" },
        CompositionStep::Primitive { family: PrimitiveFamily::Gather, role: "perform checked int32-indexed reads" },
    ];
    assert(steps_outline(steps@) =~= outline_random_sort_gather());
    assert(steps@.map_values(|inner: CompositionStep| body_step_outline(inner)) =~= outline_random_sort_gather());
    steps
}

/// The outline of the `reduce_map` step list.
pub open spec fn outline_reduce_map() -> Seq<StepOutline> {
    seq![
        StepOutline::Primitive(PrimitiveFamily::Reduce, "combine values with a fixed, recorded reduction tree"@),
        StepOutline::Primitive(PrimitiveFamily::Elementwise, "apply the operation-specific typed scalar SSA formula"@),
    ]
}

fn steps_reduce_map() -> (steps: Vec<CompositionStep>)
    ensures
        steps.len() == 2,
        steps_outline(steps@) == outline_reduce_map(),
        steps_valid(steps@, 0),
        steps_valid(steps@, 1),
        steps@.map_values(|inner: CompositionStep| body_step_outline(inner)) == outline_reduce_map(),
{
    proof {
        reveal_strlit("apply the operation-specific typed scalar SSA formula");
        reveal_strlit("combine values with a fixed, recorded reduction tree");
    }
    let steps = vec![
        CompositionStep::Primitive { family: PrimitiveFamily::Reduce, role: "combine values with a fixed, recorded reduction tree" },
        CompositionStep::Primitive { family: PrimitiveFamily::Elementwise, role: "apply the operation-specific typed scalar SSA formula" },
    ];
    assert(steps_outline(steps@) =~= outline_reduce_map());
    assert(steps@.map_values(|inner: CompositionStep| body_step_outline(inner)) =~= outline_reduce_map());
    steps
}

/// The outline of the `reduce_map_reduce` step list.
pub open spec fn outline_reduce_map_reduce() -> Seq<StepOutline> {
    seq![
        StepOutline::Primitive(PrimitiveFamily::Reduce, "combine values with a fixed, recorded reduction tree"@),
        StepOutline::Primitive(PrimitiveFamily::Elementwise, "apply the operation-specific typed scalar SSA formula"@),
        StepOutline::Primitive(PrimitiveFamily::Reduce, "combine values with a fixed, recorded reduction tree"@),
    ]
}

fn steps_reduce_map_reduce() -> (steps: Vec<CompositionStep>)
    ensures
        steps.len() == 3,
        steps_outline(steps@) == outline_reduce_map_reduce(),
        steps_valid(steps@, 0),
        steps_valid(steps@, 1),
        steps@.map_values(|inner: CompositionStep| body_step_outline(inner)) == outline_reduce_map_reduce(),
{
    proof {
        reveal_strlit("apply the operation-specific typed scalar SSA formula");
        reveal_strlit("combine values with a fixed, recorded reduction tree");
    }
    let steps = vec![
        CompositionStep::Primitive { family: PrimitiveFamily::Reduce, role: "combine values with a fixed, recorded reduction tree" },
        CompositionStep::Primitive { family: PrimitiveFamily::Elementwise, role: "apply the operation-specific typed scalar SSA formula" },
        CompositionStep::Primitive { family: PrimitiveFamily::Reduce, role: "combine values with a fixed, recorded reduction tree" },
    ];
    assert(steps_outline(steps@) =~= outline_reduce_map_reduce());
    assert(steps@.map_values(|inner: CompositionStep| body_step_outline(inner)) =~= outline_reduce_map_reduce());
    steps
}

/// The outline of the `report_steps` step list.
pub open spec fn outline_report_steps() -> Seq<StepOutline> {
    seq![
        StepOutline::Primitive(PrimitiveFamily::Reduce, "select each row argmax with lowest-index ties"@),
        StepOutline::Primitive(PrimitiveFamily::Histogram, "accumulate checked class totals and correct-prediction counts"@),
        StepOutline::Primitive(PrimitiveFamily::Elementwise, "compute each defined class recall"@),
        StepOutline::Primitive(PrimitiveFamily::Reduce, "sum class recalls in fixed order"@),
        StepOutline::Primitive(PrimitiveFamily::Elementwise, "divide by the prepared class count"@),
    ]
}

fn steps_report_steps() -> (steps: Vec<CompositionStep>)
    ensures
        steps.len() == 5,
        steps_outline(steps@) == outline_report_steps(),
        steps_valid(steps@, 0),
        steps_valid(steps@, 1),
        steps@.map_values(|inner: CompositionStep| body_step_outline(inner)) == outline_report_steps(),
{
    proof {
        reveal_strlit("accumulate checked class totals and correct-prediction counts");
        reveal_strlit("compute each defined class recall");
        reveal_strlit("divide by the prepared class count");
        reveal_strlit("select each row argmax with lowest-index ties");
        reveal_strlit("sum class recalls in fixed order");
    }
    let steps = vec![
        CompositionStep::Primitive { family: PrimitiveFamily::Reduce, role: "select each row argmax with lowest-index ties" },
        CompositionStep::Primitive { family: PrimitiveFamily::Histogram, role: "accumulate checked class totals and correct-prediction counts" },
        CompositionStep::Primitive { family: PrimitiveFamily::Elementwise, role: "compute each defined class recall" },
        CompositionStep::Primitive { family: PrimitiveFamily::Reduce, role: "sum class recalls in fixed order" },
        CompositionStep::Primitive { family: PrimitiveFamily::Elementwise, role: "divide by the prepared class count" },
    ];
    assert(steps_outline(steps@) =~= outline_report_steps());
    assert(steps@.map_values(|inner: CompositionStep| body_step_outline(inner)) =~= outline_report_steps());
    steps
}

/// The outline of the `rnn_cell_steps` step list.
pub open spec fn outline_rnn_cell_steps() -> Seq<StepOutline> {
    seq![
        StepOutline::Primitive(PrimitiveFamily::Contraction, "form input and recurrent affine projections"@),
        StepOutline::Primitive(PrimitiveFamily::Elementwise, "apply gates in the documented scalar order"@),
    ]
}

fn steps_rnn_cell_steps() -> (steps: Vec<CompositionStep>)
    ensures
        steps.len() == 2,
        steps_outline(steps@) == outline_rnn_cell_steps(),
        steps_valid(steps@, 0),
        steps_valid(steps@, 1),
        steps@.map_values(|inner: CompositionStep| body_step_outline(inner)) == outline_rnn_cell_steps(),
{
    proof {
        reveal_strlit("apply gates in the documented scalar order");
        reveal_strlit("form input and recurrent affine projections");
    }
    let steps = vec![
        CompositionStep::Primitive { family: PrimitiveFamily::Contraction, role: "form input and recurrent affine projections" },
        CompositionStep::Primitive { family: PrimitiveFamily::Elementwise, role: "apply gates in the documented scalar order" },
    ];
    assert(steps_outline(steps@) =~= outline_rnn_cell_steps());
    assert(steps@.map_values(|inner: CompositionStep| body_step_outline(inner)) =~= outline_rnn_cell_steps());
    steps
}

/// The outline of the `scan_map_scatter` step list.
pub open spec fn outline_scan_map_scatter() -> Seq<StepOutline> {
    seq![
        StepOutline::Primitive(PrimitiveFamily::Scan, "apply a fixed-tree prefix recurrence"@),
        StepOutline::Primitive(PrimitiveFamily::Elementwise, "apply the operation-specific typed scalar SSA formula"@),
        StepOutline::Primitive(PrimitiveFamily::Scatter, "perform checked writes with an explicit conflict policy"@),
    ]
}

fn steps_scan_map_scatter() -> (steps: Vec<CompositionStep>)
    ensures
        steps.len() == 3,
        steps_outline(steps@) == outline_scan_map_scatter(),
        steps_valid(steps@, 0),
        steps_valid(steps@, 1),
        steps@.map_values(|inner: CompositionStep| body_step_outline(inner)) == outline_scan_map_scatter(),
{
    proof {
        reveal_strlit("apply a fixed-tree prefix recurrence");
        reveal_strlit("apply the operation-specific typed scalar SSA formula");
        reveal_strlit("perform checked writes with an explicit conflict policy");
    }
    let steps = vec![
        CompositionStep::Primitive { family: PrimitiveFamily::Scan, role: "apply a fixed-tree prefix recurrence" },
        CompositionStep::Primitive { family: PrimitiveFamily::Elementwise, role: "apply the operation-specific typed scalar SSA formula" },
        CompositionStep::Primitive { family: PrimitiveFamily::Scatter, role: "perform checked writes with an explicit conflict policy" },
    ];
    assert(steps_outline(steps@) =~= outline_scan_map_scatter());
    assert(steps@.map_values(|inner: CompositionStep| body_step_outline(inner)) =~= outline_scan_map_scatter());
    steps
}

/// The outline of the `segment_reduce_steps` step list.
pub open spec fn outline_segment_reduce_steps() -> Seq<StepOutline> {
    seq![
        StepOutline::Primitive(PrimitiveFamily::Sort, "stably group values by int32 segment identifier"@),
        StepOutline::Primitive(PrimitiveFamily::Scan, "mark deterministic segment boundaries"@),
        StepOutline::Primitive(PrimitiveFamily::Reduce, "reduce each bounded segment with a fixed tree"@),
    ]
}

fn steps_segment_reduce_steps() -> (steps: Vec<CompositionStep>)
    ensures
        steps.len() == 3,
        steps_outline(steps@) == outline_segment_reduce_steps(),
        steps_valid(steps@, 0),
        steps_valid(steps@, 1),
        steps@.map_values(|inner: CompositionStep| body_step_outline(inner)) == outline_segment_reduce_steps(),
{
    proof {
        reveal_strlit("mark deterministic segment boundaries");
        reveal_strlit("reduce each bounded segment with a fixed tree");
        reveal_strlit("stably group values by int32 segment identifier");
    }
    let steps = vec![
        CompositionStep::Primitive { family: PrimitiveFamily::Sort, role: "stably group values by int32 segment identifier" },
        CompositionStep::Primitive { family: PrimitiveFamily::Scan, role: "mark deterministic segment boundaries" },
        CompositionStep::Primitive { family: PrimitiveFamily::Reduce, role: "reduce each bounded segment with a fixed tree" },
    ];
    assert(steps_outline(steps@) =~= outline_segment_reduce_steps());
    assert(steps@.map_values(|inner: CompositionStep| body_step_outline(inner)) =~= outline_segment_reduce_steps());
    steps
}

/// The outline of the `smo_train_body` step list.
pub open spec fn outline_smo_train_body() -> Seq<StepOutline> {
    seq![
        StepOutline::Primitive(PrimitiveFamily::Elementwise, "compute legal KKT violation scores"@),
        StepOutline::Primitive(PrimitiveFamily::Reduce, "select the deterministic working set"@),
        StepOutline::Primitive(PrimitiveFamily::Gather, "read the selected kernel rows"@),
        StepOutline::Primitive(PrimitiveFamily::Elementwise, "update pair coefficients and every gradient"@),
    ]
}

fn steps_smo_train_body() -> (steps: Vec<CompositionStep>)
    ensures
        steps.len() == 4,
        steps_outline(steps@) == outline_smo_train_body(),
        steps_valid(steps@, 0),
        steps_valid(steps@, 1),
        steps@.map_values(|inner: CompositionStep| body_step_outline(inner)) == outline_smo_train_body(),
{
    proof {
        reveal_strlit("compute legal KKT violation scores");
        reveal_strlit("read the selected kernel rows");
        reveal_strlit("select the deterministic working set");
        reveal_strlit("update pair coefficients and every gradient");
    }
    let steps = vec![
        CompositionStep::Primitive { family: PrimitiveFamily::Elementwise, role: "compute legal KKT violation scores" },
        CompositionStep::Primitive { family: PrimitiveFamily::Reduce, role: "select the deterministic working set" },
        CompositionStep::Primitive { family: PrimitiveFamily::Gather, role: "read the selected kernel rows" },
        CompositionStep::Primitive { family: PrimitiveFamily::Elementwise, role: "update pair coefficients and every gradient" },
    ];
    assert(steps_outline(steps@) =~= outline_smo_train_body());
    assert(steps@.map_values(|inner: CompositionStep| body_step_outline(inner)) =~= outline_smo_train_body());
    steps
}

/// The outline of the `smo_train_steps` step list.
pub open spec fn outline_smo_train_steps() -> Seq<StepOutline> {
    seq![
        StepOutline::Repeat(BoundOutline::PreparedParameter("smo_iterations"@), "execute one statically prepared SMO iteration"@, outline_smo_train_body()),
    ]
}

fn steps_smo_train_steps() -> (steps: Vec<CompositionStep>)
    ensures
        steps.len() == 1,
        steps_outline(steps@) == outline_smo_train_steps(),
        steps_valid(steps@, 0),
{
    let steps_smo_train_body = steps_smo_train_body();
    proof {
        reveal_strlit("execute one statically prepared SMO iteration");
    }
    let steps = vec![
        CompositionStep::Repeat {
            bound: IterationBound::PreparedParameter { name: "smo_iterations", },
            role: "execute one statically prepared SMO iteration",
            body: steps_smo_train_body,
        },
    ];
    proof {
        reveal_strlit("smo_iterations");
        assert(step_valid(steps@[0], 0));
    }
    assert(steps_outline(steps@) =~= outline_smo_train_steps());
    steps
}

/// The outline of the `softmax_steps` step list.
pub open spec fn outline_softmax_steps() -> Seq<StepOutline> {
    seq![
        StepOutline::Primitive(PrimitiveFamily::Reduce, "compute each row maximum with a fixed tree"@),
        StepOutline::Primitive(PrimitiveFamily::Elementwise, "subtract the row maximum and apply the owned binary32 exponential"@),
        StepOutline::Primitive(PrimitiveFamily::Reduce, "compute each row exponential sum with a fixed tree"@),
        StepOutline::Primitive(PrimitiveFamily::Elementwise, "divide each exponential by its checked nonzero row sum"@),
    ]
}

fn steps_softmax_steps() -> (steps: Vec<CompositionStep>)
    ensures
        steps.len() == 4,
        steps_outline(steps@) == outline_softmax_steps(),
        steps_valid(steps@, 0),
        steps_valid(steps@, 1),
        steps@.map_values(|inner: CompositionStep| body_step_outline(inner)) == outline_softmax_steps(),
{
    proof {
        reveal_strlit("compute each row exponential sum with a fixed tree");
        reveal_strlit("compute each row maximum with a fixed tree");
        reveal_strlit("divide each exponential by its checked nonzero row sum");
        reveal_strlit("subtract the row maximum and apply the owned binary32 exponential");
    }
    let steps = vec![
        CompositionStep::Primitive { family: PrimitiveFamily::Reduce, role: "compute each row maximum with a fixed tree" },
        CompositionStep::Primitive { family: PrimitiveFamily::Elementwise, role: "subtract the row maximum and apply the owned binary32 exponential" },
        CompositionStep::Primitive { family: PrimitiveFamily::Reduce, role: "compute each row exponential sum with a fixed tree" },
        CompositionStep::Primitive { family: PrimitiveFamily::Elementwise, role: "divide each exponential by its checked nonzero row sum" },
    ];
    assert(steps_outline(steps@) =~= outline_softmax_steps());
    assert(steps@.map_values(|inner: CompositionStep| body_step_outline(inner)) =~= outline_softmax_steps());
    steps
}

/// The outline of the `sort_gather` step list.
pub open spec fn outline_sort_gather() -> Seq<StepOutline> {
    seq![
        StepOutline::Primitive(PrimitiveFamily::Sort, "apply the stable total-order sorting network"@),
        StepOutline::Primitive(PrimitiveFamily::Gather, "perform checked int32-indexed reads"@),
    ]
}

fn steps_sort_gather() -> (steps: Vec<CompositionStep>)
    ensures
        steps.len() == 2,
        steps_outline(steps@) == outline_sort_gather(),
        steps_valid(steps@, 0),
        steps_valid(steps@, 1),
        steps@.map_values(|inner: CompositionStep| body_step_outline(inner)) == outline_sort_gather(),
{
    proof {
        reveal_strlit("apply the stable total-order sorting network");
        reveal_strlit("perform checked int32-indexed reads");
    }
    let steps = vec![
        CompositionStep::Primitive { family: PrimitiveFamily::Sort, role: "apply the stable total-order sorting network" },
        CompositionStep::Primitive { family: PrimitiveFamily::Gather, role: "perform checked int32-indexed reads" },
    ];
    assert(steps_outline(steps@) =~= outline_sort_gather());
    assert(steps@.map_values(|inner: CompositionStep| body_step_outline(inner)) =~= outline_sort_gather());
    steps
}

/// The outline of the `sort_random_gather` step list.
pub open spec fn outline_sort_random_gather() -> Seq<StepOutline> {
    seq![
        StepOutline::Primitive(PrimitiveFamily::Sort, "apply the stable total-order sorting network"@),
        StepOutline::Primitive(PrimitiveFamily::Random, "generate counter-keyed Philox4x32-10 values"@),
        StepOutline::Primitive(PrimitiveFamily::Gather, "perform checked int32-indexed reads"@),
    ]
}

fn steps_sort_random_gather() -> (steps: Vec<CompositionStep>)
    ensures
        steps.len() == 3,
        steps_outline(steps@) == outline_sort_random_gather(),
        steps_valid(steps@, 0),
        steps_valid(steps@, 1),
        steps@.map_values(|inner: CompositionStep| body_step_outline(inner)) == outline_sort_random_gather(),
{
    proof {
        reveal_strlit("apply the stable total-order sorting network");
        reveal_strlit("generate counter-keyed Philox4x32-10 values");
        reveal_strlit("perform checked int32-indexed reads");
    }
    let steps = vec![
        CompositionStep::Primitive { family: PrimitiveFamily::Sort, role: "apply the stable total-order sorting network" },
        CompositionStep::Primitive { family: PrimitiveFamily::Random, role: "generate counter-keyed Philox4x32-10 values" },
        CompositionStep::Primitive { family: PrimitiveFamily::Gather, role: "perform checked int32-indexed reads" },
    ];
    assert(steps_outline(steps@) =~= outline_sort_random_gather());
    assert(steps@.map_values(|inner: CompositionStep| body_step_outline(inner)) =~= outline_sort_random_gather());
    steps
}

/// The outline of the `sort_scan_map` step list.
pub open spec fn outline_sort_scan_map() -> Seq<StepOutline> {
    seq![
        StepOutline::Primitive(PrimitiveFamily::Sort, "apply the stable total-order sorting network"@),
        StepOutline::Primitive(PrimitiveFamily::Scan, "apply a fixed-tree prefix recurrence"@),
        StepOutline::Primitive(PrimitiveFamily::Elementwise, "apply the operation-specific typed scalar SSA formula"@),
    ]
}

fn steps_sort_scan_map() -> (steps: Vec<CompositionStep>)
    ensures
        steps.len() == 3,
        steps_outline(steps@) == outline_sort_scan_map(),
        steps_valid(steps@, 0),
        steps_valid(steps@, 1),
        steps@.map_values(|inner: CompositionStep| body_step_outline(inner)) == outline_sort_scan_map(),
{
    proof {
        reveal_strlit("apply a fixed-tree prefix recurrence");
        reveal_strlit("apply the operation-specific typed scalar SSA formula");
        reveal_strlit("apply the stable total-order sorting network");
    }
    let steps = vec![
        CompositionStep::Primitive { family: PrimitiveFamily::Sort, role: "apply the stable total-order sorting network" },
        CompositionStep::Primitive { family: PrimitiveFamily::Scan, role: "apply a fixed-tree prefix recurrence" },
        CompositionStep::Primitive { family: PrimitiveFamily::Elementwise, role: "apply the operation-specific typed scalar SSA formula" },
    ];
    assert(steps_outline(steps@) =~= outline_sort_scan_map());
    assert(steps@.map_values(|inner: CompositionStep| body_step_outline(inner)) =~= outline_sort_scan_map());
    steps
}

/// The outline of the `sort_scan_scatter` step list.
pub open spec fn outline_sort_scan_scatter() -> Seq<StepOutline> {
    seq![
        StepOutline::Primitive(PrimitiveFamily::Sort, "apply the stable total-order sorting network"@),
        StepOutline::Primitive(PrimitiveFamily::Scan, "apply a fixed-tree prefix recurrence"@),
        StepOutline::Primitive(PrimitiveFamily::Scatter, "perform checked writes with an explicit conflict policy"@),
    ]
}

fn steps_sort_scan_scatter() -> (steps: Vec<CompositionStep>)
    ensures
        steps.len() == 3,
        steps_outline(steps@) == outline_sort_scan_scatter(),
        steps_valid(steps@, 0),
        steps_valid(steps@, 1),
        steps@.map_values(|inner: CompositionStep| body_step_outline(inner)) == outline_sort_scan_scatter(),
{
    proof {
        reveal_strlit("apply a fixed-tree prefix recurrence");
        reveal_strlit("apply the stable total-order sorting network");
        reveal_strlit("perform checked writes with an explicit conflict policy");
    }
    let steps = vec![
        CompositionStep::Primitive { family: PrimitiveFamily::Sort, role: "apply the stable total-order sorting network" },
        CompositionStep::Primitive { family: PrimitiveFamily::Scan, role: "apply a fixed-tree prefix recurrence" },
        CompositionStep::Primitive { family: PrimitiveFamily::Scatter, role: "perform checked writes with an explicit conflict policy" },
    ];
    assert(steps_outline(steps@) =~= outline_sort_scan_scatter());
    assert(steps@.map_values(|inner: CompositionStep| body_step_outline(inner)) =~= outline_sort_scan_scatter());
    steps
}

/// The outline of the `svd_steps` step list.
pub open spec fn outline_svd_steps() -> Seq<StepOutline> {
    seq![
        StepOutline::Repeat(BoundOutline::MinimumShapeExtent, "bidiagonalize with statically counted Householder reflectors"@, outline_qr_body()),
        StepOutline::Repeat(BoundOutline::PreparedParameter("bidiagonal_qr_sweeps"@), "diagonalize the bidiagonal matrix with the prepared sweep count"@, outline_jacobi_body()),
    ]
}

fn steps_svd_steps() -> (steps: Vec<CompositionStep>)
    ensures
        steps.len() == 2,
        steps_outline(steps@) == outline_svd_steps(),
        steps_valid(steps@, 0),
{
    let steps_qr_body = steps_qr_body();
    let steps_jacobi_body = steps_jacobi_body();
    proof {
        reveal_strlit("bidiagonalize with statically counted Householder reflectors");
        reveal_strlit("diagonalize the bidiagonal matrix with the prepared sweep count");
    }
    let steps = vec![
        CompositionStep::Repeat {
            bound: IterationBound::MinimumShapeExtent,
            role: "bidiagonalize with statically counted Householder reflectors",
            body: steps_qr_body,
        },
        CompositionStep::Repeat {
            bound: IterationBound::PreparedParameter { name: "bidiagonal_qr_sweeps", },
            role: "diagonalize the bidiagonal matrix with the prepared sweep count",
            body: steps_jacobi_body,
        },
    ];
    proof {
        assert(step_valid(steps@[0], 0));
        reveal_strlit("bidiagonal_qr_sweeps");
        assert(step_valid(steps@[1], 0));
    }
    assert(steps_outline(steps@) =~= outline_svd_steps());
    steps
}

/// The outline of the `tree_histogram_steps` step list.
pub open spec fn outline_tree_histogram_steps() -> Seq<StepOutline> {
    seq![
        StepOutline::Primitive(PrimitiveFamily::Histogram, "accumulate fixed-layout gradient statistics by bin"@),
        StepOutline::Primitive(PrimitiveFamily::Scan, "form prefix statistics in fixed tree order"@),
        StepOutline::Primitive(PrimitiveFamily::Elementwise, "score every legal split with the named objective"@),
        StepOutline::Primitive(PrimitiveFamily::Reduce, "select the maximum gain with lowest-index tie breaking"@),
    ]
}

fn steps_tree_histogram_steps() -> (steps: Vec<CompositionStep>)
    ensures
        steps.len() == 4,
        steps_outline(steps@) == outline_tree_histogram_steps(),
        steps_valid(steps@, 0),
        steps_valid(steps@, 1),
        steps@.map_values(|inner: CompositionStep| body_step_outline(inner)) == outline_tree_histogram_steps(),
{
    proof {
        reveal_strlit("accumulate fixed-layout gradient statistics by bin");
        reveal_strlit("form prefix statistics in fixed tree order");
        reveal_strlit("score every legal split with the named objective");
        reveal_strlit("select the maximum gain with lowest-index tie breaking");
    }
    let steps = vec![
        CompositionStep::Primitive { family: PrimitiveFamily::Histogram, role: "accumulate fixed-layout gradient statistics by bin" },
        CompositionStep::Primitive { family: PrimitiveFamily::Scan, role: "form prefix statistics in fixed tree order" },
        CompositionStep::Primitive { family: PrimitiveFamily::Elementwise, role: "score every legal split with the named objective" },
        CompositionStep::Primitive { family: PrimitiveFamily::Reduce, role: "select the maximum gain with lowest-index tie breaking" },
    ];
    assert(steps_outline(steps@) =~= outline_tree_histogram_steps());
    assert(steps@.map_values(|inner: CompositionStep| body_step_outline(inner)) =~= outline_tree_histogram_steps());
    steps
}

/// The outline of the `tree_route_steps` step list.
pub open spec fn outline_tree_route_steps() -> Seq<StepOutline> {
    seq![
        StepOutline::Primitive(PrimitiveFamily::Gather, "read each row's checked feature and threshold"@),
        StepOutline::Primitive(PrimitiveFamily::Elementwise, "compute the deterministic int32 branch decision"@),
        StepOutline::Primitive(PrimitiveFamily::Scatter, "write the row or leaf assignment without conflicting writes"@),
    ]
}

fn steps_tree_route_steps() -> (steps: Vec<CompositionStep>)
    ensures
        steps.len() == 3,
        steps_outline(steps@) == outline_tree_route_steps(),
        steps_valid(steps@, 0),
        steps_valid(steps@, 1),
        steps@.map_values(|inner: CompositionStep| body_step_outline(inner)) == outline_tree_route_steps(),
{
    proof {
        reveal_strlit("compute the deterministic int32 branch decision");
        reveal_strlit("read each row's checked feature and threshold");
        reveal_strlit("write the row or leaf assignment without conflicting writes");
    }
    let steps = vec![
        CompositionStep::Primitive { family: PrimitiveFamily::Gather, role: "read each row's checked feature and threshold" },
        CompositionStep::Primitive { family: PrimitiveFamily::Elementwise, role: "compute the deterministic int32 branch decision" },
        CompositionStep::Primitive { family: PrimitiveFamily::Scatter, role: "write the row or leaf assignment without conflicting writes" },
    ];
    assert(steps_outline(steps@) =~= outline_tree_route_steps());
    assert(steps@.map_values(|inner: CompositionStep| body_step_outline(inner)) =~= outline_tree_route_steps());
    steps
}

/// The outline of the `triangular_solve_body` step list.
pub open spec fn outline_triangular_solve_body() -> Seq<StepOutline> {
    seq![
        StepOutline::Primitive(PrimitiveFamily::Reduce, "form the known-prefix dot product in fixed order"@),
        StepOutline::Primitive(PrimitiveFamily::Elementwise, "check the diagonal and solve the next component"@),
        StepOutline::Primitive(PrimitiveFamily::Scatter, "write the disjoint solved component"@),
    ]
}

fn steps_triangular_solve_body() -> (steps: Vec<CompositionStep>)
    ensures
        steps.len() == 3,
        steps_outline(steps@) == outline_triangular_solve_body(),
        steps_valid(steps@, 0),
        steps_valid(steps@, 1),
        steps@.map_values(|inner: CompositionStep| body_step_outline(inner)) == outline_triangular_solve_body(),
{
    proof {
        reveal_strlit("check the diagonal and solve the next component");
        reveal_strlit("form the known-prefix dot product in fixed order");
        reveal_strlit("write the disjoint solved component");
    }
    let steps = vec![
        CompositionStep::Primitive { family: PrimitiveFamily::Reduce, role: "form the known-prefix dot product in fixed order" },
        CompositionStep::Primitive { family: PrimitiveFamily::Elementwise, role: "check the diagonal and solve the next component" },
        CompositionStep::Primitive { family: PrimitiveFamily::Scatter, role: "write the disjoint solved component" },
    ];
    assert(steps_outline(steps@) =~= outline_triangular_solve_body());
    assert(steps@.map_values(|inner: CompositionStep| body_step_outline(inner)) =~= outline_triangular_solve_body());
    steps
}

/// The outline of the `triangular_solve_steps` step list.
pub open spec fn outline_triangular_solve_steps() -> Seq<StepOutline> {
    seq![
        StepOutline::Repeat(BoundOutline::ShapeExtent(0), "perform statically bounded forward or backward substitution"@, outline_triangular_solve_body()),
    ]
}

fn steps_triangular_solve_steps() -> (steps: Vec<CompositionStep>)
    ensures
        steps.len() == 1,
        steps_outline(steps@) == outline_triangular_solve_steps(),
        steps_valid(steps@, 0),
{
    let steps_triangular_solve_body = steps_triangular_solve_body();
    proof {
        reveal_strlit("perform statically bounded forward or backward substitution");
    }
    let steps = vec![
        CompositionStep::Repeat {
            bound: IterationBound::ShapeExtent { axis: 0 },
            role: "perform statically bounded forward or backward substitution",
            body: steps_triangular_solve_body,
        },
    ];
    proof {
        assert(step_valid(steps@[0], 0));
    }
    assert(steps_outline(steps@) =~= outline_triangular_solve_steps());
    steps
}

/// The outline of the `triplet_loss_steps` step list.
pub open spec fn outline_triplet_loss_steps() -> Seq<StepOutline> {
    seq![
        StepOutline::Primitive(PrimitiveFamily::Elementwise, "form anchor-positive and anchor-negative squared feature differences"@),
        StepOutline::Primitive(PrimitiveFamily::Reduce, "sum each anchor-positive distance in fixed order"@),
        StepOutline::Primitive(PrimitiveFamily::Reduce, "sum each anchor-negative distance in fixed order"@),
        StepOutline::Primitive(PrimitiveFamily::Elementwise, "apply the prepared triplet margin branch per example"@),
    ]
}

fn steps_triplet_loss_steps() -> (steps: Vec<CompositionStep>)
    ensures
        steps.len() == 4,
        steps_outline(steps@) == outline_triplet_loss_steps(),
        steps_valid(steps@, 0),
        steps_valid(steps@, 1),
        steps@.map_values(|inner: CompositionStep| body_step_outline(inner)) == outline_triplet_loss_steps(),
{
    proof {
        reveal_strlit("apply the prepared triplet margin branch per example");
        reveal_strlit("form anchor-positive and anchor-negative squared feature differences");
        reveal_strlit("sum each anchor-negative distance in fixed order");
        reveal_strlit("sum each anchor-positive distance in fixed order");
    }
    let steps = vec![
        CompositionStep::Primitive { family: PrimitiveFamily::Elementwise, role: "form anchor-positive and anchor-negative squared feature differences" },
        CompositionStep::Primitive { family: PrimitiveFamily::Reduce, role: "sum each anchor-positive distance in fixed order" },
        CompositionStep::Primitive { family: PrimitiveFamily::Reduce, role: "sum each anchor-negative distance in fixed order" },
        CompositionStep::Primitive { family: PrimitiveFamily::Elementwise, role: "apply the prepared triplet margin branch per example" },
    ];
    assert(steps_outline(steps@) =~= outline_triplet_loss_steps());
    assert(steps@.map_values(|inner: CompositionStep| body_step_outline(inner)) =~= outline_triplet_loss_steps());
    steps
}

/// The outline of the `union_find_body` step list.
pub open spec fn outline_union_find_body() -> Seq<StepOutline> {
    seq![
        StepOutline::Primitive(PrimitiveFamily::Gather, "follow checked parent indexes"@),
        StepOutline::Primitive(PrimitiveFamily::Elementwise, "select the canonical minimum representative"@),
        StepOutline::Primitive(PrimitiveFamily::Scatter, "publish parent compression with ordered atomics"@),
    ]
}

fn steps_union_find_body() -> (steps: Vec<CompositionStep>)
    ensures
        steps.len() == 3,
        steps_outline(steps@) == outline_union_find_body(),
        steps_valid(steps@, 0),
        steps_valid(steps@, 1),
        steps@.map_values(|inner: CompositionStep| body_step_outline(inner)) == outline_union_find_body(),
{
    proof {
        reveal_strlit("follow checked parent indexes");
        reveal_strlit("publish parent compression with ordered atomics");
        reveal_strlit("select the canonical minimum representative");
    }
    let steps = vec![
        CompositionStep::Primitive { family: PrimitiveFamily::Gather, role: "follow checked parent indexes" },
        CompositionStep::Primitive { family: PrimitiveFamily::Elementwise, role: "select the canonical minimum representative" },
        CompositionStep::Primitive { family: PrimitiveFamily::Scatter, role: "publish parent compression with ordered atomics" },
    ];
    assert(steps_outline(steps@) =~= outline_union_find_body());
    assert(steps@.map_values(|inner: CompositionStep| body_step_outline(inner)) =~= outline_union_find_body());
    steps
}

/// The outline of the `union_find_steps` step list.
pub open spec fn outline_union_find_steps() -> Seq<StepOutline> {
    seq![
        StepOutline::Repeat(BoundOutline::CeilingLog2ShapeExtent(0), "execute the bounded pointer-jumping rounds"@, outline_union_find_body()),
    ]
}

fn steps_union_find_steps() -> (steps: Vec<CompositionStep>)
    ensures
        steps.len() == 1,
        steps_outline(steps@) == outline_union_find_steps(),
        steps_valid(steps@, 0),
{
    let steps_union_find_body = steps_union_find_body();
    proof {
        reveal_strlit("execute the bounded pointer-jumping rounds");
    }
    let steps = vec![
        CompositionStep::Repeat {
            bound: IterationBound::CeilingLog2ShapeExtent { axis: 0 },
            role: "execute the bounded pointer-jumping rounds",
            body: steps_union_find_body,
        },
    ];
    proof {
        assert(step_valid(steps@[0], 0));
    }
    assert(steps_outline(steps@) =~= outline_union_find_steps());
    steps
}

/// The recipe summaries of table part 0, by symbol.
pub open spec fn symbol_entry_0(symbol: Seq<char>) -> Option<(Seq<char>, Seq<char>, CompositionPayload, OperationFamily, Seq<StepOutline>)> {
    if symbol == "convert"@ || symbol == "dequant_f32"@ || symbol == "gpu_convert"@ {
        Some(("checked_dequantization"@, "decode the prepare-selected quantized representation with checked int32 fields and produce canonical f32 payload values"@, CompositionPayload::F32OrI32, OperationFamily::Quantization, outline_map_only()))
    } else if symbol == "generate"@ {
        Some(("bounded_autoregressive_generation"@, "run the prepared inference graph and counter-keyed or greedy token selection for the exact configured token bound"@, CompositionPayload::F32AndI32, OperationFamily::Inference, outline_generation_steps()))
    } else if symbol == "gpu_accuracy_into"@ {
        Some(("binary_accuracy"@, "threshold predictions and targets at canonical f32 0.5, sum int32 matches in a fixed tree, and multiply by the checked reciprocal element count"@, CompositionPayload::F32AndI32, OperationFamily::Metric, outline_map_reduce_map()))
    } else if symbol == "gpu_accuracy"@ {
        Some(("multiclass_correct_count"@, "select each prediction row argmax with lowest-index ties, compare with the checked int32 target, and return the fixed-order sum of matches"@, CompositionPayload::F32AndI32, OperationFamily::Metric, outline_reduce_map_reduce()))
    } else if symbol == "gpu_argmax_accuracy_into"@ {
        Some(("dense_multiclass_accuracy"@, "select prediction and dense-target row argmaxes with lowest-index ties, compare them, sum matches in fixed order, and normalize by row count"@, CompositionPayload::F32AndI32, OperationFamily::Metric, outline_dense_argmax_accuracy_steps()))
    } else if symbol == "gpu_adagrad_update"@ {
        Some(("adagrad_update"@, "accumulate squared gradients and update parameters with the checked square-root denominator"@, CompositionPayload::F32, OperationFamily::Optimizer, outline_optimizer_steps()))
    } else if symbol == "gpu_adam_update"@ {
        Some(("adam_update"@, "update first and second moments, apply prepared bias corrections, and update parameters in documented scalar order"@, CompositionPayload::F32, OperationFamily::Optimizer, outline_optimizer_steps()))
    } else if symbol == "gpu_adamw_update"@ {
        Some(("adamw_update"@, "apply decoupled weight decay, update Adam moments, and update parameters in documented scalar order"@, CompositionPayload::F32, OperationFamily::Optimizer, outline_optimizer_steps()))
    } else if symbol == "gpu_add_col"@ {
        Some(("column_add"@, "gather the selected checked column, add the supplied f32 column elementwise, and scatter it into a copied matrix image"@, CompositionPayload::F32AndI32, OperationFamily::ShapeAndIndexing, outline_gather_map_scatter()))
    } else if symbol == "gpu_add_col_scaled_inplace"@ {
        Some(("scaled_column_accumulate"@, "gather the selected checked column, form matrix plus scale times column with explicit f32 operations, and scatter back in place"@, CompositionPayload::F32AndI32, OperationFamily::ShapeAndIndexing, outline_gather_map_scatter()))
    } else if symbol == "gpu_add_diag"@ {
        Some(("diagonal_add"@, "gather checked diagonal coordinates, add the supplied f32 diagonal value, and scatter to disjoint diagonal locations"@, CompositionPayload::F32AndI32, OperationFamily::ShapeAndIndexing, outline_gather_map_scatter()))
    } else if symbol == "gpu_argmax_write_split"@ {
        Some(("argmax_split_write"@, "reduce gain values to the lowest-index maximum and decode and write its feature and bin coordinates"@, CompositionPayload::F32AndI32, OperationFamily::Tree, outline_reduce_map()))
    } else if symbol == "gpu_argsort"@ {
        Some(("argsort"@, "stable-sort f32 values by IEEE total order while carrying original int32 indexes and expose the index result"@, CompositionPayload::F32AndI32, OperationFamily::ShapeAndIndexing, outline_sort_gather()))
    } else if symbol == "gpu_avg_pool_1d"@ || symbol == "gpu_avg_pool_2d"@ || symbol == "gpu_avg_pool_2d_f32"@ {
        Some(("average_pool"@, "gather each checked pooling window, reduce it with a fixed sum tree, and divide by the documented window divisor"@, CompositionPayload::F32, OperationFamily::Pooling, outline_pool_steps()))
    } else if symbol == "gpu_avg_pool_2d_backward"@ || symbol == "gpu_avg_pool_2d_backward_f32"@ {
        Some(("average_pool_backward"@, "expand output gradients by the documented window divisor and atomically accumulate overlapping source contributions"@, CompositionPayload::F32, OperationFamily::Pooling, outline_pool_backward_steps()))
    } else if symbol == "gpu_batchnorm_forward"@ {
        Some(("batch_normalization_training"@, "compute fixed-order channel mean and variance, normalize, and apply f32 scale and bias"@, CompositionPayload::F32, OperationFamily::Normalization, outline_normalize_steps()))
    } else {
        None
    }
}

/// The recipe summaries of table part 1, by symbol.
pub open spec fn symbol_entry_1(symbol: Seq<char>) -> Option<(Seq<char>, Seq<char>, CompositionPayload, OperationFamily, Seq<StepOutline>)> {
    if symbol == "gpu_batchnorm_inference"@ {
        Some(("batch_normalization_inference"@, "normalize with prepared running statistics and apply f32 scale and bias"@, CompositionPayload::F32, OperationFamily::Normalization, outline_map_only()))
    } else if symbol == "gpu_batchnorm_backward"@ {
        Some(("batch_normalization_backward"@, "compute fixed-order channel gradient statistics and the analytic input, scale, and bias gradients"@, CompositionPayload::F32, OperationFamily::Normalization, outline_normalize_backward_steps()))
    } else if symbol == "gpu_bce_with_logits"@ {
        Some(("binary_cross_entropy_with_logits"@, "write max(logit,0)-logit*target+log1p(exp(-abs(logit))) and sigmoid(logit)-target per element"@, CompositionPayload::F32, OperationFamily::Loss, outline_map_only()))
    } else if symbol == "gpu_bernoulli_into"@ || symbol == "gpu_bernoulli_u8"@ {
        Some(("bernoulli_i32"@, "generate counter-keyed uniform f32 values and compare with the checked probability to produce canonical int32 masks"@, CompositionPayload::F32AndI32, OperationFamily::Random, outline_random_map()))
    } else if symbol == "gpu_bernoulli_nb_logprob"@ {
        Some(("bernoulli_naive_bayes_log_probability"@, "select each binary feature log probability, add its complement term, and reduce features in fixed order"@, CompositionPayload::F32AndI32, OperationFamily::Bayesian, outline_map_reduce()))
    } else if symbol == "gpu_bin_edges_quantile"@ {
        Some(("quantile_bin_edges"@, "stable-sort each feature by IEEE total order and gather the deterministic prepared quantile indexes"@, CompositionPayload::F32AndI32, OperationFamily::Encoding, outline_sort_gather()))
    } else if symbol == "gpu_bin_edges_uniform"@ {
        Some(("uniform_bin_edges"@, "form every edge from the fixed-order feature minimum, maximum, bin index, and prepared bin count"@, CompositionPayload::F32AndI32, OperationFamily::Encoding, outline_map_only()))
    } else if symbol == "gpu_bitonic_step"@ || symbol == "gpu_bitonic_step_dd"@ || symbol == "gpu_bitonic_step_idx"@ {
        Some(("sorting_network_compare_exchange"@, "execute the named prepared bitonic compare-exchange level with IEEE total ordering and original-index tie breaking"@, CompositionPayload::F32AndI32, OperationFamily::ShapeAndIndexing, outline_bitonic_compare_steps()))
    } else if symbol == "gpu_bn_update_running"@ {
        Some(("batch_normalization_running_update"@, "update running mean and variance as momentum*running+(1-momentum)*observed in explicit scalar order"@, CompositionPayload::F32, OperationFamily::Normalization, outline_map_only()))
    } else if symbol == "gpu_bootstrap_sample"@ {
        Some(("bootstrap_sample"@, "generate counter-keyed uniform int32 row indexes and gather the corresponding rows with checked bounds"@, CompositionPayload::F32AndI32, OperationFamily::Tree, outline_random_gather()))
    } else if symbol == "gpu_boruvka_mst"@ {
        Some(("boruvka_minimum_spanning_tree"@, "run the statically bounded Boruvka rounds with deterministic minimum-edge ties and ordered component unions"@, CompositionPayload::F32AndI32, OperationFamily::Clustering, outline_boruvka_steps()))
    } else if symbol == "gpu_candidate_generate"@ {
        Some(("frequent_item_candidate_generation"@, "stably group the sorted itemsets, mark legal joins, prefix-sum the marks, and scatter candidates to bounded output slots"@, CompositionPayload::F32AndI32, OperationFamily::Other, outline_sort_scan_scatter()))
    } else if symbol == "gpu_categorical_logprob"@ {
        Some(("categorical_log_probability"@, "gather the checked selected action probability and apply the owned binary32 logarithm"@, CompositionPayload::F32AndI32, OperationFamily::ReinforcementLearning, outline_gather_map()))
    } else if symbol == "gpu_causal_softmax_rows"@ {
        Some(("causal_row_softmax"@, "apply the causal int32 mask then compute max-subtracted row softmax with fixed reduction trees"@, CompositionPayload::F32AndI32, OperationFamily::Attention, outline_softmax_steps()))
    } else if symbol == "gpu_centroid_update"@ {
        Some(("centroid_update"@, "scatter-add rows into assigned centroid sums and counts, then divide nonempty sums by deterministic counts"@, CompositionPayload::F32AndI32, OperationFamily::Clustering, outline_gather_map_scatter()))
    } else if symbol == "gpu_cholesky"@ {
        Some(("cholesky_factorization"@, "factor a positive-definite f32 matrix column by column with fixed-order dots and device-fault checks"@, CompositionPayload::F32, OperationFamily::Solver, outline_cholesky_steps()))
    } else {
        None
    }
}

/// The recipe summaries of table part 2, by symbol.
pub open spec fn symbol_entry_2(symbol: Seq<char>) -> Option<(Seq<char>, Seq<char>, CompositionPayload, OperationFamily, Seq<StepOutline>)> {
    if symbol == "gpu_cholesky_solve"@ || symbol == "gpu_potrs"@ {
        Some(("cholesky_solve"@, "solve against the Cholesky factors with statically bounded forward and backward substitution"@, CompositionPayload::F32, OperationFamily::Solver, outline_triangular_solve_steps()))
    } else if symbol == "gpu_cholesky_inv"@ {
        Some(("cholesky_inverse"@, "solve the Cholesky factors against the canonical identity columns and write the symmetric inverse"@, CompositionPayload::F32, OperationFamily::Solver, outline_triangular_solve_steps()))
    } else if symbol == "gpu_col2im_1d"@ || symbol == "gpu_col2im_2d"@ || symbol == "gpu_col2im_2d_ext"@ {
        Some(("column_to_image"@, "map checked lowered-column coordinates back to image coordinates and atomically add overlapping values"@, CompositionPayload::F32AndI32, OperationFamily::Convolution, outline_gather_map_scatter()))
    } else if symbol == "gpu_concat_into"@ || symbol == "gpu_vconcat"@ {
        Some(("tensor_concatenation"@, "gather from the selected source view at each checked output coordinate and write disjoint output elements"@, CompositionPayload::F32AndI32, OperationFamily::ShapeAndIndexing, outline_gather_map()))
    } else if symbol == "gpu_contrastive_loss"@ {
        Some(("contrastive_loss"@, "compute each pair's fixed-order squared feature distance and write its documented positive or margin branch"@, CompositionPayload::F32, OperationFamily::Loss, outline_distance_loss_steps()))
    } else if symbol == "gpu_conv1d_into"@ {
        Some(("convolution_1d"@, "lower checked one-dimensional receptive fields, contract with filters, and apply the optional bias"@, CompositionPayload::F32, OperationFamily::Convolution, outline_conv_steps()))
    } else if symbol == "gpu_conv1d_backward_data_into"@ || symbol == "gpu_conv1d_backward_filter_into"@ || symbol == "gpu_conv1d_backward_bias_into"@ {
        Some(("convolution_1d_backward"@, "form the requested input, filter, or bias gradient with checked receptive fields and canonical contractions"@, CompositionPayload::F32, OperationFamily::Convolution, outline_conv_backward_steps()))
    } else if symbol == "gpu_core_distance"@ {
        Some(("core_distance"@, "form checked pairwise distances, stable-select the prepared neighbor rank, and return its distance"@, CompositionPayload::F32AndI32, OperationFamily::Clustering, outline_map_sort_gather()))
    } else if symbol == "gpu_cosine_embedding_loss"@ {
        Some(("cosine_embedding_loss"@, "compute each example's fixed-order dot product and norms and write its labeled cosine margin branch"@, CompositionPayload::F32AndI32, OperationFamily::Loss, outline_cosine_embedding_steps()))
    } else if symbol == "gpu_count_distinct"@ || symbol == "gpu_run_length"@ {
        Some(("stable_run_encoding"@, "stable-sort values, mark total-order transitions, prefix-sum run IDs, and scatter bounded run outputs"@, CompositionPayload::F32AndI32, OperationFamily::Encoding, outline_count_distinct_steps()))
    } else if symbol == "gpu_cross_entropy"@ {
        Some(("cross_entropy"@, "compute max-subtracted row log-sum-exp, gather each checked int32 target logit, and write one negative log likelihood per row"@, CompositionPayload::F32AndI32, OperationFamily::Loss, outline_cross_entropy_steps()))
    } else if symbol == "gpu_csr_spmv"@ || symbol == "gpu_csr_spmm"@ {
        Some(("csr_sparse_contraction"@, "gather checked CSR column operands, multiply payload values, and reduce each statically bounded row in fixed order"@, CompositionPayload::F32AndI32, OperationFamily::Graph, outline_gather_map_scatter()))
    } else if symbol == "gpu_data_partition"@ {
        Some(("stable_data_partition"@, "compute int32 partition predicates, prefix-sum each side, and scatter rows stably to disjoint destinations"@, CompositionPayload::F32AndI32, OperationFamily::ShapeAndIndexing, outline_scan_map_scatter()))
    } else if symbol == "gpu_degree"@ {
        Some(("graph_degree"@, "histogram checked int32 edge endpoints into deterministic degree counts"@, CompositionPayload::I32, OperationFamily::Graph, outline_map_histogram()))
    } else if symbol == "gpu_diffusion_commit"@ {
        Some(("diffusion_commit"@, "select the accepted proposal and update chain state with the documented int32 gate"@, CompositionPayload::F32AndI32, OperationFamily::Diffusion, outline_map_only()))
    } else if symbol == "gpu_diffusion_sample"@ {
        Some(("diffusion_sample"@, "generate counter-keyed normal noise and apply the prepared reverse-diffusion mean and variance update"@, CompositionPayload::F32, OperationFamily::Diffusion, outline_random_map()))
    } else {
        None
    }
}

/// The recipe summaries of table part 3, by symbol.
pub open spec fn symbol_entry_3(symbol: Seq<char>) -> Option<(Seq<char>, Seq<char>, CompositionPayload, OperationFamily, Seq<StepOutline>)> {
    if symbol == "gpu_discounted_returns"@ {
        Some(("discounted_returns"@, "apply the reverse affine recurrence return[t]=reward[t]+discount*return[t+1] with a fixed scan tree"@, CompositionPayload::F32, OperationFamily::ReinforcementLearning, outline_map_scan()))
    } else if symbol == "gpu_dropout_u8_into"@ {
        Some(("canonical_i32_mask_dropout"@, "replace the legacy u8 mask with a canonical int32 mask and select zero or x*scale per element"@, CompositionPayload::F32AndI32, OperationFamily::Random, outline_map_only()))
    } else if symbol == "gpu_dasum"@ {
        Some(("canonical_f32_absolute_sum"@, "replace the prohibited legacy f64 path with f32 absolute values and a fixed-tree f32 sum"@, CompositionPayload::F32, OperationFamily::Reduction, outline_map_reduce()))
    } else if symbol == "gpu_dgemv_into"@ {
        Some(("canonical_f32_matrix_vector_product"@, "replace the prohibited legacy f64 path with a canonical-order f32 matrix-vector contraction"@, CompositionPayload::F32, OperationFamily::Contraction, outline_contract_map()))
    } else if symbol == "gpu_dger_into"@ {
        Some(("canonical_f32_rank_one_update"@, "replace the prohibited legacy f64 path with an outer-product contraction and explicit f32 matrix update"@, CompositionPayload::F32, OperationFamily::Contraction, outline_contract_map()))
    } else if symbol == "gpu_dsyrk"@ {
        Some(("canonical_f32_symmetric_rank_k_update"@, "replace the prohibited legacy f64 path with a canonical f32 contraction and checked triangular scatter"@, CompositionPayload::F32, OperationFamily::Contraction, outline_contract_map()))
    } else if symbol == "gpu_dtw"@ {
        Some(("dynamic_time_warping"@, "advance the bounded cost lattice by antidiagonal, combining the three legal predecessors with fixed ties"@, CompositionPayload::F32AndI32, OperationFamily::Distance, outline_dynamic_program_steps()))
    } else if symbol == "gpu_eigh_sym"@ {
        Some(("symmetric_eigendecomposition"@, "execute the exact prepared Jacobi sweep count and sort eigenpairs deterministically"@, CompositionPayload::F32, OperationFamily::Solver, outline_eigh_steps()))
    } else if symbol == "gpu_embed_blend"@ {
        Some(("embedding_blend"@, "combine checked token embedding rows with the documented f32 blend weights"@, CompositionPayload::F32AndI32, OperationFamily::Embedding, outline_gather_map()))
    } else if symbol == "gpu_embedding_backward"@ {
        Some(("embedding_backward"@, "scatter-add f32 row gradients to checked int32 token indexes with explicit atomic ordering"@, CompositionPayload::F32AndI32, OperationFamily::Embedding, outline_map_scatter()))
    } else if symbol == "gpu_entropy_gated_step"@ {
        Some(("entropy_gated_diffusion_step"@, "compute entropy from prepared probabilities and select the documented diffusion state update with an int32 gate"@, CompositionPayload::F32AndI32, OperationFamily::Diffusion, outline_map_reduce()))
    } else if symbol == "gpu_eye"@ {
        Some(("identity_matrix"@, "map static row and column int32 coordinates to f32 one on the diagonal and positive zero elsewhere"@, CompositionPayload::F32AndI32, OperationFamily::Creation, outline_map_only()))
    } else if symbol == "gpu_feature_subset"@ {
        Some(("feature_subset"@, "gather the prepared checked int32 feature indexes from every row"@, CompositionPayload::F32AndI32, OperationFamily::Tree, outline_gather_map()))
    } else if symbol == "gpu_fft_c2c_1d"@ || symbol == "gpu_rfft_1d"@ {
        Some(("stockham_fft_1d"@, "execute radix-2 Stockham stages over f32 real-imaginary pairs using owned twiddles and a fixed butterfly order"@, CompositionPayload::F32AndI32, OperationFamily::Fft, outline_fft_steps()))
    } else if symbol == "gpu_fill_sentinel"@ {
        Some(("sort_padding_fill"@, "write the prepared IEEE-total-order sentinel only to the statically padded tail"@, CompositionPayload::F32AndI32, OperationFamily::Creation, outline_map_only()))
    } else if symbol == "gpu_fixed_radius_neighbors"@ {
        Some(("fixed_radius_neighbors"@, "compute pairwise distances, mark radius-qualified pairs, prefix-sum bounded neighbor slots, and scatter checked indexes"@, CompositionPayload::F32AndI32, OperationFamily::Clustering, outline_scan_map_scatter()))
    } else {
        None
    }
}

/// The recipe summaries of table part 4, by symbol.
pub open spec fn symbol_entry_4(symbol: Seq<char>) -> Option<(Seq<char>, Seq<char>, CompositionPayload, OperationFamily, Seq<StepOutline>)> {
    if symbol == "gpu_flash_attention_into"@ || symbol == "gpu_flash_gqa"@ || symbol == "gpu_flash_mla"@ {
        Some(("tiled_online_attention"@, "compose canonical contractions with fixed-tree online softmax statistics and checked mask and head indexing"@, CompositionPayload::F32AndI32, OperationFamily::Attention, outline_attention_steps()))
    } else if symbol == "gpu_flash_attention_train_into"@ {
        Some(("tiled_online_attention_training"@, "run tiled attention while retaining the fixed-order online-softmax statistics required by the prepared backward graph"@, CompositionPayload::F32AndI32, OperationFamily::Attention, outline_attention_steps()))
    } else if symbol == "gpu_flash_attention_backward_into"@ {
        Some(("tiled_online_attention_backward"@, "form query, key, and value gradients through fixed-order online softmax and canonical contractions"@, CompositionPayload::F32AndI32, OperationFamily::Attention, outline_attention_backward_steps()))
    } else if symbol == "gpu_focal_into"@ {
        Some(("focal_loss_and_gradient"@, "write the clamped binary focal loss and analytic gradient per element with owned log and pow functions"@, CompositionPayload::F32, OperationFamily::Loss, outline_map_only()))
    } else if symbol == "gpu_focal_grad_into"@ {
        Some(("focal_loss_gradient"@, "compute the clamped analytic focal-loss gradient and prepared inverse-count scaling per element"@, CompositionPayload::F32, OperationFamily::Loss, outline_map_only()))
    } else if symbol == "gpu_forward_backward"@ {
        Some(("forward_backward_sequence"@, "run fixed-order forward and reverse log-semiring scans over the statically bounded sequence lattice"@, CompositionPayload::F32AndI32, OperationFamily::Sequence, outline_dynamic_program_steps()))
    } else if symbol == "gpu_gae"@ {
        Some(("generalized_advantage_estimation"@, "form temporal-difference residuals and apply the reverse affine GAE recurrence with a fixed scan tree"@, CompositionPayload::F32, OperationFamily::ReinforcementLearning, outline_map_scan()))
    } else if symbol == "gpu_gated_delta_scan"@ {
        Some(("gated_delta_scan"@, "apply the documented associative gated-delta state transform with a fixed scan hierarchy"@, CompositionPayload::F32, OperationFamily::StateSpace, outline_map_scan()))
    } else if symbol == "gpu_gaussian_ll"@ || symbol == "gpu_gaussian_logprob"@ {
        Some(("gaussian_log_probability"@, "evaluate the checked normal log-density from mean, log variance, and sample and reduce requested dimensions in fixed order"@, CompositionPayload::F32, OperationFamily::Bayesian, outline_map_reduce()))
    } else if symbol == "gpu_gcn_norm"@ {
        Some(("gcn_edge_normalization"@, "gather checked endpoint degrees and compute reciprocal-square-root degree products for every edge"@, CompositionPayload::F32AndI32, OperationFamily::Graph, outline_gather_map()))
    } else if symbol == "gpu_gemm_bt_tiles"@ {
        Some(("tiled_transposed_gemm"@, "execute the prepared tiled f32 contraction with canonical contracted-coordinate order"@, CompositionPayload::F32, OperationFamily::Contraction, outline_contract_map()))
    } else if symbol == "gpu_goss_sample"@ {
        Some(("gradient_one_side_sampling"@, "stable-sort examples by absolute gradient, retain the prepared top fraction, and counter-sample the remainder"@, CompositionPayload::F32AndI32, OperationFamily::Tree, outline_sort_random_gather()))
    } else if symbol == "gpu_grad_clip_norm"@ {
        Some(("global_gradient_norm_clip"@, "sum squared gradients with a fixed tree, compute the checked clip scale, and scale every gradient"@, CompositionPayload::F32, OperationFamily::Optimizer, outline_map_reduce_map()))
    } else if symbol == "gpu_grad_hess_into"@ || symbol == "gpu_logloss_grad_f32"@ || symbol == "gpu_logloss_grad_mc"@ {
        Some(("logistic_gradient_hessian"@, "compute canonical f32 logistic gradients and Hessians with checked int32 target and mask indexing"@, CompositionPayload::F32AndI32, OperationFamily::Tree, outline_map_only()))
    } else if symbol == "gpu_gru_cell"@ || symbol == "gpu_gru_cell_f32"@ {
        Some(("gru_cell"@, "form input and recurrent affine projections and apply reset, update, and candidate gates in documented order"@, CompositionPayload::F32, OperationFamily::Recurrent, outline_rnn_cell_steps()))
    } else if symbol == "gpu_has_nan"@ {
        Some(("any_nan"@, "map each f32 value through IsNan and combine int32 flags with a fixed-tree Any reduction"@, CompositionPayload::F32AndI32, OperationFamily::Metric, outline_map_reduce()))
    } else {
        None
    }
}

/// The recipe summaries of table part 5, by symbol.
pub open spec fn symbol_entry_5(symbol: Seq<char>) -> Option<(Seq<char>, Seq<char>, CompositionPayload, OperationFamily, Seq<StepOutline>)> {
    if symbol == "gpu_isfinite_all"@ {
        Some(("all_finite"@, "map each f32 value through IsFinite and combine int32 flags with a fixed-tree All reduction"@, CompositionPayload::F32AndI32, OperationFamily::Metric, outline_map_reduce()))
    } else if symbol == "gpu_hinge_loss"@ {
        Some(("hinge_loss"@, "write max(0,1-target*score) and its documented subgradient per element"@, CompositionPayload::F32, OperationFamily::Loss, outline_map_only()))
    } else if symbol == "gpu_histogram_build"@ {
        Some(("gradient_hessian_histogram"@, "accumulate masked f32 gradient, Hessian, and int32 count statistics into checked feature bins"@, CompositionPayload::F32AndI32, OperationFamily::Histogram, outline_map_histogram()))
    } else if symbol == "gpu_im2col_1d"@ || symbol == "gpu_im2col_2d"@ || symbol == "gpu_im2col_2d_ext"@ {
        Some(("image_to_column"@, "gather every checked receptive-field coordinate into the statically shaped lowered image"@, CompositionPayload::F32AndI32, OperationFamily::Convolution, outline_gather_map()))
    } else if symbol == "gpu_idamax"@ {
        Some(("canonical_f32_absolute_argmax"@, "replace the prohibited legacy f64 path by mapping f32 absolute values and selecting the lowest-index fixed-tree maximum"@, CompositionPayload::F32AndI32, OperationFamily::Reduction, outline_map_reduce()))
    } else if symbol == "gpu_init_idx"@ || symbol == "gpu_iota"@ {
        Some(("int32_iota"@, "convert each statically generated linear lane index to checked canonical int32"@, CompositionPayload::I32, OperationFamily::Creation, outline_map_only()))
    } else if symbol == "gpu_itemset_support"@ {
        Some(("itemset_support"@, "mark transaction matches for each checked candidate and reduce support counts with fixed trees"@, CompositionPayload::F32AndI32, OperationFamily::Other, outline_map_reduce()))
    } else if symbol == "gpu_kernel_matrix"@ || symbol == "gpu_smo_kernel_row"@ {
        Some(("svm_kernel_matrix"@, "compute the configured linear, polynomial, or RBF kernel from fixed-order dot products and owned scalar math"@, CompositionPayload::F32AndI32, OperationFamily::SupportVectorMachine, outline_contract_map()))
    } else if symbol == "gpu_kl_div_loss"@ {
        Some(("kl_divergence_loss"@, "write target*(log(target)-log_probability) per positive-target element and zero otherwise"@, CompositionPayload::F32, OperationFamily::Loss, outline_map_only()))
    } else if symbol == "gpu_l2_norm"@ {
        Some(("l2_norm"@, "square f32 values, sum with a fixed tree, and apply the owned square root"@, CompositionPayload::F32, OperationFamily::Reduction, outline_map_reduce()))
    } else if symbol == "gpu_l2norm_rows"@ {
        Some(("row_l2_normalization"@, "compute each fixed-tree row sum of squares and multiply by its checked reciprocal square root"@, CompositionPayload::F32, OperationFamily::Normalization, outline_map_reduce_map()))
    } else if symbol == "gpu_lamb_phase1"@ {
        Some(("lamb_moment_update"@, "update Adam moments and form the prepared bias-corrected, decay-adjusted LAMB direction"@, CompositionPayload::F32, OperationFamily::Optimizer, outline_optimizer_steps()))
    } else if symbol == "gpu_lamb_phase2"@ {
        Some(("lamb_trust_ratio_update"@, "compute fixed-tree parameter and direction norms, form the checked trust ratio, and update parameters"@, CompositionPayload::F32, OperationFamily::Optimizer, outline_lamb_trust_steps()))
    } else if symbol == "gpu_layernorm_f32"@ || symbol == "gpu_layernorm_into"@ || symbol == "gpu_layernorm_opt_into"@ {
        Some(("layer_normalization"@, "compute fixed-order row mean and variance, normalize with epsilon, and apply f32 scale and bias"@, CompositionPayload::F32, OperationFamily::Normalization, outline_normalize_steps()))
    } else if symbol == "gpu_layernorm_backward_f32"@ || symbol == "gpu_layernorm_backward_full_into"@ {
        Some(("layer_normalization_backward"@, "compute fixed-order gradient statistics and analytic input, scale, and bias gradients"@, CompositionPayload::F32, OperationFamily::Normalization, outline_normalize_backward_steps()))
    } else if symbol == "gpu_leaf_finalize"@ || symbol == "gpu_lgbm_leaf_reduce"@ {
        Some(("regularized_leaf_value"@, "reduce each leaf's gradient and Hessian in fixed order and compute the checked regularized leaf value"@, CompositionPayload::F32AndI32, OperationFamily::Tree, outline_histogram_reduce_map()))
    } else {
        None
    }
}

/// The recipe summaries of table part 6, by symbol.
pub open spec fn symbol_entry_6(symbol: Seq<char>) -> Option<(Seq<char>, Seq<char>, CompositionPayload, OperationFamily, Seq<StepOutline>)> {
    if symbol == "gpu_leaf_reduce"@ || symbol == "gpu_scatter_add_by_leaf"@ || symbol == "gpu_scatter_add_by_leaf_col"@ {
        Some(("leaf_statistic_accumulation"@, "scatter-add f32 statistics into checked int32 leaf slots with explicit atomic ordering"@, CompositionPayload::F32AndI32, OperationFamily::Tree, outline_map_scatter()))
    } else if symbol == "gpu_leaf_split_apply"@ {
        Some(("leaf_split_apply"@, "gather the selected feature, evaluate the split predicate, and write the next checked leaf assignment"@, CompositionPayload::F32AndI32, OperationFamily::Tree, outline_tree_route_steps()))
    } else if symbol == "gpu_lgbm_best_split"@ || symbol == "gpu_oblivious_split_eval"@ || symbol == "gpu_split_eval"@ || symbol == "gpu_tb_split_eval"@ {
        Some(("best_histogram_split"@, "prefix accumulated gradient statistics, score every legal split, and select the lowest-index maximum gain"@, CompositionPayload::F32AndI32, OperationFamily::Tree, outline_tree_histogram_steps()))
    } else if symbol == "gpu_lgbm_hist_subtract"@ {
        Some(("histogram_subtraction"@, "subtract a child histogram from its parent elementwise in canonical f32 and int32 domains"@, CompositionPayload::F32AndI32, OperationFamily::Tree, outline_map_only()))
    } else if symbol == "gpu_lgbm_histogram"@ || symbol == "gpu_oblivious_histogram"@ || symbol == "gpu_tb_histogram"@ {
        Some(("tree_gradient_histogram"@, "accumulate checked gradient, Hessian, and count statistics by leaf, feature, and bin"@, CompositionPayload::F32AndI32, OperationFamily::Tree, outline_map_histogram()))
    } else if symbol == "gpu_linear_into"@ || symbol == "gpu_linear_f32"@ || symbol == "gpu_matvec_bias_into"@ {
        Some(("linear_projection"@, "perform the canonical f32 contraction and add the prepared bias with explicit elementwise order"@, CompositionPayload::F32, OperationFamily::Contraction, outline_contract_map()))
    } else if symbol == "gpu_linear_backward_full_into"@ {
        Some(("linear_projection_backward"@, "form input and weight gradients with canonical-order f32 contractions and the bias gradient with a fixed-tree row sum"@, CompositionPayload::F32, OperationFamily::Contraction, outline_linear_backward_full_steps()))
    } else if symbol == "gpu_linear_backward_weights_only_into"@ {
        Some(("linear_projection_backward_weights_only"@, "form the weight gradient with a canonical-order f32 contraction and the bias gradient with a fixed-tree row sum"@, CompositionPayload::F32, OperationFamily::Contraction, outline_linear_backward_weights_only_steps()))
    } else if symbol == "gpu_lion_update"@ {
        Some(("lion_update"@, "update momentum, apply the sign direction and decoupled weight decay, then update the stored momentum"@, CompositionPayload::F32, OperationFamily::Optimizer, outline_optimizer_steps()))
    } else if symbol == "gpu_log_det_cholesky"@ {
        Some(("cholesky_log_determinant"@, "gather checked diagonal values, apply owned logarithms, sum in fixed order, and multiply by two"@, CompositionPayload::F32AndI32, OperationFamily::Solver, outline_gather_map_reduce()))
    } else if symbol == "gpu_log_softmax_rows"@ {
        Some(("row_log_softmax"@, "compute max-subtracted row log-sum-exp with fixed trees and subtract it from each row value"@, CompositionPayload::F32, OperationFamily::Normalization, outline_log_softmax_steps()))
    } else if symbol == "gpu_log_sum_exp_rows"@ {
        Some(("row_log_sum_exp"@, "compute each row maximum and exponential sum with fixed trees, then add the owned logarithm"@, CompositionPayload::F32, OperationFamily::Reduction, outline_reduce_map_reduce()))
    } else if symbol == "gpu_lstm_cell"@ || symbol == "gpu_lstm_cell_f32"@ {
        Some(("lstm_cell"@, "form input and recurrent affine projections and apply input, forget, output, and cell gates in documented order"@, CompositionPayload::F32, OperationFamily::Recurrent, outline_rnn_cell_steps()))
    } else if symbol == "gpu_lu_factor"@ {
        Some(("lu_factorization"@, "perform deterministic partial pivoting and canonical trailing-matrix updates for every prepared panel"@, CompositionPayload::F32AndI32, OperationFamily::Solver, outline_lu_steps()))
    } else if symbol == "gpu_lu_solve"@ || symbol == "gpu_solve"@ {
        Some(("pivoted_lu_solve"@, "gather the recorded pivot permutation and perform bounded forward and backward substitution"@, CompositionPayload::F32AndI32, OperationFamily::Solver, outline_triangular_solve_steps()))
    } else if symbol == "gpu_max_pool_1d"@ || symbol == "gpu_max_pool_2d"@ || symbol == "gpu_max_pool_2d_f32"@ {
        Some(("maximum_pool"@, "gather each checked pooling window and select its fixed-order maximum with lowest-coordinate ties"@, CompositionPayload::F32AndI32, OperationFamily::Pooling, outline_pool_steps()))
    } else {
        None
    }
}

/// The recipe summaries of table part 7, by symbol.
pub open spec fn symbol_entry_7(symbol: Seq<char>) -> Option<(Seq<char>, Seq<char>, CompositionPayload, OperationFamily, Seq<StepOutline>)> {
    if symbol == "recipe_max_pool_1d"@ {
        Some(("channelwise_maximum_pool_1d"@, "gather non-overlapping channelwise windows, retain the final short window, and select the lowest global coordinate on ties"@, CompositionPayload::F32AndI32, OperationFamily::Pooling, outline_pool_steps()))
    } else if symbol == "recipe_max_pool_1d_backward"@ {
        Some(("channelwise_maximum_pool_1d_backward"@, "route each output gradient to its recorded global winner through a checked unique scatter"@, CompositionPayload::F32AndI32, OperationFamily::Pooling, outline_pool_backward_steps()))
    } else if symbol == "gpu_max_pool_1d_backward"@ || symbol == "gpu_max_pool_2d_backward"@ || symbol == "gpu_max_pool_2d_backward_f32"@ {
        Some(("maximum_pool_backward"@, "recompute the deterministic winning source coordinate and atomically accumulate overlapping gradients"@, CompositionPayload::F32AndI32, OperationFamily::Pooling, outline_pool_backward_steps()))
    } else if symbol == "gpu_mean_all"@ {
        Some(("global_mean"@, "sum every f32 value with a fixed tree and divide by the checked prepared element count"@, CompositionPayload::F32, OperationFamily::Statistics, outline_reduce_map()))
    } else if symbol == "gpu_mha_split"@ {
        Some(("multi_head_attention_split"@, "gather the prepared query, key, and value head views with checked int32 coordinates"@, CompositionPayload::F32AndI32, OperationFamily::Attention, outline_gather_map()))
    } else if symbol == "gpu_mha_merge"@ {
        Some(("multi_head_attention_merge"@, "gather prepared head views in canonical head order and write the merged tensor"@, CompositionPayload::F32AndI32, OperationFamily::Attention, outline_gather_map()))
    } else if symbol == "gpu_moe_route"@ {
        Some(("mixture_of_experts_route"@, "stable-select the prepared top experts per token, normalize their gates, and emit checked int32 routes"@, CompositionPayload::F32AndI32, OperationFamily::MixtureOfExperts, outline_sort_gather()))
    } else if symbol == "gpu_moe_weighted_accumulate"@ {
        Some(("mixture_of_experts_accumulate"@, "gather checked expert outputs, multiply by normalized gates, and sum experts in fixed order"@, CompositionPayload::F32AndI32, OperationFamily::MixtureOfExperts, outline_gather_map_scatter()))
    } else if symbol == "gpu_moe_weighted_accumulate_backward"@ || symbol == "gpu_moe_backward"@ {
        Some(("mixture_of_experts_backward"@, "gather checked routes and form expert, gate, and token gradients with explicit atomic accumulation"@, CompositionPayload::F32AndI32, OperationFamily::MixtureOfExperts, outline_gather_map_scatter()))
    } else if symbol == "gpu_momentum_update"@ {
        Some(("momentum_update"@, "update the velocity from momentum and gradient, then update parameters in documented scalar order"@, CompositionPayload::F32, OperationFamily::Optimizer, outline_optimizer_steps()))
    } else if symbol == "gpu_mse_into"@ {
        Some(("mean_squared_error"@, "square prediction minus target per element, sum with a fixed reduction tree, and multiply by the checked reciprocal element count"@, CompositionPayload::F32, OperationFamily::Loss, outline_map_reduce_map()))
    } else if symbol == "gpu_ss_res_into"@ {
        Some(("sum_squared_residuals"@, "square target minus prediction per element and sum with a fixed reduction tree"@, CompositionPayload::F32, OperationFamily::Loss, outline_map_reduce()))
    } else if symbol == "gpu_multinomial_nb_logprob"@ {
        Some(("multinomial_naive_bayes_log_probability"@, "multiply feature counts by class log probabilities and reduce features in fixed order"@, CompositionPayload::F32AndI32, OperationFamily::Bayesian, outline_map_reduce()))
    } else if symbol == "gpu_nadam_update"@ {
        Some(("nadam_update"@, "update Adam moments, form the Nesterov-corrected first moment, and update parameters"@, CompositionPayload::F32, OperationFamily::Optimizer, outline_optimizer_steps()))
    } else if symbol == "gpu_nb_count_table"@ {
        Some(("naive_bayes_count_table"@, "accumulate checked class and feature int32 indexes into f32 class-feature counts with explicit atomics"@, CompositionPayload::F32AndI32, OperationFamily::Bayesian, outline_map_histogram()))
    } else if symbol == "gpu_nb_feature_log_prob"@ {
        Some(("naive_bayes_feature_log_probability"@, "apply prepared smoothing, reduce class totals in fixed order, and subtract owned logarithms"@, CompositionPayload::F32, OperationFamily::Bayesian, outline_reduce_map()))
    } else {
        None
    }
}

/// The recipe summaries of table part 8, by symbol.
pub open spec fn symbol_entry_8(symbol: Seq<char>) -> Option<(Seq<char>, Seq<char>, CompositionPayload, OperationFamily, Seq<StepOutline>)> {
    if symbol == "gpu_neighbor_aggregate"@ {
        Some(("graph_neighbor_aggregation"@, "gather checked neighbor features and reduce each destination neighborhood in fixed order"@, CompositionPayload::F32AndI32, OperationFamily::Graph, outline_gather_map_scatter()))
    } else if symbol == "gpu_oblivious_route_full"@ || symbol == "gpu_oblivious_route_step"@ || symbol == "gpu_oblivious_route_step_dev"@ || symbol == "gpu_tree_build_into"@ {
        Some(("oblivious_tree_route"@, "evaluate the prepared feature-threshold predicates in level order and write checked int32 leaf indexes"@, CompositionPayload::F32AndI32, OperationFamily::Tree, outline_tree_route_steps()))
    } else if symbol == "gpu_one_hot"@ {
        Some(("one_hot_encoding"@, "clear the statically shaped output and scatter f32 one to each checked int32 category coordinate"@, CompositionPayload::F32AndI32, OperationFamily::Encoding, outline_map_scatter()))
    } else if symbol == "gpu_oob_mask"@ {
        Some(("out_of_bag_mask"@, "mark rows absent from the bounded bootstrap index image using checked int32 histogram counts"@, CompositionPayload::I32, OperationFamily::Tree, outline_map_histogram()))
    } else if symbol == "gpu_ordered_target_stats"@ {
        Some(("ordered_target_statistics"@, "stable-sort by permutation and category, run fixed-tree prefix sums and counts, and gather leave-current-out statistics"@, CompositionPayload::F32AndI32, OperationFamily::Tree, outline_sort_scan_map()))
    } else if symbol == "gpu_pack_upper_tri"@ {
        Some(("pack_upper_triangle"@, "gather checked upper-triangular matrix coordinates in canonical row-major packed order"@, CompositionPayload::F32AndI32, OperationFamily::ShapeAndIndexing, outline_gather_map()))
    } else if symbol == "gpu_pairwise_cosine"@ {
        Some(("pairwise_cosine_distance"@, "compute fixed-order pairwise dot products and norms and form one minus the checked cosine similarity"@, CompositionPayload::F32, OperationFamily::Distance, outline_contract_map_reduce()))
    } else if symbol == "gpu_pairwise_hamming"@ {
        Some(("pairwise_hamming_distance"@, "compare checked pair coordinates, convert mismatches to int32, and reduce feature counts in fixed order"@, CompositionPayload::F32AndI32, OperationFamily::Distance, outline_map_reduce()))
    } else if symbol == "gpu_pairwise_l1"@ {
        Some(("pairwise_l1_distance"@, "form absolute pairwise differences and reduce features with a fixed tree"@, CompositionPayload::F32, OperationFamily::Distance, outline_map_reduce()))
    } else if symbol == "gpu_pairwise_l2"@ {
        Some(("pairwise_l2_distance"@, "square pairwise differences, sum features with fixed trees, and apply the owned square root"@, CompositionPayload::F32, OperationFamily::Distance, outline_pairwise_l2_steps()))
    } else if symbol == "gpu_partial_argsort"@ || symbol == "gpu_topk_per_row"@ {
        Some(("bounded_topk_indexes"@, "stable-sort by IEEE total order with original-index ties and gather the prepared bounded prefix per row"@, CompositionPayload::F32AndI32, OperationFamily::ShapeAndIndexing, outline_sort_gather()))
    } else if symbol == "gpu_pool_grad_expand"@ {
        Some(("pool_gradient_expand"@, "gather output gradients for each checked source window and atomically accumulate overlapping contributions"@, CompositionPayload::F32AndI32, OperationFamily::Pooling, outline_pool_backward_steps()))
    } else if symbol == "gpu_positional_encoding"@ {
        Some(("sinusoidal_positional_encoding"@, "compute prepared inverse-frequency angles and apply owned sine and cosine by static position and channel indexes"@, CompositionPayload::F32AndI32, OperationFamily::Embedding, outline_map_only()))
    } else if symbol == "gpu_qr"@ {
        Some(("householder_qr"@, "apply one fixed-order Householder reflector per statically counted matrix column"@, CompositionPayload::F32, OperationFamily::Solver, outline_qr_steps()))
    } else if symbol == "gpu_quantize_features"@ {
        Some(("feature_bin_quantization"@, "binary-search prepared f32 edges with fixed iterations and emit checked int32 bin indexes"@, CompositionPayload::F32AndI32, OperationFamily::Quantization, outline_gather_map()))
    } else if symbol == "gpu_random_permutation"@ {
        Some(("counter_keyed_permutation"@, "generate Philox keys, stable-sort key-index pairs, and expose the resulting unbiased int32 permutation"@, CompositionPayload::I32, OperationFamily::Random, outline_random_sort_gather()))
    } else {
        None
    }
}

/// The recipe summaries of table part 9, by symbol.
pub open spec fn symbol_entry_9(symbol: Seq<char>) -> Option<(Seq<char>, Seq<char>, CompositionPayload, OperationFamily, Seq<StepOutline>)> {
    if symbol == "gpu_random_threshold_split"@ {
        Some(("random_threshold_split"@, "generate counter-keyed feature and threshold choices from prepared bounds and emit checked split metadata"@, CompositionPayload::F32AndI32, OperationFamily::Tree, outline_random_map()))
    } else if symbol == "gpu_reduce_mean_cols"@ {
        Some(("column_mean"@, "sum each column with a fixed tree and divide by the checked prepared row count"@, CompositionPayload::F32, OperationFamily::Statistics, outline_reduce_map()))
    } else if symbol == "gpu_reduce_var_cols"@ {
        Some(("column_variance"@, "compute fixed-tree column means then fixed-tree squared-deviation sums with the prepared divisor"@, CompositionPayload::F32, OperationFamily::Statistics, outline_reduce_map_reduce()))
    } else if symbol == "gpu_repeat_rows"@ {
        Some(("repeat_rows"@, "gather each output row from its checked modulo source-row coordinate"@, CompositionPayload::F32AndI32, OperationFamily::ShapeAndIndexing, outline_gather_map()))
    } else if symbol == "gpu_report"@ {
        Some(("balanced_recall_report_metric"@, "select row argmax classes, histogram checked targets and correct predictions, compute class recalls, and reduce them"@, CompositionPayload::F32AndI32, OperationFamily::Metric, outline_report_steps()))
    } else if symbol == "gpu_rmsnorm"@ || symbol == "gpu_rmsnorm_f64"@ || symbol == "gpu_rmsnorm_f64_nogamma"@ {
        Some(("canonical_f32_rms_normalization"@, "replace any legacy f64 path with a fixed-tree f32 mean square, checked reciprocal square root, and optional scale"@, CompositionPayload::F32, OperationFamily::Normalization, outline_normalize_steps()))
    } else if symbol == "gpu_rmsnorm_backward"@ {
        Some(("rms_normalization_backward"@, "compute the fixed-order RMS gradient statistic and analytic input and optional scale gradients"@, CompositionPayload::F32, OperationFamily::Normalization, outline_normalize_backward_steps()))
    } else if symbol == "gpu_rmsprop_update"@ {
        Some(("rmsprop_update"@, "update the squared-gradient average and apply the checked reciprocal-root parameter update"@, CompositionPayload::F32, OperationFamily::Optimizer, outline_optimizer_steps()))
    } else if symbol == "gpu_rope"@ || symbol == "gpu_rope_partial"@ || symbol == "gpu_rope_partial_factors"@ || symbol == "gpu_rope_partial_factors_pos"@ || symbol == "gpu_rope_partial_pos"@ || symbol == "gpu_rope_qk"@ || symbol == "gpu_rope_qk_heads_inplace"@ {
        Some(("rotary_position_embedding"@, "gather each checked f32 coordinate pair and apply the prepared owned sine-cosine rotation"@, CompositionPayload::F32AndI32, OperationFamily::Embedding, outline_gather_map()))
    } else if symbol == "gpu_scaled_dot_product_attn"@ {
        Some(("scaled_dot_product_attention"@, "form scaled query-key scores, apply the checked mask, compute fixed-tree softmax, and contract with values"@, CompositionPayload::F32AndI32, OperationFamily::Attention, outline_attention_steps()))
    } else if symbol == "gpu_scan_linear_recurrence"@ {
        Some(("affine_linear_recurrence_scan"@, "compose affine recurrence transforms with a fixed scan hierarchy and apply them to the initial state"@, CompositionPayload::F32, OperationFamily::Scan, outline_map_scan()))
    } else if symbol == "gpu_segment_max"@ || symbol == "gpu_segment_sum"@ {
        Some(("segmented_reduction"@, "stable-group checked int32 segment IDs and reduce each bounded segment with a fixed tree"@, CompositionPayload::F32AndI32, OperationFamily::Reduction, outline_segment_reduce_steps()))
    } else if symbol == "gpu_segment_sort"@ {
        Some(("segmented_sort"@, "stable-sort within each prepared bounded segment by IEEE total order and original-index ties"@, CompositionPayload::F32AndI32, OperationFamily::ShapeAndIndexing, outline_map_sort()))
    } else if symbol == "gpu_slice_cols"@ || symbol == "gpu_slice_rows"@ || symbol == "gpu_slice_lead_into"@ {
        Some(("checked_tensor_slice"@, "gather the statically shaped slice with checked int32 start and extent coordinates"@, CompositionPayload::F32AndI32, OperationFamily::ShapeAndIndexing, outline_gather_map()))
    } else if symbol == "gpu_smo_argmax"@ {
        Some(("smo_working_set_argmax"@, "select the lowest-index maximum legal SMO KKT score with a fixed value-index reduction"@, CompositionPayload::F32AndI32, OperationFamily::SupportVectorMachine, outline_map_reduce()))
    } else if symbol == "gpu_smo_kkt_score"@ {
        Some(("smo_kkt_score"@, "compute the checked box-constraint eligibility and KKT violation score per training row"@, CompositionPayload::F32AndI32, OperationFamily::SupportVectorMachine, outline_map_only()))
    } else {
        None
    }
}

/// The recipe summaries of table part 10, by symbol.
pub open spec fn symbol_entry_10(symbol: Seq<char>) -> Option<(Seq<char>, Seq<char>, CompositionPayload, OperationFamily, Seq<StepOutline>)> {
    if symbol == "gpu_smo_update_gradient_rows"@ {
        Some(("smo_gradient_update"@, "gather the two selected kernel rows and update every gradient in explicit f32 order"@, CompositionPayload::F32AndI32, OperationFamily::SupportVectorMachine, outline_gather_map()))
    } else if symbol == "gpu_smo_train"@ {
        Some(("bounded_smo_training"@, "execute the exact prepared SMO iteration bound using deterministic working-set selection and gradient updates"@, CompositionPayload::F32AndI32, OperationFamily::SupportVectorMachine, outline_smo_train_steps()))
    } else if symbol == "gpu_softmax_rows_into"@ || symbol == "gpu_softmax_inplace"@ {
        Some(("row_softmax"@, "compute max-subtracted row exponentials and fixed-tree sums, then divide by checked row sums"@, CompositionPayload::F32, OperationFamily::Normalization, outline_softmax_steps()))
    } else if symbol == "gpu_softmax_backward_into"@ {
        Some(("softmax_backward"@, "compute the fixed-tree dot of output and upstream gradient and apply the row softmax Jacobian"@, CompositionPayload::F32, OperationFamily::Normalization, outline_reduce_map()))
    } else if symbol == "gpu_softmax_ce_class_grad_f32"@ || symbol == "gpu_softmax_ce_grad_into"@ {
        Some(("softmax_cross_entropy_gradient"@, "compute fixed-tree row softmax and subtract the checked int32 target indicator with prepared scaling"@, CompositionPayload::F32AndI32, OperationFamily::Loss, outline_softmax_steps()))
    } else if symbol == "gpu_sort_by_key"@ {
        Some(("stable_key_value_sort"@, "stable-sort f32 keys by IEEE total order while carrying values and original indexes through every compare exchange"@, CompositionPayload::F32AndI32, OperationFamily::ShapeAndIndexing, outline_map_sort()))
    } else if symbol == "gpu_splitk_dw_into"@ {
        Some(("split_k_weight_gradient"@, "form at most eight deterministic row-slice contractions and reduce their f32 partials in slice-index order"@, CompositionPayload::F32, OperationFamily::Contraction, outline_contract_map_reduce()))
    } else if symbol == "gpu_ssm_conv_causal"@ || symbol == "gpu_ssm_conv_causal_silu"@ {
        Some(("state_space_causal_convolution"@, "gather the checked causal window, contract in canonical order, and apply the optional owned SiLU"@, CompositionPayload::F32AndI32, OperationFamily::StateSpace, outline_conv_steps()))
    } else if symbol == "gpu_ssm_group_rmsnorm"@ {
        Some(("state_space_group_rms_normalization"@, "compute fixed-tree group mean squares, apply checked reciprocal roots, and scale each group"@, CompositionPayload::F32, OperationFamily::StateSpace, outline_normalize_steps()))
    } else if symbol == "gpu_ssm_scan_mamba1"@ || symbol == "gpu_ssm_scan_mamba2"@ {
        Some(("mamba_state_space_scan"@, "compose the documented diagonal state-transition transforms with a fixed scan hierarchy"@, CompositionPayload::F32, OperationFamily::StateSpace, outline_map_scan()))
    } else if symbol == "gpu_svd"@ {
        Some(("singular_value_decomposition"@, "bidiagonalize with fixed-order Householder reflectors and run the exact prepared diagonalization sweep count"@, CompositionPayload::F32, OperationFamily::Solver, outline_svd_steps()))
    } else if symbol == "gpu_tb_apply_tree"@ || symbol == "gpu_tree_ensemble_predict"@ {
        Some(("tree_ensemble_inference"@, "traverse prepared trees with checked feature gathers and deterministic predicates, then reduce tree outputs"@, CompositionPayload::F32AndI32, OperationFamily::Tree, outline_tree_route_steps()))
    } else if symbol == "gpu_tb_leaf_sum"@ || symbol == "gpu_tb_leaf_val"@ {
        Some(("tree_builder_leaf_statistic"@, "accumulate checked per-leaf statistics and compute the documented regularized f32 leaf value"@, CompositionPayload::F32AndI32, OperationFamily::Tree, outline_histogram_reduce_map()))
    } else if symbol == "gpu_tb_repartition"@ || symbol == "gpu_tb_scatter"@ {
        Some(("tree_builder_stable_partition"@, "evaluate the selected split, prefix-sum branch flags, and scatter rows stably to disjoint partitions"@, CompositionPayload::F32AndI32, OperationFamily::Tree, outline_scan_map_scatter()))
    } else if symbol == "gpu_td_targets"@ {
        Some(("temporal_difference_targets"@, "gather the checked next-state values and compute reward+discount*value under the terminal int32 mask"@, CompositionPayload::F32AndI32, OperationFamily::ReinforcementLearning, outline_gather_map()))
    } else if symbol == "gpu_transpose"@ {
        Some(("tensor_transpose"@, "gather every output value from its checked statically permuted source coordinate"@, CompositionPayload::F32AndI32, OperationFamily::ShapeAndIndexing, outline_gather_map()))
    } else {
        None
    }
}

/// The recipe summaries of table part 11, by symbol.
pub open spec fn symbol_entry_11(symbol: Seq<char>) -> Option<(Seq<char>, Seq<char>, CompositionPayload, OperationFamily, Seq<StepOutline>)> {
    if symbol == "gpu_tri_solve"@ {
        Some(("triangular_solve"@, "perform statically bounded forward or backward substitution with fixed-order dot products and diagonal checks"@, CompositionPayload::F32, OperationFamily::Solver, outline_triangular_solve_steps()))
    } else if symbol == "gpu_tril_mask"@ {
        Some(("lower_triangular_mask"@, "compare static row and column indexes and select the supplied f32 fill value outside the retained triangle"@, CompositionPayload::F32AndI32, OperationFamily::ShapeAndIndexing, outline_map_only()))
    } else if symbol == "gpu_triplet_loss"@ {
        Some(("triplet_margin_loss"@, "compute each example's fixed-order anchor-positive and anchor-negative squared distances and write its margin branch"@, CompositionPayload::F32, OperationFamily::Loss, outline_triplet_loss_steps()))
    } else if symbol == "gpu_union_find_cc"@ {
        Some(("union_find_connected_components"@, "execute bounded ordered unions and pointer-jumping rounds with the minimum int32 representative"@, CompositionPayload::I32, OperationFamily::Clustering, outline_union_find_steps()))
    } else if symbol == "gpu_upsample_nearest_2d"@ {
        Some(("nearest_neighbor_upsample"@, "map each output coordinate to its checked integer source coordinate and gather the source value"@, CompositionPayload::F32AndI32, OperationFamily::Pooling, outline_gather_map()))
    } else if symbol == "gpu_vae_backward_latent"@ {
        Some(("vae_latent_backward"@, "apply the analytic reparameterization and KL gradients to mean and log variance in explicit scalar order"@, CompositionPayload::F32, OperationFamily::Diffusion, outline_map_only()))
    } else if symbol == "gpu_viterbi"@ {
        Some(("viterbi_decode"@, "advance the bounded max-sum lattice with lowest-index predecessor ties and backtrack checked int32 states"@, CompositionPayload::F32AndI32, OperationFamily::Sequence, outline_dynamic_program_steps()))
    } else if symbol == "gpu_write_split"@ {
        Some(("write_split_metadata"@, "write the prepared checked int32 feature and bin identifiers to their disjoint tree-depth slot"@, CompositionPayload::I32, OperationFamily::Tree, outline_map_only()))
    } else {
        None
    }
}

fn symbol_recipe_0(symbol: &str) -> (recipe: Option<CompositionRecipe>)
    ensures
        match symbol_entry_0(symbol@) {
            Some(summary) => recipe matches Some(found) && found.well_formed() && recipe_summary(found)
                == summary,
            None => recipe is None,
        },
{
    if text_eq(symbol, "convert") || text_eq(symbol, "dequant_f32") || text_eq(symbol, "gpu_convert") {
        proof {
            reveal_strlit("checked_dequantization");
            reveal_strlit("decode the prepare-selected quantized representation with checked int32 fields and produce canonical f32 payload values");
        }
        return Some(CompositionRecipe::new(
            "checked_dequantization",
            "decode the prepare-selected quantized representation with checked int32 fields and produce canonical f32 payload values",
            steps_map_only(),
            CompositionPayload::F32OrI32,
            OperationFamily::Quantization,
        ));
    }
    if text_eq(symbol, "generate") {
        proof {
            reveal_strlit("bounded_autoregressive_generation");
            reveal_strlit("run the prepared inference graph and counter-keyed or greedy token selection for the exact configured token bound");
        }
        return Some(CompositionRecipe::new(
            "bounded_autoregressive_generation",
            "run the prepared inference graph and counter-keyed or greedy token selection for the exact configured token bound",
            steps_generation_steps(),
            CompositionPayload::F32AndI32,
            OperationFamily::Inference,
        ));
    }
    if text_eq(symbol, "gpu_accuracy_into") {
        proof {
            reveal_strlit("binary_accuracy");
            reveal_strlit("threshold predictions and targets at canonical f32 0.5, sum int32 matches in a fixed tree, and multiply by the checked reciprocal element count");
        }
        return Some(CompositionRecipe::new(
            "binary_accuracy",
            "threshold predictions and targets at canonical f32 0.5, sum int32 matches in a fixed tree, and multiply by the checked reciprocal element count",
            steps_map_reduce_map(),
            CompositionPayload::F32AndI32,
            OperationFamily::Metric,
        ));
    }
    if text_eq(symbol, "gpu_accuracy") {
        proof {
            reveal_strlit("multiclass_correct_count");
            reveal_strlit("select each prediction row argmax with lowest-index ties, compare with the checked int32 target, and return the fixed-order sum of matches");
        }
        return Some(CompositionRecipe::new(
            "multiclass_correct_count",
            "select each prediction row argmax with lowest-index ties, compare with the checked int32 target, and return the fixed-order sum of matches",
            steps_reduce_map_reduce(),
            CompositionPayload::F32AndI32,
            OperationFamily::Metric,
        ));
    }
    if text_eq(symbol, "gpu_argmax_accuracy_into") {
        proof {
            reveal_strlit("dense_multiclass_accuracy");
            reveal_strlit("select prediction and dense-target row argmaxes with lowest-index ties, compare them, sum matches in fixed order, and normalize by row count");
        }
        return Some(CompositionRecipe::new(
            "dense_multiclass_accuracy",
            "select prediction and dense-target row argmaxes with lowest-index ties, compare them, sum matches in fixed order, and normalize by row count",
            steps_dense_argmax_accuracy_steps(),
            CompositionPayload::F32AndI32,
            OperationFamily::Metric,
        ));
    }
    if text_eq(symbol, "gpu_adagrad_update") {
        proof {
            reveal_strlit("adagrad_update");
            reveal_strlit("accumulate squared gradients and update parameters with the checked square-root denominator");
        }
        return Some(CompositionRecipe::new(
            "adagrad_update",
            "accumulate squared gradients and update parameters with the checked square-root denominator",
            steps_optimizer_steps(),
            CompositionPayload::F32,
            OperationFamily::Optimizer,
        ));
    }
    if text_eq(symbol, "gpu_adam_update") {
        proof {
            reveal_strlit("adam_update");
            reveal_strlit("update first and second moments, apply prepared bias corrections, and update parameters in documented scalar order");
        }
        return Some(CompositionRecipe::new(
            "adam_update",
            "update first and second moments, apply prepared bias corrections, and update parameters in documented scalar order",
            steps_optimizer_steps(),
            CompositionPayload::F32,
            OperationFamily::Optimizer,
        ));
    }
    if text_eq(symbol, "gpu_adamw_update") {
        proof {
            reveal_strlit("adamw_update");
            reveal_strlit("apply decoupled weight decay, update Adam moments, and update parameters in documented scalar order");
        }
        return Some(CompositionRecipe::new(
            "adamw_update",
            "apply decoupled weight decay, update Adam moments, and update parameters in documented scalar order",
            steps_optimizer_steps(),
            CompositionPayload::F32,
            OperationFamily::Optimizer,
        ));
    }
    if text_eq(symbol, "gpu_add_col") {
        proof {
            reveal_strlit("column_add");
            reveal_strlit("gather the selected checked column, add the supplied f32 column elementwise, and scatter it into a copied matrix image");
        }
        return Some(CompositionRecipe::new(
            "column_add",
            "gather the selected checked column, add the supplied f32 column elementwise, and scatter it into a copied matrix image",
            steps_gather_map_scatter(),
            CompositionPayload::F32AndI32,
            OperationFamily::ShapeAndIndexing,
        ));
    }
    if text_eq(symbol, "gpu_add_col_scaled_inplace") {
        proof {
            reveal_strlit("scaled_column_accumulate");
            reveal_strlit("gather the selected checked column, form matrix plus scale times column with explicit f32 operations, and scatter back in place");
        }
        return Some(CompositionRecipe::new(
            "scaled_column_accumulate",
            "gather the selected checked column, form matrix plus scale times column with explicit f32 operations, and scatter back in place",
            steps_gather_map_scatter(),
            CompositionPayload::F32AndI32,
            OperationFamily::ShapeAndIndexing,
        ));
    }
    if text_eq(symbol, "gpu_add_diag") {
        proof {
            reveal_strlit("diagonal_add");
            reveal_strlit("gather checked diagonal coordinates, add the supplied f32 diagonal value, and scatter to disjoint diagonal locations");
        }
        return Some(CompositionRecipe::new(
            "diagonal_add",
            "gather checked diagonal coordinates, add the supplied f32 diagonal value, and scatter to disjoint diagonal locations",
            steps_gather_map_scatter(),
            CompositionPayload::F32AndI32,
            OperationFamily::ShapeAndIndexing,
        ));
    }
    if text_eq(symbol, "gpu_argmax_write_split") {
        proof {
            reveal_strlit("argmax_split_write");
            reveal_strlit("reduce gain values to the lowest-index maximum and decode and write its feature and bin coordinates");
        }
        return Some(CompositionRecipe::new(
            "argmax_split_write",
            "reduce gain values to the lowest-index maximum and decode and write its feature and bin coordinates",
            steps_reduce_map(),
            CompositionPayload::F32AndI32,
            OperationFamily::Tree,
        ));
    }
    if text_eq(symbol, "gpu_argsort") {
        proof {
            reveal_strlit("argsort");
            reveal_strlit("stable-sort f32 values by IEEE total order while carrying original int32 indexes and expose the index result");
        }
        return Some(CompositionRecipe::new(
            "argsort",
            "stable-sort f32 values by IEEE total order while carrying original int32 indexes and expose the index result",
            steps_sort_gather(),
            CompositionPayload::F32AndI32,
            OperationFamily::ShapeAndIndexing,
        ));
    }
    if text_eq(symbol, "gpu_avg_pool_1d") || text_eq(symbol, "gpu_avg_pool_2d") || text_eq(symbol, "gpu_avg_pool_2d_f32") {
        proof {
            reveal_strlit("average_pool");
            reveal_strlit("gather each checked pooling window, reduce it with a fixed sum tree, and divide by the documented window divisor");
        }
        return Some(CompositionRecipe::new(
            "average_pool",
            "gather each checked pooling window, reduce it with a fixed sum tree, and divide by the documented window divisor",
            steps_pool_steps(),
            CompositionPayload::F32,
            OperationFamily::Pooling,
        ));
    }
    if text_eq(symbol, "gpu_avg_pool_2d_backward") || text_eq(symbol, "gpu_avg_pool_2d_backward_f32") {
        proof {
            reveal_strlit("average_pool_backward");
            reveal_strlit("expand output gradients by the documented window divisor and atomically accumulate overlapping source contributions");
        }
        return Some(CompositionRecipe::new(
            "average_pool_backward",
            "expand output gradients by the documented window divisor and atomically accumulate overlapping source contributions",
            steps_pool_backward_steps(),
            CompositionPayload::F32,
            OperationFamily::Pooling,
        ));
    }
    if text_eq(symbol, "gpu_batchnorm_forward") {
        proof {
            reveal_strlit("batch_normalization_training");
            reveal_strlit("compute fixed-order channel mean and variance, normalize, and apply f32 scale and bias");
        }
        return Some(CompositionRecipe::new(
            "batch_normalization_training",
            "compute fixed-order channel mean and variance, normalize, and apply f32 scale and bias",
            steps_normalize_steps(),
            CompositionPayload::F32,
            OperationFamily::Normalization,
        ));
    }
    None
}

fn symbol_recipe_1(symbol: &str) -> (recipe: Option<CompositionRecipe>)
    ensures
        match symbol_entry_1(symbol@) {
            Some(summary) => recipe matches Some(found) && found.well_formed() && recipe_summary(found)
                == summary,
            None => recipe is None,
        },
{
    if text_eq(symbol, "gpu_batchnorm_inference") {
        proof {
            reveal_strlit("batch_normalization_inference");
            reveal_strlit("normalize with prepared running statistics and apply f32 scale and bias");
        }
        return Some(CompositionRecipe::new(
            "batch_normalization_inference",
            "normalize with prepared running statistics and apply f32 scale and bias",
            steps_map_only(),
            CompositionPayload::F32,
            OperationFamily::Normalization,
        ));
    }
    if text_eq(symbol, "gpu_batchnorm_backward") {
        proof {
            reveal_strlit("batch_normalization_backward");
            reveal_strlit("compute fixed-order channel gradient statistics and the analytic input, scale, and bias gradients");
        }
        return Some(CompositionRecipe::new(
            "batch_normalization_backward",
            "compute fixed-order channel gradient statistics and the analytic input, scale, and bias gradients",
            steps_normalize_backward_steps(),
            CompositionPayload::F32,
            OperationFamily::Normalization,
        ));
    }
    if text_eq(symbol, "gpu_bce_with_logits") {
        proof {
            reveal_strlit("binary_cross_entropy_with_logits");
            reveal_strlit("write max(logit,0)-logit*target+log1p(exp(-abs(logit))) and sigmoid(logit)-target per element");
        }
        return Some(CompositionRecipe::new(
            "binary_cross_entropy_with_logits",
            "write max(logit,0)-logit*target+log1p(exp(-abs(logit))) and sigmoid(logit)-target per element",
            steps_map_only(),
            CompositionPayload::F32,
            OperationFamily::Loss,
        ));
    }
    if text_eq(symbol, "gpu_bernoulli_into") || text_eq(symbol, "gpu_bernoulli_u8") {
        proof {
            reveal_strlit("bernoulli_i32");
            reveal_strlit("generate counter-keyed uniform f32 values and compare with the checked probability to produce canonical int32 masks");
        }
        return Some(CompositionRecipe::new(
            "bernoulli_i32",
            "generate counter-keyed uniform f32 values and compare with the checked probability to produce canonical int32 masks",
            steps_random_map(),
            CompositionPayload::F32AndI32,
            OperationFamily::Random,
        ));
    }
    if text_eq(symbol, "gpu_bernoulli_nb_logprob") {
        proof {
            reveal_strlit("bernoulli_naive_bayes_log_probability");
            reveal_strlit("select each binary feature log probability, add its complement term, and reduce features in fixed order");
        }
        return Some(CompositionRecipe::new(
            "bernoulli_naive_bayes_log_probability",
            "select each binary feature log probability, add its complement term, and reduce features in fixed order",
            steps_map_reduce(),
            CompositionPayload::F32AndI32,
            OperationFamily::Bayesian,
        ));
    }
    if text_eq(symbol, "gpu_bin_edges_quantile") {
        proof {
            reveal_strlit("quantile_bin_edges");
            reveal_strlit("stable-sort each feature by IEEE total order and gather the deterministic prepared quantile indexes");
        }
        return Some(CompositionRecipe::new(
            "quantile_bin_edges",
            "stable-sort each feature by IEEE total order and gather the deterministic prepared quantile indexes",
            steps_sort_gather(),
            CompositionPayload::F32AndI32,
            OperationFamily::Encoding,
        ));
    }
    if text_eq(symbol, "gpu_bin_edges_uniform") {
        proof {
            reveal_strlit("uniform_bin_edges");
            reveal_strlit("form every edge from the fixed-order feature minimum, maximum, bin index, and prepared bin count");
        }
        return Some(CompositionRecipe::new(
            "uniform_bin_edges",
            "form every edge from the fixed-order feature minimum, maximum, bin index, and prepared bin count",
            steps_map_only(),
            CompositionPayload::F32AndI32,
            OperationFamily::Encoding,
        ));
    }
    if text_eq(symbol, "gpu_bitonic_step") || text_eq(symbol, "gpu_bitonic_step_dd") || text_eq(symbol, "gpu_bitonic_step_idx") {
        proof {
            reveal_strlit("sorting_network_compare_exchange");
            reveal_strlit("execute the named prepared bitonic compare-exchange level with IEEE total ordering and original-index tie breaking");
        }
        return Some(CompositionRecipe::new(
            "sorting_network_compare_exchange",
            "execute the named prepared bitonic compare-exchange level with IEEE total ordering and original-index tie breaking",
            steps_bitonic_compare_steps(),
            CompositionPayload::F32AndI32,
            OperationFamily::ShapeAndIndexing,
        ));
    }
    if text_eq(symbol, "gpu_bn_update_running") {
        proof {
            reveal_strlit("batch_normalization_running_update");
            reveal_strlit("update running mean and variance as momentum*running+(1-momentum)*observed in explicit scalar order");
        }
        return Some(CompositionRecipe::new(
            "batch_normalization_running_update",
            "update running mean and variance as momentum*running+(1-momentum)*observed in explicit scalar order",
            steps_map_only(),
            CompositionPayload::F32,
            OperationFamily::Normalization,
        ));
    }
    if text_eq(symbol, "gpu_bootstrap_sample") {
        proof {
            reveal_strlit("bootstrap_sample");
            reveal_strlit("generate counter-keyed uniform int32 row indexes and gather the corresponding rows with checked bounds");
        }
        return Some(CompositionRecipe::new(
            "bootstrap_sample",
            "generate counter-keyed uniform int32 row indexes and gather the corresponding rows with checked bounds",
            steps_random_gather(),
            CompositionPayload::F32AndI32,
            OperationFamily::Tree,
        ));
    }
    if text_eq(symbol, "gpu_boruvka_mst") {
        proof {
            reveal_strlit("boruvka_minimum_spanning_tree");
            reveal_strlit("run the statically bounded Boruvka rounds with deterministic minimum-edge ties and ordered component unions");
        }
        return Some(CompositionRecipe::new(
            "boruvka_minimum_spanning_tree",
            "run the statically bounded Boruvka rounds with deterministic minimum-edge ties and ordered component unions",
            steps_boruvka_steps(),
            CompositionPayload::F32AndI32,
            OperationFamily::Clustering,
        ));
    }
    if text_eq(symbol, "gpu_candidate_generate") {
        proof {
            reveal_strlit("frequent_item_candidate_generation");
            reveal_strlit("stably group the sorted itemsets, mark legal joins, prefix-sum the marks, and scatter candidates to bounded output slots");
        }
        return Some(CompositionRecipe::new(
            "frequent_item_candidate_generation",
            "stably group the sorted itemsets, mark legal joins, prefix-sum the marks, and scatter candidates to bounded output slots",
            steps_sort_scan_scatter(),
            CompositionPayload::F32AndI32,
            OperationFamily::Other,
        ));
    }
    if text_eq(symbol, "gpu_categorical_logprob") {
        proof {
            reveal_strlit("categorical_log_probability");
            reveal_strlit("gather the checked selected action probability and apply the owned binary32 logarithm");
        }
        return Some(CompositionRecipe::new(
            "categorical_log_probability",
            "gather the checked selected action probability and apply the owned binary32 logarithm",
            steps_gather_map(),
            CompositionPayload::F32AndI32,
            OperationFamily::ReinforcementLearning,
        ));
    }
    if text_eq(symbol, "gpu_causal_softmax_rows") {
        proof {
            reveal_strlit("causal_row_softmax");
            reveal_strlit("apply the causal int32 mask then compute max-subtracted row softmax with fixed reduction trees");
        }
        return Some(CompositionRecipe::new(
            "causal_row_softmax",
            "apply the causal int32 mask then compute max-subtracted row softmax with fixed reduction trees",
            steps_softmax_steps(),
            CompositionPayload::F32AndI32,
            OperationFamily::Attention,
        ));
    }
    if text_eq(symbol, "gpu_centroid_update") {
        proof {
            reveal_strlit("centroid_update");
            reveal_strlit("scatter-add rows into assigned centroid sums and counts, then divide nonempty sums by deterministic counts");
        }
        return Some(CompositionRecipe::new(
            "centroid_update",
            "scatter-add rows into assigned centroid sums and counts, then divide nonempty sums by deterministic counts",
            steps_gather_map_scatter(),
            CompositionPayload::F32AndI32,
            OperationFamily::Clustering,
        ));
    }
    if text_eq(symbol, "gpu_cholesky") {
        proof {
            reveal_strlit("cholesky_factorization");
            reveal_strlit("factor a positive-definite f32 matrix column by column with fixed-order dots and device-fault checks");
        }
        return Some(CompositionRecipe::new(
            "cholesky_factorization",
            "factor a positive-definite f32 matrix column by column with fixed-order dots and device-fault checks",
            steps_cholesky_steps(),
            CompositionPayload::F32,
            OperationFamily::Solver,
        ));
    }
    None
}

fn symbol_recipe_2(symbol: &str) -> (recipe: Option<CompositionRecipe>)
    ensures
        match symbol_entry_2(symbol@) {
            Some(summary) => recipe matches Some(found) && found.well_formed() && recipe_summary(found)
                == summary,
            None => recipe is None,
        },
{
    if text_eq(symbol, "gpu_cholesky_solve") || text_eq(symbol, "gpu_potrs") {
        proof {
            reveal_strlit("cholesky_solve");
            reveal_strlit("solve against the Cholesky factors with statically bounded forward and backward substitution");
        }
        return Some(CompositionRecipe::new(
            "cholesky_solve",
            "solve against the Cholesky factors with statically bounded forward and backward substitution",
            steps_triangular_solve_steps(),
            CompositionPayload::F32,
            OperationFamily::Solver,
        ));
    }
    if text_eq(symbol, "gpu_cholesky_inv") {
        proof {
            reveal_strlit("cholesky_inverse");
            reveal_strlit("solve the Cholesky factors against the canonical identity columns and write the symmetric inverse");
        }
        return Some(CompositionRecipe::new(
            "cholesky_inverse",
            "solve the Cholesky factors against the canonical identity columns and write the symmetric inverse",
            steps_triangular_solve_steps(),
            CompositionPayload::F32,
            OperationFamily::Solver,
        ));
    }
    if text_eq(symbol, "gpu_col2im_1d") || text_eq(symbol, "gpu_col2im_2d") || text_eq(symbol, "gpu_col2im_2d_ext") {
        proof {
            reveal_strlit("column_to_image");
            reveal_strlit("map checked lowered-column coordinates back to image coordinates and atomically add overlapping values");
        }
        return Some(CompositionRecipe::new(
            "column_to_image",
            "map checked lowered-column coordinates back to image coordinates and atomically add overlapping values",
            steps_gather_map_scatter(),
            CompositionPayload::F32AndI32,
            OperationFamily::Convolution,
        ));
    }
    if text_eq(symbol, "gpu_concat_into") || text_eq(symbol, "gpu_vconcat") {
        proof {
            reveal_strlit("tensor_concatenation");
            reveal_strlit("gather from the selected source view at each checked output coordinate and write disjoint output elements");
        }
        return Some(CompositionRecipe::new(
            "tensor_concatenation",
            "gather from the selected source view at each checked output coordinate and write disjoint output elements",
            steps_gather_map(),
            CompositionPayload::F32AndI32,
            OperationFamily::ShapeAndIndexing,
        ));
    }
    if text_eq(symbol, "gpu_contrastive_loss") {
        proof {
            reveal_strlit("contrastive_loss");
            reveal_strlit("compute each pair's fixed-order squared feature distance and write its documented positive or margin branch");
        }
        return Some(CompositionRecipe::new(
            "contrastive_loss",
            "compute each pair's fixed-order squared feature distance and write its documented positive or margin branch",
            steps_distance_loss_steps(),
            CompositionPayload::F32,
            OperationFamily::Loss,
        ));
    }
    if text_eq(symbol, "gpu_conv1d_into") {
        proof {
            reveal_strlit("convolution_1d");
            reveal_strlit("lower checked one-dimensional receptive fields, contract with filters, and apply the optional bias");
        }
        return Some(CompositionRecipe::new(
            "convolution_1d",
            "lower checked one-dimensional receptive fields, contract with filters, and apply the optional bias",
            steps_conv_steps(),
            CompositionPayload::F32,
            OperationFamily::Convolution,
        ));
    }
    if text_eq(symbol, "gpu_conv1d_backward_data_into") || text_eq(symbol, "gpu_conv1d_backward_filter_into") || text_eq(symbol, "gpu_conv1d_backward_bias_into") {
        proof {
            reveal_strlit("convolution_1d_backward");
            reveal_strlit("form the requested input, filter, or bias gradient with checked receptive fields and canonical contractions");
        }
        return Some(CompositionRecipe::new(
            "convolution_1d_backward",
            "form the requested input, filter, or bias gradient with checked receptive fields and canonical contractions",
            steps_conv_backward_steps(),
            CompositionPayload::F32,
            OperationFamily::Convolution,
        ));
    }
    if text_eq(symbol, "gpu_core_distance") {
        proof {
            reveal_strlit("core_distance");
            reveal_strlit("form checked pairwise distances, stable-select the prepared neighbor rank, and return its distance");
        }
        return Some(CompositionRecipe::new(
            "core_distance",
            "form checked pairwise distances, stable-select the prepared neighbor rank, and return its distance",
            steps_map_sort_gather(),
            CompositionPayload::F32AndI32,
            OperationFamily::Clustering,
        ));
    }
    if text_eq(symbol, "gpu_cosine_embedding_loss") {
        proof {
            reveal_strlit("cosine_embedding_loss");
            reveal_strlit("compute each example's fixed-order dot product and norms and write its labeled cosine margin branch");
        }
        return Some(CompositionRecipe::new(
            "cosine_embedding_loss",
            "compute each example's fixed-order dot product and norms and write its labeled cosine margin branch",
            steps_cosine_embedding_steps(),
            CompositionPayload::F32AndI32,
            OperationFamily::Loss,
        ));
    }
    if text_eq(symbol, "gpu_count_distinct") || text_eq(symbol, "gpu_run_length") {
        proof {
            reveal_strlit("stable_run_encoding");
            reveal_strlit("stable-sort values, mark total-order transitions, prefix-sum run IDs, and scatter bounded run outputs");
        }
        return Some(CompositionRecipe::new(
            "stable_run_encoding",
            "stable-sort values, mark total-order transitions, prefix-sum run IDs, and scatter bounded run outputs",
            steps_count_distinct_steps(),
            CompositionPayload::F32AndI32,
            OperationFamily::Encoding,
        ));
    }
    if text_eq(symbol, "gpu_cross_entropy") {
        proof {
            reveal_strlit("cross_entropy");
            reveal_strlit("compute max-subtracted row log-sum-exp, gather each checked int32 target logit, and write one negative log likelihood per row");
        }
        return Some(CompositionRecipe::new(
            "cross_entropy",
            "compute max-subtracted row log-sum-exp, gather each checked int32 target logit, and write one negative log likelihood per row",
            steps_cross_entropy_steps(),
            CompositionPayload::F32AndI32,
            OperationFamily::Loss,
        ));
    }
    if text_eq(symbol, "gpu_csr_spmv") || text_eq(symbol, "gpu_csr_spmm") {
        proof {
            reveal_strlit("csr_sparse_contraction");
            reveal_strlit("gather checked CSR column operands, multiply payload values, and reduce each statically bounded row in fixed order");
        }
        return Some(CompositionRecipe::new(
            "csr_sparse_contraction",
            "gather checked CSR column operands, multiply payload values, and reduce each statically bounded row in fixed order",
            steps_gather_map_scatter(),
            CompositionPayload::F32AndI32,
            OperationFamily::Graph,
        ));
    }
    if text_eq(symbol, "gpu_data_partition") {
        proof {
            reveal_strlit("stable_data_partition");
            reveal_strlit("compute int32 partition predicates, prefix-sum each side, and scatter rows stably to disjoint destinations");
        }
        return Some(CompositionRecipe::new(
            "stable_data_partition",
            "compute int32 partition predicates, prefix-sum each side, and scatter rows stably to disjoint destinations",
            steps_scan_map_scatter(),
            CompositionPayload::F32AndI32,
            OperationFamily::ShapeAndIndexing,
        ));
    }
    if text_eq(symbol, "gpu_degree") {
        proof {
            reveal_strlit("graph_degree");
            reveal_strlit("histogram checked int32 edge endpoints into deterministic degree counts");
        }
        return Some(CompositionRecipe::new(
            "graph_degree",
            "histogram checked int32 edge endpoints into deterministic degree counts",
            steps_map_histogram(),
            CompositionPayload::I32,
            OperationFamily::Graph,
        ));
    }
    if text_eq(symbol, "gpu_diffusion_commit") {
        proof {
            reveal_strlit("diffusion_commit");
            reveal_strlit("select the accepted proposal and update chain state with the documented int32 gate");
        }
        return Some(CompositionRecipe::new(
            "diffusion_commit",
            "select the accepted proposal and update chain state with the documented int32 gate",
            steps_map_only(),
            CompositionPayload::F32AndI32,
            OperationFamily::Diffusion,
        ));
    }
    if text_eq(symbol, "gpu_diffusion_sample") {
        proof {
            reveal_strlit("diffusion_sample");
            reveal_strlit("generate counter-keyed normal noise and apply the prepared reverse-diffusion mean and variance update");
        }
        return Some(CompositionRecipe::new(
            "diffusion_sample",
            "generate counter-keyed normal noise and apply the prepared reverse-diffusion mean and variance update",
            steps_random_map(),
            CompositionPayload::F32,
            OperationFamily::Diffusion,
        ));
    }
    None
}

fn symbol_recipe_3(symbol: &str) -> (recipe: Option<CompositionRecipe>)
    ensures
        match symbol_entry_3(symbol@) {
            Some(summary) => recipe matches Some(found) && found.well_formed() && recipe_summary(found)
                == summary,
            None => recipe is None,
        },
{
    if text_eq(symbol, "gpu_discounted_returns") {
        proof {
            reveal_strlit("discounted_returns");
            reveal_strlit("apply the reverse affine recurrence return[t]=reward[t]+discount*return[t+1] with a fixed scan tree");
        }
        return Some(CompositionRecipe::new(
            "discounted_returns",
            "apply the reverse affine recurrence return[t]=reward[t]+discount*return[t+1] with a fixed scan tree",
            steps_map_scan(),
            CompositionPayload::F32,
            OperationFamily::ReinforcementLearning,
        ));
    }
    if text_eq(symbol, "gpu_dropout_u8_into") {
        proof {
            reveal_strlit("canonical_i32_mask_dropout");
            reveal_strlit("replace the legacy u8 mask with a canonical int32 mask and select zero or x*scale per element");
        }
        return Some(CompositionRecipe::new(
            "canonical_i32_mask_dropout",
            "replace the legacy u8 mask with a canonical int32 mask and select zero or x*scale per element",
            steps_map_only(),
            CompositionPayload::F32AndI32,
            OperationFamily::Random,
        ));
    }
    if text_eq(symbol, "gpu_dasum") {
        proof {
            reveal_strlit("canonical_f32_absolute_sum");
            reveal_strlit("replace the prohibited legacy f64 path with f32 absolute values and a fixed-tree f32 sum");
        }
        return Some(CompositionRecipe::new(
            "canonical_f32_absolute_sum",
            "replace the prohibited legacy f64 path with f32 absolute values and a fixed-tree f32 sum",
            steps_map_reduce(),
            CompositionPayload::F32,
            OperationFamily::Reduction,
        ));
    }
    if text_eq(symbol, "gpu_dgemv_into") {
        proof {
            reveal_strlit("canonical_f32_matrix_vector_product");
            reveal_strlit("replace the prohibited legacy f64 path with a canonical-order f32 matrix-vector contraction");
        }
        return Some(CompositionRecipe::new(
            "canonical_f32_matrix_vector_product",
            "replace the prohibited legacy f64 path with a canonical-order f32 matrix-vector contraction",
            steps_contract_map(),
            CompositionPayload::F32,
            OperationFamily::Contraction,
        ));
    }
    if text_eq(symbol, "gpu_dger_into") {
        proof {
            reveal_strlit("canonical_f32_rank_one_update");
            reveal_strlit("replace the prohibited legacy f64 path with an outer-product contraction and explicit f32 matrix update");
        }
        return Some(CompositionRecipe::new(
            "canonical_f32_rank_one_update",
            "replace the prohibited legacy f64 path with an outer-product contraction and explicit f32 matrix update",
            steps_contract_map(),
            CompositionPayload::F32,
            OperationFamily::Contraction,
        ));
    }
    if text_eq(symbol, "gpu_dsyrk") {
        proof {
            reveal_strlit("canonical_f32_symmetric_rank_k_update");
            reveal_strlit("replace the prohibited legacy f64 path with a canonical f32 contraction and checked triangular scatter");
        }
        return Some(CompositionRecipe::new(
            "canonical_f32_symmetric_rank_k_update",
            "replace the prohibited legacy f64 path with a canonical f32 contraction and checked triangular scatter",
            steps_contract_map(),
            CompositionPayload::F32,
            OperationFamily::Contraction,
        ));
    }
    if text_eq(symbol, "gpu_dtw") {
        proof {
            reveal_strlit("dynamic_time_warping");
            reveal_strlit("advance the bounded cost lattice by antidiagonal, combining the three legal predecessors with fixed ties");
        }
        return Some(CompositionRecipe::new(
            "dynamic_time_warping",
            "advance the bounded cost lattice by antidiagonal, combining the three legal predecessors with fixed ties",
            steps_dynamic_program_steps(),
            CompositionPayload::F32AndI32,
            OperationFamily::Distance,
        ));
    }
    if text_eq(symbol, "gpu_eigh_sym") {
        proof {
            reveal_strlit("symmetric_eigendecomposition");
            reveal_strlit("execute the exact prepared Jacobi sweep count and sort eigenpairs deterministically");
        }
        return Some(CompositionRecipe::new(
            "symmetric_eigendecomposition",
            "execute the exact prepared Jacobi sweep count and sort eigenpairs deterministically",
            steps_eigh_steps(),
            CompositionPayload::F32,
            OperationFamily::Solver,
        ));
    }
    if text_eq(symbol, "gpu_embed_blend") {
        proof {
            reveal_strlit("embedding_blend");
            reveal_strlit("combine checked token embedding rows with the documented f32 blend weights");
        }
        return Some(CompositionRecipe::new(
            "embedding_blend",
            "combine checked token embedding rows with the documented f32 blend weights",
            steps_gather_map(),
            CompositionPayload::F32AndI32,
            OperationFamily::Embedding,
        ));
    }
    if text_eq(symbol, "gpu_embedding_backward") {
        proof {
            reveal_strlit("embedding_backward");
            reveal_strlit("scatter-add f32 row gradients to checked int32 token indexes with explicit atomic ordering");
        }
        return Some(CompositionRecipe::new(
            "embedding_backward",
            "scatter-add f32 row gradients to checked int32 token indexes with explicit atomic ordering",
            steps_map_scatter(),
            CompositionPayload::F32AndI32,
            OperationFamily::Embedding,
        ));
    }
    if text_eq(symbol, "gpu_entropy_gated_step") {
        proof {
            reveal_strlit("entropy_gated_diffusion_step");
            reveal_strlit("compute entropy from prepared probabilities and select the documented diffusion state update with an int32 gate");
        }
        return Some(CompositionRecipe::new(
            "entropy_gated_diffusion_step",
            "compute entropy from prepared probabilities and select the documented diffusion state update with an int32 gate",
            steps_map_reduce(),
            CompositionPayload::F32AndI32,
            OperationFamily::Diffusion,
        ));
    }
    if text_eq(symbol, "gpu_eye") {
        proof {
            reveal_strlit("identity_matrix");
            reveal_strlit("map static row and column int32 coordinates to f32 one on the diagonal and positive zero elsewhere");
        }
        return Some(CompositionRecipe::new(
            "identity_matrix",
            "map static row and column int32 coordinates to f32 one on the diagonal and positive zero elsewhere",
            steps_map_only(),
            CompositionPayload::F32AndI32,
            OperationFamily::Creation,
        ));
    }
    if text_eq(symbol, "gpu_feature_subset") {
        proof {
            reveal_strlit("feature_subset");
            reveal_strlit("gather the prepared checked int32 feature indexes from every row");
        }
        return Some(CompositionRecipe::new(
            "feature_subset",
            "gather the prepared checked int32 feature indexes from every row",
            steps_gather_map(),
            CompositionPayload::F32AndI32,
            OperationFamily::Tree,
        ));
    }
    if text_eq(symbol, "gpu_fft_c2c_1d") || text_eq(symbol, "gpu_rfft_1d") {
        proof {
            reveal_strlit("stockham_fft_1d");
            reveal_strlit("execute radix-2 Stockham stages over f32 real-imaginary pairs using owned twiddles and a fixed butterfly order");
        }
        return Some(CompositionRecipe::new(
            "stockham_fft_1d",
            "execute radix-2 Stockham stages over f32 real-imaginary pairs using owned twiddles and a fixed butterfly order",
            steps_fft_steps(),
            CompositionPayload::F32AndI32,
            OperationFamily::Fft,
        ));
    }
    if text_eq(symbol, "gpu_fill_sentinel") {
        proof {
            reveal_strlit("sort_padding_fill");
            reveal_strlit("write the prepared IEEE-total-order sentinel only to the statically padded tail");
        }
        return Some(CompositionRecipe::new(
            "sort_padding_fill",
            "write the prepared IEEE-total-order sentinel only to the statically padded tail",
            steps_map_only(),
            CompositionPayload::F32AndI32,
            OperationFamily::Creation,
        ));
    }
    if text_eq(symbol, "gpu_fixed_radius_neighbors") {
        proof {
            reveal_strlit("fixed_radius_neighbors");
            reveal_strlit("compute pairwise distances, mark radius-qualified pairs, prefix-sum bounded neighbor slots, and scatter checked indexes");
        }
        return Some(CompositionRecipe::new(
            "fixed_radius_neighbors",
            "compute pairwise distances, mark radius-qualified pairs, prefix-sum bounded neighbor slots, and scatter checked indexes",
            steps_scan_map_scatter(),
            CompositionPayload::F32AndI32,
            OperationFamily::Clustering,
        ));
    }
    None
}

fn symbol_recipe_4(symbol: &str) -> (recipe: Option<CompositionRecipe>)
    ensures
        match symbol_entry_4(symbol@) {
            Some(summary) => recipe matches Some(found) && found.well_formed() && recipe_summary(found)
                == summary,
            None => recipe is None,
        },
{
    if text_eq(symbol, "gpu_flash_attention_into") || text_eq(symbol, "gpu_flash_gqa") || text_eq(symbol, "gpu_flash_mla") {
        proof {
            reveal_strlit("tiled_online_attention");
            reveal_strlit("compose canonical contractions with fixed-tree online softmax statistics and checked mask and head indexing");
        }
        return Some(CompositionRecipe::new(
            "tiled_online_attention",
            "compose canonical contractions with fixed-tree online softmax statistics and checked mask and head indexing",
            steps_attention_steps(),
            CompositionPayload::F32AndI32,
            OperationFamily::Attention,
        ));
    }
    if text_eq(symbol, "gpu_flash_attention_train_into") {
        proof {
            reveal_strlit("tiled_online_attention_training");
            reveal_strlit("run tiled attention while retaining the fixed-order online-softmax statistics required by the prepared backward graph");
        }
        return Some(CompositionRecipe::new(
            "tiled_online_attention_training",
            "run tiled attention while retaining the fixed-order online-softmax statistics required by the prepared backward graph",
            steps_attention_steps(),
            CompositionPayload::F32AndI32,
            OperationFamily::Attention,
        ));
    }
    if text_eq(symbol, "gpu_flash_attention_backward_into") {
        proof {
            reveal_strlit("tiled_online_attention_backward");
            reveal_strlit("form query, key, and value gradients through fixed-order online softmax and canonical contractions");
        }
        return Some(CompositionRecipe::new(
            "tiled_online_attention_backward",
            "form query, key, and value gradients through fixed-order online softmax and canonical contractions",
            steps_attention_backward_steps(),
            CompositionPayload::F32AndI32,
            OperationFamily::Attention,
        ));
    }
    if text_eq(symbol, "gpu_focal_into") {
        proof {
            reveal_strlit("focal_loss_and_gradient");
            reveal_strlit("write the clamped binary focal loss and analytic gradient per element with owned log and pow functions");
        }
        return Some(CompositionRecipe::new(
            "focal_loss_and_gradient",
            "write the clamped binary focal loss and analytic gradient per element with owned log and pow functions",
            steps_map_only(),
            CompositionPayload::F32,
            OperationFamily::Loss,
        ));
    }
    if text_eq(symbol, "gpu_focal_grad_into") {
        proof {
            reveal_strlit("focal_loss_gradient");
            reveal_strlit("compute the clamped analytic focal-loss gradient and prepared inverse-count scaling per element");
        }
        return Some(CompositionRecipe::new(
            "focal_loss_gradient",
            "compute the clamped analytic focal-loss gradient and prepared inverse-count scaling per element",
            steps_map_only(),
            CompositionPayload::F32,
            OperationFamily::Loss,
        ));
    }
    if text_eq(symbol, "gpu_forward_backward") {
        proof {
            reveal_strlit("forward_backward_sequence");
            reveal_strlit("run fixed-order forward and reverse log-semiring scans over the statically bounded sequence lattice");
        }
        return Some(CompositionRecipe::new(
            "forward_backward_sequence",
            "run fixed-order forward and reverse log-semiring scans over the statically bounded sequence lattice",
            steps_dynamic_program_steps(),
            CompositionPayload::F32AndI32,
            OperationFamily::Sequence,
        ));
    }
    if text_eq(symbol, "gpu_gae") {
        proof {
            reveal_strlit("generalized_advantage_estimation");
            reveal_strlit("form temporal-difference residuals and apply the reverse affine GAE recurrence with a fixed scan tree");
        }
        return Some(CompositionRecipe::new(
            "generalized_advantage_estimation",
            "form temporal-difference residuals and apply the reverse affine GAE recurrence with a fixed scan tree",
            steps_map_scan(),
            CompositionPayload::F32,
            OperationFamily::ReinforcementLearning,
        ));
    }
    if text_eq(symbol, "gpu_gated_delta_scan") {
        proof {
            reveal_strlit("gated_delta_scan");
            reveal_strlit("apply the documented associative gated-delta state transform with a fixed scan hierarchy");
        }
        return Some(CompositionRecipe::new(
            "gated_delta_scan",
            "apply the documented associative gated-delta state transform with a fixed scan hierarchy",
            steps_map_scan(),
            CompositionPayload::F32,
            OperationFamily::StateSpace,
        ));
    }
    if text_eq(symbol, "gpu_gaussian_ll") || text_eq(symbol, "gpu_gaussian_logprob") {
        proof {
            reveal_strlit("gaussian_log_probability");
            reveal_strlit("evaluate the checked normal log-density from mean, log variance, and sample and reduce requested dimensions in fixed order");
        }
        return Some(CompositionRecipe::new(
            "gaussian_log_probability",
            "evaluate the checked normal log-density from mean, log variance, and sample and reduce requested dimensions in fixed order",
            steps_map_reduce(),
            CompositionPayload::F32,
            OperationFamily::Bayesian,
        ));
    }
    if text_eq(symbol, "gpu_gcn_norm") {
        proof {
            reveal_strlit("gcn_edge_normalization");
            reveal_strlit("gather checked endpoint degrees and compute reciprocal-square-root degree products for every edge");
        }
        return Some(CompositionRecipe::new(
            "gcn_edge_normalization",
            "gather checked endpoint degrees and compute reciprocal-square-root degree products for every edge",
            steps_gather_map(),
            CompositionPayload::F32AndI32,
            OperationFamily::Graph,
        ));
    }
    if text_eq(symbol, "gpu_gemm_bt_tiles") {
        proof {
            reveal_strlit("tiled_transposed_gemm");
            reveal_strlit("execute the prepared tiled f32 contraction with canonical contracted-coordinate order");
        }
        return Some(CompositionRecipe::new(
            "tiled_transposed_gemm",
            "execute the prepared tiled f32 contraction with canonical contracted-coordinate order",
            steps_contract_map(),
            CompositionPayload::F32,
            OperationFamily::Contraction,
        ));
    }
    if text_eq(symbol, "gpu_goss_sample") {
        proof {
            reveal_strlit("gradient_one_side_sampling");
            reveal_strlit("stable-sort examples by absolute gradient, retain the prepared top fraction, and counter-sample the remainder");
        }
        return Some(CompositionRecipe::new(
            "gradient_one_side_sampling",
            "stable-sort examples by absolute gradient, retain the prepared top fraction, and counter-sample the remainder",
            steps_sort_random_gather(),
            CompositionPayload::F32AndI32,
            OperationFamily::Tree,
        ));
    }
    if text_eq(symbol, "gpu_grad_clip_norm") {
        proof {
            reveal_strlit("global_gradient_norm_clip");
            reveal_strlit("sum squared gradients with a fixed tree, compute the checked clip scale, and scale every gradient");
        }
        return Some(CompositionRecipe::new(
            "global_gradient_norm_clip",
            "sum squared gradients with a fixed tree, compute the checked clip scale, and scale every gradient",
            steps_map_reduce_map(),
            CompositionPayload::F32,
            OperationFamily::Optimizer,
        ));
    }
    if text_eq(symbol, "gpu_grad_hess_into") || text_eq(symbol, "gpu_logloss_grad_f32") || text_eq(symbol, "gpu_logloss_grad_mc") {
        proof {
            reveal_strlit("logistic_gradient_hessian");
            reveal_strlit("compute canonical f32 logistic gradients and Hessians with checked int32 target and mask indexing");
        }
        return Some(CompositionRecipe::new(
            "logistic_gradient_hessian",
            "compute canonical f32 logistic gradients and Hessians with checked int32 target and mask indexing",
            steps_map_only(),
            CompositionPayload::F32AndI32,
            OperationFamily::Tree,
        ));
    }
    if text_eq(symbol, "gpu_gru_cell") || text_eq(symbol, "gpu_gru_cell_f32") {
        proof {
            reveal_strlit("gru_cell");
            reveal_strlit("form input and recurrent affine projections and apply reset, update, and candidate gates in documented order");
        }
        return Some(CompositionRecipe::new(
            "gru_cell",
            "form input and recurrent affine projections and apply reset, update, and candidate gates in documented order",
            steps_rnn_cell_steps(),
            CompositionPayload::F32,
            OperationFamily::Recurrent,
        ));
    }
    if text_eq(symbol, "gpu_has_nan") {
        proof {
            reveal_strlit("any_nan");
            reveal_strlit("map each f32 value through IsNan and combine int32 flags with a fixed-tree Any reduction");
        }
        return Some(CompositionRecipe::new(
            "any_nan",
            "map each f32 value through IsNan and combine int32 flags with a fixed-tree Any reduction",
            steps_map_reduce(),
            CompositionPayload::F32AndI32,
            OperationFamily::Metric,
        ));
    }
    None
}

fn symbol_recipe_5(symbol: &str) -> (recipe: Option<CompositionRecipe>)
    ensures
        match symbol_entry_5(symbol@) {
            Some(summary) => recipe matches Some(found) && found.well_formed() && recipe_summary(found)
                == summary,
            None => recipe is None,
        },
{
    if text_eq(symbol, "gpu_isfinite_all") {
        proof {
            reveal_strlit("all_finite");
            reveal_strlit("map each f32 value through IsFinite and combine int32 flags with a fixed-tree All reduction");
        }
        return Some(CompositionRecipe::new(
            "all_finite",
            "map each f32 value through IsFinite and combine int32 flags with a fixed-tree All reduction",
            steps_map_reduce(),
            CompositionPayload::F32AndI32,
            OperationFamily::Metric,
        ));
    }
    if text_eq(symbol, "gpu_hinge_loss") {
        proof {
            reveal_strlit("hinge_loss");
            reveal_strlit("write max(0,1-target*score) and its documented subgradient per element");
        }
        return Some(CompositionRecipe::new(
            "hinge_loss",
            "write max(0,1-target*score) and its documented subgradient per element",
            steps_map_only(),
            CompositionPayload::F32,
            OperationFamily::Loss,
        ));
    }
    if text_eq(symbol, "gpu_histogram_build") {
        proof {
            reveal_strlit("gradient_hessian_histogram");
            reveal_strlit("accumulate masked f32 gradient, Hessian, and int32 count statistics into checked feature bins");
        }
        return Some(CompositionRecipe::new(
            "gradient_hessian_histogram",
            "accumulate masked f32 gradient, Hessian, and int32 count statistics into checked feature bins",
            steps_map_histogram(),
            CompositionPayload::F32AndI32,
            OperationFamily::Histogram,
        ));
    }
    if text_eq(symbol, "gpu_im2col_1d") || text_eq(symbol, "gpu_im2col_2d") || text_eq(symbol, "gpu_im2col_2d_ext") {
        proof {
            reveal_strlit("image_to_column");
            reveal_strlit("gather every checked receptive-field coordinate into the statically shaped lowered image");
        }
        return Some(CompositionRecipe::new(
            "image_to_column",
            "gather every checked receptive-field coordinate into the statically shaped lowered image",
            steps_gather_map(),
            CompositionPayload::F32AndI32,
            OperationFamily::Convolution,
        ));
    }
    if text_eq(symbol, "gpu_idamax") {
        proof {
            reveal_strlit("canonical_f32_absolute_argmax");
            reveal_strlit("replace the prohibited legacy f64 path by mapping f32 absolute values and selecting the lowest-index fixed-tree maximum");
        }
        return Some(CompositionRecipe::new(
            "canonical_f32_absolute_argmax",
            "replace the prohibited legacy f64 path by mapping f32 absolute values and selecting the lowest-index fixed-tree maximum",
            steps_map_reduce(),
            CompositionPayload::F32AndI32,
            OperationFamily::Reduction,
        ));
    }
    if text_eq(symbol, "gpu_init_idx") || text_eq(symbol, "gpu_iota") {
        proof {
            reveal_strlit("int32_iota");
            reveal_strlit("convert each statically generated linear lane index to checked canonical int32");
        }
        return Some(CompositionRecipe::new(
            "int32_iota",
            "convert each statically generated linear lane index to checked canonical int32",
            steps_map_only(),
            CompositionPayload::I32,
            OperationFamily::Creation,
        ));
    }
    if text_eq(symbol, "gpu_itemset_support") {
        proof {
            reveal_strlit("itemset_support");
            reveal_strlit("mark transaction matches for each checked candidate and reduce support counts with fixed trees");
        }
        return Some(CompositionRecipe::new(
            "itemset_support",
            "mark transaction matches for each checked candidate and reduce support counts with fixed trees",
            steps_map_reduce(),
            CompositionPayload::F32AndI32,
            OperationFamily::Other,
        ));
    }
    if text_eq(symbol, "gpu_kernel_matrix") || text_eq(symbol, "gpu_smo_kernel_row") {
        proof {
            reveal_strlit("svm_kernel_matrix");
            reveal_strlit("compute the configured linear, polynomial, or RBF kernel from fixed-order dot products and owned scalar math");
        }
        return Some(CompositionRecipe::new(
            "svm_kernel_matrix",
            "compute the configured linear, polynomial, or RBF kernel from fixed-order dot products and owned scalar math",
            steps_contract_map(),
            CompositionPayload::F32AndI32,
            OperationFamily::SupportVectorMachine,
        ));
    }
    if text_eq(symbol, "gpu_kl_div_loss") {
        proof {
            reveal_strlit("kl_divergence_loss");
            reveal_strlit("write target*(log(target)-log_probability) per positive-target element and zero otherwise");
        }
        return Some(CompositionRecipe::new(
            "kl_divergence_loss",
            "write target*(log(target)-log_probability) per positive-target element and zero otherwise",
            steps_map_only(),
            CompositionPayload::F32,
            OperationFamily::Loss,
        ));
    }
    if text_eq(symbol, "gpu_l2_norm") {
        proof {
            reveal_strlit("l2_norm");
            reveal_strlit("square f32 values, sum with a fixed tree, and apply the owned square root");
        }
        return Some(CompositionRecipe::new(
            "l2_norm",
            "square f32 values, sum with a fixed tree, and apply the owned square root",
            steps_map_reduce(),
            CompositionPayload::F32,
            OperationFamily::Reduction,
        ));
    }
    if text_eq(symbol, "gpu_l2norm_rows") {
        proof {
            reveal_strlit("row_l2_normalization");
            reveal_strlit("compute each fixed-tree row sum of squares and multiply by its checked reciprocal square root");
        }
        return Some(CompositionRecipe::new(
            "row_l2_normalization",
            "compute each fixed-tree row sum of squares and multiply by its checked reciprocal square root",
            steps_map_reduce_map(),
            CompositionPayload::F32,
            OperationFamily::Normalization,
        ));
    }
    if text_eq(symbol, "gpu_lamb_phase1") {
        proof {
            reveal_strlit("lamb_moment_update");
            reveal_strlit("update Adam moments and form the prepared bias-corrected, decay-adjusted LAMB direction");
        }
        return Some(CompositionRecipe::new(
            "lamb_moment_update",
            "update Adam moments and form the prepared bias-corrected, decay-adjusted LAMB direction",
            steps_optimizer_steps(),
            CompositionPayload::F32,
            OperationFamily::Optimizer,
        ));
    }
    if text_eq(symbol, "gpu_lamb_phase2") {
        proof {
            reveal_strlit("lamb_trust_ratio_update");
            reveal_strlit("compute fixed-tree parameter and direction norms, form the checked trust ratio, and update parameters");
        }
        return Some(CompositionRecipe::new(
            "lamb_trust_ratio_update",
            "compute fixed-tree parameter and direction norms, form the checked trust ratio, and update parameters",
            steps_lamb_trust_steps(),
            CompositionPayload::F32,
            OperationFamily::Optimizer,
        ));
    }
    if text_eq(symbol, "gpu_layernorm_f32") || text_eq(symbol, "gpu_layernorm_into") || text_eq(symbol, "gpu_layernorm_opt_into") {
        proof {
            reveal_strlit("layer_normalization");
            reveal_strlit("compute fixed-order row mean and variance, normalize with epsilon, and apply f32 scale and bias");
        }
        return Some(CompositionRecipe::new(
            "layer_normalization",
            "compute fixed-order row mean and variance, normalize with epsilon, and apply f32 scale and bias",
            steps_normalize_steps(),
            CompositionPayload::F32,
            OperationFamily::Normalization,
        ));
    }
    if text_eq(symbol, "gpu_layernorm_backward_f32") || text_eq(symbol, "gpu_layernorm_backward_full_into") {
        proof {
            reveal_strlit("layer_normalization_backward");
            reveal_strlit("compute fixed-order gradient statistics and analytic input, scale, and bias gradients");
        }
        return Some(CompositionRecipe::new(
            "layer_normalization_backward",
            "compute fixed-order gradient statistics and analytic input, scale, and bias gradients",
            steps_normalize_backward_steps(),
            CompositionPayload::F32,
            OperationFamily::Normalization,
        ));
    }
    if text_eq(symbol, "gpu_leaf_finalize") || text_eq(symbol, "gpu_lgbm_leaf_reduce") {
        proof {
            reveal_strlit("regularized_leaf_value");
            reveal_strlit("reduce each leaf's gradient and Hessian in fixed order and compute the checked regularized leaf value");
        }
        return Some(CompositionRecipe::new(
            "regularized_leaf_value",
            "reduce each leaf's gradient and Hessian in fixed order and compute the checked regularized leaf value",
            steps_histogram_reduce_map(),
            CompositionPayload::F32AndI32,
            OperationFamily::Tree,
        ));
    }
    None
}

fn symbol_recipe_6(symbol: &str) -> (recipe: Option<CompositionRecipe>)
    ensures
        match symbol_entry_6(symbol@) {
            Some(summary) => recipe matches Some(found) && found.well_formed() && recipe_summary(found)
                == summary,
            None => recipe is None,
        },
{
    if text_eq(symbol, "gpu_leaf_reduce") || text_eq(symbol, "gpu_scatter_add_by_leaf") || text_eq(symbol, "gpu_scatter_add_by_leaf_col") {
        proof {
            reveal_strlit("leaf_statistic_accumulation");
            reveal_strlit("scatter-add f32 statistics into checked int32 leaf slots with explicit atomic ordering");
        }
        return Some(CompositionRecipe::new(
            "leaf_statistic_accumulation",
            "scatter-add f32 statistics into checked int32 leaf slots with explicit atomic ordering",
            steps_map_scatter(),
            CompositionPayload::F32AndI32,
            OperationFamily::Tree,
        ));
    }
    if text_eq(symbol, "gpu_leaf_split_apply") {
        proof {
            reveal_strlit("leaf_split_apply");
            reveal_strlit("gather the selected feature, evaluate the split predicate, and write the next checked leaf assignment");
        }
        return Some(CompositionRecipe::new(
            "leaf_split_apply",
            "gather the selected feature, evaluate the split predicate, and write the next checked leaf assignment",
            steps_tree_route_steps(),
            CompositionPayload::F32AndI32,
            OperationFamily::Tree,
        ));
    }
    if text_eq(symbol, "gpu_lgbm_best_split") || text_eq(symbol, "gpu_oblivious_split_eval") || text_eq(symbol, "gpu_split_eval") || text_eq(symbol, "gpu_tb_split_eval") {
        proof {
            reveal_strlit("best_histogram_split");
            reveal_strlit("prefix accumulated gradient statistics, score every legal split, and select the lowest-index maximum gain");
        }
        return Some(CompositionRecipe::new(
            "best_histogram_split",
            "prefix accumulated gradient statistics, score every legal split, and select the lowest-index maximum gain",
            steps_tree_histogram_steps(),
            CompositionPayload::F32AndI32,
            OperationFamily::Tree,
        ));
    }
    if text_eq(symbol, "gpu_lgbm_hist_subtract") {
        proof {
            reveal_strlit("histogram_subtraction");
            reveal_strlit("subtract a child histogram from its parent elementwise in canonical f32 and int32 domains");
        }
        return Some(CompositionRecipe::new(
            "histogram_subtraction",
            "subtract a child histogram from its parent elementwise in canonical f32 and int32 domains",
            steps_map_only(),
            CompositionPayload::F32AndI32,
            OperationFamily::Tree,
        ));
    }
    if text_eq(symbol, "gpu_lgbm_histogram") || text_eq(symbol, "gpu_oblivious_histogram") || text_eq(symbol, "gpu_tb_histogram") {
        proof {
            reveal_strlit("tree_gradient_histogram");
            reveal_strlit("accumulate checked gradient, Hessian, and count statistics by leaf, feature, and bin");
        }
        return Some(CompositionRecipe::new(
            "tree_gradient_histogram",
            "accumulate checked gradient, Hessian, and count statistics by leaf, feature, and bin",
            steps_map_histogram(),
            CompositionPayload::F32AndI32,
            OperationFamily::Tree,
        ));
    }
    if text_eq(symbol, "gpu_linear_into") || text_eq(symbol, "gpu_linear_f32") || text_eq(symbol, "gpu_matvec_bias_into") {
        proof {
            reveal_strlit("linear_projection");
            reveal_strlit("perform the canonical f32 contraction and add the prepared bias with explicit elementwise order");
        }
        return Some(CompositionRecipe::new(
            "linear_projection",
            "perform the canonical f32 contraction and add the prepared bias with explicit elementwise order",
            steps_contract_map(),
            CompositionPayload::F32,
            OperationFamily::Contraction,
        ));
    }
    if text_eq(symbol, "gpu_linear_backward_full_into") {
        proof {
            reveal_strlit("linear_projection_backward");
            reveal_strlit("form input and weight gradients with canonical-order f32 contractions and the bias gradient with a fixed-tree row sum");
        }
        return Some(CompositionRecipe::new(
            "linear_projection_backward",
            "form input and weight gradients with canonical-order f32 contractions and the bias gradient with a fixed-tree row sum",
            steps_linear_backward_full_steps(),
            CompositionPayload::F32,
            OperationFamily::Contraction,
        ));
    }
    if text_eq(symbol, "gpu_linear_backward_weights_only_into") {
        proof {
            reveal_strlit("linear_projection_backward_weights_only");
            reveal_strlit("form the weight gradient with a canonical-order f32 contraction and the bias gradient with a fixed-tree row sum");
        }
        return Some(CompositionRecipe::new(
            "linear_projection_backward_weights_only",
            "form the weight gradient with a canonical-order f32 contraction and the bias gradient with a fixed-tree row sum",
            steps_linear_backward_weights_only_steps(),
            CompositionPayload::F32,
            OperationFamily::Contraction,
        ));
    }
    if text_eq(symbol, "gpu_lion_update") {
        proof {
            reveal_strlit("lion_update");
            reveal_strlit("update momentum, apply the sign direction and decoupled weight decay, then update the stored momentum");
        }
        return Some(CompositionRecipe::new(
            "lion_update",
            "update momentum, apply the sign direction and decoupled weight decay, then update the stored momentum",
            steps_optimizer_steps(),
            CompositionPayload::F32,
            OperationFamily::Optimizer,
        ));
    }
    if text_eq(symbol, "gpu_log_det_cholesky") {
        proof {
            reveal_strlit("cholesky_log_determinant");
            reveal_strlit("gather checked diagonal values, apply owned logarithms, sum in fixed order, and multiply by two");
        }
        return Some(CompositionRecipe::new(
            "cholesky_log_determinant",
            "gather checked diagonal values, apply owned logarithms, sum in fixed order, and multiply by two",
            steps_gather_map_reduce(),
            CompositionPayload::F32AndI32,
            OperationFamily::Solver,
        ));
    }
    if text_eq(symbol, "gpu_log_softmax_rows") {
        proof {
            reveal_strlit("row_log_softmax");
            reveal_strlit("compute max-subtracted row log-sum-exp with fixed trees and subtract it from each row value");
        }
        return Some(CompositionRecipe::new(
            "row_log_softmax",
            "compute max-subtracted row log-sum-exp with fixed trees and subtract it from each row value",
            steps_log_softmax_steps(),
            CompositionPayload::F32,
            OperationFamily::Normalization,
        ));
    }
    if text_eq(symbol, "gpu_log_sum_exp_rows") {
        proof {
            reveal_strlit("row_log_sum_exp");
            reveal_strlit("compute each row maximum and exponential sum with fixed trees, then add the owned logarithm");
        }
        return Some(CompositionRecipe::new(
            "row_log_sum_exp",
            "compute each row maximum and exponential sum with fixed trees, then add the owned logarithm",
            steps_reduce_map_reduce(),
            CompositionPayload::F32,
            OperationFamily::Reduction,
        ));
    }
    if text_eq(symbol, "gpu_lstm_cell") || text_eq(symbol, "gpu_lstm_cell_f32") {
        proof {
            reveal_strlit("lstm_cell");
            reveal_strlit("form input and recurrent affine projections and apply input, forget, output, and cell gates in documented order");
        }
        return Some(CompositionRecipe::new(
            "lstm_cell",
            "form input and recurrent affine projections and apply input, forget, output, and cell gates in documented order",
            steps_rnn_cell_steps(),
            CompositionPayload::F32,
            OperationFamily::Recurrent,
        ));
    }
    if text_eq(symbol, "gpu_lu_factor") {
        proof {
            reveal_strlit("lu_factorization");
            reveal_strlit("perform deterministic partial pivoting and canonical trailing-matrix updates for every prepared panel");
        }
        return Some(CompositionRecipe::new(
            "lu_factorization",
            "perform deterministic partial pivoting and canonical trailing-matrix updates for every prepared panel",
            steps_lu_steps(),
            CompositionPayload::F32AndI32,
            OperationFamily::Solver,
        ));
    }
    if text_eq(symbol, "gpu_lu_solve") || text_eq(symbol, "gpu_solve") {
        proof {
            reveal_strlit("pivoted_lu_solve");
            reveal_strlit("gather the recorded pivot permutation and perform bounded forward and backward substitution");
        }
        return Some(CompositionRecipe::new(
            "pivoted_lu_solve",
            "gather the recorded pivot permutation and perform bounded forward and backward substitution",
            steps_triangular_solve_steps(),
            CompositionPayload::F32AndI32,
            OperationFamily::Solver,
        ));
    }
    if text_eq(symbol, "gpu_max_pool_1d") || text_eq(symbol, "gpu_max_pool_2d") || text_eq(symbol, "gpu_max_pool_2d_f32") {
        proof {
            reveal_strlit("maximum_pool");
            reveal_strlit("gather each checked pooling window and select its fixed-order maximum with lowest-coordinate ties");
        }
        return Some(CompositionRecipe::new(
            "maximum_pool",
            "gather each checked pooling window and select its fixed-order maximum with lowest-coordinate ties",
            steps_pool_steps(),
            CompositionPayload::F32AndI32,
            OperationFamily::Pooling,
        ));
    }
    None
}

fn symbol_recipe_7(symbol: &str) -> (recipe: Option<CompositionRecipe>)
    ensures
        match symbol_entry_7(symbol@) {
            Some(summary) => recipe matches Some(found) && found.well_formed() && recipe_summary(found)
                == summary,
            None => recipe is None,
        },
{
    if text_eq(symbol, "recipe_max_pool_1d") {
        proof {
            reveal_strlit("channelwise_maximum_pool_1d");
            reveal_strlit("gather non-overlapping channelwise windows, retain the final short window, and select the lowest global coordinate on ties");
        }
        return Some(CompositionRecipe::new(
            "channelwise_maximum_pool_1d",
            "gather non-overlapping channelwise windows, retain the final short window, and select the lowest global coordinate on ties",
            steps_pool_steps(),
            CompositionPayload::F32AndI32,
            OperationFamily::Pooling,
        ));
    }
    if text_eq(symbol, "recipe_max_pool_1d_backward") {
        proof {
            reveal_strlit("channelwise_maximum_pool_1d_backward");
            reveal_strlit("route each output gradient to its recorded global winner through a checked unique scatter");
        }
        return Some(CompositionRecipe::new(
            "channelwise_maximum_pool_1d_backward",
            "route each output gradient to its recorded global winner through a checked unique scatter",
            steps_pool_backward_steps(),
            CompositionPayload::F32AndI32,
            OperationFamily::Pooling,
        ));
    }
    if text_eq(symbol, "gpu_max_pool_1d_backward") || text_eq(symbol, "gpu_max_pool_2d_backward") || text_eq(symbol, "gpu_max_pool_2d_backward_f32") {
        proof {
            reveal_strlit("maximum_pool_backward");
            reveal_strlit("recompute the deterministic winning source coordinate and atomically accumulate overlapping gradients");
        }
        return Some(CompositionRecipe::new(
            "maximum_pool_backward",
            "recompute the deterministic winning source coordinate and atomically accumulate overlapping gradients",
            steps_pool_backward_steps(),
            CompositionPayload::F32AndI32,
            OperationFamily::Pooling,
        ));
    }
    if text_eq(symbol, "gpu_mean_all") {
        proof {
            reveal_strlit("global_mean");
            reveal_strlit("sum every f32 value with a fixed tree and divide by the checked prepared element count");
        }
        return Some(CompositionRecipe::new(
            "global_mean",
            "sum every f32 value with a fixed tree and divide by the checked prepared element count",
            steps_reduce_map(),
            CompositionPayload::F32,
            OperationFamily::Statistics,
        ));
    }
    if text_eq(symbol, "gpu_mha_split") {
        proof {
            reveal_strlit("multi_head_attention_split");
            reveal_strlit("gather the prepared query, key, and value head views with checked int32 coordinates");
        }
        return Some(CompositionRecipe::new(
            "multi_head_attention_split",
            "gather the prepared query, key, and value head views with checked int32 coordinates",
            steps_gather_map(),
            CompositionPayload::F32AndI32,
            OperationFamily::Attention,
        ));
    }
    if text_eq(symbol, "gpu_mha_merge") {
        proof {
            reveal_strlit("multi_head_attention_merge");
            reveal_strlit("gather prepared head views in canonical head order and write the merged tensor");
        }
        return Some(CompositionRecipe::new(
            "multi_head_attention_merge",
            "gather prepared head views in canonical head order and write the merged tensor",
            steps_gather_map(),
            CompositionPayload::F32AndI32,
            OperationFamily::Attention,
        ));
    }
    if text_eq(symbol, "gpu_moe_route") {
        proof {
            reveal_strlit("mixture_of_experts_route");
            reveal_strlit("stable-select the prepared top experts per token, normalize their gates, and emit checked int32 routes");
        }
        return Some(CompositionRecipe::new(
            "mixture_of_experts_route",
            "stable-select the prepared top experts per token, normalize their gates, and emit checked int32 routes",
            steps_sort_gather(),
            CompositionPayload::F32AndI32,
            OperationFamily::MixtureOfExperts,
        ));
    }
    if text_eq(symbol, "gpu_moe_weighted_accumulate") {
        proof {
            reveal_strlit("mixture_of_experts_accumulate");
            reveal_strlit("gather checked expert outputs, multiply by normalized gates, and sum experts in fixed order");
        }
        return Some(CompositionRecipe::new(
            "mixture_of_experts_accumulate",
            "gather checked expert outputs, multiply by normalized gates, and sum experts in fixed order",
            steps_gather_map_scatter(),
            CompositionPayload::F32AndI32,
            OperationFamily::MixtureOfExperts,
        ));
    }
    if text_eq(symbol, "gpu_moe_weighted_accumulate_backward") || text_eq(symbol, "gpu_moe_backward") {
        proof {
            reveal_strlit("mixture_of_experts_backward");
            reveal_strlit("gather checked routes and form expert, gate, and token gradients with explicit atomic accumulation");
        }
        return Some(CompositionRecipe::new(
            "mixture_of_experts_backward",
            "gather checked routes and form expert, gate, and token gradients with explicit atomic accumulation",
            steps_gather_map_scatter(),
            CompositionPayload::F32AndI32,
            OperationFamily::MixtureOfExperts,
        ));
    }
    if text_eq(symbol, "gpu_momentum_update") {
        proof {
            reveal_strlit("momentum_update");
            reveal_strlit("update the velocity from momentum and gradient, then update parameters in documented scalar order");
        }
        return Some(CompositionRecipe::new(
            "momentum_update",
            "update the velocity from momentum and gradient, then update parameters in documented scalar order",
            steps_optimizer_steps(),
            CompositionPayload::F32,
            OperationFamily::Optimizer,
        ));
    }
    if text_eq(symbol, "gpu_mse_into") {
        proof {
            reveal_strlit("mean_squared_error");
            reveal_strlit("square prediction minus target per element, sum with a fixed reduction tree, and multiply by the checked reciprocal element count");
        }
        return Some(CompositionRecipe::new(
            "mean_squared_error",
            "square prediction minus target per element, sum with a fixed reduction tree, and multiply by the checked reciprocal element count",
            steps_map_reduce_map(),
            CompositionPayload::F32,
            OperationFamily::Loss,
        ));
    }
    if text_eq(symbol, "gpu_ss_res_into") {
        proof {
            reveal_strlit("sum_squared_residuals");
            reveal_strlit("square target minus prediction per element and sum with a fixed reduction tree");
        }
        return Some(CompositionRecipe::new(
            "sum_squared_residuals",
            "square target minus prediction per element and sum with a fixed reduction tree",
            steps_map_reduce(),
            CompositionPayload::F32,
            OperationFamily::Loss,
        ));
    }
    if text_eq(symbol, "gpu_multinomial_nb_logprob") {
        proof {
            reveal_strlit("multinomial_naive_bayes_log_probability");
            reveal_strlit("multiply feature counts by class log probabilities and reduce features in fixed order");
        }
        return Some(CompositionRecipe::new(
            "multinomial_naive_bayes_log_probability",
            "multiply feature counts by class log probabilities and reduce features in fixed order",
            steps_map_reduce(),
            CompositionPayload::F32AndI32,
            OperationFamily::Bayesian,
        ));
    }
    if text_eq(symbol, "gpu_nadam_update") {
        proof {
            reveal_strlit("nadam_update");
            reveal_strlit("update Adam moments, form the Nesterov-corrected first moment, and update parameters");
        }
        return Some(CompositionRecipe::new(
            "nadam_update",
            "update Adam moments, form the Nesterov-corrected first moment, and update parameters",
            steps_optimizer_steps(),
            CompositionPayload::F32,
            OperationFamily::Optimizer,
        ));
    }
    if text_eq(symbol, "gpu_nb_count_table") {
        proof {
            reveal_strlit("naive_bayes_count_table");
            reveal_strlit("accumulate checked class and feature int32 indexes into f32 class-feature counts with explicit atomics");
        }
        return Some(CompositionRecipe::new(
            "naive_bayes_count_table",
            "accumulate checked class and feature int32 indexes into f32 class-feature counts with explicit atomics",
            steps_map_histogram(),
            CompositionPayload::F32AndI32,
            OperationFamily::Bayesian,
        ));
    }
    if text_eq(symbol, "gpu_nb_feature_log_prob") {
        proof {
            reveal_strlit("naive_bayes_feature_log_probability");
            reveal_strlit("apply prepared smoothing, reduce class totals in fixed order, and subtract owned logarithms");
        }
        return Some(CompositionRecipe::new(
            "naive_bayes_feature_log_probability",
            "apply prepared smoothing, reduce class totals in fixed order, and subtract owned logarithms",
            steps_reduce_map(),
            CompositionPayload::F32,
            OperationFamily::Bayesian,
        ));
    }
    None
}

fn symbol_recipe_8(symbol: &str) -> (recipe: Option<CompositionRecipe>)
    ensures
        match symbol_entry_8(symbol@) {
            Some(summary) => recipe matches Some(found) && found.well_formed() && recipe_summary(found)
                == summary,
            None => recipe is None,
        },
{
    if text_eq(symbol, "gpu_neighbor_aggregate") {
        proof {
            reveal_strlit("graph_neighbor_aggregation");
            reveal_strlit("gather checked neighbor features and reduce each destination neighborhood in fixed order");
        }
        return Some(CompositionRecipe::new(
            "graph_neighbor_aggregation",
            "gather checked neighbor features and reduce each destination neighborhood in fixed order",
            steps_gather_map_scatter(),
            CompositionPayload::F32AndI32,
            OperationFamily::Graph,
        ));
    }
    if text_eq(symbol, "gpu_oblivious_route_full") || text_eq(symbol, "gpu_oblivious_route_step") || text_eq(symbol, "gpu_oblivious_route_step_dev") || text_eq(symbol, "gpu_tree_build_into") {
        proof {
            reveal_strlit("oblivious_tree_route");
            reveal_strlit("evaluate the prepared feature-threshold predicates in level order and write checked int32 leaf indexes");
        }
        return Some(CompositionRecipe::new(
            "oblivious_tree_route",
            "evaluate the prepared feature-threshold predicates in level order and write checked int32 leaf indexes",
            steps_tree_route_steps(),
            CompositionPayload::F32AndI32,
            OperationFamily::Tree,
        ));
    }
    if text_eq(symbol, "gpu_one_hot") {
        proof {
            reveal_strlit("one_hot_encoding");
            reveal_strlit("clear the statically shaped output and scatter f32 one to each checked int32 category coordinate");
        }
        return Some(CompositionRecipe::new(
            "one_hot_encoding",
            "clear the statically shaped output and scatter f32 one to each checked int32 category coordinate",
            steps_map_scatter(),
            CompositionPayload::F32AndI32,
            OperationFamily::Encoding,
        ));
    }
    if text_eq(symbol, "gpu_oob_mask") {
        proof {
            reveal_strlit("out_of_bag_mask");
            reveal_strlit("mark rows absent from the bounded bootstrap index image using checked int32 histogram counts");
        }
        return Some(CompositionRecipe::new(
            "out_of_bag_mask",
            "mark rows absent from the bounded bootstrap index image using checked int32 histogram counts",
            steps_map_histogram(),
            CompositionPayload::I32,
            OperationFamily::Tree,
        ));
    }
    if text_eq(symbol, "gpu_ordered_target_stats") {
        proof {
            reveal_strlit("ordered_target_statistics");
            reveal_strlit("stable-sort by permutation and category, run fixed-tree prefix sums and counts, and gather leave-current-out statistics");
        }
        return Some(CompositionRecipe::new(
            "ordered_target_statistics",
            "stable-sort by permutation and category, run fixed-tree prefix sums and counts, and gather leave-current-out statistics",
            steps_sort_scan_map(),
            CompositionPayload::F32AndI32,
            OperationFamily::Tree,
        ));
    }
    if text_eq(symbol, "gpu_pack_upper_tri") {
        proof {
            reveal_strlit("pack_upper_triangle");
            reveal_strlit("gather checked upper-triangular matrix coordinates in canonical row-major packed order");
        }
        return Some(CompositionRecipe::new(
            "pack_upper_triangle",
            "gather checked upper-triangular matrix coordinates in canonical row-major packed order",
            steps_gather_map(),
            CompositionPayload::F32AndI32,
            OperationFamily::ShapeAndIndexing,
        ));
    }
    if text_eq(symbol, "gpu_pairwise_cosine") {
        proof {
            reveal_strlit("pairwise_cosine_distance");
            reveal_strlit("compute fixed-order pairwise dot products and norms and form one minus the checked cosine similarity");
        }
        return Some(CompositionRecipe::new(
            "pairwise_cosine_distance",
            "compute fixed-order pairwise dot products and norms and form one minus the checked cosine similarity",
            steps_contract_map_reduce(),
            CompositionPayload::F32,
            OperationFamily::Distance,
        ));
    }
    if text_eq(symbol, "gpu_pairwise_hamming") {
        proof {
            reveal_strlit("pairwise_hamming_distance");
            reveal_strlit("compare checked pair coordinates, convert mismatches to int32, and reduce feature counts in fixed order");
        }
        return Some(CompositionRecipe::new(
            "pairwise_hamming_distance",
            "compare checked pair coordinates, convert mismatches to int32, and reduce feature counts in fixed order",
            steps_map_reduce(),
            CompositionPayload::F32AndI32,
            OperationFamily::Distance,
        ));
    }
    if text_eq(symbol, "gpu_pairwise_l1") {
        proof {
            reveal_strlit("pairwise_l1_distance");
            reveal_strlit("form absolute pairwise differences and reduce features with a fixed tree");
        }
        return Some(CompositionRecipe::new(
            "pairwise_l1_distance",
            "form absolute pairwise differences and reduce features with a fixed tree",
            steps_map_reduce(),
            CompositionPayload::F32,
            OperationFamily::Distance,
        ));
    }
    if text_eq(symbol, "gpu_pairwise_l2") {
        proof {
            reveal_strlit("pairwise_l2_distance");
            reveal_strlit("square pairwise differences, sum features with fixed trees, and apply the owned square root");
        }
        return Some(CompositionRecipe::new(
            "pairwise_l2_distance",
            "square pairwise differences, sum features with fixed trees, and apply the owned square root",
            steps_pairwise_l2_steps(),
            CompositionPayload::F32,
            OperationFamily::Distance,
        ));
    }
    if text_eq(symbol, "gpu_partial_argsort") || text_eq(symbol, "gpu_topk_per_row") {
        proof {
            reveal_strlit("bounded_topk_indexes");
            reveal_strlit("stable-sort by IEEE total order with original-index ties and gather the prepared bounded prefix per row");
        }
        return Some(CompositionRecipe::new(
            "bounded_topk_indexes",
            "stable-sort by IEEE total order with original-index ties and gather the prepared bounded prefix per row",
            steps_sort_gather(),
            CompositionPayload::F32AndI32,
            OperationFamily::ShapeAndIndexing,
        ));
    }
    if text_eq(symbol, "gpu_pool_grad_expand") {
        proof {
            reveal_strlit("pool_gradient_expand");
            reveal_strlit("gather output gradients for each checked source window and atomically accumulate overlapping contributions");
        }
        return Some(CompositionRecipe::new(
            "pool_gradient_expand",
            "gather output gradients for each checked source window and atomically accumulate overlapping contributions",
            steps_pool_backward_steps(),
            CompositionPayload::F32AndI32,
            OperationFamily::Pooling,
        ));
    }
    if text_eq(symbol, "gpu_positional_encoding") {
        proof {
            reveal_strlit("sinusoidal_positional_encoding");
            reveal_strlit("compute prepared inverse-frequency angles and apply owned sine and cosine by static position and channel indexes");
        }
        return Some(CompositionRecipe::new(
            "sinusoidal_positional_encoding",
            "compute prepared inverse-frequency angles and apply owned sine and cosine by static position and channel indexes",
            steps_map_only(),
            CompositionPayload::F32AndI32,
            OperationFamily::Embedding,
        ));
    }
    if text_eq(symbol, "gpu_qr") {
        proof {
            reveal_strlit("householder_qr");
            reveal_strlit("apply one fixed-order Householder reflector per statically counted matrix column");
        }
        return Some(CompositionRecipe::new(
            "householder_qr",
            "apply one fixed-order Householder reflector per statically counted matrix column",
            steps_qr_steps(),
            CompositionPayload::F32,
            OperationFamily::Solver,
        ));
    }
    if text_eq(symbol, "gpu_quantize_features") {
        proof {
            reveal_strlit("feature_bin_quantization");
            reveal_strlit("binary-search prepared f32 edges with fixed iterations and emit checked int32 bin indexes");
        }
        return Some(CompositionRecipe::new(
            "feature_bin_quantization",
            "binary-search prepared f32 edges with fixed iterations and emit checked int32 bin indexes",
            steps_gather_map(),
            CompositionPayload::F32AndI32,
            OperationFamily::Quantization,
        ));
    }
    if text_eq(symbol, "gpu_random_permutation") {
        proof {
            reveal_strlit("counter_keyed_permutation");
            reveal_strlit("generate Philox keys, stable-sort key-index pairs, and expose the resulting unbiased int32 permutation");
        }
        return Some(CompositionRecipe::new(
            "counter_keyed_permutation",
            "generate Philox keys, stable-sort key-index pairs, and expose the resulting unbiased int32 permutation",
            steps_random_sort_gather(),
            CompositionPayload::I32,
            OperationFamily::Random,
        ));
    }
    None
}

fn symbol_recipe_9(symbol: &str) -> (recipe: Option<CompositionRecipe>)
    ensures
        match symbol_entry_9(symbol@) {
            Some(summary) => recipe matches Some(found) && found.well_formed() && recipe_summary(found)
                == summary,
            None => recipe is None,
        },
{
    if text_eq(symbol, "gpu_random_threshold_split") {
        proof {
            reveal_strlit("random_threshold_split");
            reveal_strlit("generate counter-keyed feature and threshold choices from prepared bounds and emit checked split metadata");
        }
        return Some(CompositionRecipe::new(
            "random_threshold_split",
            "generate counter-keyed feature and threshold choices from prepared bounds and emit checked split metadata",
            steps_random_map(),
            CompositionPayload::F32AndI32,
            OperationFamily::Tree,
        ));
    }
    if text_eq(symbol, "gpu_reduce_mean_cols") {
        proof {
            reveal_strlit("column_mean");
            reveal_strlit("sum each column with a fixed tree and divide by the checked prepared row count");
        }
        return Some(CompositionRecipe::new(
            "column_mean",
            "sum each column with a fixed tree and divide by the checked prepared row count",
            steps_reduce_map(),
            CompositionPayload::F32,
            OperationFamily::Statistics,
        ));
    }
    if text_eq(symbol, "gpu_reduce_var_cols") {
        proof {
            reveal_strlit("column_variance");
            reveal_strlit("compute fixed-tree column means then fixed-tree squared-deviation sums with the prepared divisor");
        }
        return Some(CompositionRecipe::new(
            "column_variance",
            "compute fixed-tree column means then fixed-tree squared-deviation sums with the prepared divisor",
            steps_reduce_map_reduce(),
            CompositionPayload::F32,
            OperationFamily::Statistics,
        ));
    }
    if text_eq(symbol, "gpu_repeat_rows") {
        proof {
            reveal_strlit("repeat_rows");
            reveal_strlit("gather each output row from its checked modulo source-row coordinate");
        }
        return Some(CompositionRecipe::new(
            "repeat_rows",
            "gather each output row from its checked modulo source-row coordinate",
            steps_gather_map(),
            CompositionPayload::F32AndI32,
            OperationFamily::ShapeAndIndexing,
        ));
    }
    if text_eq(symbol, "gpu_report") {
        proof {
            reveal_strlit("balanced_recall_report_metric");
            reveal_strlit("select row argmax classes, histogram checked targets and correct predictions, compute class recalls, and reduce them");
        }
        return Some(CompositionRecipe::new(
            "balanced_recall_report_metric",
            "select row argmax classes, histogram checked targets and correct predictions, compute class recalls, and reduce them",
            steps_report_steps(),
            CompositionPayload::F32AndI32,
            OperationFamily::Metric,
        ));
    }
    if text_eq(symbol, "gpu_rmsnorm") || text_eq(symbol, "gpu_rmsnorm_f64") || text_eq(symbol, "gpu_rmsnorm_f64_nogamma") {
        proof {
            reveal_strlit("canonical_f32_rms_normalization");
            reveal_strlit("replace any legacy f64 path with a fixed-tree f32 mean square, checked reciprocal square root, and optional scale");
        }
        return Some(CompositionRecipe::new(
            "canonical_f32_rms_normalization",
            "replace any legacy f64 path with a fixed-tree f32 mean square, checked reciprocal square root, and optional scale",
            steps_normalize_steps(),
            CompositionPayload::F32,
            OperationFamily::Normalization,
        ));
    }
    if text_eq(symbol, "gpu_rmsnorm_backward") {
        proof {
            reveal_strlit("rms_normalization_backward");
            reveal_strlit("compute the fixed-order RMS gradient statistic and analytic input and optional scale gradients");
        }
        return Some(CompositionRecipe::new(
            "rms_normalization_backward",
            "compute the fixed-order RMS gradient statistic and analytic input and optional scale gradients",
            steps_normalize_backward_steps(),
            CompositionPayload::F32,
            OperationFamily::Normalization,
        ));
    }
    if text_eq(symbol, "gpu_rmsprop_update") {
        proof {
            reveal_strlit("rmsprop_update");
            reveal_strlit("update the squared-gradient average and apply the checked reciprocal-root parameter update");
        }
        return Some(CompositionRecipe::new(
            "rmsprop_update",
            "update the squared-gradient average and apply the checked reciprocal-root parameter update",
            steps_optimizer_steps(),
            CompositionPayload::F32,
            OperationFamily::Optimizer,
        ));
    }
    if text_eq(symbol, "gpu_rope") || text_eq(symbol, "gpu_rope_partial") || text_eq(symbol, "gpu_rope_partial_factors") || text_eq(symbol, "gpu_rope_partial_factors_pos") || text_eq(symbol, "gpu_rope_partial_pos") || text_eq(symbol, "gpu_rope_qk") || text_eq(symbol, "gpu_rope_qk_heads_inplace") {
        proof {
            reveal_strlit("rotary_position_embedding");
            reveal_strlit("gather each checked f32 coordinate pair and apply the prepared owned sine-cosine rotation");
        }
        return Some(CompositionRecipe::new(
            "rotary_position_embedding",
            "gather each checked f32 coordinate pair and apply the prepared owned sine-cosine rotation",
            steps_gather_map(),
            CompositionPayload::F32AndI32,
            OperationFamily::Embedding,
        ));
    }
    if text_eq(symbol, "gpu_scaled_dot_product_attn") {
        proof {
            reveal_strlit("scaled_dot_product_attention");
            reveal_strlit("form scaled query-key scores, apply the checked mask, compute fixed-tree softmax, and contract with values");
        }
        return Some(CompositionRecipe::new(
            "scaled_dot_product_attention",
            "form scaled query-key scores, apply the checked mask, compute fixed-tree softmax, and contract with values",
            steps_attention_steps(),
            CompositionPayload::F32AndI32,
            OperationFamily::Attention,
        ));
    }
    if text_eq(symbol, "gpu_scan_linear_recurrence") {
        proof {
            reveal_strlit("affine_linear_recurrence_scan");
            reveal_strlit("compose affine recurrence transforms with a fixed scan hierarchy and apply them to the initial state");
        }
        return Some(CompositionRecipe::new(
            "affine_linear_recurrence_scan",
            "compose affine recurrence transforms with a fixed scan hierarchy and apply them to the initial state",
            steps_map_scan(),
            CompositionPayload::F32,
            OperationFamily::Scan,
        ));
    }
    if text_eq(symbol, "gpu_segment_max") || text_eq(symbol, "gpu_segment_sum") {
        proof {
            reveal_strlit("segmented_reduction");
            reveal_strlit("stable-group checked int32 segment IDs and reduce each bounded segment with a fixed tree");
        }
        return Some(CompositionRecipe::new(
            "segmented_reduction",
            "stable-group checked int32 segment IDs and reduce each bounded segment with a fixed tree",
            steps_segment_reduce_steps(),
            CompositionPayload::F32AndI32,
            OperationFamily::Reduction,
        ));
    }
    if text_eq(symbol, "gpu_segment_sort") {
        proof {
            reveal_strlit("segmented_sort");
            reveal_strlit("stable-sort within each prepared bounded segment by IEEE total order and original-index ties");
        }
        return Some(CompositionRecipe::new(
            "segmented_sort",
            "stable-sort within each prepared bounded segment by IEEE total order and original-index ties",
            steps_map_sort(),
            CompositionPayload::F32AndI32,
            OperationFamily::ShapeAndIndexing,
        ));
    }
    if text_eq(symbol, "gpu_slice_cols") || text_eq(symbol, "gpu_slice_rows") || text_eq(symbol, "gpu_slice_lead_into") {
        proof {
            reveal_strlit("checked_tensor_slice");
            reveal_strlit("gather the statically shaped slice with checked int32 start and extent coordinates");
        }
        return Some(CompositionRecipe::new(
            "checked_tensor_slice",
            "gather the statically shaped slice with checked int32 start and extent coordinates",
            steps_gather_map(),
            CompositionPayload::F32AndI32,
            OperationFamily::ShapeAndIndexing,
        ));
    }
    if text_eq(symbol, "gpu_smo_argmax") {
        proof {
            reveal_strlit("smo_working_set_argmax");
            reveal_strlit("select the lowest-index maximum legal SMO KKT score with a fixed value-index reduction");
        }
        return Some(CompositionRecipe::new(
            "smo_working_set_argmax",
            "select the lowest-index maximum legal SMO KKT score with a fixed value-index reduction",
            steps_map_reduce(),
            CompositionPayload::F32AndI32,
            OperationFamily::SupportVectorMachine,
        ));
    }
    if text_eq(symbol, "gpu_smo_kkt_score") {
        proof {
            reveal_strlit("smo_kkt_score");
            reveal_strlit("compute the checked box-constraint eligibility and KKT violation score per training row");
        }
        return Some(CompositionRecipe::new(
            "smo_kkt_score",
            "compute the checked box-constraint eligibility and KKT violation score per training row",
            steps_map_only(),
            CompositionPayload::F32AndI32,
            OperationFamily::SupportVectorMachine,
        ));
    }
    None
}

fn symbol_recipe_10(symbol: &str) -> (recipe: Option<CompositionRecipe>)
    ensures
        match symbol_entry_10(symbol@) {
            Some(summary) => recipe matches Some(found) && found.well_formed() && recipe_summary(found)
                == summary,
            None => recipe is None,
        },
{
    if text_eq(symbol, "gpu_smo_update_gradient_rows") {
        proof {
            reveal_strlit("smo_gradient_update");
            reveal_strlit("gather the two selected kernel rows and update every gradient in explicit f32 order");
        }
        return Some(CompositionRecipe::new(
            "smo_gradient_update",
            "gather the two selected kernel rows and update every gradient in explicit f32 order",
            steps_gather_map(),
            CompositionPayload::F32AndI32,
            OperationFamily::SupportVectorMachine,
        ));
    }
    if text_eq(symbol, "gpu_smo_train") {
        proof {
            reveal_strlit("bounded_smo_training");
            reveal_strlit("execute the exact prepared SMO iteration bound using deterministic working-set selection and gradient updates");
        }
        return Some(CompositionRecipe::new(
            "bounded_smo_training",
            "execute the exact prepared SMO iteration bound using deterministic working-set selection and gradient updates",
            steps_smo_train_steps(),
            CompositionPayload::F32AndI32,
            OperationFamily::SupportVectorMachine,
        ));
    }
    if text_eq(symbol, "gpu_softmax_rows_into") || text_eq(symbol, "gpu_softmax_inplace") {
        proof {
            reveal_strlit("row_softmax");
            reveal_strlit("compute max-subtracted row exponentials and fixed-tree sums, then divide by checked row sums");
        }
        return Some(CompositionRecipe::new(
            "row_softmax",
            "compute max-subtracted row exponentials and fixed-tree sums, then divide by checked row sums",
            steps_softmax_steps(),
            CompositionPayload::F32,
            OperationFamily::Normalization,
        ));
    }
    if text_eq(symbol, "gpu_softmax_backward_into") {
        proof {
            reveal_strlit("softmax_backward");
            reveal_strlit("compute the fixed-tree dot of output and upstream gradient and apply the row softmax Jacobian");
        }
        return Some(CompositionRecipe::new(
            "softmax_backward",
            "compute the fixed-tree dot of output and upstream gradient and apply the row softmax Jacobian",
            steps_reduce_map(),
            CompositionPayload::F32,
            OperationFamily::Normalization,
        ));
    }
    if text_eq(symbol, "gpu_softmax_ce_class_grad_f32") || text_eq(symbol, "gpu_softmax_ce_grad_into") {
        proof {
            reveal_strlit("softmax_cross_entropy_gradient");
            reveal_strlit("compute fixed-tree row softmax and subtract the checked int32 target indicator with prepared scaling");
        }
        return Some(CompositionRecipe::new(
            "softmax_cross_entropy_gradient",
            "compute fixed-tree row softmax and subtract the checked int32 target indicator with prepared scaling",
            steps_softmax_steps(),
            CompositionPayload::F32AndI32,
            OperationFamily::Loss,
        ));
    }
    if text_eq(symbol, "gpu_sort_by_key") {
        proof {
            reveal_strlit("stable_key_value_sort");
            reveal_strlit("stable-sort f32 keys by IEEE total order while carrying values and original indexes through every compare exchange");
        }
        return Some(CompositionRecipe::new(
            "stable_key_value_sort",
            "stable-sort f32 keys by IEEE total order while carrying values and original indexes through every compare exchange",
            steps_map_sort(),
            CompositionPayload::F32AndI32,
            OperationFamily::ShapeAndIndexing,
        ));
    }
    if text_eq(symbol, "gpu_splitk_dw_into") {
        proof {
            reveal_strlit("split_k_weight_gradient");
            reveal_strlit("form at most eight deterministic row-slice contractions and reduce their f32 partials in slice-index order");
        }
        return Some(CompositionRecipe::new(
            "split_k_weight_gradient",
            "form at most eight deterministic row-slice contractions and reduce their f32 partials in slice-index order",
            steps_contract_map_reduce(),
            CompositionPayload::F32,
            OperationFamily::Contraction,
        ));
    }
    if text_eq(symbol, "gpu_ssm_conv_causal") || text_eq(symbol, "gpu_ssm_conv_causal_silu") {
        proof {
            reveal_strlit("state_space_causal_convolution");
            reveal_strlit("gather the checked causal window, contract in canonical order, and apply the optional owned SiLU");
        }
        return Some(CompositionRecipe::new(
            "state_space_causal_convolution",
            "gather the checked causal window, contract in canonical order, and apply the optional owned SiLU",
            steps_conv_steps(),
            CompositionPayload::F32AndI32,
            OperationFamily::StateSpace,
        ));
    }
    if text_eq(symbol, "gpu_ssm_group_rmsnorm") {
        proof {
            reveal_strlit("state_space_group_rms_normalization");
            reveal_strlit("compute fixed-tree group mean squares, apply checked reciprocal roots, and scale each group");
        }
        return Some(CompositionRecipe::new(
            "state_space_group_rms_normalization",
            "compute fixed-tree group mean squares, apply checked reciprocal roots, and scale each group",
            steps_normalize_steps(),
            CompositionPayload::F32,
            OperationFamily::StateSpace,
        ));
    }
    if text_eq(symbol, "gpu_ssm_scan_mamba1") || text_eq(symbol, "gpu_ssm_scan_mamba2") {
        proof {
            reveal_strlit("mamba_state_space_scan");
            reveal_strlit("compose the documented diagonal state-transition transforms with a fixed scan hierarchy");
        }
        return Some(CompositionRecipe::new(
            "mamba_state_space_scan",
            "compose the documented diagonal state-transition transforms with a fixed scan hierarchy",
            steps_map_scan(),
            CompositionPayload::F32,
            OperationFamily::StateSpace,
        ));
    }
    if text_eq(symbol, "gpu_svd") {
        proof {
            reveal_strlit("singular_value_decomposition");
            reveal_strlit("bidiagonalize with fixed-order Householder reflectors and run the exact prepared diagonalization sweep count");
        }
        return Some(CompositionRecipe::new(
            "singular_value_decomposition",
            "bidiagonalize with fixed-order Householder reflectors and run the exact prepared diagonalization sweep count",
            steps_svd_steps(),
            CompositionPayload::F32,
            OperationFamily::Solver,
        ));
    }
    if text_eq(symbol, "gpu_tb_apply_tree") || text_eq(symbol, "gpu_tree_ensemble_predict") {
        proof {
            reveal_strlit("tree_ensemble_inference");
            reveal_strlit("traverse prepared trees with checked feature gathers and deterministic predicates, then reduce tree outputs");
        }
        return Some(CompositionRecipe::new(
            "tree_ensemble_inference",
            "traverse prepared trees with checked feature gathers and deterministic predicates, then reduce tree outputs",
            steps_tree_route_steps(),
            CompositionPayload::F32AndI32,
            OperationFamily::Tree,
        ));
    }
    if text_eq(symbol, "gpu_tb_leaf_sum") || text_eq(symbol, "gpu_tb_leaf_val") {
        proof {
            reveal_strlit("tree_builder_leaf_statistic");
            reveal_strlit("accumulate checked per-leaf statistics and compute the documented regularized f32 leaf value");
        }
        return Some(CompositionRecipe::new(
            "tree_builder_leaf_statistic",
            "accumulate checked per-leaf statistics and compute the documented regularized f32 leaf value",
            steps_histogram_reduce_map(),
            CompositionPayload::F32AndI32,
            OperationFamily::Tree,
        ));
    }
    if text_eq(symbol, "gpu_tb_repartition") || text_eq(symbol, "gpu_tb_scatter") {
        proof {
            reveal_strlit("tree_builder_stable_partition");
            reveal_strlit("evaluate the selected split, prefix-sum branch flags, and scatter rows stably to disjoint partitions");
        }
        return Some(CompositionRecipe::new(
            "tree_builder_stable_partition",
            "evaluate the selected split, prefix-sum branch flags, and scatter rows stably to disjoint partitions",
            steps_scan_map_scatter(),
            CompositionPayload::F32AndI32,
            OperationFamily::Tree,
        ));
    }
    if text_eq(symbol, "gpu_td_targets") {
        proof {
            reveal_strlit("temporal_difference_targets");
            reveal_strlit("gather the checked next-state values and compute reward+discount*value under the terminal int32 mask");
        }
        return Some(CompositionRecipe::new(
            "temporal_difference_targets",
            "gather the checked next-state values and compute reward+discount*value under the terminal int32 mask",
            steps_gather_map(),
            CompositionPayload::F32AndI32,
            OperationFamily::ReinforcementLearning,
        ));
    }
    if text_eq(symbol, "gpu_transpose") {
        proof {
            reveal_strlit("tensor_transpose");
            reveal_strlit("gather every output value from its checked statically permuted source coordinate");
        }
        return Some(CompositionRecipe::new(
            "tensor_transpose",
            "gather every output value from its checked statically permuted source coordinate",
            steps_gather_map(),
            CompositionPayload::F32AndI32,
            OperationFamily::ShapeAndIndexing,
        ));
    }
    None
}

fn symbol_recipe_11(symbol: &str) -> (recipe: Option<CompositionRecipe>)
    ensures
        match symbol_entry_11(symbol@) {
            Some(summary) => recipe matches Some(found) && found.well_formed() && recipe_summary(found)
                == summary,
            None => recipe is None,
        },
{
    if text_eq(symbol, "gpu_tri_solve") {
        proof {
            reveal_strlit("triangular_solve");
            reveal_strlit("perform statically bounded forward or backward substitution with fixed-order dot products and diagonal checks");
        }
        return Some(CompositionRecipe::new(
            "triangular_solve",
            "perform statically bounded forward or backward substitution with fixed-order dot products and diagonal checks",
            steps_triangular_solve_steps(),
            CompositionPayload::F32,
            OperationFamily::Solver,
        ));
    }
    if text_eq(symbol, "gpu_tril_mask") {
        proof {
            reveal_strlit("lower_triangular_mask");
            reveal_strlit("compare static row and column indexes and select the supplied f32 fill value outside the retained triangle");
        }
        return Some(CompositionRecipe::new(
            "lower_triangular_mask",
            "compare static row and column indexes and select the supplied f32 fill value outside the retained triangle",
            steps_map_only(),
            CompositionPayload::F32AndI32,
            OperationFamily::ShapeAndIndexing,
        ));
    }
    if text_eq(symbol, "gpu_triplet_loss") {
        proof {
            reveal_strlit("triplet_margin_loss");
            reveal_strlit("compute each example's fixed-order anchor-positive and anchor-negative squared distances and write its margin branch");
        }
        return Some(CompositionRecipe::new(
            "triplet_margin_loss",
            "compute each example's fixed-order anchor-positive and anchor-negative squared distances and write its margin branch",
            steps_triplet_loss_steps(),
            CompositionPayload::F32,
            OperationFamily::Loss,
        ));
    }
    if text_eq(symbol, "gpu_union_find_cc") {
        proof {
            reveal_strlit("union_find_connected_components");
            reveal_strlit("execute bounded ordered unions and pointer-jumping rounds with the minimum int32 representative");
        }
        return Some(CompositionRecipe::new(
            "union_find_connected_components",
            "execute bounded ordered unions and pointer-jumping rounds with the minimum int32 representative",
            steps_union_find_steps(),
            CompositionPayload::I32,
            OperationFamily::Clustering,
        ));
    }
    if text_eq(symbol, "gpu_upsample_nearest_2d") {
        proof {
            reveal_strlit("nearest_neighbor_upsample");
            reveal_strlit("map each output coordinate to its checked integer source coordinate and gather the source value");
        }
        return Some(CompositionRecipe::new(
            "nearest_neighbor_upsample",
            "map each output coordinate to its checked integer source coordinate and gather the source value",
            steps_gather_map(),
            CompositionPayload::F32AndI32,
            OperationFamily::Pooling,
        ));
    }
    if text_eq(symbol, "gpu_vae_backward_latent") {
        proof {
            reveal_strlit("vae_latent_backward");
            reveal_strlit("apply the analytic reparameterization and KL gradients to mean and log variance in explicit scalar order");
        }
        return Some(CompositionRecipe::new(
            "vae_latent_backward",
            "apply the analytic reparameterization and KL gradients to mean and log variance in explicit scalar order",
            steps_map_only(),
            CompositionPayload::F32,
            OperationFamily::Diffusion,
        ));
    }
    if text_eq(symbol, "gpu_viterbi") {
        proof {
            reveal_strlit("viterbi_decode");
            reveal_strlit("advance the bounded max-sum lattice with lowest-index predecessor ties and backtrack checked int32 states");
        }
        return Some(CompositionRecipe::new(
            "viterbi_decode",
            "advance the bounded max-sum lattice with lowest-index predecessor ties and backtrack checked int32 states",
            steps_dynamic_program_steps(),
            CompositionPayload::F32AndI32,
            OperationFamily::Sequence,
        ));
    }
    if text_eq(symbol, "gpu_write_split") {
        proof {
            reveal_strlit("write_split_metadata");
            reveal_strlit("write the prepared checked int32 feature and bin identifiers to their disjoint tree-depth slot");
        }
        return Some(CompositionRecipe::new(
            "write_split_metadata",
            "write the prepared checked int32 feature and bin identifiers to their disjoint tree-depth slot",
            steps_map_only(),
            CompositionPayload::I32,
            OperationFamily::Tree,
        ));
    }
    None
}

/// The recipe summary of a source-qualified operation symbol: the first
/// table part that names the symbol, else the source-specific recipes.
pub open spec fn entry_summary(symbol: Seq<char>, source: Seq<char>) -> Option<(Seq<char>, Seq<char>, CompositionPayload, OperationFamily, Seq<StepOutline>)> {
    if symbol_entry_0(symbol) is Some {
        symbol_entry_0(symbol)
    } else if symbol_entry_1(symbol) is Some {
        symbol_entry_1(symbol)
    } else if symbol_entry_2(symbol) is Some {
        symbol_entry_2(symbol)
    } else if symbol_entry_3(symbol) is Some {
        symbol_entry_3(symbol)
    } else if symbol_entry_4(symbol) is Some {
        symbol_entry_4(symbol)
    } else if symbol_entry_5(symbol) is Some {
        symbol_entry_5(symbol)
    } else if symbol_entry_6(symbol) is Some {
        symbol_entry_6(symbol)
    } else if symbol_entry_7(symbol) is Some {
        symbol_entry_7(symbol)
    } else if symbol_entry_8(symbol) is Some {
        symbol_entry_8(symbol)
    } else if symbol_entry_9(symbol) is Some {
        symbol_entry_9(symbol)
    } else if symbol_entry_10(symbol) is Some {
        symbol_entry_10(symbol)
    } else if symbol_entry_11(symbol) is Some {
        symbol_entry_11(symbol)
    } else {
        source_specific_entry(symbol, source)
    }
}

/// The owned recipe for one source-qualified operation symbol, if any.
pub fn composition_for_entry(symbol: &str, source: &str) -> (recipe: Option<CompositionRecipe>)
    ensures
        match entry_summary(symbol@, source@) {
            Some(summary) => recipe matches Some(found) && found.well_formed() && recipe_summary(found)
                == summary,
            None => recipe is None,
        },
{
    let found = symbol_recipe_0(symbol);
    if found.is_some() {
        return found;
    }
    let found = symbol_recipe_1(symbol);
    if found.is_some() {
        return found;
    }
    let found = symbol_recipe_2(symbol);
    if found.is_some() {
        return found;
    }
    let found = symbol_recipe_3(symbol);
    if found.is_some() {
        return found;
    }
    let found = symbol_recipe_4(symbol);
    if found.is_some() {
        return found;
    }
    let found = symbol_recipe_5(symbol);
    if found.is_some() {
        return found;
    }
    let found = symbol_recipe_6(symbol);
    if found.is_some() {
        return found;
    }
    let found = symbol_recipe_7(symbol);
    if found.is_some() {
        return found;
    }
    let found = symbol_recipe_8(symbol);
    if found.is_some() {
        return found;
    }
    let found = symbol_recipe_9(symbol);
    if found.is_some() {
        return found;
    }
    let found = symbol_recipe_10(symbol);
    if found.is_some() {
        return found;
    }
    let found = symbol_recipe_11(symbol);
    if found.is_some() {
        return found;
    }
    source_specific_composition(symbol, source)
}

/// The recipe summaries whose name depends on the model family named in
/// the source.
pub open spec fn source_specific_entry(symbol: Seq<char>, source: Seq<char>) -> Option<(Seq<char>, Seq<char>, CompositionPayload, OperationFamily, Seq<StepOutline>)> {
    if symbol == "greedy"@ || symbol == "greedy_windowed"@ {
        Some(("greedy_token_selection"@, "select the lowest-index maximum f32 logit over the prepared full or windowed int32 token domain"@, CompositionPayload::F32AndI32, OperationFamily::Inference, outline_map_reduce()))
    } else if symbol == "last_logits"@ {
        Some(("last_token_logits"@, "gather the statically checked final sequence position without host payload slicing"@, CompositionPayload::F32AndI32, OperationFamily::Inference, outline_gather_map()))
    } else if symbol == "predict"@ || symbol == "predict_proba"@ {
        if contains_run(source, "catboost"@) {
            Some(("catboost_inference"@, "traverse the source model's prepared tree representation with checked feature indexes and fixed-order ensemble accumulation"@, CompositionPayload::F32AndI32, OperationFamily::Tree, outline_tree_route_steps()))
        } else if contains_run(source, "lightgbm"@) {
            Some(("lightgbm_inference"@, "traverse the source model's prepared tree representation with checked feature indexes and fixed-order ensemble accumulation"@, CompositionPayload::F32AndI32, OperationFamily::Tree, outline_tree_route_steps()))
        } else if contains_run(source, "xgboost"@) {
            Some(("xgboost_inference"@, "traverse the source model's prepared tree representation with checked feature indexes and fixed-order ensemble accumulation"@, CompositionPayload::F32AndI32, OperationFamily::Tree, outline_tree_route_steps()))
        } else {
            None
        }
    } else if symbol == "train"@ || symbol == "train_multiclass"@ {
        if contains_run(source, "catboost"@) {
            Some(("catboost_training"@, "execute the exact prepared boosting-round count using owned gradients, histograms, split selection, routing, and leaf updates"@, CompositionPayload::F32AndI32, OperationFamily::Tree, outline_boost_train_steps()))
        } else if contains_run(source, "lightgbm"@) {
            Some(("lightgbm_training"@, "execute the exact prepared boosting-round count using owned gradients, histograms, split selection, routing, and leaf updates"@, CompositionPayload::F32AndI32, OperationFamily::Tree, outline_boost_train_steps()))
        } else if contains_run(source, "xgboost"@) {
            Some(("xgboost_training"@, "execute the exact prepared boosting-round count using owned gradients, histograms, split selection, routing, and leaf updates"@, CompositionPayload::F32AndI32, OperationFamily::Tree, outline_boost_train_steps()))
        } else {
            None
        }
    } else {
        None
    }
}

/// Recipes whose name depends on the model family named in the source.
fn source_specific_composition(symbol: &str, source: &str) -> (recipe: Option<CompositionRecipe>)
    ensures
        match source_specific_entry(symbol@, source@) {
            Some(summary) => recipe matches Some(found) && found.well_formed() && recipe_summary(found)
                == summary,
            None => recipe is None,
        },
{
    if text_eq(symbol, "greedy") || text_eq(symbol, "greedy_windowed") {
        proof {
            reveal_strlit("greedy_token_selection");
            reveal_strlit("select the lowest-index maximum f32 logit over the prepared full or windowed int32 token domain");
        }
        return Some(CompositionRecipe::new(
            "greedy_token_selection",
            "select the lowest-index maximum f32 logit over the prepared full or windowed int32 token domain",
            steps_map_reduce(),
            CompositionPayload::F32AndI32,
            OperationFamily::Inference,
        ));
    }
    if text_eq(symbol, "last_logits") {
        proof {
            reveal_strlit("last_token_logits");
            reveal_strlit("gather the statically checked final sequence position without host payload slicing");
        }
        return Some(CompositionRecipe::new(
            "last_token_logits",
            "gather the statically checked final sequence position without host payload slicing",
            steps_gather_map(),
            CompositionPayload::F32AndI32,
            OperationFamily::Inference,
        ));
    }
    if text_eq(symbol, "predict") || text_eq(symbol, "predict_proba") {
        if text_contains(source, "catboost") {
            proof {
                reveal_strlit("catboost_inference");
                reveal_strlit("traverse the source model's prepared tree representation with checked feature indexes and fixed-order ensemble accumulation");
            }
            return Some(CompositionRecipe::new(
                "catboost_inference",
                "traverse the source model's prepared tree representation with checked feature indexes and fixed-order ensemble accumulation",
                steps_tree_route_steps(),
                CompositionPayload::F32AndI32,
                OperationFamily::Tree,
            ));
        } else if text_contains(source, "lightgbm") {
            proof {
                reveal_strlit("lightgbm_inference");
                reveal_strlit("traverse the source model's prepared tree representation with checked feature indexes and fixed-order ensemble accumulation");
            }
            return Some(CompositionRecipe::new(
                "lightgbm_inference",
                "traverse the source model's prepared tree representation with checked feature indexes and fixed-order ensemble accumulation",
                steps_tree_route_steps(),
                CompositionPayload::F32AndI32,
                OperationFamily::Tree,
            ));
        } else if text_contains(source, "xgboost") {
            proof {
                reveal_strlit("xgboost_inference");
                reveal_strlit("traverse the source model's prepared tree representation with checked feature indexes and fixed-order ensemble accumulation");
            }
            return Some(CompositionRecipe::new(
                "xgboost_inference",
                "traverse the source model's prepared tree representation with checked feature indexes and fixed-order ensemble accumulation",
                steps_tree_route_steps(),
                CompositionPayload::F32AndI32,
                OperationFamily::Tree,
            ));
        } else {
            return None;
        }
    }
    if text_eq(symbol, "train") || text_eq(symbol, "train_multiclass") {
        if text_contains(source, "catboost") {
            proof {
                reveal_strlit("catboost_training");
                reveal_strlit("execute the exact prepared boosting-round count using owned gradients, histograms, split selection, routing, and leaf updates");
            }
            return Some(CompositionRecipe::new(
                "catboost_training",
                "execute the exact prepared boosting-round count using owned gradients, histograms, split selection, routing, and leaf updates",
                steps_boost_train_steps(),
                CompositionPayload::F32AndI32,
                OperationFamily::Tree,
            ));
        } else if text_contains(source, "lightgbm") {
            proof {
                reveal_strlit("lightgbm_training");
                reveal_strlit("execute the exact prepared boosting-round count using owned gradients, histograms, split selection, routing, and leaf updates");
            }
            return Some(CompositionRecipe::new(
                "lightgbm_training",
                "execute the exact prepared boosting-round count using owned gradients, histograms, split selection, routing, and leaf updates",
                steps_boost_train_steps(),
                CompositionPayload::F32AndI32,
                OperationFamily::Tree,
            ));
        } else if text_contains(source, "xgboost") {
            proof {
                reveal_strlit("xgboost_training");
                reveal_strlit("execute the exact prepared boosting-round count using owned gradients, histograms, split selection, routing, and leaf updates");
            }
            return Some(CompositionRecipe::new(
                "xgboost_training",
                "execute the exact prepared boosting-round count using owned gradients, histograms, split selection, routing, and leaf updates",
                steps_boost_train_steps(),
                CompositionPayload::F32AndI32,
                OperationFamily::Tree,
            ));
        } else {
            return None;
        }
    }
    None
}

/// The role names the forming of gradients: it starts with `form ` and
/// ends with `gradients`.
pub open spec fn forms_gradients(role: Seq<char>) -> bool {
    &&& role.len() >= 14
    &&& role.subrange(0, 5) == "form "@
    &&& role.subrange(role.len() - 9, role.len() as int) == "gradients"@
}

/// The tiled online attention backward recipe forms every gradient, the
/// value and probability gradients and the query, key and value gradients,
/// with a contraction, whatever the source.
pub proof fn lemma_attention_backward_gradients_contract(source: Seq<char>)
    ensures
        entry_summary("gpu_flash_attention_backward_into"@, source) matches Some(summary) && summary.0
            == "tiled_online_attention_backward"@ && summary.4.len() == 6 && (forall|i: int|
            0 <= i < summary.4.len() ==> match #[trigger] summary.4[i] {
                StepOutline::Primitive(family, role) => forms_gradients(role) ==> family == PrimitiveFamily::Contraction,
                StepOutline::Repeat(..) => false,
            }) && (forall|role: Seq<char>|
            #![trigger forms_gradients(role)]
            role == "form value and probability gradients"@ || role == "form query gradients"@ || role
                == "form key gradients"@ || role == "form value gradients"@ ==> exists|i: int|
                0 <= i < summary.4.len() && #[trigger] summary.4[i] == StepOutline::Primitive(
                    PrimitiveFamily::Contraction,
                    role,
                )),
{
    reveal_strlit("gpu_flash_attention_backward_into");
    reveal_strlit("convert");
    reveal_strlit("dequant_f32");
    reveal_strlit("generate");
    reveal_strlit("gpu_accuracy");
    reveal_strlit("gpu_accuracy_into");
    reveal_strlit("gpu_adagrad_update");
    reveal_strlit("gpu_adam_update");
    reveal_strlit("gpu_adamw_update");
    reveal_strlit("gpu_add_col");
    reveal_strlit("gpu_add_col_scaled_inplace");
    reveal_strlit("gpu_add_diag");
    reveal_strlit("gpu_argmax_accuracy_into");
    reveal_strlit("gpu_argmax_write_split");
    reveal_strlit("gpu_argsort");
    reveal_strlit("gpu_avg_pool_1d");
    reveal_strlit("gpu_avg_pool_2d");
    reveal_strlit("gpu_avg_pool_2d_backward");
    reveal_strlit("gpu_avg_pool_2d_backward_f32");
    reveal_strlit("gpu_avg_pool_2d_f32");
    reveal_strlit("gpu_batchnorm_backward");
    reveal_strlit("gpu_batchnorm_forward");
    reveal_strlit("gpu_batchnorm_inference");
    reveal_strlit("gpu_bce_with_logits");
    reveal_strlit("gpu_bernoulli_into");
    reveal_strlit("gpu_bernoulli_nb_logprob");
    reveal_strlit("gpu_bernoulli_u8");
    reveal_strlit("gpu_bin_edges_quantile");
    reveal_strlit("gpu_bin_edges_uniform");
    reveal_strlit("gpu_bitonic_step");
    reveal_strlit("gpu_bitonic_step_dd");
    reveal_strlit("gpu_bitonic_step_idx");
    reveal_strlit("gpu_bn_update_running");
    reveal_strlit("gpu_bootstrap_sample");
    reveal_strlit("gpu_boruvka_mst");
    reveal_strlit("gpu_candidate_generate");
    reveal_strlit("gpu_categorical_logprob");
    reveal_strlit("gpu_causal_softmax_rows");
    reveal_strlit("gpu_centroid_update");
    reveal_strlit("gpu_cholesky");
    reveal_strlit("gpu_cholesky_inv");
    reveal_strlit("gpu_cholesky_solve");
    reveal_strlit("gpu_col2im_1d");
    reveal_strlit("gpu_col2im_2d");
    reveal_strlit("gpu_col2im_2d_ext");
    reveal_strlit("gpu_concat_into");
    reveal_strlit("gpu_contrastive_loss");
    reveal_strlit("gpu_conv1d_backward_bias_into");
    reveal_strlit("gpu_conv1d_backward_data_into");
    reveal_strlit("gpu_conv1d_backward_filter_into");
    reveal_strlit("gpu_conv1d_into");
    reveal_strlit("gpu_convert");
    reveal_strlit("gpu_core_distance");
    reveal_strlit("gpu_cosine_embedding_loss");
    reveal_strlit("gpu_count_distinct");
    reveal_strlit("gpu_cross_entropy");
    reveal_strlit("gpu_csr_spmm");
    reveal_strlit("gpu_csr_spmv");
    reveal_strlit("gpu_dasum");
    reveal_strlit("gpu_data_partition");
    reveal_strlit("gpu_degree");
    reveal_strlit("gpu_dgemv_into");
    reveal_strlit("gpu_dger_into");
    reveal_strlit("gpu_diffusion_commit");
    reveal_strlit("gpu_diffusion_sample");
    reveal_strlit("gpu_discounted_returns");
    reveal_strlit("gpu_dropout_u8_into");
    reveal_strlit("gpu_dsyrk");
    reveal_strlit("gpu_dtw");
    reveal_strlit("gpu_eigh_sym");
    reveal_strlit("gpu_embed_blend");
    reveal_strlit("gpu_embedding_backward");
    reveal_strlit("gpu_entropy_gated_step");
    reveal_strlit("gpu_eye");
    reveal_strlit("gpu_feature_subset");
    reveal_strlit("gpu_fft_c2c_1d");
    reveal_strlit("gpu_fill_sentinel");
    reveal_strlit("gpu_fixed_radius_neighbors");
    reveal_strlit("gpu_flash_attention_into");
    reveal_strlit("gpu_flash_attention_train_into");
    reveal_strlit("gpu_flash_gqa");
    reveal_strlit("gpu_flash_mla");
    reveal_strlit("gpu_potrs");
    reveal_strlit("gpu_rfft_1d");
    reveal_strlit("gpu_run_length");
    reveal_strlit("gpu_vconcat");
    reveal_strlit("form value and probability gradients");
    reveal_strlit("compute fixed-tree softmax gradient statistics");
    reveal_strlit("apply the softmax Jacobian and mask");
    reveal_strlit("form query gradients");
    reveal_strlit("form key gradients");
    reveal_strlit("form value gradients");
    reveal_strlit("form ");
    reveal_strlit("gradients");
    let symbol = "gpu_flash_attention_backward_into"@;
    assert("convert"@.len() != symbol.len());
    assert("dequant_f32"@.len() != symbol.len());
    assert("generate"@.len() != symbol.len());
    assert("gpu_accuracy"@.len() != symbol.len());
    assert("gpu_accuracy_into"@.len() != symbol.len());
    assert("gpu_adagrad_update"@.len() != symbol.len());
    assert("gpu_adam_update"@.len() != symbol.len());
    assert("gpu_adamw_update"@.len() != symbol.len());
    assert("gpu_add_col"@.len() != symbol.len());
    assert("gpu_add_col_scaled_inplace"@.len() != symbol.len());
    assert("gpu_add_diag"@.len() != symbol.len());
    assert("gpu_argmax_accuracy_into"@.len() != symbol.len());
    assert("gpu_argmax_write_split"@.len() != symbol.len());
    assert("gpu_argsort"@.len() != symbol.len());
    assert("gpu_avg_pool_1d"@.len() != symbol.len());
    assert("gpu_avg_pool_2d"@.len() != symbol.len());
    assert("gpu_avg_pool_2d_backward"@.len() != symbol.len());
    assert("gpu_avg_pool_2d_backward_f32"@.len() != symbol.len());
    assert("gpu_avg_pool_2d_f32"@.len() != symbol.len());
    assert("gpu_batchnorm_backward"@.len() != symbol.len());
    assert("gpu_batchnorm_forward"@.len() != symbol.len());
    assert("gpu_batchnorm_inference"@.len() != symbol.len());
    assert("gpu_bce_with_logits"@.len() != symbol.len());
    assert("gpu_bernoulli_into"@.len() != symbol.len());
    assert("gpu_bernoulli_nb_logprob"@.len() != symbol.len());
    assert("gpu_bernoulli_u8"@.len() != symbol.len());
    assert("gpu_bin_edges_quantile"@.len() != symbol.len());
    assert("gpu_bin_edges_uniform"@.len() != symbol.len());
    assert("gpu_bitonic_step"@.len() != symbol.len());
    assert("gpu_bitonic_step_dd"@.len() != symbol.len());
    assert("gpu_bitonic_step_idx"@.len() != symbol.len());
    assert("gpu_bn_update_running"@.len() != symbol.len());
    assert("gpu_bootstrap_sample"@.len() != symbol.len());
    assert("gpu_boruvka_mst"@.len() != symbol.len());
    assert("gpu_candidate_generate"@.len() != symbol.len());
    assert("gpu_categorical_logprob"@.len() != symbol.len());
    assert("gpu_causal_softmax_rows"@.len() != symbol.len());
    assert("gpu_centroid_update"@.len() != symbol.len());
    assert("gpu_cholesky"@.len() != symbol.len());
    assert("gpu_cholesky_inv"@.len() != symbol.len());
    assert("gpu_cholesky_solve"@.len() != symbol.len());
    assert("gpu_col2im_1d"@.len() != symbol.len());
    assert("gpu_col2im_2d"@.len() != symbol.len());
    assert("gpu_col2im_2d_ext"@.len() != symbol.len());
    assert("gpu_concat_into"@.len() != symbol.len());
    assert("gpu_contrastive_loss"@.len() != symbol.len());
    assert("gpu_conv1d_backward_bias_into"@.len() != symbol.len());
    assert("gpu_conv1d_backward_data_into"@.len() != symbol.len());
    assert("gpu_conv1d_backward_filter_into"@.len() != symbol.len());
    assert("gpu_conv1d_into"@.len() != symbol.len());
    assert("gpu_convert"@.len() != symbol.len());
    assert("gpu_core_distance"@.len() != symbol.len());
    assert("gpu_cosine_embedding_loss"@.len() != symbol.len());
    assert("gpu_count_distinct"@.len() != symbol.len());
    assert("gpu_cross_entropy"@.len() != symbol.len());
    assert("gpu_csr_spmm"@.len() != symbol.len());
    assert("gpu_csr_spmv"@.len() != symbol.len());
    assert("gpu_dasum"@.len() != symbol.len());
    assert("gpu_data_partition"@.len() != symbol.len());
    assert("gpu_degree"@.len() != symbol.len());
    assert("gpu_dgemv_into"@.len() != symbol.len());
    assert("gpu_dger_into"@.len() != symbol.len());
    assert("gpu_diffusion_commit"@.len() != symbol.len());
    assert("gpu_diffusion_sample"@.len() != symbol.len());
    assert("gpu_discounted_returns"@.len() != symbol.len());
    assert("gpu_dropout_u8_into"@.len() != symbol.len());
    assert("gpu_dsyrk"@.len() != symbol.len());
    assert("gpu_dtw"@.len() != symbol.len());
    assert("gpu_eigh_sym"@.len() != symbol.len());
    assert("gpu_embed_blend"@.len() != symbol.len());
    assert("gpu_embedding_backward"@.len() != symbol.len());
    assert("gpu_entropy_gated_step"@.len() != symbol.len());
    assert("gpu_eye"@.len() != symbol.len());
    assert("gpu_feature_subset"@.len() != symbol.len());
    assert("gpu_fft_c2c_1d"@.len() != symbol.len());
    assert("gpu_fill_sentinel"@.len() != symbol.len());
    assert("gpu_fixed_radius_neighbors"@.len() != symbol.len());
    assert("gpu_flash_attention_into"@.len() != symbol.len());
    assert("gpu_flash_attention_train_into"@.len() != symbol.len());
    assert("gpu_flash_gqa"@.len() != symbol.len());
    assert("gpu_flash_mla"@.len() != symbol.len());
    assert("gpu_potrs"@.len() != symbol.len());
    assert("gpu_rfft_1d"@.len() != symbol.len());
    assert("gpu_run_length"@.len() != symbol.len());
    assert("gpu_vconcat"@.len() != symbol.len());
    assert(symbol_entry_0(symbol) is None);
    assert(symbol_entry_1(symbol) is None);
    assert(symbol_entry_2(symbol) is None);
    assert(symbol_entry_3(symbol) is None);
    assert(symbol_entry_4(symbol) is Some);
    let summary = entry_summary("gpu_flash_attention_backward_into"@, source)->Some_0;
    assert(summary.4 == outline_attention_backward_steps());
    let steps = outline_attention_backward_steps();
    assert(steps.len() == 6);
    let statistics = "compute fixed-tree softmax gradient statistics"@;
    let jacobian = "apply the softmax Jacobian and mask"@;
    assert(statistics.subrange(0, 5)[0] != "form "@[0]);
    assert(!forms_gradients(statistics));
    assert(jacobian.subrange(0, 5)[0] != "form "@[0]);
    assert(!forms_gradients(jacobian));
}

} // verus!
