//! Resolution of repeat bounds and the unrolling of a composition recipe
//! into a finite, deterministic dependency chain of primitive steps.
use vstd::prelude::*;

use crate::composition::{CompositionStep, IterationBound};
use crate::error::{OperationError, OperationErrorKind, OperationResult};
use crate::parameters::{PreparedParameters, prepared_u64, prepared_u64_spec};
use crate::registry::{LoweringAvailability, OperationDescriptor};
use crate::types::{OperationId, PrimitiveFamily};

verus! {

/// Upper limit on the number of primitive steps one expansion may produce.
pub const MAX_EXPANDED_STEPS: usize = 1_000_000;

/// One statically resolved repeat invocation surrounding a primitive step.
#[derive(Clone, Copy, Debug, PartialEq, Eq)]
pub struct ResolvedIteration {
    pub role: &'static str,
    pub index: u64,
    pub count: u64,
}

impl ResolvedIteration {
    #[must_use]
    pub fn role(self) -> (role: &'static str)
        ensures
            role == self.role,
    {
        self.role
    }

    #[must_use]
    pub fn index(self) -> (index: u64)
        ensures
            index == self.index,
    {
        self.index
    }

    #[must_use]
    pub fn count(self) -> (count: u64)
        ensures
            count == self.count,
    {
        self.count
    }
}

/// One repeat bound and its exact preparation-time value.
#[derive(Debug, PartialEq, Eq)]
pub struct ResolvedBound {
    pub role: &'static str,
    pub bound: IterationBound,
    pub value: u64,
    pub outer_iterations: Vec<ResolvedIteration>,
}

/// The mathematical content of a [`ResolvedBound`].
pub struct BoundModel {
    pub role: &'static str,
    pub bound: IterationBound,
    pub value: u64,
    pub outer_iterations: Seq<ResolvedIteration>,
}

impl View for ResolvedBound {
    type V = BoundModel;

    open spec fn view(&self) -> BoundModel {
        BoundModel {
            role: self.role,
            bound: self.bound,
            value: self.value,
            outer_iterations: self.outer_iterations@,
        }
    }
}

impl ResolvedBound {
    #[must_use]
    pub fn role(&self) -> (role: &'static str)
        ensures
            role == self.role,
    {
        self.role
    }

    #[must_use]
    pub fn bound(&self) -> (bound: IterationBound)
        ensures
            bound == self.bound,
    {
        self.bound
    }

    #[must_use]
    pub fn value(&self) -> (value: u64)
        ensures
            value == self.value,
    {
        self.value
    }

    #[must_use]
    pub fn outer_iterations(&self) -> (iterations: &[ResolvedIteration])
        ensures
            iterations@ == self.outer_iterations@,
    {
        self.outer_iterations.as_slice()
    }
}

/// One primitive after all surrounding repeats have been unrolled.
#[derive(Debug, PartialEq, Eq)]
pub struct ResolvedStep {
    pub ordinal: usize,
    pub family: PrimitiveFamily,
    pub role: &'static str,
    pub iterations: Vec<ResolvedIteration>,
    pub dependencies: Vec<usize>,
}

/// The mathematical content of a [`ResolvedStep`].
pub struct StepModel {
    pub ordinal: usize,
    pub family: PrimitiveFamily,
    pub role: &'static str,
    pub iterations: Seq<ResolvedIteration>,
    pub dependencies: Seq<usize>,
}

impl View for ResolvedStep {
    type V = StepModel;

    open spec fn view(&self) -> StepModel {
        StepModel {
            ordinal: self.ordinal,
            family: self.family,
            role: self.role,
            iterations: self.iterations@,
            dependencies: self.dependencies@,
        }
    }
}

impl ResolvedStep {
    #[must_use]
    pub fn ordinal(&self) -> (ordinal: usize)
        ensures
            ordinal == self.ordinal,
    {
        self.ordinal
    }

    #[must_use]
    pub fn family(&self) -> (family: PrimitiveFamily)
        ensures
            family == self.family,
    {
        self.family
    }

    #[must_use]
    pub fn role(&self) -> (role: &'static str)
        ensures
            role == self.role,
    {
        self.role
    }

    #[must_use]
    pub fn iterations(&self) -> (iterations: &[ResolvedIteration])
        ensures
            iterations@ == self.iterations@,
    {
        self.iterations.as_slice()
    }

    #[must_use]
    pub fn dependencies(&self) -> (dependencies: &[usize])
        ensures
            dependencies@ == self.dependencies@,
    {
        self.dependencies.as_slice()
    }
}

/// Finite dependency expansion of a descriptive composition recipe.
#[derive(Debug, PartialEq, Eq)]
pub struct ResolvedComposition {
    pub operation: OperationId,
    pub bounds: Vec<ResolvedBound>,
    pub steps: Vec<ResolvedStep>,
}

impl ResolvedComposition {
    #[must_use]
    pub fn operation(&self) -> (operation: OperationId)
        ensures
            operation == self.operation,
    {
        self.operation
    }

    #[must_use]
    pub fn bounds(&self) -> (bounds: &[ResolvedBound])
        ensures
            bounds@ == self.bounds@,
    {
        self.bounds.as_slice()
    }

    #[must_use]
    pub fn steps(&self) -> (steps: &[ResolvedStep])
        ensures
            steps@ == self.steps@,
    {
        self.steps.as_slice()
    }

    /// The resolved steps form a chain: step `i` has ordinal `i` and depends on
    /// exactly the step before it.
    pub open spec fn is_chain(&self) -> bool {
        chain_formed(self.steps@.map_values(|step: ResolvedStep| step@))
    }
}

/// Everything resolved so far.
pub struct ExpansionState {
    pub bounds: Seq<BoundModel>,
    pub steps: Seq<StepModel>,
}

/// The immutable inputs of bound resolution.
pub struct ExpansionContext {
    pub shape: Seq<u64>,
    pub parameters: PreparedParameters,
}

/// The dependencies of the step at `ordinal`: none for the first step, the
/// preceding step otherwise.
pub open spec fn chain_dependencies(ordinal: int) -> Seq<usize> {
    if ordinal == 0 {
        Seq::empty()
    } else {
        seq![(ordinal - 1) as usize]
    }
}

pub open spec fn chain_formed(steps: Seq<StepModel>) -> bool {
    forall|i: int|
        0 <= i < steps.len() ==> #[trigger] steps[i].ordinal == i && steps[i].dependencies
            == chain_dependencies(i)
}

/// Smallest `k` with `2^k >= value`.
pub open spec fn ceiling_log_two_spec(value: u64) -> u64
    decreases value,
{
    if value <= 1 {
        0
    } else {
        (1 + ceiling_log_two_spec(((value as int + 1) / 2) as u64)) as u64
    }
}

/// The smallest extent of a nonempty shape.
pub open spec fn minimum_extent(shape: Seq<u64>) -> u64
    decreases shape.len(),
{
    if shape.len() <= 1 {
        shape[0]
    } else {
        let rest = minimum_extent(shape.drop_last());
        if shape.last() < rest {
            shape.last()
        } else {
            rest
        }
    }
}

/// The smallest extent of a nonempty shape is one of its extents and no
/// extent is smaller.
pub proof fn lemma_minimum_extent_is_least(shape: Seq<u64>)
    requires
        shape.len() > 0,
    ensures
        forall|i: int| 0 <= i < shape.len() ==> minimum_extent(shape) <= #[trigger] shape[i],
        exists|i: int| 0 <= i < shape.len() && #[trigger] shape[i] == minimum_extent(shape),
    decreases shape.len(),
{
    if shape.len() == 1 {
        assert(shape[0] == minimum_extent(shape));
    } else {
        let prefix = shape.drop_last();
        lemma_minimum_extent_is_least(prefix);
        assert forall|i: int| 0 <= i < shape.len() implies minimum_extent(shape) <= #[trigger] shape[i] by {
            if i < shape.len() - 1 {
                assert(prefix[i] == shape[i]);
            }
        }
        if shape.last() < minimum_extent(prefix) {
            assert(shape[shape.len() - 1] == minimum_extent(shape));
        } else {
            let j = choose|j: int| 0 <= j < prefix.len() && #[trigger] prefix[j] == minimum_extent(prefix);
            assert(shape[j] == prefix[j]);
        }
    }
}

/// A `MinimumShapeExtent` bound over a nonempty shape resolves to an extent
/// of the shape that no extent of the shape is below; over an empty shape it
/// is unresolved.
pub proof fn lemma_minimum_bound_is_least_extent(context: ExpansionContext)
    ensures
        context.shape.len() == 0 ==> resolve_bound_spec(context, IterationBound::MinimumShapeExtent)
            == Err::<u64, OperationErrorKind>(OperationErrorKind::IterationBoundUnresolved),
        context.shape.len() > 0 ==> (resolve_bound_spec(context, IterationBound::MinimumShapeExtent) matches Ok(
            value,
        ) && (forall|i: int| 0 <= i < context.shape.len() ==> value <= #[trigger] context.shape[i]) && (
        exists|i: int| 0 <= i < context.shape.len() && #[trigger] context.shape[i] == value)),
{
    if context.shape.len() > 0 {
        lemma_minimum_extent_is_least(context.shape);
    }
}

/// The value a repeat bound takes, or why it cannot be resolved.
pub open spec fn resolve_bound_spec(context: ExpansionContext, bound: IterationBound) -> Result<
    u64,
    OperationErrorKind,
> {
    match bound {
        IterationBound::Fixed(count) => Ok(count as u64),
        IterationBound::ShapeExtent { axis } => if axis < context.shape.len() {
            Ok(context.shape[axis as int])
        } else {
            Err(OperationErrorKind::IterationBoundUnresolved)
        },
        IterationBound::MinimumShapeExtent => if context.shape.len() == 0 {
            Err(OperationErrorKind::IterationBoundUnresolved)
        } else {
            Ok(minimum_extent(context.shape))
        },
        IterationBound::CeilingLog2ShapeExtent { axis } => if axis < context.shape.len() {
            Ok(ceiling_log_two_spec(context.shape[axis as int]))
        } else {
            Err(OperationErrorKind::IterationBoundUnresolved)
        },
        IterationBound::PreparedParameter { name } => prepared_u64_spec(context.parameters, name@),
    }
}

/// Append one primitive step under the surrounding iterations.
pub open spec fn push_primitive_spec(
    state: ExpansionState,
    family: PrimitiveFamily,
    role: &'static str,
    iterations: Seq<ResolvedIteration>,
) -> Result<ExpansionState, OperationErrorKind> {
    if state.steps.len() == MAX_EXPANDED_STEPS {
        Err(OperationErrorKind::CompositionExpansionOverflow)
    } else {
        Ok(
            ExpansionState {
                bounds: state.bounds,
                steps: state.steps.push(
                    StepModel {
                        ordinal: state.steps.len() as usize,
                        family,
                        role,
                        iterations,
                        dependencies: chain_dependencies(state.steps.len() as int),
                    },
                ),
            },
        )
    }
}

/// Unroll a step list in order.
pub open spec fn expand_list(
    context: ExpansionContext,
    state: ExpansionState,
    steps: Seq<CompositionStep>,
    iterations: Seq<ResolvedIteration>,
) -> Result<ExpansionState, OperationErrorKind>
    decreases steps, 0int,
{
    if steps.len() == 0 {
        Ok(state)
    } else {
        match expand_one(context, state, steps[0], iterations) {
            Ok(next) => expand_list(context, next, steps.drop_first(), iterations),
            Err(kind) => Err(kind),
        }
    }
}

/// Unroll one step: a primitive is appended; a repeat records its resolved
/// bound and then unrolls its body once per iteration.
pub open spec fn expand_one(
    context: ExpansionContext,
    state: ExpansionState,
    step: CompositionStep,
    iterations: Seq<ResolvedIteration>,
) -> Result<ExpansionState, OperationErrorKind>
    decreases step, 0int,
{
    match step {
        CompositionStep::Primitive { family, role } => push_primitive_spec(
            state,
            family,
            role,
            iterations,
        ),
        CompositionStep::Repeat { bound, role, body } => match resolve_bound_spec(context, bound) {
            Ok(count) => {
                let recorded = ExpansionState {
                    bounds: state.bounds.push(
                        BoundModel { role, bound, value: count, outer_iterations: iterations },
                    ),
                    steps: state.steps,
                };
                expand_repeat(context, recorded, body@, role, iterations, count, 0)
            },
            Err(kind) => Err(kind),
        },
    }
}

/// Unroll a repeat body for iterations `index .. count`.
pub open spec fn expand_repeat(
    context: ExpansionContext,
    state: ExpansionState,
    body: Seq<CompositionStep>,
    role: &'static str,
    iterations: Seq<ResolvedIteration>,
    count: u64,
    index: nat,
) -> Result<ExpansionState, OperationErrorKind>
    decreases body, count - index + 1,
{
    if index >= count {
        Ok(state)
    } else {
        let nested = iterations.push(ResolvedIteration { role, index: index as u64, count });
        match expand_list(context, state, body, nested) {
            Ok(next) => expand_repeat(context, next, body, role, iterations, count, index + 1),
            Err(kind) => Err(kind),
        }
    }
}

/// How many primitive steps a step list unrolls to: one per primitive, and
/// a repeat's resolved bound times its body's count.
pub open spec fn steps_total(context: ExpansionContext, steps: Seq<CompositionStep>) -> int
    decreases steps, 0int,
{
    if steps.len() == 0 {
        0
    } else {
        step_total(context, steps[0]) + steps_total(context, steps.drop_first())
    }
}

/// How many primitive steps one step unrolls to.
pub open spec fn step_total(context: ExpansionContext, step: CompositionStep) -> int
    decreases step, 0int,
{
    match step {
        CompositionStep::Primitive { .. } => 1,
        CompositionStep::Repeat { bound, body, .. } => match resolve_bound_spec(context, bound) {
            Ok(count) => count * steps_total(context, body@),
            Err(_) => 0,
        },
    }
}

proof fn lemma_list_total(
    context: ExpansionContext,
    state: ExpansionState,
    steps: Seq<CompositionStep>,
    iterations: Seq<ResolvedIteration>,
)
    requires
        expand_list(context, state, steps, iterations) is Ok,
    ensures
        expand_list(context, state, steps, iterations)->Ok_0.steps.len() == state.steps.len() + steps_total(
            context,
            steps,
        ),
    decreases steps, 0int,
{
    if steps.len() > 0 {
        lemma_one_total(context, state, steps[0], iterations);
        let next = expand_one(context, state, steps[0], iterations)->Ok_0;
        lemma_list_total(context, next, steps.drop_first(), iterations);
    }
}

proof fn lemma_one_total(
    context: ExpansionContext,
    state: ExpansionState,
    step: CompositionStep,
    iterations: Seq<ResolvedIteration>,
)
    requires
        expand_one(context, state, step, iterations) is Ok,
    ensures
        expand_one(context, state, step, iterations)->Ok_0.steps.len() == state.steps.len() + step_total(
            context,
            step,
        ),
    decreases step, 0int,
{
    match step {
        CompositionStep::Primitive { .. } => {},
        CompositionStep::Repeat { bound, role, body } => {
            let count = resolve_bound_spec(context, bound)->Ok_0;
            let recorded = ExpansionState {
                bounds: state.bounds.push(BoundModel { role, bound, value: count, outer_iterations: iterations }),
                steps: state.steps,
            };
            lemma_repeat_total(context, recorded, body@, role, iterations, count, 0);
        },
    }
}

proof fn lemma_repeat_total(
    context: ExpansionContext,
    state: ExpansionState,
    body: Seq<CompositionStep>,
    role: &'static str,
    iterations: Seq<ResolvedIteration>,
    count: u64,
    index: nat,
)
    requires
        expand_repeat(context, state, body, role, iterations, count, index) is Ok,
        index <= count,
    ensures
        expand_repeat(context, state, body, role, iterations, count, index)->Ok_0.steps.len() == state.steps.len()
            + (count - index) * steps_total(context, body),
    decreases body, count - index + 1,
{
    if index < count {
        let nested = iterations.push(ResolvedIteration { role, index: index as u64, count });
        lemma_list_total(context, state, body, nested);
        let next = expand_list(context, state, body, nested)->Ok_0;
        lemma_repeat_total(context, next, body, role, iterations, count, index + 1);
        assert(expand_repeat(context, state, body, role, iterations, count, index) == expand_repeat(
            context,
            next,
            body,
            role,
            iterations,
            count,
            index + 1,
        ));
        let total = steps_total(context, body);
        let remaining: int = count - index;
        assert(remaining * total == total + (remaining - 1) * total) by (nonlinear_arith);
    } else {
        let total = steps_total(context, body);
        let remaining: int = count - index;
        assert(remaining == 0);
        assert(remaining * total == 0) by (nonlinear_arith)
            requires
                remaining == 0,
        ;
    }
}

/// The expansion of a composition has exactly as many steps as its recipe
/// unrolls to: one per primitive, a repeat's resolved bound times its body.
pub proof fn lemma_expansion_step_count(
    descriptor: OperationDescriptor,
    shape: Seq<u64>,
    parameters: PreparedParameters,
)
    requires
        expand_composition_spec(descriptor, shape, parameters) is Ok,
    ensures
        descriptor.lowering matches LoweringAvailability::Composition(recipe)
            && expand_composition_spec(descriptor, shape, parameters)->Ok_0.steps.len() == steps_total(
            ExpansionContext { shape, parameters },
            recipe.steps@,
        ),
{
    if let LoweringAvailability::Composition(recipe) = descriptor.lowering {
        lemma_list_total(ExpansionContext { shape, parameters }, empty_state(), recipe.steps@, Seq::empty());
    }
}

pub open spec fn empty_state() -> ExpansionState {
    ExpansionState { bounds: Seq::empty(), steps: Seq::empty() }
}

/// The mathematical content of a [`ResolvedComposition`].
pub struct ResolvedModel {
    pub operation: OperationId,
    pub bounds: Seq<BoundModel>,
    pub steps: Seq<StepModel>,
}

impl View for ResolvedComposition {
    type V = ResolvedModel;

    open spec fn view(&self) -> ResolvedModel {
        ResolvedModel {
            operation: self.operation,
            bounds: self.bounds@.map_values(|bound: ResolvedBound| bound@),
            steps: self.steps@.map_values(|step: ResolvedStep| step@),
        }
    }
}

/// What `expand_composition` produces for a descriptor, a shape, and the
/// prepared parameters.
pub open spec fn expand_composition_spec(
    descriptor: OperationDescriptor,
    shape: Seq<u64>,
    parameters: PreparedParameters,
) -> Result<ResolvedModel, OperationErrorKind> {
    match descriptor.lowering {
        LoweringAvailability::Composition(recipe) => if !recipe.well_formed() {
            Err(OperationErrorKind::InvalidCompositionRecipe)
        } else {
            match expand_list(
                ExpansionContext { shape, parameters },
                empty_state(),
                recipe.steps@,
                Seq::empty(),
            ) {
                Ok(state) => Ok(
                    ResolvedModel {
                        operation: descriptor.id,
                        bounds: state.bounds,
                        steps: state.steps,
                    },
                ),
                Err(kind) => Err(kind),
            }
        },
        _ => Err(OperationErrorKind::WrongLoweringKind),
    }
}

/// Smallest `k` with `2^k >= value`; zero for zero and one.
pub fn ceiling_log_two(value: u64) -> (log: u64)
    ensures
        log == ceiling_log_two_spec(value),
{
    proof {
        lemma_ceiling_log_two_bounded(value);
    }
    let mut remaining = value;
    let mut log: u64 = 0;
    while remaining > 1
        invariant
            log + ceiling_log_two_spec(remaining) == ceiling_log_two_spec(value),
            ceiling_log_two_spec(value) <= 64,
        decreases remaining,
    {
        let next = remaining / 2 + remaining % 2;
        assert(next as int == (remaining as int + 1) / 2);
        proof {
            lemma_ceiling_log_two_bounded(next);
        }
        assert(ceiling_log_two_spec(remaining) == 1 + ceiling_log_two_spec(next));
        remaining = next;
        log = log + 1;
    }
    log
}

/// A `u64` never needs more than sixty-four halvings.
/// A value of at least two needs at least one halving.
pub proof fn lemma_ceiling_log_two_positive(value: u64)
    requires
        value >= 2,
    ensures
        ceiling_log_two_spec(value) >= 1,
{
    lemma_ceiling_log_two_bounded(((value as int + 1) / 2) as u64);
}

/// The stage count of any `u64` length is at most sixty-four.
pub proof fn lemma_ceiling_log_two_bounded(value: u64)
    ensures
        ceiling_log_two_spec(value) <= 64,
{
    assert(vstd::arithmetic::power2::pow2(64) == 0x1_0000_0000_0000_0000) by {
        vstd::arithmetic::power2::lemma2_to64();
    }
    lemma_ceiling_log_two_pow(value, 64);
}

proof fn lemma_ceiling_log_two_pow(value: u64, bits: nat)
    requires
        value as int <= vstd::arithmetic::power2::pow2(bits),
    ensures
        ceiling_log_two_spec(value) <= bits,
    decreases bits,
{
    if value > 1 {
        if bits == 0 {
            assert(vstd::arithmetic::power2::pow2(0) == 1) by {
                vstd::arithmetic::power2::lemma2_to64();
            }
        } else {
            vstd::arithmetic::power2::lemma_pow2_unfold(bits);
            lemma_ceiling_log_two_pow(((value as int + 1) / 2) as u64, (bits - 1) as nat);
        }
    }
}

/// A well-formed step sequence: a dependency chain within the step limit.
pub open spec fn steps_wf(steps: Seq<StepModel>) -> bool {
    chain_formed(steps) && steps.len() <= MAX_EXPANDED_STEPS
}

/// The expansion state held by the bound and step vectors.
pub open spec fn state_of(bounds: Seq<ResolvedBound>, steps: Seq<ResolvedStep>) -> ExpansionState {
    ExpansionState {
        bounds: bounds.map_values(|bound: ResolvedBound| bound@),
        steps: steps.map_values(|step: ResolvedStep| step@),
    }
}

fn copy_iterations(iterations: &Vec<ResolvedIteration>) -> (copy: Vec<ResolvedIteration>)
    ensures
        copy@ == iterations@,
{
    let mut copy: Vec<ResolvedIteration> = Vec::new();
    let mut index: usize = 0;
    while index < iterations.len()
        invariant
            index <= iterations.len(),
            copy@ == iterations@.subrange(0, index as int),
        decreases iterations.len() - index,
    {
        copy.push(iterations[index]);
        index = index + 1;
    }
    assert(iterations@.subrange(0, iterations@.len() as int) =~= iterations@);
    copy
}

fn minimum_shape_extent(shape: &[u64]) -> (minimum: u64)
    requires
        shape@.len() > 0,
    ensures
        minimum == minimum_extent(shape@),
        forall|i: int| 0 <= i < shape@.len() ==> minimum <= #[trigger] shape@[i],
        exists|i: int| 0 <= i < shape@.len() && #[trigger] shape@[i] == minimum,
{
    proof {
        lemma_minimum_extent_is_least(shape@);
    }
    let mut minimum = shape[0];
    let mut index: usize = 1;
    assert(minimum_extent(shape@.subrange(0, 1)) == shape@[0]);
    while index < shape.len()
        invariant
            1 <= index <= shape@.len(),
            minimum == minimum_extent(shape@.subrange(0, index as int)),
        decreases shape.len() - index,
    {
        assert(shape@.subrange(0, index + 1).drop_last() =~= shape@.subrange(0, index as int));
        if shape[index] < minimum {
            minimum = shape[index];
        }
        index = index + 1;
    }
    assert(shape@.subrange(0, shape@.len() as int) =~= shape@);
    minimum
}

fn shape_extent(shape: &[u64], axis: usize) -> (extent: Result<u64, OperationError>)
    ensures
        axis < shape@.len() ==> extent == Ok::<u64, OperationError>(shape@[axis as int]),
        axis >= shape@.len() ==> (extent matches Err(error) && error.kind
            == OperationErrorKind::IterationBoundUnresolved),
{
    if axis < shape.len() {
        Ok(shape[axis])
    } else {
        Err(
            OperationError::new(
                OperationErrorKind::IterationBoundUnresolved,
                "iteration axis is outside the shape rank",
            ),
        )
    }
}

/// Resolve one repeat bound against the iteration shape and the prepared
/// parameters.
pub fn resolve_bound(shape: &[u64], parameters: &PreparedParameters, bound: IterationBound) -> (value:
    Result<u64, OperationError>)
    ensures
        match resolve_bound_spec(ExpansionContext { shape: shape@, parameters: *parameters }, bound) {
            Ok(v) => value == Ok::<u64, OperationError>(v),
            Err(kind) => value matches Err(error) && error.kind == kind,
        },
{
    match bound {
        IterationBound::Fixed(count) => Ok(count as u64),
        IterationBound::ShapeExtent { axis } => shape_extent(shape, axis),
        IterationBound::MinimumShapeExtent => {
            if shape.len() == 0 {
                Err(
                    OperationError::new(
                        OperationErrorKind::IterationBoundUnresolved,
                        "minimum shape extent requires a nonempty shape",
                    ),
                )
            } else {
                Ok(minimum_shape_extent(shape))
            }
        },
        IterationBound::CeilingLog2ShapeExtent { axis } => match shape_extent(shape, axis) {
            Ok(extent) => Ok(ceiling_log_two(extent)),
            Err(error) => Err(error),
        },
        IterationBound::PreparedParameter { name } => prepared_u64(parameters, name),
    }
}

fn push_primitive(
    bounds: &Vec<ResolvedBound>,
    steps: &mut Vec<ResolvedStep>,
    family: PrimitiveFamily,
    role: &'static str,
    iterations: &Vec<ResolvedIteration>,
) -> (result: Result<(), OperationError>)
    requires
        steps_wf(state_of(bounds@, old(steps)@).steps),
    ensures
        steps_wf(state_of(bounds@, final(steps)@).steps),
        match push_primitive_spec(state_of(bounds@, old(steps)@), family, role, iterations@) {
            Ok(next) => result is Ok && state_of(bounds@, final(steps)@) == next,
            Err(kind) => result matches Err(error) && error.kind == kind && final(steps)@ == old(steps)@,
        },
{
    if steps.len() == MAX_EXPANDED_STEPS {
        return Err(
            OperationError::new(
                OperationErrorKind::CompositionExpansionOverflow,
                "composition exceeds the fixed preparation step limit",
            ),
        );
    }
    let ordinal = steps.len();
    let dependencies = if ordinal == 0 {
        Vec::new()
    } else {
        vec![ordinal - 1]
    };
    assert(dependencies@ =~= chain_dependencies(ordinal as int));
    let iterations_copy = copy_iterations(iterations);
    let ghost before = steps@;
    steps.push(ResolvedStep { ordinal, family, role, iterations: iterations_copy, dependencies });
    proof {
        let next = push_primitive_spec(state_of(bounds@, before), family, role, iterations@);
        assert(state_of(bounds@, steps@).steps =~= next->Ok_0.steps);
        assert(state_of(bounds@, steps@).bounds =~= next->Ok_0.bounds);
    }
    Ok(())
}

fn expand_steps(
    shape: &[u64],
    parameters: &PreparedParameters,
    bounds: &mut Vec<ResolvedBound>,
    out: &mut Vec<ResolvedStep>,
    steps: &Vec<CompositionStep>,
    iterations: &Vec<ResolvedIteration>,
) -> (result: Result<(), OperationError>)
    requires
        steps_wf(state_of(old(bounds)@, old(out)@).steps),
    ensures
        steps_wf(state_of(final(bounds)@, final(out)@).steps),
        match expand_list(
            ExpansionContext { shape: shape@, parameters: *parameters },
            state_of(old(bounds)@, old(out)@),
            steps@,
            iterations@,
        ) {
            Ok(state) => result is Ok && state_of(final(bounds)@, final(out)@) == state,
            Err(kind) => result matches Err(error) && error.kind == kind,
        },
    decreases steps@,
{
    let ghost context = ExpansionContext { shape: shape@, parameters: *parameters };
    let ghost initial = state_of(bounds@, out@);
    let mut index: usize = 0;
    assert(steps@.subrange(0, steps@.len() as int) =~= steps@);
    while index < steps.len()
        invariant
            index <= steps@.len(),
            context == (ExpansionContext { shape: shape@, parameters: *parameters }),
            initial == state_of(old(bounds)@, old(out)@),
            steps_wf(state_of(bounds@, out@).steps),
            expand_list(context, initial, steps@, iterations@) == expand_list(
                context,
                state_of(bounds@, out@),
                steps@.subrange(index as int, steps@.len() as int),
                iterations@,
            ),
        decreases steps.len() - index,
    {
        let ghost current = state_of(bounds@, out@);
        let ghost rest = steps@.subrange(index as int, steps@.len() as int);
        assert(rest[0] == steps@[index as int]);
        assert(rest.drop_first() =~= steps@.subrange(index + 1, steps@.len() as int));
        assert(expand_list(context, current, rest, iterations@) == match expand_one(
            context,
            current,
            rest[0],
            iterations@,
        ) {
            Ok(next) => expand_list(context, next, rest.drop_first(), iterations@),
            Err(kind) => Err(kind),
        });
        match &steps[index] {
            CompositionStep::Primitive { family, role } => {
                let outcome = push_primitive(bounds, out, *family, role, iterations);
                if outcome.is_err() {
                    return outcome;
                }
            },
            CompositionStep::Repeat { bound, role, body } => {
                let count = match resolve_bound(shape, parameters, *bound) {
                    Ok(count) => count,
                    Err(error) => {
                        return Err(error);
                    },
                };
                let ghost before = bounds@;
                bounds.push(
                    ResolvedBound {
                        role,
                        bound: *bound,
                        value: count,
                        outer_iterations: copy_iterations(iterations),
                    },
                );
                let ghost recorded = state_of(bounds@, out@);
                proof {
                    let expected = ExpansionState {
                        bounds: state_of(before, out@).bounds.push(
                            BoundModel {
                                role: *role,
                                bound: *bound,
                                value: count,
                                outer_iterations: iterations@,
                            },
                        ),
                        steps: state_of(before, out@).steps,
                    };
                    assert(recorded.bounds =~= expected.bounds);
                    assert(recorded.steps =~= expected.steps);
                    assert(expand_one(context, current, rest[0], iterations@) == expand_repeat(
                        context,
                        recorded,
                        body@,
                        *role,
                        iterations@,
                        count,
                        0,
                    ));
                }
                let mut iteration: u64 = 0;
                while iteration < count
                    invariant
                        iteration <= count,
                        index < steps@.len(),
                        steps@[index as int] is Repeat,
                        steps@[index as int]->Repeat_body == *body,
                        context == (ExpansionContext { shape: shape@, parameters: *parameters }),
                        initial == state_of(old(bounds)@, old(out)@),
                        steps_wf(state_of(bounds@, out@).steps),
                        expand_list(context, initial, steps@, iterations@) == match expand_repeat(
                            context,
                            recorded,
                            body@,
                            *role,
                            iterations@,
                            count,
                            0,
                        ) {
                            Ok(next) => expand_list(context, next, rest.drop_first(), iterations@),
                            Err(kind) => Err(kind),
                        },
                        expand_repeat(context, recorded, body@, *role, iterations@, count, 0)
                            == expand_repeat(
                            context,
                            state_of(bounds@, out@),
                            body@,
                            *role,
                            iterations@,
                            count,
                            iteration as nat,
                        ),
                    decreases count - iteration,
                {
                    let ghost inner = state_of(bounds@, out@);
                    let mut nested = copy_iterations(iterations);
                    nested.push(ResolvedIteration { role, index: iteration, count });
                    assert(decreases_to!(steps@ => steps@[index as int]));
                    let outcome = expand_steps(shape, parameters, bounds, out, body, &nested);
                    assert(expand_repeat(
                        context,
                        inner,
                        body@,
                        *role,
                        iterations@,
                        count,
                        iteration as nat,
                    ) == match expand_list(context, inner, body@, nested@) {
                        Ok(next) => expand_repeat(
                            context,
                            next,
                            body@,
                            *role,
                            iterations@,
                            count,
                            iteration as nat + 1,
                        ),
                        Err(kind) => Err(kind),
                    });
                    if outcome.is_err() {
                        return outcome;
                    }
                    iteration = iteration + 1;
                }
            },
        }
        index = index + 1;
    }
    Ok(())
}

/// Resolve all shape and prepared-parameter bounds and unroll the composition
/// into a finite, deterministic dependency chain.
pub fn expand_composition(
    descriptor: &OperationDescriptor,
    iteration_shape: &[u64],
    parameters: &PreparedParameters,
) -> (resolved: OperationResult<ResolvedComposition>)
    ensures
        match expand_composition_spec(*descriptor, iteration_shape@, *parameters) {
            Ok(model) => resolved matches Ok(composition) && composition@ == model,
            Err(kind) => resolved matches Err(error) && error.kind == kind && error.operation == Some(
                descriptor.id,
            ),
        },
        resolved matches Ok(composition) ==> composition.is_chain() && composition.steps@.len()
            <= MAX_EXPANDED_STEPS,
{
    let recipe = match &descriptor.lowering {
        LoweringAvailability::Composition(recipe) => recipe,
        _ => {
            return Err(
                OperationError::new(
                    OperationErrorKind::WrongLoweringKind,
                    "operation lowering is not a structured composition",
                ).for_operation(descriptor.id),
            );
        },
    };
    if let Err(error) = recipe.validate() {
        return Err(error.for_operation(descriptor.id));
    }
    let mut bounds: Vec<ResolvedBound> = Vec::new();
    let mut steps: Vec<ResolvedStep> = Vec::new();
    let iterations: Vec<ResolvedIteration> = Vec::new();
    proof {
        assert(state_of(bounds@, steps@).bounds =~= empty_state().bounds);
        assert(state_of(bounds@, steps@).steps =~= empty_state().steps);
    }
    match expand_steps(iteration_shape, parameters, &mut bounds, &mut steps, &recipe.steps, &iterations) {
        Ok(()) => {
            proof {
                assert(iterations@ =~= Seq::<ResolvedIteration>::empty());
            }
            let composition = ResolvedComposition { operation: descriptor.id, bounds, steps };
            Ok(composition)
        },
        Err(error) => Err(error.for_operation(descriptor.id)),
    }
}

} // verus!
