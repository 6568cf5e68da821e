//! Finite, statically bounded multi-stage recipes assembled from the
//! primitive families.
use vstd::prelude::*;

use crate::error::{OperationError, OperationErrorKind, OperationResult};
use crate::types::{CanonicalDTypeContract, OperationFamily, PrimitiveFamily};

verus! {

/// The deepest repeat nesting a recipe may use.
pub const MAX_COMPOSITION_DEPTH: usize = 8;

/// The payload domains consumed or produced by a structured operation.
#[derive(Clone, Copy, Debug, PartialEq, Eq, Structural)]
pub enum CompositionPayload {
    F32,
    I32,
    F32AndI32,
    F32OrI32,
}

impl CompositionPayload {
    pub fn dtype_contract(self) -> (contract: CanonicalDTypeContract)
        ensures
            contract == match self {
                CompositionPayload::F32 => CanonicalDTypeContract::F32Payload,
                CompositionPayload::I32 => CanonicalDTypeContract::I32Payload,
                CompositionPayload::F32AndI32 => CanonicalDTypeContract::F32AndI32Payloads,
                CompositionPayload::F32OrI32 => CanonicalDTypeContract::F32OrI32Payload,
            },
    {
        match self {
            CompositionPayload::F32 => CanonicalDTypeContract::F32Payload,
            CompositionPayload::I32 => CanonicalDTypeContract::I32Payload,
            CompositionPayload::F32AndI32 => CanonicalDTypeContract::F32AndI32Payloads,
            CompositionPayload::F32OrI32 => CanonicalDTypeContract::F32OrI32Payload,
        }
    }
}

/// A bound resolved during preparation from immutable tensor shapes or an
/// explicitly recorded operation parameter. No composition introduces a
/// data-dependent host loop.
#[derive(Clone, Copy, Debug, PartialEq, Eq)]
pub enum IterationBound {
    Fixed(u32),
    ShapeExtent { axis: usize },
    MinimumShapeExtent,
    CeilingLog2ShapeExtent { axis: usize },
    PreparedParameter { name: &'static str },
}

/// One calculation step in an owned multi-stage operation.
#[derive(Debug, PartialEq, Eq)]
pub enum CompositionStep {
    Primitive { family: PrimitiveFamily, role: &'static str },
    Repeat { bound: IterationBound, role: &'static str, body: Vec<CompositionStep> },
}

/// A repeat bound that can be resolved: a fixed bound is nonzero and a named
/// parameter has a nonempty name.
pub open spec fn bound_valid(bound: IterationBound) -> bool {
    match bound {
        IterationBound::Fixed(count) => count != 0,
        IterationBound::PreparedParameter { name } => name@.len() > 0,
        _ => true,
    }
}

pub open spec fn step_role(step: CompositionStep) -> &'static str {
    match step {
        CompositionStep::Primitive { role, .. } => role,
        CompositionStep::Repeat { role, .. } => role,
    }
}

/// One step is well formed at nesting `depth`.
pub open spec fn step_valid(step: CompositionStep, depth: nat) -> bool
    decreases step, 0nat,
{
    match step {
        CompositionStep::Primitive { role, .. } => role@.len() > 0,
        CompositionStep::Repeat { bound, role, body } => {
            &&& role@.len() > 0
            &&& body.len() > 0
            &&& bound_valid(bound)
            &&& steps_valid(body@, depth + 1)
        },
    }
}

/// A step list is well formed at nesting `depth`: the nesting is at most
/// eight levels and every step is well formed.
pub open spec fn steps_valid(steps: Seq<CompositionStep>, depth: nat) -> bool
    decreases steps, 1nat,
{
    &&& depth <= MAX_COMPOSITION_DEPTH
    &&& forall|i: int| 0 <= i < steps.len() ==> step_valid(#[trigger] steps[i], depth)
}

/// The detail of the first check a step fails at nesting `depth`, in the
/// order `validate_steps` checks it, if any.
pub open spec fn step_fault(step: CompositionStep, depth: nat) -> Option<Seq<char>>
    decreases step, 0nat, 0int,
{
    match step {
        CompositionStep::Primitive { role, .. } => if role@.len() == 0 {
            Some("every composition step requires a role"@)
        } else {
            None
        },
        CompositionStep::Repeat { bound, role, body } => if role@.len() == 0 {
            Some("every composition step requires a role"@)
        } else if body.len() == 0 {
            Some("repeat body must be nonempty"@)
        } else if bound matches IterationBound::Fixed(count) && count == 0 {
            Some("fixed repeat bound must be nonzero"@)
        } else if bound matches IterationBound::PreparedParameter { name } && name@.len() == 0 {
            Some("prepared repeat parameter name must be nonempty"@)
        } else if depth + 1 > MAX_COMPOSITION_DEPTH {
            Some("composition nesting exceeds eight levels"@)
        } else {
            steps_fault_from(body@, depth + 1, 0)
        },
    }
}

/// The detail of the first failing check among the steps from `index` on.
pub open spec fn steps_fault_from(steps: Seq<CompositionStep>, depth: nat, index: int) -> Option<Seq<char>>
    decreases steps, 1nat, steps.len() - index,
{
    if index < 0 || index >= steps.len() {
        None
    } else {
        match step_fault(steps[index], depth) {
            Some(detail) => Some(detail),
            None => steps_fault_from(steps, depth, index + 1),
        }
    }
}

/// The detail of the first check a step list fails at nesting `depth`.
pub open spec fn steps_fault(steps: Seq<CompositionStep>, depth: nat) -> Option<Seq<char>> {
    if depth > MAX_COMPOSITION_DEPTH {
        Some("composition nesting exceeds eight levels"@)
    } else {
        steps_fault_from(steps, depth, 0)
    }
}

/// How many repeats a step nests: zero for a primitive, one more than its
/// body for a repeat.
pub open spec fn step_depth(step: CompositionStep) -> nat
    decreases step, 0nat, 0int,
{
    match step {
        CompositionStep::Primitive { .. } => 0,
        CompositionStep::Repeat { body, .. } => 1 + steps_depth_from(body@, 0),
    }
}

/// The deepest repeat nesting among the steps from `index` on.
pub open spec fn steps_depth_from(steps: Seq<CompositionStep>, index: int) -> nat
    decreases steps, 1nat, steps.len() - index,
{
    if index < 0 || index >= steps.len() {
        0
    } else {
        let here = step_depth(steps[index]);
        let rest = steps_depth_from(steps, index + 1);
        if here >= rest {
            here
        } else {
            rest
        }
    }
}

proof fn lemma_step_depth_bounded(step: CompositionStep, depth: nat)
    requires
        depth <= MAX_COMPOSITION_DEPTH,
        step_valid(step, depth),
    ensures
        depth + step_depth(step) <= MAX_COMPOSITION_DEPTH,
    decreases step, 0nat, 0int,
{
    match step {
        CompositionStep::Primitive { .. } => {},
        CompositionStep::Repeat { body, .. } => {
            assert(decreases_to!(step => body@));
            lemma_steps_depth_bounded(body@, depth + 1, 0);
        },
    }
}

proof fn lemma_steps_depth_bounded(steps: Seq<CompositionStep>, depth: nat, index: int)
    requires
        steps_valid(steps, depth),
    ensures
        depth + steps_depth_from(steps, index) <= MAX_COMPOSITION_DEPTH,
    decreases steps, 1nat, steps.len() - index,
{
    if 0 <= index < steps.len() {
        lemma_step_depth_bounded(steps[index], depth);
        lemma_steps_depth_bounded(steps, depth, index + 1);
    }
}

/// Repeat nesting deeper than eight levels is rejected: a step list whose
/// repeats nest past the limit, counted from `depth`, is not well formed, so
/// `validate_steps` refuses it.
pub proof fn lemma_deep_nesting_rejected(steps: Seq<CompositionStep>, depth: nat)
    requires
        depth + steps_depth_from(steps, 0) > MAX_COMPOSITION_DEPTH,
    ensures
        !steps_valid(steps, depth),
{
    if steps_valid(steps, depth) {
        lemma_steps_depth_bounded(steps, depth, 0);
    }
}

/// Nesting deeper than eight levels is rejected: no step list below that
/// depth is well formed, and its first fault is the nesting limit.
pub proof fn lemma_nesting_beyond_limit_rejected(steps: Seq<CompositionStep>, depth: nat)
    requires
        depth > MAX_COMPOSITION_DEPTH,
    ensures
        !steps_valid(steps, depth),
        steps_fault(steps, depth) == Some("composition nesting exceeds eight levels"@),
{
}

impl CompositionStep {
    #[must_use]
    pub fn primitive(family: PrimitiveFamily, role: &'static str) -> (step: Self)
        ensures
            step == (CompositionStep::Primitive { family, role }),
    {
        CompositionStep::Primitive { family, role }
    }

    #[must_use]
    pub fn repeat(bound: IterationBound, role: &'static str, body: Vec<CompositionStep>) -> (step: Self)
        ensures
            step == (CompositionStep::Repeat { bound, role, body }),
    {
        CompositionStep::Repeat { bound, role, body }
    }

    #[must_use]
    pub fn role(&self) -> (role: &'static str)
        ensures
            role == step_role(*self),
    {
        match self {
            CompositionStep::Primitive { role, .. } => role,
            CompositionStep::Repeat { role, .. } => role,
        }
    }
}

/// A finite, backend-neutral algorithm assembled solely from owned scalar
/// maps and the primitive families.
#[derive(Debug, PartialEq, Eq)]
pub struct CompositionRecipe {
    pub name: &'static str,
    pub definition: &'static str,
    pub steps: Vec<CompositionStep>,
    pub payload: CompositionPayload,
    pub family: OperationFamily,
}

impl CompositionRecipe {
    /// The recipe passes `validate`.
    pub open spec fn well_formed(&self) -> bool {
        &&& self.name@.len() > 0
        &&& self.definition@.len() > 0
        &&& self.steps.len() > 0
        &&& steps_valid(self.steps@, 0)
    }

    pub fn new(
        name: &'static str,
        definition: &'static str,
        steps: Vec<CompositionStep>,
        payload: CompositionPayload,
        family: OperationFamily,
    ) -> (recipe: Self)
        ensures
            recipe == (CompositionRecipe { name, definition, steps, payload, family }),
    {
        CompositionRecipe { name, definition, steps, payload, family }
    }

    #[must_use]
    pub fn name(&self) -> (name: &'static str)
        ensures
            name == self.name,
    {
        self.name
    }

    #[must_use]
    pub fn definition(&self) -> (definition: &'static str)
        ensures
            definition == self.definition,
    {
        self.definition
    }

    #[must_use]
    pub fn steps(&self) -> (steps: &Vec<CompositionStep>)
        ensures
            steps == &self.steps,
    {
        &self.steps
    }

    #[must_use]
    pub fn payload(&self) -> (payload: CompositionPayload)
        ensures
            payload == self.payload,
    {
        self.payload
    }

    #[must_use]
    pub fn operation_family(&self) -> (family: OperationFamily)
        ensures
            family == self.family,
    {
        self.family
    }

    /// The detail of the first check the recipe fails, if any.
    pub open spec fn recipe_fault(self) -> Option<Seq<char>> {
        if self.name@.len() == 0 || self.definition@.len() == 0 || self.steps.len() == 0 {
            Some("composition name, definition, and top-level step list must be nonempty"@)
        } else {
            steps_fault(self.steps@, 0)
        }
    }

    /// Validate that the recipe is a finite, statically bounded composition of
    /// existing primitive families.
    pub fn validate(&self) -> (result: OperationResult<()>)
        ensures
            result is Ok <==> self.well_formed(),
            result is Err ==> result->Err_0.kind == OperationErrorKind::InvalidCompositionRecipe,
            result matches Err(error) ==> error.operation is None && Some(error.detail@)
                == self.recipe_fault(),
    {
        if self.name.is_empty() || self.definition.is_empty() || self.steps.len() == 0 {
            return Err(invalid_composition(
                "composition name, definition, and top-level step list must be nonempty",
            ));
        }
        validate_steps(&self.steps, 0)
    }
}

/// Check every step of a list at nesting `depth`, recursing into repeats.
pub fn validate_steps(steps: &Vec<CompositionStep>, depth: usize) -> (result: OperationResult<()>)
    ensures
        result is Ok <==> steps_valid(steps@, depth as nat),
        result is Err ==> result->Err_0.kind == OperationErrorKind::InvalidCompositionRecipe,
        result matches Err(error) ==> error.operation is None && Some(error.detail@) == steps_fault(
            steps@,
            depth as nat,
        ),
        result is Ok ==> steps_fault(steps@, depth as nat) is None,
    decreases steps@,
{
    if depth > MAX_COMPOSITION_DEPTH {
        return Err(invalid_composition("composition nesting exceeds eight levels"));
    }
    let mut index: usize = 0;
    while index < steps.len()
        invariant
            depth <= MAX_COMPOSITION_DEPTH,
            index <= steps.len(),
            forall|i: int| 0 <= i < index ==> step_valid(#[trigger] steps@[i], depth as nat),
            steps_fault(steps@, depth as nat) == steps_fault_from(steps@, depth as nat, index as int),
        decreases steps.len() - index,
    {
        let step = &steps[index];
        assert(steps_fault_from(steps@, depth as nat, index as int) == match step_fault(
            steps@[index as int],
            depth as nat,
        ) {
            Some(detail) => Some(detail),
            None => steps_fault_from(steps@, depth as nat, index + 1),
        });
        if step.role().is_empty() {
            return Err(invalid_composition("every composition step requires a role"));
        }
        match step {
            CompositionStep::Primitive { .. } => {},
            CompositionStep::Repeat { bound, body, .. } => {
                if body.len() == 0 {
                    return Err(invalid_composition("repeat body must be nonempty"));
                }
                match bound {
                    IterationBound::Fixed(count) => {
                        if *count == 0 {
                            return Err(invalid_composition("fixed repeat bound must be nonzero"));
                        }
                    },
                    IterationBound::PreparedParameter { name } => {
                        if name.is_empty() {
                            return Err(invalid_composition(
                                "prepared repeat parameter name must be nonempty",
                            ));
                        }
                    },
                    _ => {},
                }
                assert(decreases_to!(steps@ => steps@[index as int]));
                let nested = validate_steps(body, depth + 1);
                if nested.is_err() {
                    return nested;
                }
            },
        }
        index = index + 1;
    }
    Ok(())
}

fn invalid_composition(detail: &'static str) -> (error: OperationError)
    ensures
        error.kind == OperationErrorKind::InvalidCompositionRecipe,
        error.detail == detail,
        error.operation is None,
{
    OperationError::new(OperationErrorKind::InvalidCompositionRecipe, detail)
}

} // verus!
