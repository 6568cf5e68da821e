//! The immutable request that turns a structured operation into a concrete
//! graph fragment, and the boundary checks every concrete materializer runs
//! on it before emitting anything.
use vstd::prelude::*;

use crate::error::{OperationError, OperationErrorKind, OperationResult};
use crate::identity::IdentityNamespace;
use crate::names::{decimal_digits, indexed_name, name_is};
use crate::checked::{checked_product, lemma_checked_product_exact, product};
use crate::parameters::{PreparedParameter, PreparedParameters, prepared_u64, prepared_u64_spec};
use crate::registry::{LoweringAvailability, OperationDescriptor};
use crate::text::text_eq;
use crate::types::{ByteCount, DType, OperationId, ValueId};

verus! {

/// The boundary facts of a declared tensor that request validation reads:
/// its identity, payload type, extents, storage size and boundary markers.
#[derive(Clone, Debug)]
pub struct TensorDecl {
    pub id: ValueId,
    pub dtype: DType,
    pub extents: Vec<u64>,
    pub storage_bytes: ByteCount,
    pub external_input: bool,
    pub external_output: bool,
}

/// One immutable, name-addressed tensor declaration at the composition
/// preparation boundary.
#[derive(Clone, Debug)]
pub struct NamedTensor {
    pub name: String,
    pub tensor: TensorDecl,
}

impl NamedTensor {
    #[must_use]
    pub fn new(name: String, tensor: TensorDecl) -> (declaration: Self)
        ensures
            declaration.name@ == name@,
            declaration.tensor == tensor,
    {
        NamedTensor { name, tensor }
    }

    #[must_use]
    pub fn name(&self) -> (name: &str)
        ensures
            name@ == self.name@,
    {
        self.name.as_str()
    }

    #[must_use]
    pub fn tensor(&self) -> (tensor: &TensorDecl)
        ensures
            *tensor == self.tensor,
    {
        &self.tensor
    }
}

/// Immutable request used to turn a structured operation into a concrete
/// graph fragment.
#[derive(Debug)]
pub struct MaterializationRequest {
    pub descriptor: OperationDescriptor,
    pub inputs: Vec<NamedTensor>,
    pub outputs: Vec<NamedTensor>,
    pub iteration_shape_input: String,
    pub parameters: PreparedParameters,
    pub identity_namespace: IdentityNamespace,
    pub workspace_limit: ByteCount,
}

/// Two declarations share a name or a tensor identity.
pub open spec fn declarations_clash(left: NamedTensor, right: NamedTensor) -> bool {
    left.name@ == right.name@ || left.tensor.id == right.tensor.id
}

/// Every declaration is named, and no two share a name or an identity.
pub open spec fn declarations_distinct(declarations: Seq<NamedTensor>) -> bool {
    &&& forall|i: int| 0 <= i < declarations.len() ==> (#[trigger] declarations[i]).name@.len() > 0
    &&& forall|i: int, j: int|
        0 <= i < j < declarations.len() ==> !declarations_clash(
            #[trigger] declarations[i],
            #[trigger] declarations[j],
        )
}

/// Appending a declaration that clashes with none before it keeps a list
/// distinct.
proof fn lemma_push_distinct(declarations: Seq<NamedTensor>, next: NamedTensor)
    requires
        declarations_distinct(declarations),
        next.name@.len() > 0,
        forall|j: int| 0 <= j < declarations.len() ==> !declarations_clash(#[trigger] declarations[j], next),
    ensures
        declarations_distinct(declarations.push(next)),
{
    let grown = declarations.push(next);
    assert forall|i: int, j: int| 0 <= i < j < grown.len() implies !declarations_clash(
        #[trigger] grown[i],
        #[trigger] grown[j],
    ) by {
        if j < declarations.len() {
            assert(grown[i] == declarations[i] && grown[j] == declarations[j]);
        } else {
            assert(grown[i] == declarations[i] && grown[j] == next);
        }
    }
    assert forall|i: int| 0 <= i < grown.len() implies (#[trigger] grown[i]).name@.len() > 0 by {
        if i < declarations.len() {
            assert(grown[i] == declarations[i]);
        }
    }
}

/// The first of `list[..upto]` that clashes with `declaration`.
fn first_clash(declaration: &NamedTensor, list: &Vec<NamedTensor>, upto: usize) -> (clash: Option<usize>)
    requires
        upto <= list@.len(),
    ensures
        match clash {
            Some(j) => j < upto && declarations_clash(list@[j as int], *declaration),
            None => forall|j: int| 0 <= j < upto ==> !declarations_clash(#[trigger] list@[j], *declaration),
        },
{
    let mut index: usize = 0;
    while index < upto
        invariant
            index <= upto <= list@.len(),
            forall|j: int| 0 <= j < index ==> !declarations_clash(#[trigger] list@[j], *declaration),
        decreases upto - index,
    {
        let other = &list[index];
        if text_eq(other.name.as_str(), declaration.name.as_str()) || other.tensor.id.0
            == declaration.tensor.id.0 {
            return Some(index);
        }
        index = index + 1;
    }
    None
}

impl MaterializationRequest {
    #[must_use]
    pub fn new(
        descriptor: OperationDescriptor,
        inputs: Vec<NamedTensor>,
        outputs: Vec<NamedTensor>,
        iteration_shape_input: String,
        parameters: PreparedParameters,
        identity_namespace: IdentityNamespace,
        workspace_limit: ByteCount,
    ) -> (request: Self)
        ensures
            request.descriptor == descriptor,
            request.inputs@ == inputs@,
            request.outputs@ == outputs@,
            request.iteration_shape_input@ == iteration_shape_input@,
            request.parameters == parameters,
            request.identity_namespace == identity_namespace,
            request.workspace_limit == workspace_limit,
    {
        MaterializationRequest {
            descriptor,
            inputs,
            outputs,
            iteration_shape_input,
            parameters,
            identity_namespace,
            workspace_limit,
        }
    }

    /// Every declaration, inputs first.
    pub open spec fn declarations(&self) -> Seq<NamedTensor> {
        self.inputs@ + self.outputs@
    }

    /// The request describes a structured operation with a well-formed
    /// tensor boundary: at least one input and one output, every
    /// declaration named, no name or identity declared twice, every input
    /// marked external, and every output marked external output and not
    /// input.
    pub open spec fn boundary_valid(&self) -> bool {
        &&& self.descriptor.lowering is Composition
        &&& self.inputs@.len() > 0
        &&& self.outputs@.len() > 0
        &&& declarations_distinct(self.declarations())
        &&& forall|i: int| 0 <= i < self.inputs@.len() ==> (#[trigger] self.inputs@[i]).tensor.external_input
        &&& forall|i: int|
            0 <= i < self.outputs@.len() ==> (#[trigger] self.outputs@[i]).tensor.external_output
                && !self.outputs@[i].tensor.external_input
    }

    pub(crate) fn request_error(&self, detail: &'static str) -> (error: OperationError)
        ensures
            error.kind == OperationErrorKind::InvalidMaterializationRequest,
            error.operation == Some(self.descriptor.id),
    {
        OperationError::new(OperationErrorKind::InvalidMaterializationRequest, detail).for_operation(
            self.descriptor.id,
        )
    }

    /// Check the request's descriptor and tensor boundary.
    #[verifier::loop_isolation(false)]
    pub fn validate_request(&self) -> (result: OperationResult<()>)
        ensures
            result is Ok <==> self.boundary_valid(),
            result matches Err(error) ==> error.operation == Some(self.descriptor.id) && error.kind
                == if self.descriptor.lowering is Composition {
                OperationErrorKind::InvalidMaterializationRequest
            } else {
                OperationErrorKind::WrongLoweringKind
            },
    {
        match &self.descriptor.lowering {
            LoweringAvailability::Composition(_) => {},
            _ => {
                return Err(
                    OperationError::new(
                        OperationErrorKind::WrongLoweringKind,
                        "materialization requires a structured operation descriptor",
                    ).for_operation(self.descriptor.id),
                );
            },
        }
        if self.inputs.len() == 0 || self.outputs.len() == 0 {
            return Err(
                self.request_error(
                    "materialization requires at least one input and one output declaration",
                ),
            );
        }
        let ghost all = self.declarations();
        let mut index: usize = 0;
        while index < self.inputs.len()
            invariant
                index <= self.inputs@.len(),
                all == self.inputs@ + self.outputs@,
                declarations_distinct(self.inputs@.subrange(0, index as int)),
            decreases self.inputs.len() - index,
        {
            let declaration = &self.inputs[index];
            if declaration.name.as_str().is_empty() {
                assert(all[index as int] == self.inputs@[index as int]);
                return Err(self.request_error("tensor declaration name is empty or duplicated"));
            }
            match first_clash(declaration, &self.inputs, index) {
                Some(j) => {
                    assert(all[j as int] == self.inputs@[j as int]);
                    assert(all[index as int] == self.inputs@[index as int]);
                    assert(!declarations_distinct(all));
                    return Err(self.request_error("tensor declaration clashes with an earlier one"));
                },
                None => {},
            }
            proof {
                let prefix = self.inputs@.subrange(0, index as int);
                assert forall|j: int| 0 <= j < prefix.len() implies !declarations_clash(
                    #[trigger] prefix[j],
                    self.inputs@[index as int],
                ) by {
                    assert(prefix[j] == self.inputs@[j]);
                }
                lemma_push_distinct(prefix, self.inputs@[index as int]);
                assert(prefix.push(self.inputs@[index as int]) =~= self.inputs@.subrange(
                    0,
                    index + 1,
                ));
            }
            index = index + 1;
        }
        assert(self.inputs@.subrange(0, self.inputs@.len() as int) =~= self.inputs@);
        let mut index: usize = 0;
        while index < self.outputs.len()
            invariant
                index <= self.outputs@.len(),
                all == self.inputs@ + self.outputs@,
                declarations_distinct(self.inputs@ + self.outputs@.subrange(0, index as int)),
            decreases self.outputs.len() - index,
        {
            let declaration = &self.outputs[index];
            let position = Ghost(self.inputs@.len() + index);
            assert(all[position@] == self.outputs@[index as int]);
            if declaration.name.as_str().is_empty() {
                return Err(self.request_error("tensor declaration name is empty or duplicated"));
            }
            match first_clash(declaration, &self.inputs, self.inputs.len()) {
                Some(j) => {
                    assert(all[j as int] == self.inputs@[j as int]);
                    assert(!declarations_distinct(all));
                    return Err(self.request_error("tensor declaration clashes with an earlier one"));
                },
                None => {},
            }
            match first_clash(declaration, &self.outputs, index) {
                Some(j) => {
                    assert(all[self.inputs@.len() + j] == self.outputs@[j as int]);
                    assert(!declarations_distinct(all));
                    return Err(self.request_error("tensor declaration clashes with an earlier one"));
                },
                None => {},
            }
            proof {
                let prefix = self.inputs@ + self.outputs@.subrange(0, index as int);
                assert forall|j: int| 0 <= j < prefix.len() implies !declarations_clash(
                    #[trigger] prefix[j],
                    self.outputs@[index as int],
                ) by {
                    if j < self.inputs@.len() {
                        assert(prefix[j] == self.inputs@[j]);
                    } else {
                        assert(prefix[j] == self.outputs@[j - self.inputs@.len()]);
                    }
                }
                lemma_push_distinct(prefix, self.outputs@[index as int]);
                assert(prefix.push(self.outputs@[index as int]) =~= self.inputs@
                    + self.outputs@.subrange(0, index + 1));
            }
            index = index + 1;
        }
        assert(self.outputs@.subrange(0, self.outputs@.len() as int) =~= self.outputs@);
        let mut index: usize = 0;
        while index < self.inputs.len()
            invariant
                index <= self.inputs@.len(),
                forall|i: int| 0 <= i < index ==> (#[trigger] self.inputs@[i]).tensor.external_input,
            decreases self.inputs.len() - index,
        {
            if !self.inputs[index].tensor.external_input {
                return Err(self.request_error("input is not marked external_input"));
            }
            index = index + 1;
        }
        let mut index: usize = 0;
        while index < self.outputs.len()
            invariant
                index <= self.outputs@.len(),
                forall|i: int|
                    0 <= i < index ==> (#[trigger] self.outputs@[i]).tensor.external_output
                        && !self.outputs@[i].tensor.external_input,
            decreases self.outputs.len() - index,
        {
            let tensor = &self.outputs[index].tensor;
            if tensor.external_input || !tensor.external_output {
                return Err(self.request_error("output must be non-input and marked external_output"));
            }
            index = index + 1;
        }
        Ok(())
    }
}

/// The largest element count or extent an int32 index can address.
pub const MAX_I32_INDEX: u64 = 2_147_483_647;

/// The largest integer binary32 holds exactly.
pub const MAX_EXACT_F32_INTEGER: u64 = 16_777_216;

/// `result` was refused with `kind` on behalf of `operation`.
pub open spec fn refused<T>(result: OperationResult<T>, kind: OperationErrorKind, operation: OperationId) -> bool {
    result matches Err(error) && error.kind == kind && error.operation == Some(operation)
}

/// The names a declaration list declares.
pub open spec fn declared_names(declarations: Seq<NamedTensor>) -> Set<Seq<char>> {
    Set::new(
        |name: Seq<char>|
            exists|i: int| 0 <= i < declarations.len() && (#[trigger] declarations[i]).name@ == name,
    )
}

/// The names a list of names holds.
pub open spec fn listed_names(names: Seq<&str>) -> Set<Seq<char>> {
    Set::new(|name: Seq<char>| exists|i: int| 0 <= i < names.len() && (#[trigger] names[i])@ == name)
}

/// The names the prepared parameters hold.
pub open spec fn parameter_names(parameters: PreparedParameters) -> Set<Seq<char>> {
    Set::new(|name: Seq<char>| parameters.holds(name))
}

/// The tensor of the first declaration named `name`.
pub open spec fn first_named(declarations: Seq<NamedTensor>, name: Seq<char>) -> Option<TensorDecl>
    decreases declarations.len(),
{
    if declarations.len() == 0 {
        None
    } else if declarations[0].name@ == name {
        Some(declarations[0].tensor)
    } else {
        first_named(declarations.drop_first(), name)
    }
}

/// The number of elements of a tensor with the given extents.
pub open spec fn element_count(extents: Seq<u64>) -> int {
    product(extents)
}

/// A product with a zero factor is zero.
proof fn lemma_product_with_zero(values: Seq<u64>, index: int)
    requires
        0 <= index < values.len(),
        values[index] == 0,
    ensures
        product(values) == 0,
    decreases values.len(),
{
    if index < values.len() - 1 {
        lemma_product_with_zero(values.drop_last(), index);
    }
}

/// Whether `names` lists exactly the names `declarations` declares.
fn declared_names_match(declarations: &Vec<NamedTensor>, names: &[&str]) -> (matched: bool)
    ensures
        matched == (declared_names(declarations@) == listed_names(names@)),
{
    let mut index: usize = 0;
    while index < declarations.len()
        invariant
            index <= declarations@.len(),
            forall|i: int|
                0 <= i < index ==> listed_names(names@).contains((#[trigger] declarations@[i]).name@),
        decreases declarations.len() - index,
    {
        let name = declarations[index].name.as_str();
        match find_listed(names, name) {
            Some(j) => {
                assert(listed_names(names@).contains(names@[j as int]@));
            },
            None => {
                assert(declared_names(declarations@).contains(declarations@[index as int].name@));
                assert(!listed_names(names@).contains(name@));
                return false;
            },
        }
        index = index + 1;
    }
    let mut index: usize = 0;
    while index < names.len()
        invariant
            index <= names@.len(),
            forall|i: int|
                0 <= i < index ==> declared_names(declarations@).contains((#[trigger] names@[i])@),
        decreases names.len() - index,
    {
        match find_declared(declarations, names[index]) {
            Some(j) => {
                assert(declared_names(declarations@).contains(declarations@[j as int].name@));
            },
            None => {
                assert(listed_names(names@).contains(names@[index as int]@));
                assert(!declared_names(declarations@).contains(names@[index as int]@));
                return false;
            },
        }
        index = index + 1;
    }
    assert(declared_names(declarations@) =~= listed_names(names@));
    true
}

/// Whether `names` lists exactly the names the prepared parameters hold.
fn parameter_names_match(parameters: &PreparedParameters, names: &[&str]) -> (matched: bool)
    ensures
        matched == (parameter_names(*parameters) == listed_names(names@)),
{
    let mut index: usize = 0;
    while index < parameters.len()
        invariant
            index <= parameters.count(),
            forall|i: int|
                0 <= i < index ==> listed_names(names@).contains(#[trigger] parameters.name_at(i)),
        decreases parameters.count() - index,
    {
        let name = parameters.name(index);
        match find_listed(names, name) {
            Some(j) => {
                assert(listed_names(names@).contains(names@[j as int]@));
            },
            None => {
                assert(parameter_names(*parameters).contains(name@));
                assert(!listed_names(names@).contains(name@));
                return false;
            },
        }
        index = index + 1;
    }
    let mut index: usize = 0;
    while index < names.len()
        invariant
            index <= names@.len(),
            forall|i: int| 0 <= i < index ==> parameters.holds((#[trigger] names@[i])@),
        decreases names.len() - index,
    {
        if parameters.get(names[index]).is_none() {
            assert(listed_names(names@).contains(names@[index as int]@));
            assert(!parameter_names(*parameters).contains(names@[index as int]@));
            return false;
        }
        index = index + 1;
    }
    assert forall|name: Seq<char>| parameter_names(*parameters).contains(name) implies listed_names(
        names@,
    ).contains(name) by {
        parameters.lemma_names_cover(name);
        let i = choose|i: int| 0 <= i < parameters.count() && #[trigger] parameters.name_at(i) == name;
        assert(listed_names(names@).contains(parameters.name_at(i)));
    }
    assert(parameter_names(*parameters) =~= listed_names(names@));
    true
}

/// The position of `name` in `names`.
fn find_listed(names: &[&str], name: &str) -> (position: Option<usize>)
    ensures
        match position {
            Some(j) => j < names@.len() && names@[j as int]@ == name@,
            None => !listed_names(names@).contains(name@),
        },
{
    let mut index: usize = 0;
    while index < names.len()
        invariant
            index <= names@.len(),
            forall|i: int| 0 <= i < index ==> (#[trigger] names@[i])@ != name@,
        decreases names.len() - index,
    {
        if text_eq(names[index], name) {
            return Some(index);
        }
        index = index + 1;
    }
    None
}

/// The position of the first declaration named `name`.
fn find_declared(declarations: &Vec<NamedTensor>, name: &str) -> (position: Option<usize>)
    ensures
        match position {
            Some(j) => j < declarations@.len() && declarations@[j as int].name@ == name@
                && first_named(declarations@, name@) == Some(declarations@[j as int].tensor),
            None => !declared_names(declarations@).contains(name@) && first_named(
                declarations@,
                name@,
            ) is None,
        },
{
    let ghost all = declarations@;
    let mut index: usize = 0;
    assert(all.subrange(0, all.len() as int) =~= all);
    while index < declarations.len()
        invariant
            index <= declarations@.len(),
            all == declarations@,
            forall|i: int| 0 <= i < index ==> (#[trigger] declarations@[i]).name@ != name@,
            first_named(all.subrange(index as int, all.len() as int), name@) == first_named(
                all,
                name@,
            ),
        decreases declarations.len() - index,
    {
        let ghost rest = all.subrange(index as int, all.len() as int);
        assert(rest[0] == declarations@[index as int]);
        if text_eq(declarations[index].name.as_str(), name) {
            return Some(index);
        }
        assert(rest.drop_first() =~= all.subrange(index + 1, all.len() as int));
        index = index + 1;
    }
    None
}

/// Position of the first declaration named `prefix`, then `digits`, then
/// `suffix`.
fn find_indexed(declarations: &Vec<NamedTensor>, prefix: &str, digits: &Vec<char>, suffix: &str) -> (position:
    Option<usize>)
    ensures
        match position {
            Some(j) => j < declarations@.len() && first_named(declarations@, prefix@ + digits@ + suffix@) == Some(
                declarations@[j as int].tensor,
            ),
            None => first_named(declarations@, prefix@ + digits@ + suffix@) is None,
        },
{
    let ghost all = declarations@;
    let ghost name = prefix@ + digits@ + suffix@;
    let mut index: usize = 0;
    assert(all.subrange(0, all.len() as int) =~= all);
    while index < declarations.len()
        invariant
            index <= declarations@.len(),
            all == declarations@,
            name == prefix@ + digits@ + suffix@,
            first_named(all.subrange(index as int, all.len() as int), name) == first_named(all, name),
        decreases declarations.len() - index,
    {
        let ghost rest = all.subrange(index as int, all.len() as int);
        assert(rest[0] == declarations@[index as int]);
        if name_is(declarations[index].name.as_str(), prefix, digits, suffix) {
            return Some(index);
        }
        assert(rest.drop_first() =~= all.subrange(index + 1, all.len() as int));
        index = index + 1;
    }
    None
}

pub(crate) fn same_extents(left: &[u64], right: &[u64]) -> (same: bool)
    ensures
        same == (left@ == right@),
{
    if left.len() != right.len() {
        return false;
    }
    let mut index: usize = 0;
    while index < left.len()
        invariant
            index <= left@.len() == right@.len(),
            forall|i: int| 0 <= i < index ==> left@[i] == right@[i],
        decreases left.len() - index,
    {
        if left[index] != right[index] {
            return false;
        }
        index = index + 1;
    }
    assert(left@ =~= right@);
    true
}

/// The lane counts a fixed-width tree reduction accepts: a power of two in
/// `1..=1024`.
pub open spec fn tree_lanes_valid(lanes: u64) -> bool {
    lanes == 1 || lanes == 2 || lanes == 4 || lanes == 8 || lanes == 16 || lanes == 32 || lanes == 64
        || lanes == 128 || lanes == 256 || lanes == 512 || lanes == 1024
}

/// Whether `lanes` is a power of two in `1..=1024`.
pub fn valid_tree_lanes(lanes: u64) -> (valid: bool)
    ensures
        valid == tree_lanes_valid(lanes),
{
    lanes == 1 || lanes == 2 || lanes == 4 || lanes == 8 || lanes == 16 || lanes == 32 || lanes == 64
        || lanes == 128 || lanes == 256 || lanes == 512 || lanes == 1024
}

impl MaterializationRequest {
    /// The request declares exactly the listed input and output tensors and
    /// prepared parameters.
    pub open spec fn abi_matches(
        &self,
        input_names: Seq<&str>,
        output_names: Seq<&str>,
        parameter_list: Seq<&str>,
    ) -> bool {
        &&& declared_names(self.inputs@) == listed_names(input_names)
        &&& declared_names(self.outputs@) == listed_names(output_names)
        &&& parameter_names(self.parameters) == listed_names(parameter_list)
    }

    /// Check that the request declares exactly the listed tensors and
    /// parameters, compared as sets of names.
    pub fn require_exact_abi(&self, input_names: &[&str], output_names: &[&str], parameter_list: &[&str]) -> (result:
        OperationResult<()>)
        ensures
            result is Ok <==> self.abi_matches(input_names@, output_names@, parameter_list@),
            result is Err ==> refused(
                result,
                OperationErrorKind::InvalidMaterializationRequest,
                self.descriptor.id,
            ),
    {
        if !declared_names_match(&self.inputs, input_names) {
            return Err(self.request_error("input tensor ABI mismatch"));
        }
        if !declared_names_match(&self.outputs, output_names) {
            return Err(self.request_error("output tensor ABI mismatch"));
        }
        if !parameter_names_match(&self.parameters, parameter_list) {
            return Err(self.request_error("prepared parameter ABI mismatch"));
        }
        Ok(())
    }

    /// The tensor of the first input declaration named `name`.
    pub fn input(&self, name: &str) -> (result: OperationResult<&TensorDecl>)
        ensures
            match first_named(self.inputs@, name@) {
                Some(tensor) => result matches Ok(found) && *found == tensor,
                None => refused(result, OperationErrorKind::InvalidMaterializationRequest, self.descriptor.id),
            },
    {
        match find_declared(&self.inputs, name) {
            Some(index) => Ok(&self.inputs[index].tensor),
            None => Err(self.request_error("missing required input tensor declaration")),
        }
    }

    /// The tensor of the first input declaration named `prefix`, then the
    /// decimal digits of `index`, then `suffix`.
    pub fn indexed_input(&self, prefix: &str, index: u64, suffix: &str) -> (result: OperationResult<&TensorDecl>)
        ensures
            match first_named(self.inputs@, indexed_name(prefix@, index as nat, suffix@)) {
                Some(tensor) => result matches Ok(found) && *found == tensor,
                None => refused(result, OperationErrorKind::InvalidMaterializationRequest, self.descriptor.id),
            },
    {
        let digits = decimal_digits(index);
        match find_indexed(&self.inputs, prefix, &digits, suffix) {
            Some(position) => Ok(&self.inputs[position].tensor),
            None => Err(self.request_error("missing required input tensor declaration")),
        }
    }

    /// The tensor of the first output declaration named `name`.
    pub fn output(&self, name: &str) -> (result: OperationResult<&TensorDecl>)
        ensures
            match first_named(self.outputs@, name@) {
                Some(tensor) => result matches Ok(found) && *found == tensor,
                None => refused(result, OperationErrorKind::InvalidMaterializationRequest, self.descriptor.id),
            },
    {
        match find_declared(&self.outputs, name) {
            Some(index) => Ok(&self.outputs[index].tensor),
            None => Err(self.request_error("missing required output tensor declaration")),
        }
    }

    /// Check a tensor's payload type.
    pub fn require_dtype(&self, tensor: &TensorDecl, expected: DType) -> (result: OperationResult<()>)
        ensures
            result is Ok <==> tensor.dtype == expected,
            result is Err ==> refused(
                result,
                OperationErrorKind::InvalidMaterializationRequest,
                self.descriptor.id,
            ),
    {
        if tensor.dtype == expected {
            Ok(())
        } else {
            Err(self.request_error("tensor has an unexpected payload type"))
        }
    }

    /// Check a tensor's extents against the shape a concrete materializer
    /// supports.
    pub fn require_shape(&self, tensor: &TensorDecl, expected: &[u64]) -> (result: OperationResult<()>)
        ensures
            result is Ok <==> tensor.extents@ == expected@,
            result is Err ==> refused(
                result,
                OperationErrorKind::UnsupportedConcreteShape,
                self.descriptor.id,
            ),
    {
        if same_extents(tensor.extents.as_slice(), expected) {
            Ok(())
        } else {
            Err(
                OperationError::new(
                    OperationErrorKind::UnsupportedConcreteShape,
                    "tensor shape is not supported by the concrete materializer",
                ).for_operation(self.descriptor.id),
            )
        }
    }

    /// Check that `actual` has the payload type and extents of `expected`.
    pub fn require_same_tensor_contract(&self, expected: &TensorDecl, actual: &TensorDecl) -> (result:
        OperationResult<()>)
        ensures
            result is Ok <==> (actual.dtype == expected.dtype && actual.extents@ == expected.extents@),
            result is Err ==> refused(
                result,
                OperationErrorKind::InvalidMaterializationRequest,
                self.descriptor.id,
            ),
    {
        if actual.dtype == expected.dtype && same_extents(
            actual.extents.as_slice(),
            expected.extents.as_slice(),
        ) {
            Ok(())
        } else {
            Err(self.request_error("tensor does not match the reference tensor contract"))
        }
    }

    /// The prepared unsigned parameter `name`.
    pub fn prepared_u64(&self, name: &str) -> (result: OperationResult<u64>)
        ensures
            match prepared_u64_spec(self.parameters, name@) {
                Ok(value) => result == Ok::<u64, OperationError>(value),
                Err(kind) => refused(result, kind, self.descriptor.id),
            },
    {
        match prepared_u64(&self.parameters, name) {
            Ok(value) => Ok(value),
            Err(error) => Err(error.for_operation(self.descriptor.id)),
        }
    }

    /// The prepared boolean parameter `name`.
    pub fn prepared_bool(&self, name: &str) -> (result: OperationResult<bool>)
        ensures
            match self.parameters.lookup(name@) {
                Some(PreparedParameter::Bool(value)) => result == Ok::<bool, OperationError>(value),
                Some(_) => refused(
                    result,
                    OperationErrorKind::PreparedParameterTypeMismatch,
                    self.descriptor.id,
                ),
                None => refused(result, OperationErrorKind::MissingPreparedParameter, self.descriptor.id),
            },
    {
        match self.parameters.get(name) {
            Some(PreparedParameter::Bool(value)) => Ok(value),
            Some(_) => Err(
                OperationError::new(
                    OperationErrorKind::PreparedParameterTypeMismatch,
                    "prepared parameter has the wrong type, expected Bool",
                ).for_operation(self.descriptor.id),
            ),
            None => Err(
                OperationError::new(
                    OperationErrorKind::MissingPreparedParameter,
                    "prepared parameter is required",
                ).for_operation(self.descriptor.id),
            ),
        }
    }

    /// Check that the prepared fact `name` holds.
    pub fn require_true(&self, name: &str) -> (result: OperationResult<()>)
        ensures
            match fact_fault(*self, name@) {
                Some(kind) => result matches Err(error) && error.kind == kind,
                None => result is Ok,
            },
            match self.parameters.lookup(name@) {
                Some(PreparedParameter::Bool(true)) => result is Ok,
                Some(PreparedParameter::Bool(false)) => refused(
                    result,
                    OperationErrorKind::InvalidMaterializationRequest,
                    self.descriptor.id,
                ),
                Some(_) => refused(
                    result,
                    OperationErrorKind::PreparedParameterTypeMismatch,
                    self.descriptor.id,
                ),
                None => refused(result, OperationErrorKind::MissingPreparedParameter, self.descriptor.id),
            },
    {
        match self.parameters.get(name) {
            Some(PreparedParameter::Bool(true)) => Ok(()),
            Some(PreparedParameter::Bool(false)) => Err(
                self.request_error("prepared fact must be true"),
            ),
            Some(_) => Err(
                OperationError::new(
                    OperationErrorKind::PreparedParameterTypeMismatch,
                    "prepared parameter has the wrong type, expected Bool",
                ).for_operation(self.descriptor.id),
            ),
            None => Err(
                OperationError::new(
                    OperationErrorKind::MissingPreparedParameter,
                    "prepared fact is required",
                ).for_operation(self.descriptor.id),
            ),
        }
    }

    /// The prepared axis `name`, which must fit `usize`.
    pub fn prepared_axis(&self, name: &str) -> (result: OperationResult<usize>)
        ensures
            match prepared_u64_spec(self.parameters, name@) {
                Ok(value) => if value <= usize::MAX {
                    result == Ok::<usize, OperationError>(value as usize)
                } else {
                    refused(result, OperationErrorKind::InvalidMaterializationRequest, self.descriptor.id)
                },
                Err(kind) => refused(result, kind, self.descriptor.id),
            },
    {
        let value = match self.prepared_u64(name) {
            Ok(value) => value,
            Err(error) => return Err(error),
        };
        if value <= usize::MAX as u64 {
            Ok(value as usize)
        } else {
            Err(self.request_error("prepared axis does not fit usize"))
        }
    }

    /// The prepared `tree_lanes` parameter: a power of two in `1..=1024`.
    pub fn prepared_tree_lanes(&self) -> (result: OperationResult<u32>)
        ensures
            match prepared_u64_spec(self.parameters, "tree_lanes"@) {
                Ok(value) => if tree_lanes_valid(value) {
                    result == Ok::<u32, OperationError>(value as u32)
                } else {
                    refused(result, OperationErrorKind::InvalidMaterializationRequest, self.descriptor.id)
                },
                Err(kind) => refused(result, kind, self.descriptor.id),
            },
    {
        let value = match self.prepared_u64("tree_lanes") {
            Ok(value) => value,
            Err(error) => return Err(error),
        };
        if value > u32::MAX as u64 {
            return Err(self.request_error("tree_lanes does not fit u32"));
        }
        let lanes = value as u32;
        if valid_tree_lanes(value) {
            Ok(lanes)
        } else {
            Err(self.request_error("tree_lanes must be a power of two in 1..=1024"))
        }
    }

    /// Check the input whose shape fixes the iteration bounds.
    pub fn require_iteration_input(&self, expected: &str) -> (result: OperationResult<()>)
        ensures
            result is Ok <==> self.iteration_shape_input@ == expected@,
            result is Err ==> refused(
                result,
                OperationErrorKind::InvalidMaterializationRequest,
                self.descriptor.id,
            ),
    {
        if text_eq(self.iteration_shape_input.as_str(), expected) {
            Ok(())
        } else {
            Err(self.request_error("iteration shape input is not the expected tensor"))
        }
    }
}

/// Whether `1 <= product(extents) <= MAX_I32_INDEX`.
fn element_count_addressable(extents: &[u64]) -> (ok: bool)
    ensures
        ok == (1 <= element_count(extents@) <= MAX_I32_INDEX),
{
    let mut index: usize = 0;
    while index < extents.len()
        invariant
            index <= extents@.len(),
            forall|i: int| 0 <= i < index ==> #[trigger] extents@[i] >= 1,
        decreases extents.len() - index,
    {
        if extents[index] == 0 {
            proof {
                lemma_product_with_zero(extents@, index as int);
            }
            return false;
        }
        index = index + 1;
    }
    proof {
        lemma_checked_product_exact(extents@);
    }
    match checked_product(extents) {
        Some(count) => 1 <= count && count <= MAX_I32_INDEX,
        None => false,
    }
}

/// The element count of extents already known to address between one and
/// `MAX_I32_INDEX` elements.
pub fn element_total(extents: &[u64]) -> (count: u64)
    requires
        1 <= element_count(extents@) <= MAX_I32_INDEX,
    ensures
        count == element_count(extents@),
{
    let mut index: usize = 0;
    while index < extents.len()
        invariant
            index <= extents@.len(),
            1 <= element_count(extents@),
            forall|i: int| 0 <= i < index ==> #[trigger] extents@[i] >= 1,
        decreases extents.len() - index,
    {
        if extents[index] == 0 {
            proof {
                lemma_product_with_zero(extents@, index as int);
            }
            return 0;
        }
        index = index + 1;
    }
    proof {
        lemma_checked_product_exact(extents@);
    }
    match checked_product(extents) {
        Some(count) => count,
        None => 0,
    }
}

impl MaterializationRequest {
    /// Check that a tensor is a non-empty binary32 tensor whose elements an
    /// int32 index can address.
    pub fn require_nonempty_f32(&self, tensor: &TensorDecl) -> (result: OperationResult<()>)
        ensures
            result is Ok <==> (tensor.dtype == DType::F32 && 1 <= element_count(tensor.extents@)
                <= MAX_I32_INDEX),
            result is Err ==> refused(
                result,
                OperationErrorKind::InvalidMaterializationRequest,
                self.descriptor.id,
            ),
    {
        match self.require_dtype(tensor, DType::F32) {
            Ok(()) => {},
            Err(error) => return Err(error),
        }
        if element_count_addressable(tensor.extents.as_slice()) {
            Ok(())
        } else {
            Err(self.request_error("element count must be in 1..=2147483647"))
        }
    }

    /// The rows and columns of a rank-two binary32 tensor.
    pub fn require_f32_matrix(&self, tensor: &TensorDecl) -> (result: OperationResult<(u64, u64)>)
        ensures
            if tensor.dtype == DType::F32 && tensor.extents@.len() == 2 {
                result == Ok::<(u64, u64), OperationError>((tensor.extents@[0], tensor.extents@[1]))
            } else {
                refused(result, OperationErrorKind::InvalidMaterializationRequest, self.descriptor.id)
            },
    {
        match self.require_dtype(tensor, DType::F32) {
            Ok(()) => {},
            Err(error) => return Err(error),
        }
        if tensor.extents.len() == 2 {
            Ok((tensor.extents[0], tensor.extents[1]))
        } else {
            Err(self.request_error("expected a rank-two f32 matrix"))
        }
    }

    /// The rows and columns of a non-empty rank-two binary32 tensor whose
    /// dimensions an int32 index can address.
    pub fn require_nonempty_f32_matrix(&self, tensor: &TensorDecl) -> (result: OperationResult<(u64, u64)>)
        ensures
            if tensor.dtype == DType::F32 && 1 <= element_count(tensor.extents@) <= MAX_I32_INDEX
                && tensor.extents@.len() == 2 && 1 <= tensor.extents@[0] <= MAX_I32_INDEX && 1
                <= tensor.extents@[1] <= MAX_I32_INDEX {
                result == Ok::<(u64, u64), OperationError>((tensor.extents@[0], tensor.extents@[1]))
            } else {
                refused(result, OperationErrorKind::InvalidMaterializationRequest, self.descriptor.id)
            },
    {
        match self.require_nonempty_f32(tensor) {
            Ok(()) => {},
            Err(error) => return Err(error),
        }
        if tensor.extents.len() != 2 {
            return Err(self.request_error("matrix must be rank-two [rows, columns]"));
        }
        let rows = tensor.extents[0];
        let columns = tensor.extents[1];
        if rows == 0 || columns == 0 || rows > MAX_I32_INDEX || columns > MAX_I32_INDEX {
            Err(self.request_error("matrix dimensions must each be in 1..=2147483647"))
        } else {
            Ok((rows, columns))
        }
    }

    /// Check that an extent converts to binary32 without loss.
    pub fn exact_f32_extent(&self, value: u64) -> (result: OperationResult<u64>)
        ensures
            if value <= MAX_EXACT_F32_INTEGER {
                result == Ok::<u64, OperationError>(value)
            } else {
                refused(result, OperationErrorKind::UnsupportedConcreteShape, self.descriptor.id)
            },
    {
        if value > MAX_EXACT_F32_INTEGER {
            Err(
                OperationError::new(
                    OperationErrorKind::UnsupportedConcreteShape,
                    "extent is not guaranteed lossless in f32",
                ).for_operation(self.descriptor.id),
            )
        } else {
            Ok(value)
        }
    }

    /// The rows and columns of a normalization matrix: a rank-two binary32
    /// tensor whose dimensions an int32 index can address and binary32
    /// holds exactly, so that both serve as exact divisors.
    pub fn normalization_matrix(&self, tensor: &TensorDecl) -> (result: OperationResult<(u64, u64)>)
        ensures
            if tensor.dtype != DType::F32 {
                refused(result, OperationErrorKind::InvalidMaterializationRequest, self.descriptor.id)
            } else if tensor.extents@.len() == 2 && 1 <= tensor.extents@[0] <= MAX_EXACT_F32_INTEGER
                && 1 <= tensor.extents@[1] <= MAX_EXACT_F32_INTEGER {
                result == Ok::<(u64, u64), OperationError>((tensor.extents@[0], tensor.extents@[1]))
            } else {
                refused(result, OperationErrorKind::UnsupportedConcreteShape, self.descriptor.id)
            },
    {
        match self.require_dtype(tensor, DType::F32) {
            Ok(()) => {},
            Err(error) => return Err(error),
        }
        if tensor.extents.len() != 2 {
            return Err(
                OperationError::new(
                    OperationErrorKind::UnsupportedConcreteShape,
                    "normalization input must be a rank-two [rows, columns] tensor",
                ).for_operation(self.descriptor.id),
            );
        }
        let rows = tensor.extents[0];
        let columns = tensor.extents[1];
        if rows == 0 || columns == 0 || rows > MAX_I32_INDEX || columns > MAX_I32_INDEX {
            return Err(
                OperationError::new(
                    OperationErrorKind::UnsupportedConcreteShape,
                    "normalization dimensions must each be in 1..=2147483647",
                ).for_operation(self.descriptor.id),
            );
        }
        let rows = match self.exact_f32_extent(rows) {
            Ok(rows) => rows,
            Err(error) => return Err(error),
        };
        let columns = match self.exact_f32_extent(columns) {
            Ok(columns) => columns,
            Err(error) => return Err(error),
        };
        Ok((rows, columns))
    }

    /// Check a binary32 tensor's exact shape.
    pub fn require_f32_shape(&self, tensor: &TensorDecl, expected: &[u64]) -> (result: OperationResult<()>)
        ensures
            result is Ok <==> (tensor.dtype == DType::F32 && tensor.extents@ == expected@),
            tensor.dtype != DType::F32 ==> refused(
                result,
                OperationErrorKind::InvalidMaterializationRequest,
                self.descriptor.id,
            ),
            tensor.dtype == DType::F32 && tensor.extents@ != expected@ ==> refused(
                result,
                OperationErrorKind::UnsupportedConcreteShape,
                self.descriptor.id,
            ),
    {
        match self.require_dtype(tensor, DType::F32) {
            Ok(()) => {},
            Err(error) => return Err(error),
        }
        self.require_shape(tensor, expected)
    }

    /// Check a tensor's payload type and exact extents, refusing either
    /// mismatch as an invalid request.
    pub fn require_typed_extents(&self, tensor: &TensorDecl, dtype: DType, expected: &[u64]) -> (result:
        OperationResult<()>)
        ensures
            result is Ok <==> !typed_shape_fault(*tensor, dtype, expected@),
            result is Err ==> refused(
                result,
                OperationErrorKind::InvalidMaterializationRequest,
                self.descriptor.id,
            ),
    {
        match self.require_dtype(tensor, dtype) {
            Ok(()) => {},
            Err(error) => return Err(error),
        }
        if same_extents(tensor.extents.as_slice(), expected) {
            Ok(())
        } else {
            Err(self.request_error("tensor does not have the expected extents"))
        }
    }

    /// The rows and columns of a paired loss: two matching non-empty
    /// binary32 matrices, and binary32 labels and losses with one entry per
    /// row.
    pub fn require_paired_loss_tensors(
        &self,
        left: &TensorDecl,
        right: &TensorDecl,
        labels: &TensorDecl,
        losses: &TensorDecl,
    ) -> (result: OperationResult<(u64, u64)>)
        ensures
            if paired_fault(*left, *right, *labels, *losses) {
                refused(result, OperationErrorKind::InvalidMaterializationRequest, self.descriptor.id)
            } else {
                result == Ok::<(u64, u64), OperationError>((left.extents@[0], left.extents@[1]))
            },
    {
        let (rows, columns) = match self.require_nonempty_f32_matrix(left) {
            Ok(dimensions) => dimensions,
            Err(error) => return Err(error),
        };
        match self.require_same_tensor_contract(left, right) {
            Ok(()) => {},
            Err(error) => return Err(error),
        }
        let row_shape = [rows];
        assert(row_shape@ =~= seq![rows]);
        match self.require_typed_extents(labels, DType::F32, &row_shape) {
            Ok(()) => {},
            Err(error) => return Err(error),
        }
        match self.require_typed_extents(losses, DType::F32, &row_shape) {
            Ok(()) => {},
            Err(error) => return Err(error),
        }
        Ok((rows, columns))
    }
}

/// Why the prepared fact `name` does not hold: it is false, not a flag,
/// or missing.
pub open spec fn fact_fault(request: MaterializationRequest, name: Seq<char>) -> Option<OperationErrorKind> {
    match request.parameters.lookup(name) {
        Some(PreparedParameter::Bool(true)) => None,
        Some(PreparedParameter::Bool(false)) => Some(OperationErrorKind::InvalidMaterializationRequest),
        Some(_) => Some(OperationErrorKind::PreparedParameterTypeMismatch),
        None => Some(OperationErrorKind::MissingPreparedParameter),
    }
}

/// The tensor is not a non-empty binary32 tensor whose elements an int32
/// index can address.
pub open spec fn nonempty_f32_fault(tensor: TensorDecl) -> bool {
    tensor.dtype != DType::F32 || !(1 <= element_count(tensor.extents@) <= MAX_I32_INDEX)
}

/// The tensor is not a non-empty rank-two binary32 matrix whose
/// dimensions an int32 index can address.
pub open spec fn matrix_fault(tensor: TensorDecl) -> bool {
    nonempty_f32_fault(tensor) || tensor.extents@.len() != 2 || !(1 <= tensor.extents@[0] <= MAX_I32_INDEX)
        || !(1 <= tensor.extents@[1] <= MAX_I32_INDEX)
}

/// `other` differs from `reference` in payload type or extents.
pub open spec fn contract_differs(reference: TensorDecl, other: TensorDecl) -> bool {
    other.dtype != reference.dtype || other.extents@ != reference.extents@
}

/// The tensor differs from the given payload type or extents.
pub open spec fn typed_shape_fault(tensor: TensorDecl, dtype: DType, extents: Seq<u64>) -> bool {
    tensor.dtype != dtype || tensor.extents@ != extents
}

/// The tensors of a paired loss do not fit together: `left` is no valid
/// matrix, `right` differs from it, or the labels or losses are not binary32
/// vectors of one entry per row.
pub open spec fn paired_fault(left: TensorDecl, right: TensorDecl, labels: TensorDecl, losses: TensorDecl) -> bool {
    matrix_fault(left) || contract_differs(left, right) || typed_shape_fault(
        labels,
        DType::F32,
        seq![left.extents@[0]],
    ) || typed_shape_fault(losses, DType::F32, seq![left.extents@[0]])
}

/// The prepared `tree_lanes` count, or why it is refused.
pub open spec fn lanes_verdict(request: MaterializationRequest) -> Result<u32, OperationErrorKind> {
    match prepared_u64_spec(request.parameters, "tree_lanes"@) {
        Ok(value) => if tree_lanes_valid(value) {
            Ok(value as u32)
        } else {
            Err(OperationErrorKind::InvalidMaterializationRequest)
        },
        Err(kind) => Err(kind),
    }
}

/// The ranges a prepared binary32 parameter may be required to lie in.
#[derive(Clone, Copy, Debug, PartialEq, Eq, Structural)]
pub enum F32Range {
    Any,
    Finite,
    Nonnegative,
    Positive,
    ClosedUnit,
    OpenUnit,
}

/// Whether the binary32 value with bit pattern `bits` lies in `range`. A
/// value is finite unless every exponent bit is set; non-negative values
/// order as their bit patterns, one is `0x3f80_0000`, and negative zero
/// (the sign bit alone) equals zero.
pub open spec fn in_f32_range(bits: u32, range: F32Range) -> bool {
    match range {
        F32Range::Any => true,
        F32Range::Finite => bits & 0x7f80_0000u32 != 0x7f80_0000u32,
        F32Range::Nonnegative => bits < 0x7f80_0000u32 || bits == 0x8000_0000u32,
        F32Range::Positive => 0 < bits < 0x7f80_0000u32,
        F32Range::ClosedUnit => bits <= 0x3f80_0000u32 || bits == 0x8000_0000u32,
        F32Range::OpenUnit => bits < 0x3f80_0000u32 || bits == 0x8000_0000u32,
    }
}

/// The bits of the prepared binary32 parameter `name` when it lies in
/// `range`, or why it is refused.
pub open spec fn f32_parameter_verdict(parameters: PreparedParameters, name: Seq<char>, range: F32Range) -> Result<
    u32,
    OperationErrorKind,
> {
    match parameters.lookup(name) {
        Some(PreparedParameter::F32Bits(bits)) => if in_f32_range(bits, range) {
            Ok(bits)
        } else {
            Err(OperationErrorKind::InvalidMaterializationRequest)
        },
        Some(_) => Err(OperationErrorKind::PreparedParameterTypeMismatch),
        None => Err(OperationErrorKind::MissingPreparedParameter),
    }
}

/// Why the prepared binary32 parameter `name` is refused, if it is.
pub open spec fn range_fault(request: MaterializationRequest, name: Seq<char>, range: F32Range) -> Option<
    OperationErrorKind,
> {
    match f32_parameter_verdict(request.parameters, name, range) {
        Ok(_) => None,
        Err(kind) => Some(kind),
    }
}

/// The first of two refusals.
pub open spec fn either(first: Option<OperationErrorKind>, second: Option<OperationErrorKind>) -> Option<
    OperationErrorKind,
> {
    if first is Some {
        first
    } else {
        second
    }
}

/// Why a tensor is not a binary32 tensor of the given extents: its payload
/// type, then its shape.
pub open spec fn f32_extents_fault(tensor: TensorDecl, extents: Seq<u64>) -> Option<OperationErrorKind> {
    if tensor.dtype != DType::F32 {
        Some(OperationErrorKind::InvalidMaterializationRequest)
    } else if tensor.extents@ != extents {
        Some(OperationErrorKind::UnsupportedConcreteShape)
    } else {
        None
    }
}

/// The rows and columns of a normalization matrix, or why the tensor is
/// refused.
pub open spec fn normalization_verdict(tensor: TensorDecl) -> Result<(u64, u64), OperationErrorKind> {
    if tensor.dtype != DType::F32 {
        Err(OperationErrorKind::InvalidMaterializationRequest)
    } else if tensor.extents@.len() == 2 && 1 <= tensor.extents@[0] <= MAX_EXACT_F32_INTEGER && 1
        <= tensor.extents@[1] <= MAX_EXACT_F32_INTEGER {
        Ok((tensor.extents@[0], tensor.extents@[1]))
    } else {
        Err(OperationErrorKind::UnsupportedConcreteShape)
    }
}

/// Why tensors that must all equal a non-empty binary32 reference are
/// refused: the reference's payload type, its emptiness, then any other
/// tensor's contract.
pub open spec fn equal_f32_fault(reference: TensorDecl, others: Seq<TensorDecl>) -> Option<OperationErrorKind> {
    if reference.dtype != DType::F32 {
        Some(OperationErrorKind::InvalidMaterializationRequest)
    } else if element_count(reference.extents@) == 0 {
        Some(OperationErrorKind::UnsupportedConcreteShape)
    } else if exists|i: int| 0 <= i < others.len() && contract_differs(reference, #[trigger] others[i]) {
        Some(OperationErrorKind::InvalidMaterializationRequest)
    } else {
        None
    }
}

/// Why a fixed-order reduction over `axes` is refused: the iteration
/// input is not declared, or an axis is not below its rank.
pub open spec fn reduction_fault(request: MaterializationRequest, axes: Seq<usize>) -> Option<OperationErrorKind> {
    match first_named(request.inputs@, request.iteration_shape_input@) {
        None => Some(OperationErrorKind::InvalidMaterializationRequest),
        Some(tensor) => if forall|i: int| 0 <= i < axes.len() ==> #[trigger] axes[i] < tensor.extents@.len() {
            None
        } else {
            Some(OperationErrorKind::GraphMaterializationFailed)
        },
    }
}

/// The element count of the extents, unless it leaves `u64`.
pub fn checked_element_count(extents: &[u64]) -> (count: Option<u64>)
    ensures
        match count {
            Some(total) => total == element_count(extents@),
            None => element_count(extents@) > u64::MAX,
        },
{
    let mut index: usize = 0;
    while index < extents.len()
        invariant
            index <= extents@.len(),
            forall|i: int| 0 <= i < index ==> #[trigger] extents@[i] >= 1,
        decreases extents.len() - index,
    {
        if extents[index] == 0 {
            proof {
                lemma_product_with_zero(extents@, index as int);
            }
            return Some(0);
        }
        index = index + 1;
    }
    proof {
        lemma_checked_product_exact(extents@);
    }
    checked_product(extents)
}

/// Whether the extents hold no element.
pub fn has_no_elements(extents: &[u64]) -> (empty: bool)
    ensures
        empty == (element_count(extents@) == 0),
{
    let mut index: usize = 0;
    while index < extents.len()
        invariant
            index <= extents@.len(),
            forall|i: int| 0 <= i < index ==> #[trigger] extents@[i] >= 1,
        decreases extents.len() - index,
    {
        if extents[index] == 0 {
            proof {
                lemma_product_with_zero(extents@, index as int);
            }
            return true;
        }
        index = index + 1;
    }
    proof {
        lemma_checked_product_exact(extents@);
    }
    false
}

impl MaterializationRequest {
    /// The bits of the prepared binary32 parameter `name`, which must lie
    /// in `range`.
    pub fn prepared_f32_in(&self, name: &str, range: F32Range) -> (result: OperationResult<u32>)
        ensures
            match f32_parameter_verdict(self.parameters, name@, range) {
                Ok(bits) => result == Ok::<u32, OperationError>(bits),
                Err(kind) => refused(result, kind, self.descriptor.id),
            },
    {
        match self.parameters.get(name) {
            Some(PreparedParameter::F32Bits(bits)) => {
                let inside = match range {
                    F32Range::Any => true,
                    F32Range::Finite => bits & 0x7f80_0000u32 != 0x7f80_0000u32,
                    F32Range::Nonnegative => bits < 0x7f80_0000u32 || bits == 0x8000_0000u32,
                    F32Range::Positive => 0 < bits && bits < 0x7f80_0000u32,
                    F32Range::ClosedUnit => bits <= 0x3f80_0000u32 || bits == 0x8000_0000u32,
                    F32Range::OpenUnit => bits < 0x3f80_0000u32 || bits == 0x8000_0000u32,
                };
                if inside {
                    Ok(bits)
                } else {
                    Err(self.request_error("prepared binary32 parameter is outside its range"))
                }
            },
            Some(_) => Err(
                OperationError::new(
                    OperationErrorKind::PreparedParameterTypeMismatch,
                    "prepared parameter has the wrong type, expected F32Bits",
                ).for_operation(self.descriptor.id),
            ),
            None => Err(
                OperationError::new(
                    OperationErrorKind::MissingPreparedParameter,
                    "prepared parameter is required",
                ).for_operation(self.descriptor.id),
            ),
        }
    }

    /// Check that every tensor of `others` has the payload type and extents
    /// of a non-empty binary32 `reference`.
    pub fn require_equal_f32_tensors(&self, reference: &TensorDecl, others: &[&TensorDecl]) -> (result:
        OperationResult<()>)
        ensures
            match equal_f32_fault(*reference, others@.map_values(|tensor: &TensorDecl| *tensor)) {
                Some(kind) => refused(result, kind, self.descriptor.id),
                None => result is Ok,
            },
    {
        let ghost tensors = others@.map_values(|tensor: &TensorDecl| *tensor);
        match self.require_dtype(reference, DType::F32) {
            Ok(()) => {},
            Err(error) => return Err(error),
        }
        if has_no_elements(reference.extents.as_slice()) {
            return Err(
                OperationError::new(
                    OperationErrorKind::UnsupportedConcreteShape,
                    "tensors must contain at least one element",
                ).for_operation(self.descriptor.id),
            );
        }
        let mut index: usize = 0;
        while index < others.len()
            invariant
                index <= others@.len(),
                tensors == others@.map_values(|tensor: &TensorDecl| *tensor),
                reference.dtype == DType::F32,
                element_count(reference.extents@) != 0,
                forall|i: int| 0 <= i < index ==> !contract_differs(*reference, #[trigger] tensors[i]),
            decreases others.len() - index,
        {
            let other = others[index];
            match self.require_dtype(other, DType::F32) {
                Ok(()) => {},
                Err(error) => {
                    assert(tensors[index as int] == *other);
                    assert(contract_differs(*reference, tensors[index as int]));
                    assert(exists|i: int| 0 <= i < tensors.len() && contract_differs(*reference, #[trigger] tensors[i]));
                    return Err(error);
                },
            }
            match self.require_same_tensor_contract(reference, other) {
                Ok(()) => {},
                Err(error) => {
                    assert(tensors[index as int] == *other);
                    assert(contract_differs(*reference, tensors[index as int]));
                    assert(exists|i: int| 0 <= i < tensors.len() && contract_differs(*reference, #[trigger] tensors[i]));
                    return Err(error);
                },
            }
            index = index + 1;
        }
        Ok(())
    }

    /// Check that a fixed-order reduction over `axes` fits the iteration
    /// input's rank.
    pub fn require_reduction_axes(&self, axes: &[usize]) -> (result: OperationResult<()>)
        ensures
            match reduction_fault(*self, axes@) {
                Some(kind) => refused(result, kind, self.descriptor.id),
                None => result is Ok,
            },
    {
        let name = self.iteration_shape_input.as_str();
        assert(name@ == self.iteration_shape_input@);
        let iteration = match self.input(name) {
            Ok(tensor) => tensor,
            Err(error) => return Err(error),
        };
        let rank = iteration.extents.len();
        let mut index: usize = 0;
        while index < axes.len()
            invariant
                index <= axes@.len(),
                rank == iteration.extents@.len(),
                first_named(self.inputs@, self.iteration_shape_input@) == Some(*iteration),
                forall|i: int| 0 <= i < index ==> #[trigger] axes@[i] < rank,
            decreases axes.len() - index,
        {
            if axes[index] >= rank {
                assert(!(axes@[index as int] < iteration.extents@.len()));
                return Err(
                    OperationError::new(
                        OperationErrorKind::GraphMaterializationFailed,
                        "reduction axis is not below the iteration rank",
                    ).for_operation(self.descriptor.id),
                );
            }
            index = index + 1;
        }
        Ok(())
    }
}

} // verus!
