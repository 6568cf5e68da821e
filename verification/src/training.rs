//! Concrete materializers of the dense training operations: linear
//! projections, their backward contractions and the stable binary
//! cross-entropy with logits. Each checks its exact tensor ABI before it
//! emits one kernel per resolved recipe step.
use vstd::prelude::*;

use crate::error::{OperationError, OperationErrorKind, OperationResult};
use crate::fragment::StageEmitter;
use crate::primitive::{
    ContractionSpec, PrimitiveKind, ReduceOperator, ReduceResult, ReduceSpec, forbidden_alias_rules, kind_family,
};
use crate::registry::{training_rows, training_supports};
use crate::request::{MaterializationRequest, TensorDecl, first_named, tree_lanes_valid};
use crate::text::text_eq;
use crate::parameters::prepared_u64_spec;
use crate::types::{DType, KernelTemplateId, PrimitiveFamily, ValueId};

verus! {

/// Why a tensor is not a rank-two binary32 matrix, or its rows and columns.
pub open spec fn matrix_verdict(tensor: TensorDecl) -> Result<(u64, u64), OperationErrorKind> {
    if tensor.dtype != DType::F32 || tensor.extents@.len() != 2 {
        Err(OperationErrorKind::InvalidMaterializationRequest)
    } else {
        Ok((tensor.extents@[0], tensor.extents@[1]))
    }
}

/// Why a tensor is not binary32 with exactly the given extents.
pub open spec fn shape_verdict(tensor: TensorDecl, extents: Seq<u64>) -> Option<OperationErrorKind> {
    if tensor.dtype != DType::F32 {
        Some(OperationErrorKind::InvalidMaterializationRequest)
    } else if tensor.extents@ != extents {
        Some(OperationErrorKind::UnsupportedConcreteShape)
    } else {
        None
    }
}

/// The boundary tensors of a linear projection, and the rows, inner extent
/// and columns it contracts.
pub struct LinearShape {
    pub input: TensorDecl,
    pub weight: TensorDecl,
    pub bias: TensorDecl,
    pub output: TensorDecl,
    pub rows: u64,
    pub inner: u64,
    pub columns: u64,
}

/// The boundary of `output = input · weight + bias`, or why the request is
/// refused, in the order the checks run. With `vector_weight` the weight is
/// a vector of the inner extent, the bias a single value and the output a
/// vector of rows.
pub open spec fn linear_verdict(request: MaterializationRequest, vector_weight: bool) -> Result<
    LinearShape,
    OperationErrorKind,
> {
    if !request.abi_matches(seq!["input", "weight", "bias"], seq!["output"], seq![]) {
        Err(OperationErrorKind::InvalidMaterializationRequest)
    } else if request.iteration_shape_input@ != "input"@ {
        Err(OperationErrorKind::InvalidMaterializationRequest)
    } else {
        match (
            first_named(request.inputs@, "input"@),
            first_named(request.inputs@, "weight"@),
            first_named(request.inputs@, "bias"@),
            first_named(request.outputs@, "output"@),
        ) {
            (Some(input), Some(weight), Some(bias), Some(output)) => match matrix_verdict(input) {
                Err(kind) => Err(kind),
                Ok((rows, inner)) => if vector_weight {
                    if shape_verdict(weight, seq![inner]) is Some {
                        Err(shape_verdict(weight, seq![inner])->Some_0)
                    } else if shape_verdict(bias, seq![1u64]) is Some {
                        Err(shape_verdict(bias, seq![1u64])->Some_0)
                    } else if shape_verdict(output, seq![rows]) is Some {
                        Err(shape_verdict(output, seq![rows])->Some_0)
                    } else {
                        Ok(LinearShape { input, weight, bias, output, rows, inner, columns: 1 })
                    }
                } else {
                    match matrix_verdict(weight) {
                        Err(kind) => Err(kind),
                        Ok((weight_inner, columns)) => if weight_inner != inner {
                            Err(OperationErrorKind::InvalidMaterializationRequest)
                        } else if shape_verdict(bias, seq![columns]) is Some {
                            Err(shape_verdict(bias, seq![columns])->Some_0)
                        } else if shape_verdict(output, seq![rows, columns]) is Some {
                            Err(shape_verdict(output, seq![rows, columns])->Some_0)
                        } else {
                            Ok(LinearShape { input, weight, bias, output, rows, inner, columns })
                        },
                    }
                },
            },
            _ => Err(OperationErrorKind::InvalidMaterializationRequest),
        }
    }
}

/// The emitter can take `intermediates` more values of `bytes` workspace
/// bytes in all, and one single-kernel stage for each of `families`, in
/// order.
pub open spec fn emitter_has_room(
    emitter: StageEmitter,
    intermediates: nat,
    bytes: int,
    families: Seq<PrimitiveFamily>,
) -> bool {
    let ledger = emitter.ledger();
    let next = emitter.stages().len();
    &&& ledger.intermediates().len() + intermediates <= ledger.namespace().value_capacity
    &&& ledger.workspace() + bytes <= ledger.limit()
    &&& next + families.len() <= emitter.families().len()
    &&& forall|i: int| 0 <= i < families.len() ==> #[trigger] emitter.families()[next + i] == families[i]
    &&& ledger.kernels().len() + families.len() <= ledger.namespace().kernel_capacity
}

/// The `j`-th kernel identity the emitter hands out after its current ones.
pub open spec fn next_kernel(emitter: StageEmitter, j: int) -> KernelTemplateId {
    KernelTemplateId(
        (emitter.ledger().namespace().first_kernel.0 + emitter.ledger().kernels().len() + j) as u64,
    )
}

/// The value identity the emitter hands out next.
pub open spec fn next_value(emitter: StageEmitter) -> ValueId {
    ValueId((emitter.ledger().namespace().first_value.0 + emitter.ledger().intermediates().len()) as u64)
}

/// `node` is the kernel `kernel` reading `inputs` and writing `outputs`,
/// with every aliasing forbidden.
pub open spec fn emitted(
    node: crate::fragment::CalculationNode,
    kernel: KernelTemplateId,
    inputs: Seq<ValueId>,
    outputs: Seq<ValueId>,
) -> bool {
    &&& node.kernel == kernel
    &&& node.inputs@ == inputs
    &&& node.outputs@ == outputs
    &&& node.alias_rules@ == forbidden_alias_rules(inputs.len(), outputs.len())
}

/// An unbatched contraction of left axis `left` against right axis `right`.
pub open spec fn contraction_kind(kind: PrimitiveKind, left: usize, right: usize) -> bool {
    kind matches PrimitiveKind::Contraction(spec) && spec.batch_axes@.len() == 0
        && spec.contract_axes@ == seq![(left, right)]
}

/// A fixed-tree binary32 sum over axis 0 that drops the axis.
pub open spec fn column_sum_kind(kind: PrimitiveKind, tree_lanes: u32) -> bool {
    kind matches PrimitiveKind::Reduce(spec) && spec.operator == ReduceOperator::Sum && spec.result
        == ReduceResult::Value && spec.axes@ == seq![0usize] && !spec.keep_dimensions && spec.tree_lanes
        == tree_lanes
}

fn contraction(left: usize, right: usize) -> (kind: PrimitiveKind)
    ensures
        contraction_kind(kind, left, right),
{
    let pairs = vec![(left, right)];
    assert(pairs@ =~= seq![(left, right)]);
    PrimitiveKind::Contraction(ContractionSpec { batch_axes: Vec::new(), contract_axes: pairs })
}

fn column_sum(tree_lanes: u32) -> (kind: PrimitiveKind)
    ensures
        column_sum_kind(kind, tree_lanes),
{
    let axes = vec![0usize];
    assert(axes@ =~= seq![0usize]);
    PrimitiveKind::Reduce(
        ReduceSpec {
            operator: ReduceOperator::Sum,
            result: ReduceResult::Value,
            axes,
            keep_dimensions: false,
            tree_lanes,
        },
    )
}

fn request_error(request: &MaterializationRequest, detail: &'static str) -> (error: OperationError)
    ensures
        error.kind == OperationErrorKind::InvalidMaterializationRequest,
        error.operation == Some(request.descriptor.id),
{
    OperationError::new(OperationErrorKind::InvalidMaterializationRequest, detail).for_operation(
        request.descriptor.id,
    )
}

/// Check the boundary of a linear projection.
pub fn validate_linear(request: &MaterializationRequest, vector_weight: bool) -> (result: OperationResult<
    (&TensorDecl, &TensorDecl, &TensorDecl, &TensorDecl, u64, u64, u64),
>)
    ensures
        match linear_verdict(*request, vector_weight) {
            Ok(shape) => result matches Ok((input, weight, bias, output, rows, inner, columns)) && *input
                == shape.input && *weight == shape.weight && *bias == shape.bias && *output == shape.output
                && rows == shape.rows && inner == shape.inner && columns == shape.columns,
            Err(kind) => result matches Err(error) && error.kind == kind && error.operation == Some(
                request.descriptor.id,
            ),
        },
{
    let inputs: [&str; 3] = ["input", "weight", "bias"];
    let outputs: [&str; 1] = ["output"];
    let parameters: [&str; 0] = [];
    assert(inputs@ =~= seq!["input", "weight", "bias"]);
    assert(outputs@ =~= seq!["output"]);
    assert(parameters@ =~= Seq::<&str>::empty());
    request.require_exact_abi(&inputs, &outputs, &parameters)?;
    request.require_iteration_input("input")?;
    let input = request.input("input")?;
    let weight = request.input("weight")?;
    let bias = request.input("bias")?;
    let output = request.output("output")?;
    let (rows, inner) = request.require_f32_matrix(input)?;
    if vector_weight {
        let inner_shape = [inner];
        let unit_shape = [1u64];
        let row_shape = [rows];
        assert(inner_shape@ =~= seq![inner]);
        assert(unit_shape@ =~= seq![1u64]);
        assert(row_shape@ =~= seq![rows]);
        request.require_f32_shape(weight, &inner_shape)?;
        request.require_f32_shape(bias, &unit_shape)?;
        request.require_f32_shape(output, &row_shape)?;
        Ok((input, weight, bias, output, rows, inner, 1))
    } else {
        let (weight_inner, columns) = request.require_f32_matrix(weight)?;
        if weight_inner != inner {
            return Err(request_error(request, "weight leading extent does not match the input inner extent"));
        }
        let column_shape = [columns];
        let output_shape = [rows, columns];
        assert(column_shape@ =~= seq![columns]);
        assert(output_shape@ =~= seq![rows, columns]);
        request.require_f32_shape(bias, &column_shape)?;
        request.require_f32_shape(output, &output_shape)?;
        Ok((input, weight, bias, output, rows, inner, columns))
    }
}

/// What emitting a linear projection does to the emitter, or why it
/// refuses.
pub open spec fn linear_outcome(
    request: MaterializationRequest,
    vector_weight: bool,
    before: StageEmitter,
    after: StageEmitter,
    result: OperationResult<()>,
) -> bool {
    &&& after.families() == before.families()
    &&& match linear_verdict(request, vector_weight) {
            Err(kind) => result matches Err(error) && error.kind == kind && after.stages()
                == before.stages() && after.nodes() == before.nodes(),
            Ok(shape) => {
                let bytes = shape.rows * shape.columns * 4;
                let value = next_value(before);
                let first = before.nodes().len();
                &&& (result is Ok <==> bytes <= u64::MAX && emitter_has_room(
                    before,
                    1,
                    bytes,
                    seq![PrimitiveFamily::Contraction, PrimitiveFamily::Elementwise],
                ))
                &&& (result is Ok ==> {
                    &&& after.stages().len() == before.stages().len() + 2
                    &&& after.nodes().len() == first + 2
                    &&& after.nodes().subrange(0, first as int) == before.nodes()
                    &&& emitted(
                        after.nodes()[first as int],
                        next_kernel(before, 0),
                        seq![shape.input.id, shape.weight.id],
                        seq![value],
                    )
                    &&& contraction_kind(after.nodes()[first as int].kind, 1, 0)
                    &&& emitted(
                        after.nodes()[first as int + 1],
                        next_kernel(before, 1),
                        seq![value, shape.bias.id],
                        seq![shape.output.id],
                    )
                    &&& after.nodes()[first as int + 1].kind is Elementwise
                    &&& after.ledger().intermediates() == before.ledger().intermediates().push(
                        value,
                    )
                    &&& after.ledger().workspace() == before.ledger().workspace() + bytes
                })
            },
        }
}

/// Emit `output = input · weight + bias` after checking its boundary: one
/// binary32 intermediate holds the contraction, then one elementwise kernel
/// adds the bias.
pub fn emit_linear_projection(request: &MaterializationRequest, emitter: &mut StageEmitter, vector_weight: bool) -> (result:
    OperationResult<()>)
    requires
        old(emitter).wf(),
    ensures
        final(emitter).wf(),
        linear_outcome(*request, vector_weight, *old(emitter), *final(emitter), result),

{
    let (input, weight, bias, output, rows, _inner, columns) = match validate_linear(request, vector_weight) {
        Ok(shape) => shape,
        Err(error) => return Err(error),
    };
    let bytes = match rows.checked_mul(columns) {
        Some(elements) => elements.checked_mul(4),
        None => None,
    };
    let bytes = match bytes {
        Some(bytes) => bytes,
        None => {
            proof {
                assert(rows * columns * 4 > u64::MAX) by (nonlinear_arith)
                    requires
                        rows * columns > u64::MAX || (rows * columns) * 4 > u64::MAX,
                ;
            }
            return Err(
                OperationError::new(
                    OperationErrorKind::GraphMaterializationFailed,
                    "linear intermediate storage overflows u64",
                ).for_operation(request.descriptor.id),
            );
        },
    };
    let ghost start = *emitter;
    let contracted = emitter.intermediate(bytes)?;
    let ghost after_value = *emitter;
    let first_inputs = vec![input.id, weight.id];
    let first_outputs = vec![contracted];
    assert(first_inputs@ =~= seq![input.id, weight.id]);
    assert(first_outputs@ =~= seq![contracted]);
    match emitter.emit(first_inputs, first_outputs, contraction(1, 0)) {
        Ok(()) => {},
        Err(error) => {
            proof {
                let families = seq![PrimitiveFamily::Contraction, PrimitiveFamily::Elementwise];
                if emitter_has_room(start, 1, bytes as int, families) {
                    assert(start.families()[start.stages().len() as int + 0] == families[0]);
                }
            }
            return Err(error);
        },
    }
    let ghost after_first = *emitter;
    let second_inputs = vec![contracted, bias.id];
    let second_outputs = vec![output.id];
    assert(second_inputs@ =~= seq![contracted, bias.id]);
    assert(second_outputs@ =~= seq![output.id]);
    match emitter.emit(second_inputs, second_outputs, PrimitiveKind::Elementwise) {
        Ok(()) => {},
        Err(error) => {
            proof {
                assert(!emitter_has_room(start, 1, bytes as int, seq![PrimitiveFamily::Contraction, PrimitiveFamily::Elementwise]));
            }
            return Err(error);
        },
    }
    proof {
        let first = start.nodes().len();
        assert(emitter.nodes().subrange(0, first as int) =~= start.nodes()) by {
            assert(emitter.nodes().subrange(0, after_first.nodes().len() as int) == after_first.nodes());
            assert(after_first.nodes().subrange(0, first as int) == start.nodes());
        }
        assert(emitter.nodes()[first as int] == after_first.nodes()[first as int]) by {
            assert(emitter.nodes().subrange(0, after_first.nodes().len() as int) == after_first.nodes());
        }
    }
    Ok(())
}

/// Emit `output = input · weight + bias` for a weight matrix.
pub fn emit_linear(request: &MaterializationRequest, emitter: &mut StageEmitter) -> (result: OperationResult<()>)
    requires
        old(emitter).wf(),
    ensures
        linear_outcome(*request, false, *old(emitter), *final(emitter), result),
        final(emitter).wf(),
        linear_verdict(*request, false) matches Err(kind) ==> result matches Err(error) && error.kind == kind,
        linear_verdict(*request, false) matches Ok(shape) ==> (result is Ok <==> shape.rows * shape.columns
            * 4 <= u64::MAX && emitter_has_room(
            *old(emitter),
            1,
            shape.rows * shape.columns * 4,
            seq![PrimitiveFamily::Contraction, PrimitiveFamily::Elementwise],
        )),
{
    emit_linear_projection(request, emitter, false)
}

/// Emit `output = input · weight + bias` for a weight vector and a single
/// bias value.
pub fn emit_matvec_bias(request: &MaterializationRequest, emitter: &mut StageEmitter) -> (result: OperationResult<()>)
    requires
        old(emitter).wf(),
    ensures
        linear_outcome(*request, true, *old(emitter), *final(emitter), result),
        final(emitter).wf(),
        linear_verdict(*request, true) matches Err(kind) ==> result matches Err(error) && error.kind == kind,
        linear_verdict(*request, true) matches Ok(shape) ==> (result is Ok <==> shape.rows * 4 <= u64::MAX
            && emitter_has_room(
            *old(emitter),
            1,
            shape.rows * 4,
            seq![PrimitiveFamily::Contraction, PrimitiveFamily::Elementwise],
        )),
{
    proof {
        if linear_verdict(*request, true) is Ok {
            assert(linear_verdict(*request, true)->Ok_0.columns == 1);
        }
    }
    emit_linear_projection(request, emitter, true)
}

/// The boundary tensors of a linear-projection backward pass and the
/// extents and reduction width it uses. Without the input gradient, `weight`
/// and `input_gradient` are absent.
pub struct LinearBackwardShape {
    pub output_gradient: TensorDecl,
    pub input: TensorDecl,
    pub weight: Option<TensorDecl>,
    pub input_gradient: Option<TensorDecl>,
    pub weight_gradient: TensorDecl,
    pub bias_gradient: TensorDecl,
    pub rows: u64,
    pub inner: u64,
    pub columns: u64,
    pub tree_lanes: u32,
}

/// The input names of a backward pass.
pub open spec fn backward_inputs(full: bool) -> Seq<&'static str> {
    if full {
        seq!["output_gradient", "input", "weight"]
    } else {
        seq!["output_gradient", "input"]
    }
}

/// The output names of a backward pass.
pub open spec fn backward_outputs(full: bool) -> Seq<&'static str> {
    if full {
        seq!["input_gradient", "weight_gradient", "bias_gradient"]
    } else {
        seq!["weight_gradient", "bias_gradient"]
    }
}

/// The backward pass boundary, or why the request is refused, in the order
/// the checks run; `full` also forms the input gradient.
pub open spec fn linear_backward_verdict(request: MaterializationRequest, full: bool) -> Result<
    LinearBackwardShape,
    OperationErrorKind,
> {
    if !request.abi_matches(backward_inputs(full), backward_outputs(full), seq!["tree_lanes"]) {
        Err(OperationErrorKind::InvalidMaterializationRequest)
    } else if request.iteration_shape_input@ != "output_gradient"@ {
        Err(OperationErrorKind::InvalidMaterializationRequest)
    } else {
        let weight = first_named(request.inputs@, "weight"@);
        let input_gradient = first_named(request.outputs@, "input_gradient"@);
        match (
            first_named(request.inputs@, "output_gradient"@),
            first_named(request.inputs@, "input"@),
            first_named(request.outputs@, "weight_gradient"@),
            first_named(request.outputs@, "bias_gradient"@),
        ) {
            (Some(output_gradient), Some(input), Some(weight_gradient), Some(bias_gradient)) => if full
                && (weight is None || input_gradient is None) {
                Err(OperationErrorKind::InvalidMaterializationRequest)
            } else {
                match (matrix_verdict(output_gradient), matrix_verdict(input)) {
                    (Err(kind), _) => Err(kind),
                    (Ok(_), Err(kind)) => Err(kind),
                    (Ok((rows, columns)), Ok((input_rows, inner))) => if input_rows != rows {
                        Err(OperationErrorKind::InvalidMaterializationRequest)
                    } else if full && shape_verdict(weight->Some_0, seq![inner, columns]) is Some {
                        Err(shape_verdict(weight->Some_0, seq![inner, columns])->Some_0)
                    } else if full && shape_verdict(input_gradient->Some_0, seq![rows, inner]) is Some {
                        Err(shape_verdict(input_gradient->Some_0, seq![rows, inner])->Some_0)
                    } else if shape_verdict(weight_gradient, seq![inner, columns]) is Some {
                        Err(shape_verdict(weight_gradient, seq![inner, columns])->Some_0)
                    } else if shape_verdict(bias_gradient, seq![columns]) is Some {
                        Err(shape_verdict(bias_gradient, seq![columns])->Some_0)
                    } else {
                        match prepared_u64_spec(request.parameters, "tree_lanes"@) {
                            Err(kind) => Err(kind),
                            Ok(lanes) => if !tree_lanes_valid(lanes) {
                                Err(OperationErrorKind::InvalidMaterializationRequest)
                            } else {
                                Ok(
                                    LinearBackwardShape {
                                        output_gradient,
                                        input,
                                        weight: if full { weight } else { None },
                                        input_gradient: if full { input_gradient } else { None },
                                        weight_gradient,
                                        bias_gradient,
                                        rows,
                                        inner,
                                        columns,
                                        tree_lanes: lanes as u32,
                                    },
                                )
                            },
                        }
                    },
                }
            },
            _ => Err(OperationErrorKind::InvalidMaterializationRequest),
        }
    }
}

/// What emitting the gradients of a linear projection does to the
/// emitter, or why it refuses.
pub open spec fn linear_backward_outcome(
    request: MaterializationRequest,
    full: bool,
    before: StageEmitter,
    after: StageEmitter,
    result: OperationResult<()>,
) -> bool {
    &&& after.families() == before.families()
    &&& after.ledger().intermediates() == before.ledger().intermediates()
    &&& after.ledger().workspace() == before.ledger().workspace()
    &&& match linear_backward_verdict(request, full) {
            Err(kind) => result matches Err(error) && error.kind == kind && after.stages()
                == before.stages() && after.nodes() == before.nodes(),
            Ok(shape) => {
                let families = if full {
                    seq![PrimitiveFamily::Contraction, PrimitiveFamily::Contraction, PrimitiveFamily::Reduce]
                } else {
                    seq![PrimitiveFamily::Contraction, PrimitiveFamily::Reduce]
                };
                let first = before.nodes().len();
                let offset: int = if full { 1 } else { 0 };
                &&& (result is Ok <==> emitter_has_room(before, 0, 0, families))
                &&& (result is Ok ==> {
                    &&& after.stages().len() == before.stages().len() + families.len()
                    &&& after.nodes().len() == first + families.len()
                    &&& after.nodes().subrange(0, first as int) == before.nodes()
                    &&& full ==> emitted(
                        after.nodes()[first as int],
                        next_kernel(before, 0),
                        seq![shape.output_gradient.id, shape.weight->Some_0.id],
                        seq![shape.input_gradient->Some_0.id],
                    ) && contraction_kind(after.nodes()[first as int].kind, 1, 1)
                    &&& emitted(
                        after.nodes()[first + offset],
                        next_kernel(before, offset),
                        seq![shape.input.id, shape.output_gradient.id],
                        seq![shape.weight_gradient.id],
                    )
                    &&& contraction_kind(after.nodes()[first + offset].kind, 0, 0)
                    &&& emitted(
                        after.nodes()[first + offset + 1],
                        next_kernel(before, offset + 1),
                        seq![shape.output_gradient.id],
                        seq![shape.bias_gradient.id],
                    )
                    &&& column_sum_kind(after.nodes()[first + offset + 1].kind, shape.tree_lanes)
                })
            },
        }
}

/// Emit the gradients of a linear projection after checking the boundary:
/// with `full`, the input gradient contracts the output gradient with the
/// transposed weight; the weight gradient contracts the transposed input
/// with the output gradient; the bias gradient sums the output gradient
/// over rows with a fixed tree.
pub fn emit_linear_backward(request: &MaterializationRequest, emitter: &mut StageEmitter, full: bool) -> (result:
    OperationResult<()>)
    requires
        old(emitter).wf(),
    ensures
        final(emitter).wf(),
        linear_backward_outcome(*request, full, *old(emitter), *final(emitter), result),

{
    let inputs_full: [&str; 3] = ["output_gradient", "input", "weight"];
    let inputs_weights: [&str; 2] = ["output_gradient", "input"];
    let outputs_full: [&str; 3] = ["input_gradient", "weight_gradient", "bias_gradient"];
    let outputs_weights: [&str; 2] = ["weight_gradient", "bias_gradient"];
    let parameters: [&str; 1] = ["tree_lanes"];
    assert(inputs_full@ =~= backward_inputs(true));
    assert(inputs_weights@ =~= backward_inputs(false));
    assert(outputs_full@ =~= backward_outputs(true));
    assert(outputs_weights@ =~= backward_outputs(false));
    assert(parameters@ =~= seq!["tree_lanes"]);
    let abi = if full {
        request.require_exact_abi(&inputs_full, &outputs_full, &parameters)
    } else {
        request.require_exact_abi(&inputs_weights, &outputs_weights, &parameters)
    };
    abi?;
    request.require_iteration_input("output_gradient")?;
    let output_gradient = request.input("output_gradient")?;
    let input = request.input("input")?;
    let weight = if full {
        Some(request.input("weight")?)
    } else {
        None
    };
    let input_gradient = if full {
        Some(request.output("input_gradient")?)
    } else {
        None
    };
    let weight_gradient = request.output("weight_gradient")?;
    let bias_gradient = request.output("bias_gradient")?;
    let (rows, columns) = request.require_f32_matrix(output_gradient)?;
    let (input_rows, inner) = request.require_f32_matrix(input)?;
    if input_rows != rows {
        return Err(request_error(request, "input row extent does not match the output-gradient row extent"));
    }
    let weight_shape = [inner, columns];
    let input_gradient_shape = [rows, inner];
    let bias_shape = [columns];
    assert(weight_shape@ =~= seq![inner, columns]);
    assert(input_gradient_shape@ =~= seq![rows, inner]);
    assert(bias_shape@ =~= seq![columns]);
    match weight {
        Some(weight) => request.require_f32_shape(weight, &weight_shape)?,
        None => {},
    }
    match input_gradient {
        Some(input_gradient) => request.require_f32_shape(input_gradient, &input_gradient_shape)?,
        None => {},
    }
    request.require_f32_shape(weight_gradient, &weight_shape)?;
    request.require_f32_shape(bias_gradient, &bias_shape)?;
    let tree_lanes = request.prepared_tree_lanes()?;
    let ghost start = *emitter;
    let ghost families = if full {
        seq![PrimitiveFamily::Contraction, PrimitiveFamily::Contraction, PrimitiveFamily::Reduce]
    } else {
        seq![PrimitiveFamily::Contraction, PrimitiveFamily::Reduce]
    };
    let ghost offset: int = if full { 1 } else { 0 };
    match (weight, input_gradient) {
        (Some(weight), Some(input_gradient)) => {
            let gradient_inputs = vec![output_gradient.id, weight.id];
            let gradient_outputs = vec![input_gradient.id];
            assert(gradient_inputs@ =~= seq![output_gradient.id, weight.id]);
            assert(gradient_outputs@ =~= seq![input_gradient.id]);
            match emitter.emit(gradient_inputs, gradient_outputs, contraction(1, 1)) {
                Ok(()) => {},
                Err(error) => {
                    proof {
                        if emitter_has_room(start, 0, 0, families) {
                            assert(start.families()[start.stages().len() as int + 0] == families[0]);
                        }
                    }
                    return Err(error);
                },
            }
        },
        _ => {},
    }
    let ghost after_input = *emitter;
    let weight_inputs = vec![input.id, output_gradient.id];
    let weight_outputs = vec![weight_gradient.id];
    assert(weight_inputs@ =~= seq![input.id, output_gradient.id]);
    assert(weight_outputs@ =~= seq![weight_gradient.id]);
    match emitter.emit(weight_inputs, weight_outputs, contraction(0, 0)) {
        Ok(()) => {},
        Err(error) => {
            proof {
                if emitter_has_room(start, 0, 0, families) {
                    assert(start.families()[start.stages().len() as int + offset] == families[offset]);
                }
            }
            return Err(error);
        },
    }
    let ghost after_weight = *emitter;
    let bias_inputs = vec![output_gradient.id];
    let bias_outputs = vec![bias_gradient.id];
    assert(bias_inputs@ =~= seq![output_gradient.id]);
    assert(bias_outputs@ =~= seq![bias_gradient.id]);
    match emitter.emit(bias_inputs, bias_outputs, column_sum(tree_lanes)) {
        Ok(()) => {},
        Err(error) => {
            proof {
                if emitter_has_room(start, 0, 0, families) {
                    assert(start.families()[start.stages().len() as int + (offset + 1)] == families[offset + 1]);
                }
            }
            return Err(error);
        },
    }
    proof {
        let first = start.nodes().len();
        assert(emitter.nodes().subrange(0, after_weight.nodes().len() as int) == after_weight.nodes());
        assert(after_weight.nodes().subrange(0, after_input.nodes().len() as int) == after_input.nodes());
        assert(after_input.nodes().subrange(0, first as int) == start.nodes());
        assert(emitter.nodes().subrange(0, first as int) =~= start.nodes());
        assert(emitter.nodes()[first + offset] == after_weight.nodes()[first + offset]);
        if full {
            assert(emitter.nodes()[first as int] == after_input.nodes()[first as int]);
        }
        let shape = linear_backward_verdict(*request, full)->Ok_0;
        assert(linear_backward_verdict(*request, full) is Ok);
        assert(shape.output_gradient == *output_gradient);
        assert(shape.input == *input);
        assert(shape.tree_lanes == tree_lanes);
        let next = start.stages().len() as int;
        assert(kind_family(after_weight.nodes().last().kind) == PrimitiveFamily::Contraction);
        assert(start.families()[next + offset] == PrimitiveFamily::Contraction);
        assert(start.families()[next + offset + 1] == PrimitiveFamily::Reduce);
        if full {
            assert(start.families()[next] == PrimitiveFamily::Contraction);
        }
        assert forall|i: int| 0 <= i < families.len() implies #[trigger] start.families()[next + i]
            == families[i] by {
            if full {
                if i == 0 {
                } else if i == 1 {
                } else {
                    assert(i == offset + 1);
                }
            } else {
                if i == 0 {
                } else {
                    assert(i == offset + 1);
                }
            }
        }
        start.lemma_ledger_wf();
        start.ledger().lemma_within_reservation();
        assert(emitter_has_room(start, 0, 0, families));
        assert(emitter.stages().len() == start.stages().len() + families.len());
        assert(emitter.nodes().len() == first + families.len());
    }
    Ok(())
}

/// Emit the gradients of a linear projection, the input gradient included.
pub fn emit_linear_backward_full(request: &MaterializationRequest, emitter: &mut StageEmitter) -> (result:
    OperationResult<()>)
    requires
        old(emitter).wf(),
    ensures
        linear_backward_outcome(*request, true, *old(emitter), *final(emitter), result),
        final(emitter).wf(),
        linear_backward_verdict(*request, true) matches Err(kind) ==> result matches Err(error) && error.kind
            == kind,
        linear_backward_verdict(*request, true) is Ok ==> (result is Ok <==> emitter_has_room(
            *old(emitter),
            0,
            0,
            seq![PrimitiveFamily::Contraction, PrimitiveFamily::Contraction, PrimitiveFamily::Reduce],
        )),
{
    emit_linear_backward(request, emitter, true)
}

/// Emit the weight and bias gradients of a linear projection.
pub fn emit_linear_backward_weights_only(request: &MaterializationRequest, emitter: &mut StageEmitter) -> (result:
    OperationResult<()>)
    requires
        old(emitter).wf(),
    ensures
        linear_backward_outcome(*request, false, *old(emitter), *final(emitter), result),
        final(emitter).wf(),
        linear_backward_verdict(*request, false) matches Err(kind) ==> result matches Err(error)
            && error.kind == kind,
        linear_backward_verdict(*request, false) is Ok ==> (result is Ok <==> emitter_has_room(
            *old(emitter),
            0,
            0,
            seq![PrimitiveFamily::Contraction, PrimitiveFamily::Reduce],
        )),
{
    emit_linear_backward(request, emitter, false)
}

/// The boundary tensors of the stable binary cross-entropy with logits.
pub struct BceShape {
    pub logits: TensorDecl,
    pub targets: TensorDecl,
    pub losses: TensorDecl,
    pub gradients: TensorDecl,
}

/// The loss boundary, or why the request is refused, in the order the
/// checks run: targets, losses and gradients share the logits' extents.
pub open spec fn bce_verdict(request: MaterializationRequest) -> Result<BceShape, OperationErrorKind> {
    if !request.abi_matches(seq!["logits", "targets"], seq!["losses", "gradients"], seq![]) {
        Err(OperationErrorKind::InvalidMaterializationRequest)
    } else if request.iteration_shape_input@ != "logits"@ {
        Err(OperationErrorKind::InvalidMaterializationRequest)
    } else {
        match (
            first_named(request.inputs@, "logits"@),
            first_named(request.inputs@, "targets"@),
            first_named(request.outputs@, "losses"@),
            first_named(request.outputs@, "gradients"@),
        ) {
            (Some(logits), Some(targets), Some(losses), Some(gradients)) => if logits.dtype != DType::F32 {
                Err(OperationErrorKind::InvalidMaterializationRequest)
            } else if shape_verdict(targets, logits.extents@) is Some {
                Err(shape_verdict(targets, logits.extents@)->Some_0)
            } else if shape_verdict(losses, logits.extents@) is Some {
                Err(shape_verdict(losses, logits.extents@)->Some_0)
            } else if shape_verdict(gradients, logits.extents@) is Some {
                Err(shape_verdict(gradients, logits.extents@)->Some_0)
            } else {
                Ok(BceShape { logits, targets, losses, gradients })
            },
            _ => Err(OperationErrorKind::InvalidMaterializationRequest),
        }
    }
}

/// What emitting the stable binary cross-entropy does to the emitter, or
/// why it refuses.
pub open spec fn bce_outcome(
    request: MaterializationRequest,
    before: StageEmitter,
    after: StageEmitter,
    result: OperationResult<()>,
) -> bool {
    &&& after.families() == before.families()
    &&& after.ledger().intermediates() == before.ledger().intermediates()
    &&& after.ledger().workspace() == before.ledger().workspace()
    &&& match bce_verdict(request) {
            Err(kind) => result matches Err(error) && error.kind == kind && after.stages()
                == before.stages() && after.nodes() == before.nodes(),
            Ok(shape) => {
                let first = before.nodes().len();
                &&& (result is Ok <==> emitter_has_room(before, 0, 0, seq![PrimitiveFamily::Elementwise]))
                &&& (result is Ok ==> {
                    &&& after.nodes().len() == first + 1
                    &&& after.nodes().subrange(0, first as int) == before.nodes()
                    &&& emitted(
                        after.nodes()[first as int],
                        next_kernel(before, 0),
                        seq![shape.logits.id, shape.targets.id],
                        seq![shape.losses.id, shape.gradients.id],
                    )
                    &&& after.nodes()[first as int].kind is Elementwise
                })
            },
        }
}

/// Emit the stable binary cross-entropy with logits and its gradient as
/// one elementwise kernel after checking the boundary.
pub fn emit_binary_cross_entropy_with_logits(request: &MaterializationRequest, emitter: &mut StageEmitter) -> (result:
    OperationResult<()>)
    requires
        old(emitter).wf(),
    ensures
        final(emitter).wf(),
        bce_outcome(*request, *old(emitter), *final(emitter), result),

{
    let inputs: [&str; 2] = ["logits", "targets"];
    let outputs: [&str; 2] = ["losses", "gradients"];
    let parameters: [&str; 0] = [];
    assert(inputs@ =~= seq!["logits", "targets"]);
    assert(outputs@ =~= seq!["losses", "gradients"]);
    assert(parameters@ =~= Seq::<&str>::empty());
    request.require_exact_abi(&inputs, &outputs, &parameters)?;
    request.require_iteration_input("logits")?;
    let logits = request.input("logits")?;
    let targets = request.input("targets")?;
    let losses = request.output("losses")?;
    let gradients = request.output("gradients")?;
    request.require_dtype(logits, DType::F32)?;
    request.require_f32_shape(targets, logits.extents.as_slice())?;
    request.require_f32_shape(losses, logits.extents.as_slice())?;
    request.require_f32_shape(gradients, logits.extents.as_slice())?;
    let ghost start = *emitter;
    let kernel_inputs = vec![logits.id, targets.id];
    let kernel_outputs = vec![losses.id, gradients.id];
    assert(kernel_inputs@ =~= seq![logits.id, targets.id]);
    assert(kernel_outputs@ =~= seq![losses.id, gradients.id]);
    let result = emitter.emit(kernel_inputs, kernel_outputs, PrimitiveKind::Elementwise);
    proof {
        start.lemma_ledger_wf();
        start.ledger().lemma_within_reservation();
        let families = seq![PrimitiveFamily::Elementwise];
        if emitter_has_room(start, 0, 0, families) {
            assert(start.families()[start.stages().len() as int + 0] == families[0]);
        }
        if result is Ok {
            assert forall|i: int| 0 <= i < families.len() implies #[trigger] start.families()[start.stages().len() + i]
                == families[i] by {
                assert(i == 0);
            }
        }
    }
    result
}

/// What the training materializer of the request's symbol does to the
/// emitter, or why it refuses.
pub open spec fn training_outcome(
    request: MaterializationRequest,
    before: StageEmitter,
    after: StageEmitter,
    result: OperationResult<()>,
) -> bool {
    let symbol = request.descriptor.symbol@;
    if symbol == "gpu_bce_with_logits"@ {
        bce_outcome(request, before, after, result)
    } else if symbol == "gpu_linear_backward_full_into"@ {
        linear_backward_outcome(request, true, before, after, result)
    } else if symbol == "gpu_linear_backward_weights_only_into"@ {
        linear_backward_outcome(request, false, before, after, result)
    } else if symbol == "gpu_linear_f32"@ || symbol == "gpu_linear_into"@ {
        linear_outcome(request, false, before, after, result)
    } else {
        linear_outcome(request, true, before, after, result)
    }
}

/// Whether a family of materializers owned a request, and what it returned.
#[derive(Debug)]
pub enum FamilyDispatch {
    NotOwned,
    Owned(OperationResult<()>),
}

/// Hand a request to the training materializer of its symbol when the
/// training family owns its source-qualified row.
pub fn dispatch(request: &MaterializationRequest, emitter: &mut StageEmitter) -> (dispatched: FamilyDispatch)
    requires
        old(emitter).wf(),
    ensures
        training_rows().contains((request.descriptor.symbol@, request.descriptor.source@)) ==> (dispatched matches FamilyDispatch::Owned(result) && training_outcome(*request, *old(emitter), *final(emitter), result)),
        final(emitter).wf(),
        !training_rows().contains((request.descriptor.symbol@, request.descriptor.source@)) ==> (
        dispatched is NotOwned && *final(emitter) == *old(emitter)),
        training_rows().contains((request.descriptor.symbol@, request.descriptor.source@)) ==> {
            let symbol = request.descriptor.symbol@;
            &&& dispatched is Owned
            &&& (symbol == "gpu_linear_f32"@ || symbol == "gpu_linear_into"@) ==> match linear_verdict(
                *request,
                false,
            ) {
                Err(kind) => dispatched matches FamilyDispatch::Owned(Err(error)) && error.kind == kind,
                Ok(shape) => (dispatched matches FamilyDispatch::Owned(Ok(()))) <==> (shape.rows
                    * shape.columns * 4 <= u64::MAX && emitter_has_room(
                    *old(emitter),
                    1,
                    shape.rows * shape.columns * 4,
                    seq![PrimitiveFamily::Contraction, PrimitiveFamily::Elementwise],
                )),
            }
            &&& symbol == "gpu_matvec_bias_into"@ ==> match linear_verdict(*request, true) {
                Err(kind) => dispatched matches FamilyDispatch::Owned(Err(error)) && error.kind == kind,
                Ok(shape) => (dispatched matches FamilyDispatch::Owned(Ok(()))) <==> (shape.rows * 4
                    <= u64::MAX && emitter_has_room(
                    *old(emitter),
                    1,
                    shape.rows * 4,
                    seq![PrimitiveFamily::Contraction, PrimitiveFamily::Elementwise],
                )),
            }
            &&& symbol == "gpu_linear_backward_full_into"@ ==> match linear_backward_verdict(*request, true) {
                Err(kind) => dispatched matches FamilyDispatch::Owned(Err(error)) && error.kind == kind,
                Ok(_) => (dispatched matches FamilyDispatch::Owned(Ok(()))) <==> emitter_has_room(
                    *old(emitter),
                    0,
                    0,
                    seq![PrimitiveFamily::Contraction, PrimitiveFamily::Contraction, PrimitiveFamily::Reduce],
                ),
            }
            &&& symbol == "gpu_linear_backward_weights_only_into"@ ==> match linear_backward_verdict(
                *request,
                false,
            ) {
                Err(kind) => dispatched matches FamilyDispatch::Owned(Err(error)) && error.kind == kind,
                Ok(_) => (dispatched matches FamilyDispatch::Owned(Ok(()))) <==> emitter_has_room(
                    *old(emitter),
                    0,
                    0,
                    seq![PrimitiveFamily::Contraction, PrimitiveFamily::Reduce],
                ),
            }
            &&& symbol == "gpu_bce_with_logits"@ ==> match bce_verdict(*request) {
                Err(kind) => dispatched matches FamilyDispatch::Owned(Err(error)) && error.kind == kind,
                Ok(_) => (dispatched matches FamilyDispatch::Owned(Ok(()))) <==> emitter_has_room(
                    *old(emitter),
                    0,
                    0,
                    seq![PrimitiveFamily::Elementwise],
                ),
            }
        },
{
    if !training_supports(&request.descriptor) {
        return FamilyDispatch::NotOwned;
    }
    proof {
        reveal_strlit("gpu_bce_with_logits");
        reveal_strlit("gpu_linear_backward_full_into");
        reveal_strlit("gpu_linear_backward_weights_only_into");
        reveal_strlit("gpu_linear_f32");
        reveal_strlit("gpu_linear_into");
        reveal_strlit("gpu_matvec_bias_into");
        assert("gpu_bce_with_logits"@.len() == 19);
        assert("gpu_linear_backward_full_into"@.len() == 29);
        assert("gpu_linear_backward_weights_only_into"@.len() == 37);
        assert("gpu_linear_f32"@.len() == 14);
        assert("gpu_linear_into"@.len() == 15);
        assert("gpu_matvec_bias_into"@.len() == 20);
    }
    let symbol = request.descriptor.symbol;
    let result = if text_eq(symbol, "gpu_bce_with_logits") {
        emit_binary_cross_entropy_with_logits(request, emitter)
    } else if text_eq(symbol, "gpu_linear_backward_full_into") {
        emit_linear_backward_full(request, emitter)
    } else if text_eq(symbol, "gpu_linear_backward_weights_only_into") {
        emit_linear_backward_weights_only(request, emitter)
    } else if text_eq(symbol, "gpu_linear_f32") || text_eq(symbol, "gpu_linear_into") {
        emit_linear(request, emitter)
    } else if text_eq(symbol, "gpu_matvec_bias_into") {
        emit_matvec_bias(request, emitter)
    } else {
        Err(request_error(request, "training-operation dispatch is incomplete for the symbol"))
    };
    FamilyDispatch::Owned(result)
}

} // verus!
