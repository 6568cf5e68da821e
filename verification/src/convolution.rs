//! Index metadata for a valid, stride-one, channelwise one-dimensional
//! convolution: the receptive-field table of the forward pass and the
//! deterministic contribution table of the input gradient.
use vstd::prelude::*;
use vstd::arithmetic::div_mod::lemma_fundamental_div_mod_converse;

use crate::error::{OperationError, OperationErrorKind, OperationResult};
use crate::types::ByteCount;

verus! {

/// Largest index of the checked int32 index domain.
pub const MAX_I32_INDEX: u64 = 2_147_483_647;

/// Bit pattern of binary32 one.
pub const F32_ONE_BITS: u32 = 0x3f80_0000;

/// Bit pattern of binary32 positive zero.
pub const F32_ZERO_BITS: u32 = 0;

/// Immutable index metadata for a valid, stride-one, channelwise 1-D
/// convolution. Logical input is `[batch, input_length, input_channels]`,
/// filters are `[kernel_size, input_channels, filters]`, and output is
/// `[batch, output_length, filters]` with
/// `output_length = input_length - kernel_size + 1`.
#[derive(Clone, Debug, PartialEq, Eq)]
pub struct ChannelwiseConvolution1dPreparation {
    pub batch: u64,
    pub input_length: u64,
    pub input_channels: u64,
    pub filters: u64,
    pub kernel_size: u64,
    pub output_length: u64,
    pub input_elements: u64,
    pub output_elements: u64,
    pub window_indices: Vec<i32>,
    pub input_gradient_indices: Vec<i32>,
    pub input_gradient_validity: Vec<u32>,
    pub forward_workspace: ByteCount,
    pub backward_workspace: ByteCount,
}

/// The dimensions allow a preparation: all are positive, the kernel fits the
/// input, both payloads fit the int32 index domain, both tables fit host
/// memory indexes, and both workspaces fit `u64` bytes.
pub open spec fn convolution_supported(
    batch: int,
    input_length: int,
    input_channels: int,
    filters: int,
    kernel_size: int,
) -> bool {
    let output_length = input_length - kernel_size + 1;
    let window = batch * output_length * kernel_size * input_channels;
    let gradient = batch * input_length * kernel_size * filters;
    &&& batch > 0 && input_length > 0 && input_channels > 0 && filters > 0 && kernel_size > 0
    &&& kernel_size <= input_length
    &&& batch * input_length * input_channels <= MAX_I32_INDEX
    &&& batch * output_length * filters <= MAX_I32_INDEX
    &&& window <= usize::MAX
    &&& gradient <= usize::MAX
    &&& 4 * (window + gradient) <= u64::MAX
}

/// Flat input index read by receptive-field entry `(b, o, k, c)`.
pub open spec fn window_input_index(
    b: int,
    o: int,
    k: int,
    c: int,
    input_length: int,
    input_channels: int,
) -> int {
    (b * input_length + o + k) * input_channels + c
}

/// Row-major position of `(a, b, c, d)` in an `[_, nb, nc, nd]` table.
pub open spec fn flat4(a: int, b: int, c: int, d: int, nb: int, nc: int, nd: int) -> int {
    ((a * nb + b) * nc + c) * nd + d
}

/// Input-gradient contribution `(b, i, k, f)` is valid when output position
/// `i - k` exists.
pub open spec fn contribution_valid(i: int, k: int, output_length: int) -> bool {
    k <= i && i - k < output_length
}

/// Flat output-gradient index of contribution `(b, i, k, f)`, zero when the
/// contribution is invalid.
pub open spec fn gradient_output_index(
    b: int,
    i: int,
    k: int,
    f: int,
    output_length: int,
    filters: int,
) -> int {
    if contribution_valid(i, k, output_length) {
        (b * output_length + (i - k)) * filters + f
    } else {
        0
    }
}

impl ChannelwiseConvolution1dPreparation {
    #[must_use]
    pub fn batch(&self) -> (v: u64)
        ensures
            v == self.batch,
    {
        self.batch
    }

    #[must_use]
    pub fn input_length(&self) -> (v: u64)
        ensures
            v == self.input_length,
    {
        self.input_length
    }

    #[must_use]
    pub fn input_channels(&self) -> (v: u64)
        ensures
            v == self.input_channels,
    {
        self.input_channels
    }

    #[must_use]
    pub fn filters(&self) -> (v: u64)
        ensures
            v == self.filters,
    {
        self.filters
    }

    #[must_use]
    pub fn kernel_size(&self) -> (v: u64)
        ensures
            v == self.kernel_size,
    {
        self.kernel_size
    }

    #[must_use]
    pub fn output_length(&self) -> (v: u64)
        ensures
            v == self.output_length,
    {
        self.output_length
    }

    #[must_use]
    pub fn input_elements(&self) -> (v: u64)
        ensures
            v == self.input_elements,
    {
        self.input_elements
    }

    #[must_use]
    pub fn output_elements(&self) -> (v: u64)
        ensures
            v == self.output_elements,
    {
        self.output_elements
    }

    /// Absolute flat-input indices in row-major
    /// `[batch, output_length, kernel_size, input_channels]` order.
    #[must_use]
    pub fn window_indices(&self) -> (v: &[i32])
        ensures
            v@ == self.window_indices@,
    {
        self.window_indices.as_slice()
    }

    /// Absolute flat-output-gradient indices in row-major
    /// `[batch, input_length, kernel_size, filters]` order; invalid boundary
    /// contributions use index zero.
    #[must_use]
    pub fn input_gradient_indices(&self) -> (v: &[i32])
        ensures
            v@ == self.input_gradient_indices@,
    {
        self.input_gradient_indices.as_slice()
    }

    /// Exact binary32 zero/one bits matching the gradient indices.
    #[must_use]
    pub fn input_gradient_validity(&self) -> (v: &[u32])
        ensures
            v@ == self.input_gradient_validity@,
    {
        self.input_gradient_validity.as_slice()
    }

    #[must_use]
    pub fn input_shape(&self) -> (v: [u64; 1])
        ensures
            v@ == seq![self.input_elements],
    {
        let shape = [self.input_elements];
        assert(shape@ =~= seq![self.input_elements]);
        shape
    }

    #[must_use]
    pub fn window_indices_shape(&self) -> (v: [u64; 4])
        ensures
            v@ == seq![self.batch, self.output_length, self.kernel_size, self.input_channels],
    {
        let shape = [self.batch, self.output_length, self.kernel_size, self.input_channels];
        assert(shape@ =~= seq![self.batch, self.output_length, self.kernel_size, self.input_channels]);
        shape
    }

    #[must_use]
    pub fn output_shape(&self) -> (v: [u64; 3])
        ensures
            v@ == seq![self.batch, self.output_length, self.filters],
    {
        let shape = [self.batch, self.output_length, self.filters];
        assert(shape@ =~= seq![self.batch, self.output_length, self.filters]);
        shape
    }

    #[must_use]
    pub fn input_gradient_indices_shape(&self) -> (v: [u64; 4])
        ensures
            v@ == seq![self.batch, self.input_length, self.kernel_size, self.filters],
    {
        let shape = [self.batch, self.input_length, self.kernel_size, self.filters];
        assert(shape@ =~= seq![self.batch, self.input_length, self.kernel_size, self.filters]);
        shape
    }

    #[must_use]
    pub fn forward_workspace(&self) -> (v: ByteCount)
        ensures
            v == self.forward_workspace,
    {
        self.forward_workspace
    }

    #[must_use]
    pub fn backward_workspace(&self) -> (v: ByteCount)
        ensures
            v == self.backward_workspace,
    {
        self.backward_workspace
    }
}

/// Receptive-field table entry at flat position `j`.
pub open spec fn window_entry(
    j: int,
    output_length: int,
    kernel_size: int,
    input_channels: int,
    input_length: int,
) -> int {
    let c = j % input_channels;
    let k = (j / input_channels) % kernel_size;
    let o = (j / input_channels / kernel_size) % output_length;
    let b = j / input_channels / kernel_size / output_length;
    window_input_index(b, o, k, c, input_length, input_channels)
}

/// Input-gradient table entry at flat position `j`.
pub open spec fn gradient_entry(
    j: int,
    input_length: int,
    kernel_size: int,
    filters: int,
    output_length: int,
) -> (int, bool) {
    let f = j % filters;
    let k = (j / filters) % kernel_size;
    let i = (j / filters / kernel_size) % input_length;
    let b = j / filters / kernel_size / input_length;
    (gradient_output_index(b, i, k, f, output_length, filters), contribution_valid(i, k, output_length))
}

/// Both gradient tables hold the entry of flat position `j`.
pub open spec fn gradient_entry_holds(
    indices: Seq<i32>,
    validity: Seq<u32>,
    j: int,
    input_length: int,
    kernel_size: int,
    filters: int,
    output_length: int,
) -> bool {
    &&& indices[j] == gradient_entry(j, input_length, kernel_size, filters, output_length).0
    &&& validity[j] == if gradient_entry(j, input_length, kernel_size, filters, output_length).1 {
        F32_ONE_BITS
    } else {
        F32_ZERO_BITS
    }
}

/// Position `flat4(a, b, c, d)` decomposes back into `(a, b, c, d)`.
pub proof fn lemma_flat4_decompose(a: int, b: int, c: int, d: int, nb: int, nc: int, nd: int)
    requires
        0 <= a,
        0 <= b < nb,
        0 <= c < nc,
        0 <= d < nd,
    ensures
        flat4(a, b, c, d, nb, nc, nd) % nd == d,
        (flat4(a, b, c, d, nb, nc, nd) / nd) % nc == c,
        (flat4(a, b, c, d, nb, nc, nd) / nd / nc) % nb == b,
        flat4(a, b, c, d, nb, nc, nd) / nd / nc / nb == a,
{
    let ab = a * nb + b;
    let abc = ab * nc + c;
    assert(ab >= 0) by (nonlinear_arith)
        requires
            a >= 0,
            nb >= 0,
            b >= 0,
            ab == a * nb + b,
    ;
    assert(abc >= 0) by (nonlinear_arith)
        requires
            ab >= 0,
            nc >= 0,
            c >= 0,
            abc == ab * nc + c,
    ;
    lemma_fundamental_div_mod_converse(abc * nd + d, nd, abc, d);
    lemma_fundamental_div_mod_converse(abc, nc, ab, c);
    lemma_fundamental_div_mod_converse(ab, nb, a, b);
}

proof fn lemma_product3(a: u64, b: u64, c: u64)
    ensures
        crate::checked::product(seq![a, b, c]) == a * b * c,
{
    assert(seq![a, b, c].drop_last() =~= seq![a, b]);
    assert(seq![a, b].drop_last() =~= seq![a]);
    assert(seq![a].drop_last() =~= Seq::<u64>::empty());
    assert(crate::checked::product(Seq::<u64>::empty()) == 1);
    assert(crate::checked::product(seq![a]) == a);
    assert(crate::checked::product(seq![a, b]) == a * b);
    assert(crate::checked::product(seq![a, b, c]) == a * b * c);
}

proof fn lemma_product4(a: u64, b: u64, c: u64, d: u64)
    ensures
        crate::checked::product(seq![a, b, c, d]) == a * b * c * d,
{
    assert(seq![a, b, c, d].drop_last() =~= seq![a, b, c]);
    lemma_product3(a, b, c);
}

fn unsupported(detail: &'static str) -> (error: OperationError)
    ensures
        error.kind == OperationErrorKind::UnsupportedConcreteShape,
{
    OperationError::new(OperationErrorKind::UnsupportedConcreteShape, detail)
}

/// Checked product of positive factors, failing as an unsupported shape.
fn positive_product(values: &[u64], detail: &'static str) -> (result: OperationResult<u64>)
    requires
        forall|i: int| 0 <= i < values@.len() ==> #[trigger] values@[i] >= 1,
    ensures
        crate::checked::product(values@) <= u64::MAX ==> result == Ok::<u64, OperationError>(
            crate::checked::product(values@) as u64,
        ),
        crate::checked::product(values@) > u64::MAX ==> (result matches Err(error) && error.kind
            == OperationErrorKind::UnsupportedConcreteShape),
{
    proof {
        crate::checked::lemma_checked_product_exact(values@);
    }
    match crate::checked::checked_product(values) {
        Some(value) => Ok(value),
        None => Err(unsupported(detail)),
    }
}

/// Read index of receptive-field entry `(b, o, k, c)` stays below the
/// input element count.
proof fn lemma_window_index_bound(
    b: int,
    o: int,
    k: int,
    c: int,
    batch: int,
    input_length: int,
    input_channels: int,
    kernel_size: int,
)
    requires
        0 <= b < batch,
        0 <= o,
        0 <= k < kernel_size,
        o + k < input_length,
        0 <= c < input_channels,
    ensures
        0 <= window_input_index(b, o, k, c, input_length, input_channels) < batch * input_length
            * input_channels,
        0 <= b * input_length <= batch * input_length,
{
    let row = b * input_length + o + k;
    assert(b * input_length + input_length <= batch * input_length) by (nonlinear_arith)
        requires
            0 <= b < batch,
            input_length >= 0,
    ;
    assert(0 <= b * input_length) by (nonlinear_arith)
        requires
            0 <= b,
            input_length >= 0,
    ;
    assert(row * input_channels + c < (batch * input_length) * input_channels) by (nonlinear_arith)
        requires
            0 <= row,
            row + 1 <= batch * input_length,
            0 <= c < input_channels,
    ;
    assert(0 <= row * input_channels) by (nonlinear_arith)
        requires
            0 <= row,
            0 <= input_channels,
    ;
    assert((batch * input_length) * input_channels == batch * input_length * input_channels) by (nonlinear_arith);
}

/// Absolute read indices of every receptive field, in row-major
/// `[batch, output_length, kernel_size, input_channels]` order.
#[verifier::loop_isolation(false)]
#[verifier::rlimit(60)]
fn window_table(
    batch: u64,
    input_length: u64,
    input_channels: u64,
    kernel_size: u64,
    output_length: u64,
) -> (table: Vec<i32>)
    requires
        batch >= 1,
        input_channels >= 1,
        kernel_size >= 1,
        kernel_size <= input_length,
        output_length == input_length - kernel_size + 1,
        batch * input_length * input_channels <= MAX_I32_INDEX,
    ensures
        table@.len() == batch * output_length * kernel_size * input_channels,
        forall|b: int, o: int, k: int, c: int|
            0 <= b < batch && 0 <= o < output_length && 0 <= k < kernel_size && 0 <= c
                < input_channels ==> table@[#[trigger] flat4(
                b,
                o,
                k,
                c,
                output_length as int,
                kernel_size as int,
                input_channels as int,
            )] == window_input_index(b, o, k, c, input_length as int, input_channels as int),
{
    let ghost ol = output_length as int;
    let ghost ks = kernel_size as int;
    let ghost ic = input_channels as int;
    let ghost il = input_length as int;
    let mut table: Vec<i32> = Vec::new();
    let mut b: u64 = 0;
    while b < batch
        invariant
            b <= batch,
            table@.len() == b * (ol * ks * ic),
            forall|j: int| 0 <= j < table@.len() ==> #[trigger] table@[j] == window_entry(j, ol, ks, ic, il),
        decreases batch - b,
    {
        let mut o: u64 = 0;
        assert(b * (ol * ks * ic) == (b * ol + 0) * (ks * ic)) by (nonlinear_arith);
        while o < output_length
            invariant
                b < batch,
                o <= output_length,
                table@.len() == (b * ol + o) * (ks * ic),
                forall|j: int|
                    0 <= j < table@.len() ==> #[trigger] table@[j] == window_entry(j, ol, ks, ic, il),
            decreases output_length - o,
        {
            let mut k: u64 = 0;
            assert((b * ol + o) * (ks * ic) == ((b * ol + o) * ks + 0) * ic) by (nonlinear_arith);
            while k < kernel_size
                invariant
                    b < batch,
                    o < output_length,
                    k <= kernel_size,
                    table@.len() == ((b * ol + o) * ks + k) * ic,
                    forall|j: int|
                        0 <= j < table@.len() ==> #[trigger] table@[j] == window_entry(j, ol, ks, ic, il),
                decreases kernel_size - k,
            {
                let mut c: u64 = 0;
                while c < input_channels
                    invariant
                        b < batch,
                        o < output_length,
                        k < kernel_size,
                        c <= input_channels,
                        table@.len() == ((b * ol + o) * ks + k) * ic + c,
                        forall|j: int|
                            0 <= j < table@.len() ==> #[trigger] table@[j] == window_entry(
                                j,
                                ol,
                                ks,
                                ic,
                                il,
                            ),
                    decreases input_channels - c,
                {
                    proof {
                        lemma_window_index_bound(
                            b as int,
                            o as int,
                            k as int,
                            c as int,
                            batch as int,
                            il,
                            ic,
                            ks,
                        );
                        lemma_flat4_decompose(b as int, o as int, k as int, c as int, ol, ks, ic);
                        let row = b * input_length + o + k;
                        assert(row <= row * input_channels) by (nonlinear_arith)
                            requires
                                row >= 0,
                                input_channels >= 1,
                        ;
                    }
                    let index = (b * input_length + o + k) * input_channels + c;
                    let ghost j = table@.len() as int;
                    assert(j == flat4(b as int, o as int, k as int, c as int, ol, ks, ic));
                    table.push(index as i32);
                    assert(table@[j] == window_entry(j, ol, ks, ic, il));
                    c = c + 1;
                }
                assert(((b * ol + o) * ks + k) * ic + ic == ((b * ol + o) * ks + (k + 1)) * ic) by (nonlinear_arith);
                k = k + 1;
            }
            assert(((b * ol + o) * ks + ks) * ic == (b * ol + (o + 1)) * (ks * ic)) by (nonlinear_arith);
            o = o + 1;
        }
        assert((b * ol + ol) * (ks * ic) == (b + 1) * (ol * ks * ic)) by (nonlinear_arith);
        b = b + 1;
    }
    assert(batch * (ol * ks * ic) == batch * ol * ks * ic) by (nonlinear_arith);
    assert forall|b: int, o: int, k: int, c: int|
        0 <= b < batch && 0 <= o < output_length && 0 <= k < kernel_size && 0 <= c < input_channels
            implies table@[#[trigger] flat4(b, o, k, c, ol, ks, ic)] == window_input_index(b, o, k, c, il, ic) by {
        lemma_flat4_decompose(b, o, k, c, ol, ks, ic);
        let j = flat4(b, o, k, c, ol, ks, ic);
        assert(0 <= j < table@.len()) by {
            assert(0 <= j) by (nonlinear_arith)
                requires
                    j == ((b * ol + o) * ks + k) * ic + c,
                    0 <= b,
                    0 <= o,
                    0 <= k,
                    0 <= c,
                    ol >= 0,
                    ks >= 0,
                    ic >= 0,
            ;
            assert(j < batch * ol * ks * ic) by (nonlinear_arith)
                requires
                    j == ((b * ol + o) * ks + k) * ic + c,
                    0 <= b < batch,
                    0 <= o < ol,
                    0 <= k < ks,
                    0 <= c < ic,
            ;
        }
    }
    table
}

/// Flat output-gradient index of a valid contribution stays below the
/// output element count.
proof fn lemma_gradient_index_bound(b: int, o: int, f: int, batch: int, output_length: int, filters: int)
    requires
        0 <= b < batch,
        0 <= o < output_length,
        0 <= f < filters,
    ensures
        0 <= (b * output_length + o) * filters + f < batch * output_length * filters,
        0 <= b * output_length <= batch * output_length,
{
    let row = b * output_length + o;
    assert(b * output_length + output_length <= batch * output_length) by (nonlinear_arith)
        requires
            0 <= b < batch,
            output_length >= 0,
    ;
    assert(0 <= b * output_length) by (nonlinear_arith)
        requires
            0 <= b,
            output_length >= 0,
    ;
    assert(row * filters + f < (batch * output_length) * filters) by (nonlinear_arith)
        requires
            0 <= row,
            row + 1 <= batch * output_length,
            0 <= f < filters,
    ;
    assert(0 <= row * filters) by (nonlinear_arith)
        requires
            0 <= row,
            0 <= filters,
    ;
    assert((batch * output_length) * filters == batch * output_length * filters) by (nonlinear_arith);
}

/// Output-gradient read indices and their validity bits for every
/// input-gradient contribution, in row-major
/// `[batch, input_length, kernel_size, filters]` order.
#[verifier::loop_isolation(false)]
#[verifier::rlimit(60)]
fn gradient_tables(
    batch: u64,
    input_length: u64,
    filters: u64,
    kernel_size: u64,
    output_length: u64,
) -> (tables: (Vec<i32>, Vec<u32>))
    requires
        batch >= 1,
        filters >= 1,
        kernel_size >= 1,
        input_length >= 1,
        kernel_size <= input_length,
        output_length == input_length - kernel_size + 1,
        batch * output_length * filters <= MAX_I32_INDEX,
    ensures
        tables.0@.len() == batch * input_length * kernel_size * filters,
        tables.1@.len() == batch * input_length * kernel_size * filters,
        forall|b: int, i: int, k: int, f: int|
            0 <= b < batch && 0 <= i < input_length && 0 <= k < kernel_size && 0 <= f < filters
                ==> {
                let j = #[trigger] flat4(b, i, k, f, input_length as int, kernel_size as int, filters as int);
                &&& tables.0@[j] == gradient_output_index(b, i, k, f, output_length as int, filters as int)
                &&& tables.1@[j] == if contribution_valid(i, k, output_length as int) {
                    F32_ONE_BITS
                } else {
                    F32_ZERO_BITS
                }
            },
{
    let ghost ol = output_length as int;
    let ghost ks = kernel_size as int;
    let ghost fs = filters as int;
    let ghost il = input_length as int;
    let mut indices: Vec<i32> = Vec::new();
    let mut validity: Vec<u32> = Vec::new();
    let mut b: u64 = 0;
    while b < batch
        invariant
            b <= batch,
            indices@.len() == validity@.len() == b * (il * ks * fs),
            forall|j: int|
                #![trigger indices@[j]] 0 <= j < indices@.len() ==> gradient_entry_holds(indices@, validity@, j, il, ks, fs, ol),
        decreases batch - b,
    {
        let mut i: u64 = 0;
        assert(b * (il * ks * fs) == (b * il + 0) * (ks * fs)) by (nonlinear_arith);
        while i < input_length
            invariant
                b < batch,
                i <= input_length,
                indices@.len() == validity@.len() == (b * il + i) * (ks * fs),
                forall|j: int|
                    #![trigger indices@[j]] 0 <= j < indices@.len() ==> gradient_entry_holds(indices@, validity@, j, il, ks, fs, ol),
            decreases input_length - i,
        {
            let mut k: u64 = 0;
            assert((b * il + i) * (ks * fs) == ((b * il + i) * ks + 0) * fs) by (nonlinear_arith);
            while k < kernel_size
                invariant
                    b < batch,
                    i < input_length,
                    k <= kernel_size,
                    indices@.len() == validity@.len() == ((b * il + i) * ks + k) * fs,
                    forall|j: int|
                        #![trigger indices@[j]] 0 <= j < indices@.len() ==> gradient_entry_holds(indices@, validity@, j, il, ks, fs, ol),
                decreases kernel_size - k,
            {
                let valid = k <= i && i - k < output_length;
                let mut f: u64 = 0;
                while f < filters
                    invariant
                        b < batch,
                        i < input_length,
                        k < kernel_size,
                        f <= filters,
                        valid == contribution_valid(i as int, k as int, ol),
                        indices@.len() == validity@.len() == ((b * il + i) * ks + k) * fs + f,
                        forall|j: int|
                            #![trigger indices@[j]] 0 <= j < indices@.len() ==> gradient_entry_holds(indices@, validity@, j, il, ks, fs, ol),
                    decreases filters - f,
                {
                    proof {
                        lemma_flat4_decompose(b as int, i as int, k as int, f as int, il, ks, fs);
                    }
                    let ghost j = indices@.len() as int;
                    let ghost prev_indices = indices@;
                    let ghost prev_validity = validity@;
                    assert(j == flat4(b as int, i as int, k as int, f as int, il, ks, fs));
                    if valid {
                        proof {
                            lemma_gradient_index_bound(b as int, (i - k) as int, f as int, batch as int, ol, fs);
                            let row = b * output_length + (i - k);
                            assert(row <= row * filters) by (nonlinear_arith)
                                requires
                                    row >= 0,
                                    filters >= 1,
                            ;
                        }
                        let index = (b * output_length + (i - k)) * filters + f;
                        indices.push(index as i32);
                        validity.push(F32_ONE_BITS);
                    } else {
                        indices.push(0);
                        validity.push(F32_ZERO_BITS);
                    }
                    assert(gradient_entry_holds(indices@, validity@, j, il, ks, fs, ol));
                    assert forall|jj: int| 0 <= jj < indices@.len() implies gradient_entry_holds(
                        indices@,
                        validity@,
                        jj,
                        il,
                        ks,
                        fs,
                        ol,
                    ) by {
                        if jj < j {
                            assert(indices@[jj] == prev_indices[jj]);
                            assert(validity@[jj] == prev_validity[jj]);
                            assert(gradient_entry_holds(prev_indices, prev_validity, jj, il, ks, fs, ol));
                        }
                    }
                    f = f + 1;
                }
                assert(((b * il + i) * ks + k) * fs + fs == ((b * il + i) * ks + (k + 1)) * fs) by (nonlinear_arith);
                k = k + 1;
            }
            assert(((b * il + i) * ks + ks) * fs == (b * il + (i + 1)) * (ks * fs)) by (nonlinear_arith);
            i = i + 1;
        }
        assert((b * il + il) * (ks * fs) == (b + 1) * (il * ks * fs)) by (nonlinear_arith);
        b = b + 1;
    }
    assert(batch * (il * ks * fs) == batch * il * ks * fs) by (nonlinear_arith);
    assert forall|b: int, i: int, k: int, f: int|
        0 <= b < batch && 0 <= i < input_length && 0 <= k < kernel_size && 0 <= f < filters implies {
            let j = #[trigger] flat4(b, i, k, f, il, ks, fs);
            &&& indices@[j] == gradient_output_index(b, i, k, f, ol, fs)
            &&& validity@[j] == if contribution_valid(i, k, ol) {
                F32_ONE_BITS
            } else {
                F32_ZERO_BITS
            }
        } by {
        lemma_flat4_decompose(b, i, k, f, il, ks, fs);
        let j = flat4(b, i, k, f, il, ks, fs);
        assert(0 <= j < indices@.len()) by {
            assert(0 <= j) by (nonlinear_arith)
                requires
                    j == ((b * il + i) * ks + k) * fs + f,
                    0 <= b,
                    0 <= i,
                    0 <= k,
                    0 <= f,
                    il >= 0,
                    ks >= 0,
                    fs >= 0,
            ;
            assert(j < batch * il * ks * fs) by (nonlinear_arith)
                requires
                    j == ((b * il + i) * ks + k) * fs + f,
                    0 <= b < batch,
                    0 <= i < il,
                    0 <= k < ks,
                    0 <= f < fs,
            ;
        }
        assert(gradient_entry_holds(indices@, validity@, j, il, ks, fs, ol));
    }
    (indices, validity)
}

/// Prepare all checked receptive-field and deterministic input-gradient
/// coordinates for one valid, stride-one 1-D convolution.
#[verifier::loop_isolation(false)]
#[verifier::rlimit(40)]
pub fn prepare_channelwise_convolution_1d(
    batch: u64,
    input_length: u64,
    input_channels: u64,
    filters: u64,
    kernel_size: u64,
) -> (prepared: OperationResult<ChannelwiseConvolution1dPreparation>)
    ensures
        prepared is Ok <==> convolution_supported(
            batch as int,
            input_length as int,
            input_channels as int,
            filters as int,
            kernel_size as int,
        ),
        prepared matches Err(error) ==> error.kind == OperationErrorKind::UnsupportedConcreteShape,
        prepared matches Ok(p) ==> {
            let ol = input_length - kernel_size + 1;
            let window = batch * ol * kernel_size * input_channels;
            let gradient = batch * input_length * kernel_size * filters;
            &&& p.batch == batch && p.input_length == input_length
            &&& p.input_channels == input_channels && p.filters == filters
            &&& p.kernel_size == kernel_size && p.output_length == ol
            &&& p.input_elements == batch * input_length * input_channels
            &&& p.output_elements == batch * ol * filters
            &&& p.forward_workspace.0 == 4 * window
            &&& p.backward_workspace.0 == 4 * (window + gradient)
            &&& p.window_indices@.len() == window
            &&& p.input_gradient_indices@.len() == gradient
            &&& p.input_gradient_validity@.len() == gradient
            &&& forall|b: int, o: int, k: int, c: int|
                0 <= b < batch && 0 <= o < ol && 0 <= k < kernel_size && 0 <= c < input_channels
                    ==> p.window_indices@[#[trigger] flat4(b, o, k, c, ol, kernel_size as int, input_channels as int)]
                    == window_input_index(b, o, k, c, input_length as int, input_channels as int)
            &&& forall|b: int, i: int, k: int, f: int|
                0 <= b < batch && 0 <= i < input_length && 0 <= k < kernel_size && 0 <= f < filters
                    ==> {
                    let j = #[trigger] flat4(b, i, k, f, input_length as int, kernel_size as int, filters as int);
                    &&& p.input_gradient_indices@[j] == gradient_output_index(b, i, k, f, ol, filters as int)
                    &&& p.input_gradient_validity@[j] == if contribution_valid(i, k, ol) {
                        F32_ONE_BITS
                    } else {
                        F32_ZERO_BITS
                    }
                }
        },
{
    if batch == 0 || input_length == 0 || input_channels == 0 || filters == 0 || kernel_size == 0 {
        return Err(unsupported("convolution dimensions must be positive"));
    }
    if kernel_size > input_length {
        return Err(unsupported("kernel_size exceeds input_length"));
    }
    let output_length = input_length - kernel_size + 1;
    let ghost ol = output_length as int;
    proof {
        lemma_product3(batch, input_length, input_channels);
        lemma_product3(batch, output_length, filters);
        lemma_product4(batch, output_length, kernel_size, input_channels);
        lemma_product4(batch, input_length, kernel_size, filters);
    }
    let input_elements = positive_product(
        &[batch, input_length, input_channels],
        "convolution input elements overflowed u64",
    )?;
    let output_elements = positive_product(
        &[batch, output_length, filters],
        "convolution output elements overflowed u64",
    )?;
    if input_elements > MAX_I32_INDEX || output_elements > MAX_I32_INDEX {
        return Err(
            unsupported("convolution input and output must fit the checked int32 index domain"),
        );
    }
    let window_elements = positive_product(
        &[batch, output_length, kernel_size, input_channels],
        "convolution receptive-field elements overflowed u64",
    )?;
    let input_gradient_elements = positive_product(
        &[batch, input_length, kernel_size, filters],
        "convolution input-gradient contributions overflowed u64",
    )?;
    if window_elements > usize::MAX as u64 {
        return Err(unsupported("convolution receptive-field table does not fit host usize"));
    }
    if input_gradient_elements > usize::MAX as u64 {
        return Err(unsupported("convolution input-gradient table does not fit host usize"));
    }
    let forward_workspace = match window_elements.checked_mul(4) {
        Some(bytes) => bytes,
        None => {
            return Err(unsupported("convolution forward workspace overflowed u64"));
        },
    };
    let backward_elements = match window_elements.checked_add(input_gradient_elements) {
        Some(elements) => elements,
        None => {
            return Err(unsupported("convolution backward workspace elements overflowed u64"));
        },
    };
    let backward_workspace = match backward_elements.checked_mul(4) {
        Some(bytes) => bytes,
        None => {
            return Err(unsupported("convolution backward workspace overflowed u64"));
        },
    };
    let window_indices = window_table(batch, input_length, input_channels, kernel_size, output_length);
    let (input_gradient_indices, input_gradient_validity) = gradient_tables(
        batch,
        input_length,
        filters,
        kernel_size,
        output_length,
    );
    Ok(
        ChannelwiseConvolution1dPreparation {
            batch,
            input_length,
            input_channels,
            filters,
            kernel_size,
            output_length,
            input_elements,
            output_elements,
            window_indices,
            input_gradient_indices,
            input_gradient_validity,
            forward_workspace: ByteCount::new(forward_workspace),
            backward_workspace: ByteCount::new(backward_workspace),
        },
    )
}

} // verus!
