use vstd::prelude::*;

verus! {

/// Stable index of one operation descriptor in a registry.
#[derive(Clone, Copy, Debug, PartialEq, Eq, PartialOrd, Ord, Hash, Structural)]
pub struct OperationId(pub u32);

/// Identity of one tensor value in a calculation graph.
#[derive(Clone, Copy, Debug, PartialEq, Eq, PartialOrd, Ord, Hash, Structural)]
pub struct ValueId(pub u64);

impl ValueId {
    pub fn new(value: u64) -> (id: Self)
        ensures
            id.0 == value,
    {
        ValueId(value)
    }

    pub fn get(self) -> (value: u64)
        ensures
            value == self.0,
    {
        self.0
    }
}

/// Identity of one kernel template in a calculation graph.
#[derive(Clone, Copy, Debug, PartialEq, Eq, PartialOrd, Ord, Hash, Structural)]
pub struct KernelTemplateId(pub u64);

impl KernelTemplateId {
    pub fn new(value: u64) -> (id: Self)
        ensures
            id.0 == value,
    {
        KernelTemplateId(value)
    }

    pub fn get(self) -> (value: u64)
        ensures
            value == self.0,
    {
        self.0
    }
}

/// A number of bytes.
#[derive(Clone, Copy, Debug, PartialEq, Eq, PartialOrd, Ord, Hash, Structural)]
pub struct ByteCount(pub u64);

impl ByteCount {
    pub fn new(value: u64) -> (count: Self)
        ensures
            count.0 == value,
    {
        ByteCount(value)
    }

    pub fn get(self) -> (value: u64)
        ensures
            value == self.0,
    {
        self.0
    }
}

/// Payload element type of a tensor.
#[derive(Clone, Copy, Debug, PartialEq, Eq, Hash, Structural)]
pub enum DType {
    F32,
    I32,
    U32,
    Bool,
}

impl DType {
    /// Bytes occupied by one element.
    pub open spec fn spec_byte_width(self) -> u64 {
        match self {
            DType::Bool => 1,
            _ => 4,
        }
    }

    #[verifier::when_used_as_spec(spec_byte_width)]
    pub fn byte_width(self) -> (width: u64)
        ensures
            width == self.spec_byte_width(),
    {
        match self {
            DType::Bool => 1,
            _ => 4,
        }
    }
}

/// Backend-neutral primitive categories exposed by the operation registry.
#[derive(Clone, Copy, Debug, PartialEq, Eq, Hash, Structural)]
pub enum PrimitiveFamily {
    Elementwise,
    Reduce,
    Scan,
    Contraction,
    Gather,
    Scatter,
    Histogram,
    Sort,
    IndexMap,
    Random,
}

/// Semantic family of a public operation.
#[derive(Clone, Copy, Debug, PartialEq, Eq, Hash, Structural)]
pub enum OperationFamily {
    Attention,
    Bayesian,
    Clustering,
    Contraction,
    Convolution,
    Creation,
    Diffusion,
    Distance,
    Elementwise,
    Embedding,
    Encoding,
    Fft,
    Graph,
    Histogram,
    Inference,
    Loss,
    Metric,
    MixtureOfExperts,
    Normalization,
    Optimizer,
    Other,
    Pooling,
    Quantization,
    Random,
    Recurrent,
    Reduction,
    ReinforcementLearning,
    Scan,
    Sequence,
    ShapeAndIndexing,
    Solver,
    StateSpace,
    Statistics,
    SupportVectorMachine,
    Tree,
}

/// Canonical payload types an operation consumes and produces.
#[derive(Clone, Debug, PartialEq, Eq)]
pub enum CanonicalDTypeContract {
    F32Payload,
    I32Payload,
    F32AndI32Payloads,
    F32OrI32Payload,
    Exact { inputs: Vec<DType>, outputs: Vec<DType> },
}

} // verus!
