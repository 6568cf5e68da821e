use vstd::prelude::*;

use crate::types::OperationId;

verus! {

/// Why an operation request was refused.
#[derive(Clone, Copy, Debug, PartialEq, Eq, Structural)]
pub enum OperationErrorKind {
    CompositionExpansionOverflow,
    GraphMaterializationFailed,
    IdentityNamespaceExhausted,
    IdentityNamespaceOverlap,
    InvalidCompositionRecipe,
    InvalidMaterializationRequest,
    IterationBoundUnresolved,
    MissingConcreteFormula,
    MissingPreparedParameter,
    PreparedParameterTypeMismatch,
    PrimitiveLoweringFailed,
    PrimitiveRecipeMismatch,
    UnsupportedConcreteShape,
    UnsupportedLowering,
    WorkspaceArithmeticOverflow,
    WorkspaceFormulaMismatch,
    WorkspaceLimitExceeded,
    WrongLoweringKind,
}

/// A refused request: its kind, a fixed human-readable detail, and the
/// operation it concerns when one is known.
#[derive(Clone, Copy, Debug, PartialEq, Eq)]
pub struct OperationError {
    pub kind: OperationErrorKind,
    pub detail: &'static str,
    pub operation: Option<OperationId>,
}

pub type OperationResult<T> = Result<T, OperationError>;

impl OperationError {
    pub fn new(kind: OperationErrorKind, detail: &'static str) -> (error: Self)
        ensures
            error.kind == kind,
            error.detail == detail,
            error.operation is None,
    {
        OperationError { kind, detail, operation: None }
    }

    /// Attach the operation the error concerns.
    pub fn for_operation(self, operation: OperationId) -> (error: Self)
        ensures
            error.kind == self.kind,
            error.detail == self.detail,
            error.operation == Some(operation),
    {
        OperationError { kind: self.kind, detail: self.detail, operation: Some(operation) }
    }

    pub fn kind(&self) -> (kind: OperationErrorKind)
        ensures
            kind == self.kind,
    {
        self.kind
    }
}

} // verus!
