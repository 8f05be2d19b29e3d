use vstd::prelude::*;

verus! {

/// Why an operator refused its operands. Every refusal is decided before any
/// device work is issued.
#[derive(Debug, Clone, Copy, PartialEq, Eq, Structural)]
pub enum OpError {
    /// Operand dimensions are inconsistent with the operator's contract.
    ShapeMismatch,
    /// Shapes are valid but a structural requirement is not met (layout,
    /// head dimension, grouped heads, operands on different devices).
    PreconditionViolation,
    /// The element type is outside the operator's supported set.
    UnsupportedDType,
    /// The operator has no implementation on the operands' backend.
    BackendUnsupported,
    /// A device or driver call failed; carries the driver's code.
    BackendFailure(i32),
    /// A scalar parameter lies outside its allowed range.
    OutOfDomain,
    /// A shape whose element count (or a derived size) does not fit the
    /// addressable range.
    ShapeTooLarge,
}

} // verus!
