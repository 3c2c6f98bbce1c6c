use vstd::prelude::*;

verus! {

/// The error taxonomy of the bridge.
///
/// Every fallible operation reports one of these synchronously to its
/// immediate caller; no operation is retried and no error is fatal.
#[derive(Clone, Copy, Debug, PartialEq, Eq, Structural)]
pub enum SbmlError {
    /// A write access was requested while another read or write access on
    /// the same node was outstanding.
    BorrowConflict,
    /// Input text to a raw-annotation setter does not parse; the node is
    /// left unchanged.
    MalformedMarkup,
    /// A structured get was requested but no matching tagged element exists.
    AnnotationNotFound,
    /// A structured get found a tagged element, but it does not carry the
    /// requested shape.
    SchemaMismatch,
    /// A variant-typed node matched none of the expected discriminant
    /// predicates.
    UnknownDiscriminant,
}

impl SbmlError {
    /// A short description of the error, in place of a `Display` impl.
    pub fn message(&self) -> (r: &'static str)
        ensures
            r@ == match self {
                SbmlError::BorrowConflict => "borrow conflict"@,
                SbmlError::MalformedMarkup => "malformed markup"@,
                SbmlError::AnnotationNotFound => "annotation not found"@,
                SbmlError::SchemaMismatch => "schema mismatch"@,
                SbmlError::UnknownDiscriminant => "unknown discriminant"@,
            },
    {
        match self {
            SbmlError::BorrowConflict => "borrow conflict",
            SbmlError::MalformedMarkup => "malformed markup",
            SbmlError::AnnotationNotFound => "annotation not found",
            SbmlError::SchemaMismatch => "schema mismatch",
            SbmlError::UnknownDiscriminant => "unknown discriminant",
        }
    }
}

} // verus!
