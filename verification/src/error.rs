use vstd::prelude::*;

verus! {

/// The error taxonomy of the document registry.
///
/// `DocumentNotFound` and `SaveFailed` are recoverable and are returned as
/// values; `DoubleInitialize` is a programming-contract violation that a
/// correct caller never triggers (the registry's `initialize` excludes it by
/// precondition), so no registry operation ever returns it.
#[derive(Clone, Copy, PartialEq, Eq, Structural, Debug)]
pub enum ErrorKind {
    /// A save was attempted while no document is initialized.
    DocumentNotFound,
    /// Encoding or writing the document to the filesystem failed.
    SaveFailed,
    /// The registry was initialized while a document was already present.
    DoubleInitialize,
}

impl ErrorKind {
    /// The message that crosses the foreign application boundary for this error.
    pub fn message(&self) -> (r: &'static str)
        ensures
            *self == ErrorKind::DocumentNotFound ==> r@ == "DOCUMENT NOT FOUND"@,
            *self == ErrorKind::SaveFailed ==> r@ == "ERROR SAVING DOCUMENT"@,
            *self == ErrorKind::DoubleInitialize ==> r@ == "expected document to be empty"@,
    {
        match self {
            ErrorKind::DocumentNotFound => "DOCUMENT NOT FOUND",
            ErrorKind::SaveFailed => "ERROR SAVING DOCUMENT",
            ErrorKind::DoubleInitialize => "expected document to be empty",
        }
    }
}

} // verus!
