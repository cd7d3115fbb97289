use vstd::prelude::*;

use crate::document::{build_document, hello_document, PdfDocument};
use crate::error::ErrorKind;
use crate::lopdf_api::{doc_compress, doc_save};
use crate::model::DocModel;

verus! {

/// The process-wide single-slot store: it holds at most one live document.
///
/// The slot starts empty. `initialize` fills it once; initializing twice is a
/// programming-contract violation, excluded here by precondition, that the
/// process boundary answers by aborting rather than by an error value. `save`
/// with an empty slot is an expected runtime condition and returns an error
/// value.
pub struct DocumentRegistry {
    slot: Option<PdfDocument>,
}

impl View for DocumentRegistry {
    type V = Option<DocModel>;

    closed spec fn view(&self) -> Option<DocModel> {
        match self.slot {
            Some(d) => Some(d@),
            None => None,
        }
    }
}

/// Creates the process's registry, its slot empty, at process start.
pub fn init() -> (r: DocumentRegistry)
    ensures
        r@ is None,
{
    DocumentRegistry { slot: None }
}

impl DocumentRegistry {
    /// Whether the slot holds a document.
    pub fn is_initialized(&self) -> (r: bool)
        ensures
            r == self@ is Some,
    {
        self.slot.is_some()
    }

    /// Builds the one document and stores it in the empty slot.
    ///
    /// Calling this while a document is already present is fatal by design:
    /// the precondition excludes it, and the caller at the process boundary
    /// must test `is_initialized` first and abort the process instead of
    /// calling again.
    pub fn initialize(&mut self)
        requires
            old(self)@ is None,
        ensures
            final(self)@ == Some(hello_document()),
    {
        self.slot = Some(PdfDocument::new());
    }

    /// Serializes the stored document to the given filesystem path.
    ///
    /// With an empty slot this returns `DocumentNotFound` and makes no
    /// filesystem call. With a document present it mirrors the document into
    /// the serialization library, applies the compression pass, and writes
    /// the file, collapsing any encoding or write failure into `SaveFailed`.
    /// The in-memory document is left exactly as it was, whatever the
    /// outcome, so the call may be repeated; and no call ever reports a
    /// double initialization.
    pub fn save(&mut self, path: &str) -> (r: Result<(), ErrorKind>)
        ensures
            *final(self) == *old(self),
            (old(self)@ is None) <==> (r is Err && r->Err_0 == ErrorKind::DocumentNotFound),
            old(self)@ is Some ==> (r is Ok || (r is Err && r->Err_0 == ErrorKind::SaveFailed)),
            r is Err ==> r->Err_0 != ErrorKind::DoubleInitialize,
    {
        match &self.slot {
            None => Err(ErrorKind::DocumentNotFound),
            Some(doc) => {
                let mut target = build_document(doc);
                doc_compress(&mut target);
                match doc_save(&mut target, path) {
                    Ok(_) => Ok(()),
                    Err(_) => Err(ErrorKind::SaveFailed),
                }
            },
        }
    }
}

} // verus!
