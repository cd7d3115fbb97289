use vstd::prelude::*;

mod document;
mod error;
mod lopdf_api;
mod mirror;
mod model;
mod registry;
mod value;

pub use document::{
    catalog_model, content_model, font_model, hello_content, hello_document, hello_ops,
    lemma_hello_document_well_formed, page_model, pages_model, resources_model, PdfDocument,
};
pub use error::ErrorKind;
pub use lopdf_api::content_encoding;
pub use model::{
    is_catalog, is_single_content_page, refs_resolve, wf_document, wf_single_page, DictEntries,
    DocModel, ObjModel, ObjectTable,
};
pub use registry::{init, DocumentRegistry};
pub use value::{Atom, PdfObject, PdfValue};

verus! {

/// The process exit code for the foreign application's top-level result:
/// zero for success, otherwise the code the application supplied.
pub fn exit_code(result: &Result<(), i32>) -> (r: i32)
    ensures
        result is Ok ==> r == 0,
        result is Err ==> r == result->Err_0,
{
    match result {
        Ok(_) => 0,
        Err(code) => *code,
    }
}

} // verus!
