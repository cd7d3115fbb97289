use vstd::prelude::*;

use crate::model::{DictEntries, ObjModel, ObjectTable};

verus! {

#[verifier::external_type_specification]
#[verifier::external_body]
pub struct ExObject(lopdf::Object);

#[verifier::external_type_specification]
#[verifier::external_body]
pub struct ExDictionary(lopdf::Dictionary);

#[verifier::external_type_specification]
#[verifier::external_body]
pub struct ExDocument(lopdf::Document);

/// The abstract value an `lopdf::Object` holds.
pub uninterp spec fn obj_model(o: lopdf::Object) -> ObjModel;

/// The entries an `lopdf::Dictionary` holds, keyed by entry name.
pub uninterp spec fn dict_model(d: lopdf::Dictionary) -> Map<Seq<char>, ObjModel>;

/// The object table an `lopdf::Document` holds, keyed by object identifier.
pub uninterp spec fn doc_objects(d: lopdf::Document) -> Map<(int, int), ObjModel>;

/// The root reference of an `lopdf::Document`'s trailer, if one has been set.
pub uninterp spec fn doc_root(d: lopdf::Document) -> Option<(int, int)>;

/// The format version an `lopdf::Document` declares.
pub uninterp spec fn doc_version(d: lopdf::Document) -> Seq<char>;

/// The highest-object-number bookkeeping field of an `lopdf::Document`.
/// The writer allocates one more identifier above it and computes that
/// identifier's successor, so saving needs two numbers of headroom.
pub uninterp spec fn doc_max_id(d: lopdf::Document) -> int;

/// The byte encoding that the serialization library gives a sequence of
/// drawing instructions, each an operator with its operand values.
pub uninterp spec fn content_encoding(ops: Seq<(Seq<char>, Seq<ObjModel>)>) -> Seq<u8>;

/// The models of a sequence of `lopdf::Object`s, in order.
pub open spec fn objs_models(s: Seq<lopdf::Object>) -> Seq<ObjModel> {
    s.map_values(|o: lopdf::Object| obj_model(o))
}

/// The models of a sequence of drawing instructions, each an operator with
/// its operand objects.
pub open spec fn ops_models(s: Seq<(String, Vec<lopdf::Object>)>) -> Seq<(Seq<char>, Seq<ObjModel>)> {
    s.map_values(|p: (String, Vec<lopdf::Object>)| (p.0@, objs_models(p.1@)))
}

/// The operand value is a name, an integer, or a literal text string: the
/// three operand kinds whose byte encoding is determined by the model alone.
/// A dictionary operand would not be: the serialization library writes
/// dictionary entries in insertion order, which the entry map forgets.
pub open spec fn atom_operand(m: ObjModel) -> bool {
    m is Name || m is Int || m is Text
}

/// Every operand of every instruction is an atomic operand.
pub open spec fn atoms_only(ops: Seq<(Seq<char>, Seq<ObjModel>)>) -> bool {
    forall|i: int, j: int|
        0 <= i < ops.len() && 0 <= j < ops[i].1.len() ==> atom_operand(#[trigger] ops[i].1[j])
}

/// Relies on `From<&str> for lopdf::Object`: a string makes a name object.
#[verifier::external_body]
pub(crate) fn obj_name(name: &str) -> (r: lopdf::Object)
    ensures
        obj_model(r) == ObjModel::Name(name@),
{
    lopdf::Object::from(name)
}

/// Relies on `From<i64> for lopdf::Object`: an integer object.
#[verifier::external_body]
pub(crate) fn obj_int(value: i64) -> (r: lopdf::Object)
    ensures
        obj_model(r) == ObjModel::Int(value as int),
{
    lopdf::Object::from(value)
}

/// Relies on `lopdf::Object::string_literal`: a literal text string object.
#[verifier::external_body]
pub(crate) fn obj_text(text: &str) -> (r: lopdf::Object)
    ensures
        obj_model(r) == ObjModel::Text(text@),
{
    lopdf::Object::string_literal(text)
}

/// Relies on `From<lopdf::ObjectId> for lopdf::Object`: a reference object.
#[verifier::external_body]
pub(crate) fn obj_ref(num: u32, gen: u16) -> (r: lopdf::Object)
    ensures
        obj_model(r) == ObjModel::Ref(num as int, gen as int),
{
    lopdf::Object::from((num, gen))
}

/// Relies on `From<Vec<lopdf::Object>> for lopdf::Object`: an array object of
/// exactly the given items.
#[verifier::external_body]
pub(crate) fn obj_array(items: Vec<lopdf::Object>) -> (r: lopdf::Object)
    ensures
        obj_model(r) == ObjModel::Array(objs_models(items@)),
{
    lopdf::Object::from(items)
}

/// Relies on `From<lopdf::Dictionary> for lopdf::Object`: a dictionary object
/// with exactly the dictionary's entries.
#[verifier::external_body]
pub(crate) fn obj_dict(dict: lopdf::Dictionary) -> (r: lopdf::Object)
    ensures
        obj_model(r) == ObjModel::Dict(dict_model(dict)),
{
    lopdf::Object::from(dict)
}

/// Relies on `lopdf::Stream::new`: it wraps the payload as a stream object and
/// sets the dictionary's `Length` entry to the payload's byte count.
#[verifier::external_body]
pub(crate) fn obj_stream(dict: lopdf::Dictionary, content: Vec<u8>) -> (r: lopdf::Object)
    ensures
        obj_model(r) == ObjModel::Stream(
            dict_model(dict).insert("Length"@, ObjModel::Int(content@.len() as int)),
            content@,
        ),
{
    lopdf::Object::from(lopdf::Stream::new(dict, content))
}

/// Relies on `lopdf::Dictionary::new`: an empty dictionary.
#[verifier::external_body]
pub(crate) fn dict_new() -> (r: lopdf::Dictionary)
    ensures
        dict_model(r) == DictEntries::empty(),
{
    lopdf::Dictionary::new()
}

/// Relies on `lopdf::Dictionary::set`: it inserts the entry, replacing any
/// earlier entry under the same name.
#[verifier::external_body]
pub(crate) fn dict_set(dict: &mut lopdf::Dictionary, key: &str, value: lopdf::Object)
    ensures
        dict_model(*final(dict)) == dict_model(*old(dict)).insert(key@, obj_model(value)),
{
    dict.set(key, value);
}

/// Relies on `lopdf::Document::with_version`: a fresh document with the given
/// version, an empty object table, and an empty trailer (so no root yet).
#[verifier::external_body]
pub(crate) fn doc_with_version(version: &str) -> (r: lopdf::Document)
    ensures
        doc_objects(r) == ObjectTable::empty(),
        doc_root(r) is None,
        doc_version(r) == version@,
        doc_max_id(r) == 0,
{
    lopdf::Document::with_version(version)
}

/// Relies on `BTreeMap::insert` on `lopdf::Document::objects`: it stores the
/// object under the given identifier and touches nothing else.
#[verifier::external_body]
pub(crate) fn doc_insert(doc: &mut lopdf::Document, num: u32, gen: u16, object: lopdf::Object)
    ensures
        doc_objects(*final(doc)) == doc_objects(*old(doc)).insert(
            (num as int, gen as int),
            obj_model(object),
        ),
        doc_root(*final(doc)) == doc_root(*old(doc)),
        doc_version(*final(doc)) == doc_version(*old(doc)),
        doc_max_id(*final(doc)) == doc_max_id(*old(doc)),
{
    doc.objects.insert((num, gen), object);
}

/// Relies on the public `max_id` field of `lopdf::Document`: the writer
/// allocates identifiers for its bookkeeping objects above `max_id`, so it
/// must be at least the highest object number in use; nothing else reads it
/// before saving.
#[verifier::external_body]
pub(crate) fn doc_set_max_id(doc: &mut lopdf::Document, num: u32)
    ensures
        doc_objects(*final(doc)) == doc_objects(*old(doc)),
        doc_root(*final(doc)) == doc_root(*old(doc)),
        doc_version(*final(doc)) == doc_version(*old(doc)),
        doc_max_id(*final(doc)) == num as int,
{
    doc.max_id = num;
}

/// Relies on `lopdf::Dictionary::set` on the document's trailer: setting the
/// `Root` entry to a reference leaves the object table and version alone.
#[verifier::external_body]
pub(crate) fn doc_set_root(doc: &mut lopdf::Document, num: u32, gen: u16)
    ensures
        doc_root(*final(doc)) == Some((num as int, gen as int)),
        doc_objects(*final(doc)) == doc_objects(*old(doc)),
        doc_version(*final(doc)) == doc_version(*old(doc)),
        doc_max_id(*final(doc)) == doc_max_id(*old(doc)),
{
    doc.trailer.set("Root", lopdf::Object::Reference((num, gen)));
}

/// Relies on `lopdf::Document::compress`: it re-encodes stream payloads in
/// place, keeping every object identifier and leaving the trailer and version
/// untouched.
#[verifier::external_body]
pub(crate) fn doc_compress(doc: &mut lopdf::Document)
    ensures
        doc_objects(*final(doc)).dom() == doc_objects(*old(doc)).dom(),
        doc_root(*final(doc)) == doc_root(*old(doc)),
        doc_version(*final(doc)) == doc_version(*old(doc)),
        doc_max_id(*final(doc)) == doc_max_id(*old(doc)),
{
    doc.compress();
}

/// Relies on `lopdf::Document::save`: it writes the document's full binary
/// encoding to the given filesystem path, reporting any encoding or
/// input/output failure as an error. Whether it succeeds depends on the
/// filesystem, so nothing is promised of the outcome. The writer allocates
/// one bookkeeping identifier above the highest-object-number field and
/// computes that identifier's successor, both in checked arithmetic, so the
/// field must leave two numbers of headroom.
#[verifier::external_body]
pub(crate) fn doc_save(doc: &mut lopdf::Document, path: &str) -> (r: Result<(), ()>)
    requires
        doc_max_id(*old(doc)) + 2 <= u32::MAX as int,
    ensures
        doc_root(*final(doc)) == doc_root(*old(doc)),
{
    match doc.save(path) {
        Ok(_) => Ok(()),
        Err(_) => Err(()),
    }
}

/// Relies on `lopdf::content::Content::encode`: for instructions whose
/// operands are all atomic (see `atom_operand`), the encoding is a function
/// of the instruction models alone, and writing it into a growable byte
/// buffer cannot fail, so the result is total.
#[verifier::external_body]
pub(crate) fn encode_content(ops: Vec<(String, Vec<lopdf::Object>)>) -> (r: Vec<u8>)
    requires
        atoms_only(ops_models(ops@)),
    ensures
        r@ == content_encoding(ops_models(ops@)),
{
    let operations: Vec<lopdf::content::Operation> = ops
        .into_iter()
        .map(|p| lopdf::content::Operation { operator: p.0, operands: p.1 })
        .collect();
    let content = lopdf::content::Content { operations };
    content.encode().unwrap_or_default()
}

} // verus!
