use vstd::prelude::*;

use crate::lopdf_api::{
    atom_operand, atoms_only, content_encoding, doc_insert, doc_max_id, doc_objects, doc_root,
    doc_set_max_id, doc_set_root, doc_version, doc_with_version, encode_content, obj_int,
    obj_name, obj_text, ops_models,
};
use crate::mirror::object_to_lopdf;
use crate::model::{
    assoc_map, is_catalog, lemma_assoc_map_push, lemma_take_succ, refs_resolve, wf_document,
    wf_single_page, DictEntries, DocModel, ObjModel, ObjectTable,
};
use crate::value::{
    atoms_models, lemma_atom_entry_push, lemma_value_entry_push, value_entries_models, Atom,
    PdfObject, PdfValue,
};

verus! {

/// The fixed drawing-instruction sequence of the one page: begin a text
/// block, select font `F1` at size 48, move the cursor to (100, 600) in a
/// bottom-left-origin coordinate space, draw the literal string
/// `Hello World!`, and end the text block.
pub open spec fn hello_ops() -> Seq<(Seq<char>, Seq<ObjModel>)> {
    seq![
        ("BT"@, Seq::<ObjModel>::empty()),
        ("Tf"@, seq![ObjModel::Name("F1"@), ObjModel::Int(48)]),
        ("Td"@, seq![ObjModel::Int(100), ObjModel::Int(600)]),
        ("Tj"@, seq![ObjModel::Text("Hello World!"@)]),
        ("ET"@, Seq::<ObjModel>::empty()),
    ]
}

/// The byte payload of the one content stream: the fixed instruction
/// sequence, encoded.
pub open spec fn hello_content() -> Seq<u8> {
    content_encoding(hello_ops())
}

/// The font object: the built-in `Courier` typeface as a simple text glyph
/// outline font.
pub open spec fn font_model() -> ObjModel {
    ObjModel::Dict(
        DictEntries::empty()
            .insert("Type"@, ObjModel::Name("Font"@))
            .insert("Subtype"@, ObjModel::Name("Type1"@))
            .insert("BaseFont"@, ObjModel::Name("Courier"@)),
    )
}

/// The one resource dictionary: a font sub-dictionary mapping the local
/// resource name `F1` — the name the content stream selects — to the font.
pub open spec fn resources_model() -> ObjModel {
    ObjModel::Dict(
        DictEntries::empty().insert(
            "Font"@,
            ObjModel::Dict(DictEntries::empty().insert("F1"@, ObjModel::Ref(2, 0))),
        ),
    )
}

/// The content-stream object: the encoded instruction bytes, with the derived
/// `Length` entry as its only dictionary entry.
pub open spec fn content_model() -> ObjModel {
    ObjModel::Stream(
        DictEntries::empty().insert("Length"@, ObjModel::Int(hello_content().len() as int)),
        hello_content(),
    )
}

/// The page object: parent is the page-tree root, contents is the stream.
pub open spec fn page_model() -> ObjModel {
    ObjModel::Dict(
        DictEntries::empty()
            .insert("Type"@, ObjModel::Name("Page"@))
            .insert("Parent"@, ObjModel::Ref(1, 0))
            .insert("Contents"@, ObjModel::Ref(4, 0)),
    )
}

/// The page-tree root: one child page, count one, the resource dictionary,
/// and the fixed portrait media box `[0, 0, 595, 842]`.
pub open spec fn pages_model() -> ObjModel {
    ObjModel::Dict(
        DictEntries::empty()
            .insert("Type"@, ObjModel::Name("Pages"@))
            .insert("Kids"@, ObjModel::Array(seq![ObjModel::Ref(5, 0)]))
            .insert("Count"@, ObjModel::Int(1))
            .insert("Resources"@, ObjModel::Ref(3, 0))
            .insert(
                "MediaBox"@,
                ObjModel::Array(
                    seq![ObjModel::Int(0), ObjModel::Int(0), ObjModel::Int(595), ObjModel::Int(842)],
                ),
            ),
    )
}

/// The catalog: the document root, referencing the page-tree root.
pub open spec fn catalog_model() -> ObjModel {
    ObjModel::Dict(
        DictEntries::empty()
            .insert("Type"@, ObjModel::Name("Catalog"@))
            .insert("Pages"@, ObjModel::Ref(1, 0)),
    )
}

/// The one document this library ever builds: the object table in
/// construction order (the page-tree root's identifier is reserved first, so
/// it carries number 1 but is filled in fifth), the trailer root, and the
/// page-tree root's identity.
pub open spec fn hello_document() -> DocModel {
    DocModel {
        version: "1.5"@,
        objects: ObjectTable::empty()
            .insert((2, 0), font_model())
            .insert((3, 0), resources_model())
            .insert((4, 0), content_model())
            .insert((5, 0), page_model())
            .insert((1, 0), pages_model())
            .insert((6, 0), catalog_model()),
        root: (6, 0),
        pages_id: (1, 0),
    }
}

/// The one document is structurally valid: the trailer's root resolves to
/// the only catalog in the table, every reference inside every object
/// resolves within the table, the page tree holds exactly one page of the
/// fixed 595 by 842 size together with the one resource dictionary, and that
/// page's contents resolve to the stream holding exactly the encoded fixed
/// instruction sequence.
pub proof fn lemma_hello_document_well_formed()
    ensures
        wf_document(hello_document()),
        wf_single_page(hello_document()),
        hello_document().objects[(4, 0)] == ObjModel::Stream(
            DictEntries::empty().insert("Length"@, ObjModel::Int(hello_content().len() as int)),
            content_encoding(hello_ops()),
        ),
{
    reveal_strlit("Type");
    reveal_strlit("Subtype");
    reveal_strlit("BaseFont");
    reveal_strlit("Font");
    reveal_strlit("Type1");
    reveal_strlit("Courier");
    reveal_strlit("F1");
    reveal_strlit("Length");
    reveal_strlit("Page");
    reveal_strlit("Pages");
    reveal_strlit("Catalog");
    reveal_strlit("Parent");
    reveal_strlit("Contents");
    reveal_strlit("Kids");
    reveal_strlit("Count");
    reveal_strlit("Resources");
    reveal_strlit("MediaBox");
    assert("Type"@.len() == 4);
    assert("Subtype"@.len() == 7);
    assert("BaseFont"@.len() == 8);
    assert("Font"@.len() == 4);
    assert("Type1"@.len() == 5);
    assert("Courier"@.len() == 7);
    assert("F1"@.len() == 2);
    assert("Length"@.len() == 6);
    assert("Page"@.len() == 4);
    assert("Pages"@.len() == 5);
    assert("Catalog"@.len() == 7);
    assert("Parent"@.len() == 6);
    assert("Contents"@.len() == 8);
    assert("Kids"@.len() == 4);
    assert("Count"@.len() == 5);
    assert("Resources"@.len() == 9);
    assert("MediaBox"@.len() == 8);
    assert("Type"@[0] == 'T' && "Kids"@[0] == 'K' && "Font"@[0] == 'F' && "Page"@[0] == 'P');
    assert("Type"@ != "Kids"@);
    assert("Type"@ != "Font"@);
    assert("Type"@ != "Page"@);
    let d = hello_document();
    let dom = d.objects.dom();
    assert(d.objects[(2, 0)] == font_model());
    assert(d.objects[(3, 0)] == resources_model());
    assert(d.objects[(4, 0)] == content_model());
    assert(d.objects[(5, 0)] == page_model());
    assert(d.objects[(1, 0)] == pages_model());
    assert(d.objects[(6, 0)] == catalog_model());

    let fe = font_model()->Dict_0;
    assert forall|k: Seq<char>| fe.dom().contains(k) implies refs_resolve(#[trigger] fe[k], dom) by {
        assert(k == "Type"@ || k == "Subtype"@ || k == "BaseFont"@);
        assert(refs_resolve(ObjModel::Name("Font"@), dom));
        assert(refs_resolve(ObjModel::Name("Type1"@), dom));
        assert(refs_resolve(ObjModel::Name("Courier"@), dom));
    }
    assert(refs_resolve(font_model(), dom));

    let inner = ObjModel::Dict(DictEntries::empty().insert("F1"@, ObjModel::Ref(2, 0)));
    let ie = inner->Dict_0;
    assert forall|k: Seq<char>| ie.dom().contains(k) implies refs_resolve(#[trigger] ie[k], dom) by {
        assert(k == "F1"@);
        assert(refs_resolve(ObjModel::Ref(2, 0), dom));
    }
    assert(refs_resolve(inner, dom));
    let re = resources_model()->Dict_0;
    assert forall|k: Seq<char>| re.dom().contains(k) implies refs_resolve(#[trigger] re[k], dom) by {
        assert(k == "Font"@);
        assert(refs_resolve(inner, dom));
    }
    assert(refs_resolve(resources_model(), dom));

    let ce = content_model()->Stream_0;
    assert forall|k: Seq<char>| ce.dom().contains(k) implies refs_resolve(#[trigger] ce[k], dom) by {
        assert(k == "Length"@);
        assert(refs_resolve(ObjModel::Int(hello_content().len() as int), dom));
    }
    assert(refs_resolve(content_model(), dom));

    let pe = page_model()->Dict_0;
    assert forall|k: Seq<char>| pe.dom().contains(k) implies refs_resolve(#[trigger] pe[k], dom) by {
        assert(k == "Type"@ || k == "Parent"@ || k == "Contents"@);
        assert(refs_resolve(ObjModel::Name("Page"@), dom));
        assert(refs_resolve(ObjModel::Ref(1, 0), dom));
        assert(refs_resolve(ObjModel::Ref(4, 0), dom));
    }
    assert(refs_resolve(page_model(), dom));

    let kids = ObjModel::Array(seq![ObjModel::Ref(5, 0)]);
    assert forall|i: int| 0 <= i < kids->Array_0.len() implies refs_resolve(
        #[trigger] kids->Array_0[i],
        dom,
    ) by {
        assert(kids->Array_0[0] == ObjModel::Ref(5, 0));
        assert(refs_resolve(ObjModel::Ref(5, 0), dom));
    }
    assert(refs_resolve(kids, dom));
    let mb = ObjModel::Array(
        seq![ObjModel::Int(0), ObjModel::Int(0), ObjModel::Int(595), ObjModel::Int(842)],
    );
    assert forall|i: int| 0 <= i < mb->Array_0.len() implies refs_resolve(
        #[trigger] mb->Array_0[i],
        dom,
    ) by {
        assert(refs_resolve(mb->Array_0[i], dom));
    }
    assert(refs_resolve(mb, dom));
    let ge = pages_model()->Dict_0;
    assert forall|k: Seq<char>| ge.dom().contains(k) implies refs_resolve(#[trigger] ge[k], dom) by {
        assert(k == "Type"@ || k == "Kids"@ || k == "Count"@ || k == "Resources"@
            || k == "MediaBox"@);
        assert(refs_resolve(ObjModel::Name("Pages"@), dom));
        assert(refs_resolve(kids, dom));
        assert(refs_resolve(ObjModel::Int(1), dom));
        assert(refs_resolve(ObjModel::Ref(3, 0), dom));
        assert(refs_resolve(mb, dom));
    }
    assert(refs_resolve(pages_model(), dom));

    let te = catalog_model()->Dict_0;
    assert forall|k: Seq<char>| te.dom().contains(k) implies refs_resolve(#[trigger] te[k], dom) by {
        assert(k == "Type"@ || k == "Pages"@);
        assert(refs_resolve(ObjModel::Name("Catalog"@), dom));
        assert(refs_resolve(ObjModel::Ref(1, 0), dom));
    }
    assert(refs_resolve(catalog_model(), dom));

    assert forall|id: (int, int)| dom.contains(id) implies refs_resolve(
        #[trigger] d.objects[id],
        dom,
    ) by {
        assert(id == (1int, 0int) || id == (2int, 0int) || id == (3int, 0int) || id == (
        4int,
        0int,
        ) || id == (5int, 0int) || id == (6int, 0int));
    }

    assert(!is_catalog(font_model()));
    assert(!is_catalog(resources_model()));
    assert(!is_catalog(content_model()));
    assert(!is_catalog(page_model()));
    assert(!is_catalog(pages_model()));
    assert forall|id: (int, int)|
        dom.contains(id) && is_catalog(#[trigger] d.objects[id]) implies id == d.root by {
        assert(id == (1int, 0int) || id == (2int, 0int) || id == (3int, 0int) || id == (
        4int,
        0int,
        ) || id == (5int, 0int) || id == (6int, 0int));
    }
}

/// The models of a sequence of object-table entries.
pub open spec fn object_entries_models(
    s: Seq<((u32, u16), PdfObject)>,
) -> Seq<((int, int), ObjModel)> {
    s.map_values(|p: ((u32, u16), PdfObject)| (((p.0.0 as int, p.0.1 as int)), p.1@))
}

/// Appending an object-table entry inserts its model into the object table.
pub proof fn lemma_object_entry_push(s: Seq<((u32, u16), PdfObject)>, p: ((u32, u16), PdfObject))
    ensures
        assoc_map(object_entries_models(s.push(p))) == assoc_map(object_entries_models(s)).insert(
            (p.0.0 as int, p.0.1 as int),
            p.1@,
        ),
{
    assert(object_entries_models(s.push(p)) =~= object_entries_models(s).push(
        (((p.0.0 as int, p.0.1 as int)), p.1@),
    ));
    lemma_assoc_map_push(object_entries_models(s), (((p.0.0 as int, p.0.1 as int)), p.1@));
}

/// The in-memory document: an object table with the identifiers the builder
/// allocated, the trailer's root reference, and the page-tree root's
/// identity.
pub struct PdfDocument {
    version: String,
    objects: Vec<((u32, u16), PdfObject)>,
    root: (u32, u16),
    pages_id: (u32, u16),
}

impl PdfDocument {
    /// Every object number leaves the writer two identifiers of headroom for
    /// its bookkeeping objects.
    #[verifier::type_invariant]
    closed spec fn id_headroom(self) -> bool {
        forall|i: int|
            0 <= i < self.objects@.len() ==> (#[trigger] self.objects@[i]).0.0 as int + 2
                <= u32::MAX as int
    }
}

impl View for PdfDocument {
    type V = DocModel;

    closed spec fn view(&self) -> DocModel {
        DocModel {
            version: self.version@,
            objects: assoc_map(object_entries_models(self.objects@)),
            root: (self.root.0 as int, self.root.1 as int),
            pages_id: (self.pages_id.0 as int, self.pages_id.1 as int),
        }
    }
}

/// Encodes the fixed instruction sequence through the serialization library.
fn hello_content_bytes() -> (r: Vec<u8>)
    ensures
        r@ == hello_content(),
{
    let mut ops: Vec<(String, Vec<lopdf::Object>)> = Vec::new();
    let begin_text: Vec<lopdf::Object> = Vec::new();
    ops.push(("BT".to_owned(), begin_text));
    let mut select_font: Vec<lopdf::Object> = Vec::new();
    select_font.push(obj_name("F1"));
    select_font.push(obj_int(48));
    ops.push(("Tf".to_owned(), select_font));
    let mut move_cursor: Vec<lopdf::Object> = Vec::new();
    move_cursor.push(obj_int(100));
    move_cursor.push(obj_int(600));
    ops.push(("Td".to_owned(), move_cursor));
    let mut show_text: Vec<lopdf::Object> = Vec::new();
    show_text.push(obj_text("Hello World!"));
    ops.push(("Tj".to_owned(), show_text));
    let end_text: Vec<lopdf::Object> = Vec::new();
    ops.push(("ET".to_owned(), end_text));
    proof {
        assert(ops_models(ops@) =~~= hello_ops());
        assert forall|i: int, j: int|
            0 <= i < hello_ops().len() && 0 <= j < hello_ops()[i].1.len() implies atom_operand(
            #[trigger] hello_ops()[i].1[j],
        ) by {
            assert(i == 0 || i == 1 || i == 2 || i == 3 || i == 4);
            if i == 1 {
                assert(j == 0 || j == 1);
                assert(atom_operand(hello_ops()[1].1[0]));
                assert(atom_operand(hello_ops()[1].1[1]));
            } else if i == 2 {
                assert(j == 0 || j == 1);
                assert(atom_operand(hello_ops()[2].1[0]));
                assert(atom_operand(hello_ops()[2].1[1]));
            } else if i == 3 {
                assert(j == 0);
                assert(atom_operand(hello_ops()[3].1[0]));
            }
        }
        assert(atoms_only(hello_ops()));
        assert(atoms_only(ops_models(ops@)));
    }
    encode_content(ops)
}

/// Builds the font object.
fn hello_font() -> (r: PdfObject)
    ensures
        r@ == font_model(),
{
    let mut entries: Vec<(String, PdfValue)> = Vec::new();
    let ghost s0 = entries@;
    entries.push(("Type".to_owned(), PdfValue::Atom(Atom::Name("Font".to_owned()))));
    entries.push(("Subtype".to_owned(), PdfValue::Atom(Atom::Name("Type1".to_owned()))));
    entries.push(("BaseFont".to_owned(), PdfValue::Atom(Atom::Name("Courier".to_owned()))));
    proof {
        assert(value_entries_models(s0) =~= Seq::empty());
        lemma_value_entry_push(s0, entries@[0]);
        lemma_value_entry_push(s0.push(entries@[0]), entries@[1]);
        lemma_value_entry_push(s0.push(entries@[0]).push(entries@[1]), entries@[2]);
    }
    PdfObject::Dict(entries)
}

/// Builds the resource dictionary.
fn hello_resources() -> (r: PdfObject)
    ensures
        r@ == resources_model(),
{
    let mut font_entry: Vec<(String, Atom)> = Vec::new();
    let ghost f0 = font_entry@;
    font_entry.push(("F1".to_owned(), Atom::Ref(2, 0)));
    let mut entries: Vec<(String, PdfValue)> = Vec::new();
    let ghost s0 = entries@;
    entries.push(("Font".to_owned(), PdfValue::Dict(font_entry)));
    proof {
        assert(crate::value::atom_entries_models(f0) =~= Seq::empty());
        lemma_atom_entry_push(f0, font_entry@[0]);
        assert(value_entries_models(s0) =~= Seq::empty());
        lemma_value_entry_push(s0, entries@[0]);
    }
    PdfObject::Dict(entries)
}

/// Builds the page object.
fn hello_page() -> (r: PdfObject)
    ensures
        r@ == page_model(),
{
    let mut entries: Vec<(String, PdfValue)> = Vec::new();
    let ghost s0 = entries@;
    entries.push(("Type".to_owned(), PdfValue::Atom(Atom::Name("Page".to_owned()))));
    entries.push(("Parent".to_owned(), PdfValue::Atom(Atom::Ref(1, 0))));
    entries.push(("Contents".to_owned(), PdfValue::Atom(Atom::Ref(4, 0))));
    proof {
        assert(value_entries_models(s0) =~= Seq::empty());
        lemma_value_entry_push(s0, entries@[0]);
        lemma_value_entry_push(s0.push(entries@[0]), entries@[1]);
        lemma_value_entry_push(s0.push(entries@[0]).push(entries@[1]), entries@[2]);
    }
    PdfObject::Dict(entries)
}

/// Builds the page-tree root object.
fn hello_pages() -> (r: PdfObject)
    ensures
        r@ == pages_model(),
{
    let mut kids: Vec<Atom> = Vec::new();
    kids.push(Atom::Ref(5, 0));
    let mut media_box: Vec<Atom> = Vec::new();
    media_box.push(Atom::Int(0));
    media_box.push(Atom::Int(0));
    media_box.push(Atom::Int(595));
    media_box.push(Atom::Int(842));
    proof {
        assert(atoms_models(kids@) =~= seq![ObjModel::Ref(5, 0)]);
        assert(atoms_models(media_box@) =~= seq![
            ObjModel::Int(0),
            ObjModel::Int(0),
            ObjModel::Int(595),
            ObjModel::Int(842),
        ]);
    }
    let mut entries: Vec<(String, PdfValue)> = Vec::new();
    let ghost s0 = entries@;
    entries.push(("Type".to_owned(), PdfValue::Atom(Atom::Name("Pages".to_owned()))));
    entries.push(("Kids".to_owned(), PdfValue::Array(kids)));
    entries.push(("Count".to_owned(), PdfValue::Atom(Atom::Int(1))));
    entries.push(("Resources".to_owned(), PdfValue::Atom(Atom::Ref(3, 0))));
    entries.push(("MediaBox".to_owned(), PdfValue::Array(media_box)));
    proof {
        assert(value_entries_models(s0) =~= Seq::empty());
        lemma_value_entry_push(s0, entries@[0]);
        lemma_value_entry_push(s0.push(entries@[0]), entries@[1]);
        lemma_value_entry_push(s0.push(entries@[0]).push(entries@[1]), entries@[2]);
        lemma_value_entry_push(
            s0.push(entries@[0]).push(entries@[1]).push(entries@[2]),
            entries@[3],
        );
        lemma_value_entry_push(
            s0.push(entries@[0]).push(entries@[1]).push(entries@[2]).push(entries@[3]),
            entries@[4],
        );
    }
    PdfObject::Dict(entries)
}

/// Builds the catalog object.
fn hello_catalog() -> (r: PdfObject)
    ensures
        r@ == catalog_model(),
{
    let mut entries: Vec<(String, PdfValue)> = Vec::new();
    let ghost s0 = entries@;
    entries.push(("Type".to_owned(), PdfValue::Atom(Atom::Name("Catalog".to_owned()))));
    entries.push(("Pages".to_owned(), PdfValue::Atom(Atom::Ref(1, 0))));
    proof {
        assert(value_entries_models(s0) =~= Seq::empty());
        lemma_value_entry_push(s0, entries@[0]);
        lemma_value_entry_push(s0.push(entries@[0]), entries@[1]);
    }
    PdfObject::Dict(entries)
}

impl PdfDocument {
    /// Builds the one document: a deterministic construction with no inputs
    /// and no failure path.
    pub fn new() -> (r: PdfDocument)
        ensures
            r@ == hello_document(),
    {
        // The page-tree root's identifier is reserved before its contents are
        // known: the page object needs it as a forward reference.
        let content_bytes = hello_content_bytes();
        let mut objects: Vec<((u32, u16), PdfObject)> = Vec::new();
        let ghost s0 = objects@;
        objects.push(((2, 0), hello_font()));
        objects.push(((3, 0), hello_resources()));
        objects.push(((4, 0), PdfObject::Stream(content_bytes)));
        objects.push(((5, 0), hello_page()));
        objects.push(((1, 0), hello_pages()));
        objects.push(((6, 0), hello_catalog()));
        proof {
            assert(object_entries_models(s0) =~= Seq::empty());
            lemma_object_entry_push(s0, objects@[0]);
            lemma_object_entry_push(s0.push(objects@[0]), objects@[1]);
            lemma_object_entry_push(s0.push(objects@[0]).push(objects@[1]), objects@[2]);
            lemma_object_entry_push(
                s0.push(objects@[0]).push(objects@[1]).push(objects@[2]),
                objects@[3],
            );
            lemma_object_entry_push(
                s0.push(objects@[0]).push(objects@[1]).push(objects@[2]).push(objects@[3]),
                objects@[4],
            );
            lemma_object_entry_push(
                s0.push(objects@[0]).push(objects@[1]).push(objects@[2]).push(objects@[3]).push(
                    objects@[4],
                ),
                objects@[5],
            );
        }
        proof {
            assert forall|i: int| 0 <= i < objects@.len() implies (#[trigger] objects@[i]).0.0
                as int + 2 <= u32::MAX as int by {
                assert(i == 0 || i == 1 || i == 2 || i == 3 || i == 4 || i == 5);
            }
        }
        PdfDocument { version: "1.5".to_owned(), objects, root: (6, 0), pages_id: (1, 0) }
    }
}

/// Mirrors the in-memory document into the serialization library's document
/// type, object by object, and sets the trailer's root reference.
pub(crate) fn build_document(doc: &PdfDocument) -> (d: lopdf::Document)
    ensures
        doc_objects(d) == doc@.objects,
        doc_root(d) == Some(doc@.root),
        doc_version(d) == doc@.version,
        doc_max_id(d) + 2 <= u32::MAX as int,
{
    let mut d = doc_with_version(doc.version.as_str());
    proof {
        use_type_invariant(&*doc);
        assert(object_entries_models(doc.objects@.take(0)) =~= Seq::empty());
    }
    let mut highest: u32 = 0;
    let mut i: usize = 0;
    while i < doc.objects.len()
        invariant
            i <= doc.objects.len(),
            doc_objects(d) == assoc_map(object_entries_models(doc.objects@.take(i as int))),
            doc_version(d) == doc.version@,
            highest as int + 2 <= u32::MAX as int,
            doc.id_headroom(),
        decreases doc.objects.len() - i,
    {
        let obj = object_to_lopdf(&doc.objects[i].1);
        proof {
            lemma_take_succ(doc.objects@, i as int);
            lemma_object_entry_push(doc.objects@.take(i as int), doc.objects@[i as int]);
        }
        if doc.objects[i].0 .0 > highest {
            highest = doc.objects[i].0 .0;
        }
        doc_insert(&mut d, doc.objects[i].0 .0, doc.objects[i].0 .1, obj);
        i += 1;
    }
    proof {
        assert(doc.objects@.take(doc.objects@.len() as int) =~= doc.objects@);
    }
    // The writer places its bookkeeping objects above the highest number.
    doc_set_max_id(&mut d, highest);
    doc_set_root(&mut d, doc.root.0, doc.root.1);
    d
}

} // verus!
