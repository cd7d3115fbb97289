use vstd::prelude::*;

verus! {

/// Abstract value of one entry in a document's object table.
///
/// A document is a table of numbered objects; each object is a dictionary or
/// a stream, and dictionary entries hold names, integers, text strings,
/// references to other objects, arrays, or nested dictionaries.
#[verifier::ext_equal]
pub enum ObjModel {
    /// A name, such as the value of a `Type` entry.
    Name(Seq<char>),
    /// An integer.
    Int(int),
    /// A literal text string.
    Text(Seq<char>),
    /// A reference to the object with the given number and generation.
    Ref(int, int),
    /// An array of values.
    Array(Seq<ObjModel>),
    /// A dictionary: a finite map from entry names to values.
    Dict(Map<Seq<char>, ObjModel>),
    /// A stream: its dictionary and its byte payload.
    Stream(Map<Seq<char>, ObjModel>, Seq<u8>),
}

/// The entries of one dictionary: entry names to values.
pub type DictEntries = Map<Seq<char>, ObjModel>;

/// An object table: object identifiers to object values.
pub type ObjectTable = Map<(int, int), ObjModel>;

/// Abstract state of a whole document: its object table, the trailer's root
/// reference, and the identity of the page-tree root.
#[verifier::ext_equal]
pub struct DocModel {
    /// The document format version, e.g. `1.5`.
    pub version: Seq<char>,
    /// The object table: object identifiers to object values.
    pub objects: Map<(int, int), ObjModel>,
    /// The object identifier the trailer's root entry points at (the catalog).
    pub root: (int, int),
    /// The object identifier of the page-tree root.
    pub pages_id: (int, int),
}

/// The map that a sequence of `(key, value)` insertions, in order, builds up:
/// a later entry with the same key replaces the earlier one.
pub open spec fn assoc_map<K, V>(s: Seq<(K, V)>) -> Map<K, V>
    decreases s.len(),
{
    if s.len() == 0 {
        Map::empty()
    } else {
        assoc_map(s.drop_last()).insert(s.last().0, s.last().1)
    }
}

/// Appending one entry to an insertion sequence inserts it into the map.
pub proof fn lemma_assoc_map_push<K, V>(s: Seq<(K, V)>, p: (K, V))
    ensures
        assoc_map(s.push(p)) == assoc_map(s).insert(p.0, p.1),
{
    assert(s.push(p).drop_last() =~= s);
}

/// Taking one more element appends exactly the next element.
pub proof fn lemma_take_succ<A>(s: Seq<A>, i: int)
    requires
        0 <= i < s.len(),
    ensures
        s.take(i + 1) == s.take(i).push(s[i]),
{
    assert(s.take(i + 1) =~= s.take(i).push(s[i]));
}

/// Every reference inside `m` points at an object identifier in `dom`.
pub open spec fn refs_resolve(m: ObjModel, dom: Set<(int, int)>) -> bool
    decreases m,
{
    match m {
        ObjModel::Ref(num, gen) => dom.contains((num, gen)),
        ObjModel::Array(items) => forall|i: int|
            0 <= i < items.len() ==> refs_resolve(#[trigger] items[i], dom),
        ObjModel::Dict(entries) => forall|k: Seq<char>|
            entries.dom().contains(k) ==> refs_resolve(#[trigger] entries[k], dom),
        ObjModel::Stream(entries, _) => forall|k: Seq<char>|
            entries.dom().contains(k) ==> refs_resolve(#[trigger] entries[k], dom),
        _ => true,
    }
}

/// `m` is a catalog object: a dictionary whose `Type` entry is the name
/// `Catalog`.
pub open spec fn is_catalog(m: ObjModel) -> bool {
    match m {
        ObjModel::Dict(entries) => {
            &&& entries.dom().contains("Type"@)
            &&& entries["Type"@] == ObjModel::Name("Catalog"@)
        },
        _ => false,
    }
}

/// Structural validity of a document:
/// the trailer's root resolves to a catalog, that catalog is the only one in
/// the table, the catalog's `Pages` entry references the page-tree root, and
/// every reference used inside any object resolves within the table.
pub open spec fn wf_document(d: DocModel) -> bool {
    &&& d.objects.dom().contains(d.root)
    &&& is_catalog(d.objects[d.root])
    &&& forall|id: (int, int)|
        d.objects.dom().contains(id) && is_catalog(#[trigger] d.objects[id]) ==> id == d.root
    &&& match d.objects[d.root] {
        ObjModel::Dict(entries) => {
            &&& entries.dom().contains("Pages"@)
            &&& entries["Pages"@] == ObjModel::Ref(d.pages_id.0, d.pages_id.1)
        },
        _ => false,
    }
    &&& forall|id: (int, int)| #[trigger]
        d.objects.dom().contains(id) ==> refs_resolve(d.objects[id], d.objects.dom())
}

/// The page-tree shape this system maintains for its whole lifetime: the
/// page-tree root has exactly one child page, a child count of one, the one
/// resource dictionary, and the fixed portrait media box `[0, 0, 595, 842]`;
/// the one page points back at the root as its parent and carries a stream
/// as its contents.
pub open spec fn wf_single_page(d: DocModel) -> bool {
    match d.objects[d.pages_id] {
        ObjModel::Dict(pages) => {
            &&& d.objects.dom().contains(d.pages_id)
            &&& pages.dom().contains("Type"@) && pages["Type"@] == ObjModel::Name("Pages"@)
            &&& pages.dom().contains("Count"@) && pages["Count"@] == ObjModel::Int(1)
            &&& pages.dom().contains("MediaBox"@) && pages["MediaBox"@] == ObjModel::Array(
                seq![ObjModel::Int(0), ObjModel::Int(0), ObjModel::Int(595), ObjModel::Int(842)],
            )
            &&& pages.dom().contains("Resources"@)
            &&& match pages["Resources"@] {
                ObjModel::Ref(num, gen) => {
                    &&& d.objects.dom().contains((num, gen))
                    &&& d.objects[(num, gen)] is Dict
                },
                _ => false,
            }
            &&& pages.dom().contains("Kids"@)
            &&& match pages["Kids"@] {
                ObjModel::Array(kids) => {
                    &&& kids.len() == 1
                    &&& match kids[0] {
                        ObjModel::Ref(num, gen) => {
                            &&& d.objects.dom().contains((num, gen))
                            &&& is_single_content_page(d, (num, gen))
                        },
                        _ => false,
                    }
                },
                _ => false,
            }
        },
        _ => false,
    }
}

/// The object `page` is a page dictionary whose parent is the page-tree root
/// and whose contents reference resolves to a stream object.
pub open spec fn is_single_content_page(d: DocModel, page: (int, int)) -> bool {
    match d.objects[page] {
        ObjModel::Dict(entries) => {
            &&& entries.dom().contains("Type"@) && entries["Type"@] == ObjModel::Name("Page"@)
            &&& entries.dom().contains("Parent"@) && entries["Parent"@] == ObjModel::Ref(
                d.pages_id.0,
                d.pages_id.1,
            )
            &&& entries.dom().contains("Contents"@)
            &&& match entries["Contents"@] {
                ObjModel::Ref(num, gen) => {
                    &&& d.objects.dom().contains((num, gen))
                    &&& d.objects[(num, gen)] is Stream
                },
                _ => false,
            }
        },
        _ => false,
    }
}

} // verus!
