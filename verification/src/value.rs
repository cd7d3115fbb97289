use vstd::prelude::*;

use crate::model::{assoc_map, lemma_assoc_map_push, ObjModel};

verus! {

/// An atomic value that can stand in a dictionary entry, an array, or a
/// drawing-instruction operand.
pub enum Atom {
    /// A name, such as the value of a `Type` entry or a resource label.
    Name(String),
    /// An integer.
    Int(i64),
    /// A literal text string.
    Text(String),
    /// A reference to the object with the given number and generation.
    Ref(u32, u16),
}

impl View for Atom {
    type V = ObjModel;

    open spec fn view(&self) -> ObjModel {
        match self {
            Atom::Name(s) => ObjModel::Name(s@),
            Atom::Int(i) => ObjModel::Int(*i as int),
            Atom::Text(s) => ObjModel::Text(s@),
            Atom::Ref(num, gen) => ObjModel::Ref(*num as int, *gen as int),
        }
    }
}

/// A value of a dictionary entry: an atom, an array of atoms, or a nested
/// dictionary of atoms. This nesting depth covers every dictionary this
/// library builds.
pub enum PdfValue {
    /// A single atomic value.
    Atom(Atom),
    /// An array of atomic values.
    Array(Vec<Atom>),
    /// A nested dictionary whose values are atomic.
    Dict(Vec<(String, Atom)>),
}

impl View for PdfValue {
    type V = ObjModel;

    open spec fn view(&self) -> ObjModel {
        match self {
            PdfValue::Atom(a) => a@,
            PdfValue::Array(items) => ObjModel::Array(atoms_models(items@)),
            PdfValue::Dict(entries) => ObjModel::Dict(assoc_map(atom_entries_models(entries@))),
        }
    }
}

/// The models of a sequence of atoms, in order.
pub open spec fn atoms_models(s: Seq<Atom>) -> Seq<ObjModel> {
    s.map_values(|a: Atom| a@)
}

/// The models of a sequence of dictionary entries with atomic values.
pub open spec fn atom_entries_models(s: Seq<(String, Atom)>) -> Seq<(Seq<char>, ObjModel)> {
    s.map_values(|p: (String, Atom)| (p.0@, p.1@))
}

/// The models of a sequence of dictionary entries.
pub open spec fn value_entries_models(s: Seq<(String, PdfValue)>) -> Seq<(Seq<char>, ObjModel)> {
    s.map_values(|p: (String, PdfValue)| (p.0@, p.1@))
}

/// Appending an atomic-valued entry inserts its model into the entry map.
pub proof fn lemma_atom_entry_push(s: Seq<(String, Atom)>, p: (String, Atom))
    ensures
        assoc_map(atom_entries_models(s.push(p))) == assoc_map(atom_entries_models(s)).insert(
            p.0@,
            p.1@,
        ),
{
    assert(atom_entries_models(s.push(p)) =~= atom_entries_models(s).push((p.0@, p.1@)));
    lemma_assoc_map_push(atom_entries_models(s), (p.0@, p.1@));
}

/// Appending an entry inserts its model into the entry map.
pub proof fn lemma_value_entry_push(s: Seq<(String, PdfValue)>, p: (String, PdfValue))
    ensures
        assoc_map(value_entries_models(s.push(p))) == assoc_map(value_entries_models(s)).insert(
            p.0@,
            p.1@,
        ),
{
    assert(value_entries_models(s.push(p)) =~= value_entries_models(s).push((p.0@, p.1@)));
    lemma_assoc_map_push(value_entries_models(s), (p.0@, p.1@));
}

/// One object of the document's object table: a dictionary or a stream.
///
/// A stream is held as its byte payload alone; the serialization library
/// derives the stream dictionary's `Length` entry from it, so the view of a
/// stream carries that one derived entry.
pub enum PdfObject {
    /// A dictionary object.
    Dict(Vec<(String, PdfValue)>),
    /// A stream object holding the given byte payload.
    Stream(Vec<u8>),
}

impl View for PdfObject {
    type V = ObjModel;

    open spec fn view(&self) -> ObjModel {
        match self {
            PdfObject::Dict(entries) => ObjModel::Dict(assoc_map(value_entries_models(entries@))),
            PdfObject::Stream(bytes) => ObjModel::Stream(
                Map::empty().insert("Length"@, ObjModel::Int(bytes@.len() as int)),
                bytes@,
            ),
        }
    }
}

} // verus!
