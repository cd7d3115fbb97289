use vstd::prelude::*;

use crate::lopdf_api::{
    dict_model, dict_new, dict_set, obj_array, obj_dict, obj_int, obj_model, obj_name, obj_ref,
    obj_stream, obj_text, objs_models,
};
use crate::model::{assoc_map, lemma_assoc_map_push, lemma_take_succ};
use crate::value::{atom_entries_models, atoms_models, value_entries_models, Atom, PdfObject,
    PdfValue};

verus! {

/// Converts one atom into the serialization library's object type.
pub(crate) fn atom_to_object(a: &Atom) -> (r: lopdf::Object)
    ensures
        obj_model(r) == a@,
{
    match a {
        Atom::Name(s) => obj_name(s.as_str()),
        Atom::Int(i) => obj_int(*i),
        Atom::Text(s) => obj_text(s.as_str()),
        Atom::Ref(num, gen) => obj_ref(*num, *gen),
    }
}

/// Converts a sequence of atoms, keeping order.
pub(crate) fn atoms_to_objects(items: &Vec<Atom>) -> (r: Vec<lopdf::Object>)
    ensures
        objs_models(r@) == atoms_models(items@),
{
    let mut out: Vec<lopdf::Object> = Vec::new();
    proof {
        assert(objs_models(out@) =~= atoms_models(items@.take(0)));
    }
    let mut i: usize = 0;
    while i < items.len()
        invariant
            i <= items.len(),
            objs_models(out@) == atoms_models(items@.take(i as int)),
        decreases items.len() - i,
    {
        let o = atom_to_object(&items[i]);
        proof {
            lemma_take_succ(items@, i as int);
            assert(objs_models(out@.push(o)) =~= objs_models(out@).push(obj_model(o)));
            assert(atoms_models(items@.take(i as int).push(items@[i as int])) =~= atoms_models(
                items@.take(i as int),
            ).push(items@[i as int]@));
        }
        out.push(o);
        i += 1;
    }
    proof {
        assert(items@.take(items@.len() as int) =~= items@);
    }
    out
}

/// Builds a dictionary out of entries whose values are atomic.
pub(crate) fn atom_dict(entries: &Vec<(String, Atom)>) -> (r: lopdf::Dictionary)
    ensures
        dict_model(r) == assoc_map(atom_entries_models(entries@)),
{
    let mut d = dict_new();
    proof {
        assert(atom_entries_models(entries@.take(0)) =~= Seq::empty());
    }
    let mut i: usize = 0;
    while i < entries.len()
        invariant
            i <= entries.len(),
            dict_model(d) == assoc_map(atom_entries_models(entries@.take(i as int))),
        decreases entries.len() - i,
    {
        let value = atom_to_object(&entries[i].1);
        proof {
            lemma_take_succ(entries@, i as int);
            assert(atom_entries_models(entries@.take(i as int).push(entries@[i as int]))
                =~= atom_entries_models(entries@.take(i as int)).push(
                (entries@[i as int].0@, entries@[i as int].1@),
            ));
            lemma_assoc_map_push(
                atom_entries_models(entries@.take(i as int)),
                (entries@[i as int].0@, entries@[i as int].1@),
            );
        }
        dict_set(&mut d, entries[i].0.as_str(), value);
        i += 1;
    }
    proof {
        assert(entries@.take(entries@.len() as int) =~= entries@);
    }
    d
}

/// Builds a dictionary out of entries whose values may nest once.
pub(crate) fn value_dict(entries: &Vec<(String, PdfValue)>) -> (r: lopdf::Dictionary)
    ensures
        dict_model(r) == assoc_map(value_entries_models(entries@)),
{
    let mut d = dict_new();
    proof {
        assert(value_entries_models(entries@.take(0)) =~= Seq::empty());
    }
    let mut i: usize = 0;
    while i < entries.len()
        invariant
            i <= entries.len(),
            dict_model(d) == assoc_map(value_entries_models(entries@.take(i as int))),
        decreases entries.len() - i,
    {
        let value = value_to_object(&entries[i].1);
        proof {
            lemma_take_succ(entries@, i as int);
            assert(value_entries_models(entries@.take(i as int).push(entries@[i as int]))
                =~= value_entries_models(entries@.take(i as int)).push(
                (entries@[i as int].0@, entries@[i as int].1@),
            ));
            lemma_assoc_map_push(
                value_entries_models(entries@.take(i as int)),
                (entries@[i as int].0@, entries@[i as int].1@),
            );
        }
        dict_set(&mut d, entries[i].0.as_str(), value);
        i += 1;
    }
    proof {
        assert(entries@.take(entries@.len() as int) =~= entries@);
    }
    d
}

/// Converts one dictionary-entry value.
pub(crate) fn value_to_object(v: &PdfValue) -> (r: lopdf::Object)
    ensures
        obj_model(r) == v@,
{
    match v {
        PdfValue::Atom(a) => atom_to_object(a),
        PdfValue::Array(items) => obj_array(atoms_to_objects(items)),
        PdfValue::Dict(entries) => obj_dict(atom_dict(entries)),
    }
}

/// Converts one object of the object table.
pub(crate) fn object_to_lopdf(o: &PdfObject) -> (r: lopdf::Object)
    ensures
        obj_model(r) == o@,
{
    match o {
        PdfObject::Dict(entries) => obj_dict(value_dict(entries)),
        PdfObject::Stream(bytes) => obj_stream(dict_new(), bytes.clone()),
    }
}

} // verus!
