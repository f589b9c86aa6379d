//! The structured property document of a resource record, and the closed
//! set of extraction strategies that normalize foreign-key-like references
//! inside it to plain identifier strings.
//!
//! Extraction walks a property path through nested objects (first field
//! with the matching key) and arrays (every element, flattened in order).
//! A missing path yields an empty result, never an error.  Each value the
//! path reaches is normalized by the relationship's strategy; a value of an
//! unrecognized shape degrades to a diagnostic for that one value and never
//! aborts the rest of the extraction.

use vstd::prelude::*;

verus! {

/// A structured property document: nested objects, arrays and scalars.
pub enum PropValue {
    Null,
    Bool(bool),
    Int(i64),
    Str(String),
    Arr(Vec<PropValue>),
    Obj(Vec<(String, PropValue)>),
}

/// How a value reached by the property path is normalized to identifiers.
pub enum ExtractionStrategy {
    /// The value itself is a plain string identifier.
    PlainScalar,
    /// The value is an array of plain string identifiers.
    ScalarArray,
    /// The value is a structured reference object; the named field holds
    /// the identifier.
    RefObject(String),
}

/// A non-fatal observation recorded while resolving one relationship.
#[derive(Copy, Clone, PartialEq, Eq, Structural, Debug)]
pub enum Diagnostic {
    /// An extraction strategy could not parse one reference value.
    UnsupportedRelationshipShape,
    /// A `one` relationship yielded two or more distinct identifiers.
    CardinalityConflict,
    /// A resolved node's type fell outside the relationship's constraint.
    TypeConstraintViolation,
}

/// The views of a sequence of identifier strings.
pub open spec fn views_of(s: Seq<String>) -> Seq<Seq<char>> {
    s.map_values(|x: String| x@)
}

pub proof fn lemma_views_of_push(s: Seq<String>, x: String)
    ensures
        views_of(s.push(x)) =~= views_of(s).push(x@),
{
    assert forall|i: int| 0 <= i < s.len() + 1 implies views_of(s.push(x))[i] == views_of(
        s,
    ).push(x@)[i] by {
        if i < s.len() {
            assert(s.push(x)[i] == s[i]);
        }
    }
}

/// Identifiers and diagnostics extracted from `v` at the path suffix
/// starting with segment `i`, normalized by `strat` at the path's end.
pub open spec fn spec_extract(
    v: PropValue,
    path: Seq<Seq<char>>,
    i: int,
    strat: ExtractionStrategy,
) -> (Seq<Seq<char>>, Seq<Diagnostic>)
    decreases v, 1int, 0int,
{
    if i >= path.len() {
        match strat {
            ExtractionStrategy::PlainScalar => match v {
                PropValue::Str(s) => (seq![s@], Seq::<Diagnostic>::empty()),
                _ => (
                    Seq::<Seq<char>>::empty(),
                    seq![Diagnostic::UnsupportedRelationshipShape],
                ),
            },
            ExtractionStrategy::ScalarArray => match v {
                PropValue::Arr(items) => spec_scalar_items(items@, 0),
                _ => (
                    Seq::<Seq<char>>::empty(),
                    seq![Diagnostic::UnsupportedRelationshipShape],
                ),
            },
            ExtractionStrategy::RefObject(f) => match v {
                PropValue::Obj(fields) => spec_ref_scan(fields@, f@, 0),
                _ => (
                    Seq::<Seq<char>>::empty(),
                    seq![Diagnostic::UnsupportedRelationshipShape],
                ),
            },
        }
    } else {
        match v {
            PropValue::Arr(items) => spec_extract_arr(items@, path, i, strat, 0),
            PropValue::Obj(fields) => spec_extract_obj(fields@, path, i, strat, 0),
            _ => (Seq::<Seq<char>>::empty(), Seq::<Diagnostic>::empty()),
        }
    }
}

/// Flattening of the path suffix over every array element from `k` on.
pub open spec fn spec_extract_arr(
    items: Seq<PropValue>,
    path: Seq<Seq<char>>,
    i: int,
    strat: ExtractionStrategy,
    k: int,
) -> (Seq<Seq<char>>, Seq<Diagnostic>)
    decreases items, 0int, items.len() - k,
{
    if k < 0 || k >= items.len() {
        (Seq::<Seq<char>>::empty(), Seq::<Diagnostic>::empty())
    } else {
        let h = spec_extract(items[k], path, i, strat);
        let t = spec_extract_arr(items, path, i, strat, k + 1);
        (h.0 + t.0, h.1 + t.1)
    }
}

/// Descent into the first object field (from `k` on) whose key matches the
/// current path segment; an absent key is a missing path.
pub open spec fn spec_extract_obj(
    fields: Seq<(String, PropValue)>,
    path: Seq<Seq<char>>,
    i: int,
    strat: ExtractionStrategy,
    k: int,
) -> (Seq<Seq<char>>, Seq<Diagnostic>)
    decreases fields, 0int, fields.len() - k,
{
    if k < 0 || k >= fields.len() {
        (Seq::<Seq<char>>::empty(), Seq::<Diagnostic>::empty())
    } else if fields[k].0@ == path[i] {
        spec_extract(fields[k].1, path, i + 1, strat)
    } else {
        spec_extract_obj(fields, path, i, strat, k + 1)
    }
}

/// Normalization of an array of scalars from index `k` on: each string
/// element is an identifier, anything else one diagnostic.
pub open spec fn spec_scalar_items(items: Seq<PropValue>, k: int) -> (Seq<Seq<char>>, Seq<
    Diagnostic,
>)
    decreases items, 0int, items.len() - k,
{
    if k < 0 || k >= items.len() {
        (Seq::<Seq<char>>::empty(), Seq::<Diagnostic>::empty())
    } else {
        let t = spec_scalar_items(items, k + 1);
        match items[k] {
            PropValue::Str(s) => (seq![s@] + t.0, t.1),
            _ => (t.0, seq![Diagnostic::UnsupportedRelationshipShape] + t.1),
        }
    }
}

/// Normalization of a reference object: the first field (from `k` on)
/// whose key is `key` must hold a string identifier; a missing key or a
/// non-string value is one diagnostic.
pub open spec fn spec_ref_scan(fields: Seq<(String, PropValue)>, key: Seq<char>, k: int) -> (Seq<
    Seq<char>,
>, Seq<Diagnostic>)
    decreases fields, 0int, fields.len() - k,
{
    if k < 0 || k >= fields.len() {
        (Seq::<Seq<char>>::empty(), seq![Diagnostic::UnsupportedRelationshipShape])
    } else if fields[k].0@ == key {
        match fields[k].1 {
            PropValue::Str(s) => (seq![s@], Seq::<Diagnostic>::empty()),
            _ => (Seq::<Seq<char>>::empty(), seq![Diagnostic::UnsupportedRelationshipShape]),
        }
    } else {
        spec_ref_scan(fields, key, k + 1)
    }
}

/// Extract every identifier reference from `v` at `path`, normalized by
/// `strat`, in document order, together with one diagnostic for each value
/// of an unrecognized shape.
pub fn extract_refs(v: &PropValue, path: &Vec<String>, strat: &ExtractionStrategy) -> (r: (
    Vec<String>,
    Vec<Diagnostic>,
))
    ensures
        views_of(r.0@) == spec_extract(*v, views_of(path@), 0, *strat).0,
        r.1@ == spec_extract(*v, views_of(path@), 0, *strat).1,
{
    let mut ids: Vec<String> = Vec::new();
    let mut diags: Vec<Diagnostic> = Vec::new();
    extract_at(v, path, 0, strat, &mut ids, &mut diags);
    proof {
        assert(views_of(Seq::<String>::empty()) =~= Seq::<Seq<char>>::empty());
        assert(views_of(Seq::<String>::empty()) + spec_extract(*v, views_of(path@), 0, *strat).0
            =~= spec_extract(*v, views_of(path@), 0, *strat).0);
        assert(Seq::<Diagnostic>::empty() + spec_extract(*v, views_of(path@), 0, *strat).1
            =~= spec_extract(*v, views_of(path@), 0, *strat).1);
    }
    (ids, diags)
}

fn extract_at(
    v: &PropValue,
    path: &Vec<String>,
    i: usize,
    strat: &ExtractionStrategy,
    ids: &mut Vec<String>,
    diags: &mut Vec<Diagnostic>,
)
    requires
        i <= path@.len(),
    ensures
        views_of(final(ids)@) == views_of(old(ids)@) + spec_extract(
            *v,
            views_of(path@),
            i as int,
            *strat,
        ).0,
        final(diags)@ == old(diags)@ + spec_extract(*v, views_of(path@), i as int, *strat).1,
    decreases *v, 1int, 0int,
{
    let ghost result = spec_extract(*v, views_of(path@), i as int, *strat);
    if i == path.len() {
        match strat {
            ExtractionStrategy::PlainScalar => {
                match v {
                    PropValue::Str(s) => {
                        let ghost before = ids@;
                        ids.push(s.clone());
                        proof {
                            lemma_views_of_push(before, *s);
                            assert(views_of(ids@) =~= views_of(old(ids)@) + result.0);
                            assert(diags@ =~= old(diags)@ + result.1);
                        }
                    },
                    _ => {
                        diags.push(Diagnostic::UnsupportedRelationshipShape);
                        proof {
                            assert(views_of(ids@) =~= views_of(old(ids)@) + result.0);
                            assert(diags@ =~= old(diags)@ + result.1);
                        }
                    },
                }
            },
            ExtractionStrategy::ScalarArray => {
                match v {
                    PropValue::Arr(items) => {
                        scalar_items(items, 0, ids, diags);
                    },
                    _ => {
                        diags.push(Diagnostic::UnsupportedRelationshipShape);
                        proof {
                            assert(views_of(ids@) =~= views_of(old(ids)@) + result.0);
                            assert(diags@ =~= old(diags)@ + result.1);
                        }
                    },
                }
            },
            ExtractionStrategy::RefObject(f) => {
                match v {
                    PropValue::Obj(fields) => {
                        ref_scan(fields, f, 0, ids, diags);
                    },
                    _ => {
                        diags.push(Diagnostic::UnsupportedRelationshipShape);
                        proof {
                            assert(views_of(ids@) =~= views_of(old(ids)@) + result.0);
                            assert(diags@ =~= old(diags)@ + result.1);
                        }
                    },
                }
            },
        }
    } else {
        match v {
            PropValue::Arr(items) => {
                extract_arr(items, path, i, strat, 0, ids, diags);
            },
            PropValue::Obj(fields) => {
                extract_obj(fields, path, i, strat, 0, ids, diags);
            },
            _ => {
                proof {
                    assert(views_of(ids@) =~= views_of(old(ids)@) + result.0);
                    assert(diags@ =~= old(diags)@ + result.1);
                }
            },
        }
    }
}

fn extract_arr(
    items: &Vec<PropValue>,
    path: &Vec<String>,
    i: usize,
    strat: &ExtractionStrategy,
    k: usize,
    ids: &mut Vec<String>,
    diags: &mut Vec<Diagnostic>,
)
    requires
        i < path@.len(),
        k <= items@.len(),
    ensures
        views_of(final(ids)@) == views_of(old(ids)@) + spec_extract_arr(
            items@,
            views_of(path@),
            i as int,
            *strat,
            k as int,
        ).0,
        final(diags)@ == old(diags)@ + spec_extract_arr(
            items@,
            views_of(path@),
            i as int,
            *strat,
            k as int,
        ).1,
    decreases items@, 0int, items@.len() - k,
{
    let ghost result = spec_extract_arr(items@, views_of(path@), i as int, *strat, k as int);
    if k == items.len() {
        proof {
            assert(views_of(ids@) =~= views_of(old(ids)@) + result.0);
            assert(diags@ =~= old(diags)@ + result.1);
        }
    } else {
        extract_at(&items[k], path, i, strat, ids, diags);
        extract_arr(items, path, i, strat, k + 1, ids, diags);
        proof {
            assert(views_of(ids@) =~= views_of(old(ids)@) + result.0);
            assert(diags@ =~= old(diags)@ + result.1);
        }
    }
}

fn extract_obj(
    fields: &Vec<(String, PropValue)>,
    path: &Vec<String>,
    i: usize,
    strat: &ExtractionStrategy,
    k: usize,
    ids: &mut Vec<String>,
    diags: &mut Vec<Diagnostic>,
)
    requires
        i < path@.len(),
        k <= fields@.len(),
    ensures
        views_of(final(ids)@) == views_of(old(ids)@) + spec_extract_obj(
            fields@,
            views_of(path@),
            i as int,
            *strat,
            k as int,
        ).0,
        final(diags)@ == old(diags)@ + spec_extract_obj(
            fields@,
            views_of(path@),
            i as int,
            *strat,
            k as int,
        ).1,
    decreases fields@, 0int, fields@.len() - k,
{
    let ghost result = spec_extract_obj(fields@, views_of(path@), i as int, *strat, k as int);
    if k == fields.len() {
        proof {
            assert(views_of(ids@) =~= views_of(old(ids)@) + result.0);
            assert(diags@ =~= old(diags)@ + result.1);
        }
    } else {
        proof {
            assert(views_of(path@)[i as int] == path@[i as int]@);
        }
        let plen = path.len();
        if crate::text::str_eq(fields[k].0.as_str(), path[i].as_str()) {
            extract_at(&fields[k].1, path, i + 1, strat, ids, diags);
        } else {
            extract_obj(fields, path, i, strat, k + 1, ids, diags);
        }
    }
}

fn scalar_items(
    items: &Vec<PropValue>,
    k: usize,
    ids: &mut Vec<String>,
    diags: &mut Vec<Diagnostic>,
)
    requires
        k <= items@.len(),
    ensures
        views_of(final(ids)@) == views_of(old(ids)@) + spec_scalar_items(items@, k as int).0,
        final(diags)@ == old(diags)@ + spec_scalar_items(items@, k as int).1,
    decreases items@, 0int, items@.len() - k,
{
    let ghost result = spec_scalar_items(items@, k as int);
    if k == items.len() {
        proof {
            assert(views_of(ids@) =~= views_of(old(ids)@) + result.0);
            assert(diags@ =~= old(diags)@ + result.1);
        }
    } else {
        match &items[k] {
            PropValue::Str(s) => {
                let ghost before = ids@;
                ids.push(s.clone());
                proof {
                    lemma_views_of_push(before, *s);
                }
            },
            _ => {
                diags.push(Diagnostic::UnsupportedRelationshipShape);
            },
        }
        scalar_items(items, k + 1, ids, diags);
        proof {
            assert(views_of(ids@) =~= views_of(old(ids)@) + result.0);
            assert(diags@ =~= old(diags)@ + result.1);
        }
    }
}

fn ref_scan(
    fields: &Vec<(String, PropValue)>,
    key: &String,
    k: usize,
    ids: &mut Vec<String>,
    diags: &mut Vec<Diagnostic>,
)
    requires
        k <= fields@.len(),
    ensures
        views_of(final(ids)@) == views_of(old(ids)@) + spec_ref_scan(fields@, key@, k as int).0,
        final(diags)@ == old(diags)@ + spec_ref_scan(fields@, key@, k as int).1,
    decreases fields@, 0int, fields@.len() - k,
{
    let ghost result = spec_ref_scan(fields@, key@, k as int);
    if k == fields.len() {
        diags.push(Diagnostic::UnsupportedRelationshipShape);
        proof {
            assert(views_of(ids@) =~= views_of(old(ids)@) + result.0);
            assert(diags@ =~= old(diags)@ + result.1);
        }
    } else if crate::text::str_eq(fields[k].0.as_str(), key.as_str()) {
        match &fields[k].1 {
            PropValue::Str(s) => {
                let ghost before = ids@;
                ids.push(s.clone());
                proof {
                    lemma_views_of_push(before, *s);
                    assert(views_of(ids@) =~= views_of(old(ids)@) + result.0);
                    assert(diags@ =~= old(diags)@ + result.1);
                }
            },
            _ => {
                diags.push(Diagnostic::UnsupportedRelationshipShape);
                proof {
                    assert(views_of(ids@) =~= views_of(old(ids)@) + result.0);
                    assert(diags@ =~= old(diags)@ + result.1);
                }
            },
        }
    } else {
        ref_scan(fields, key, k + 1, ids, diags);
    }
}

} // verus!
