//! The wire structure: a model of the JSON documents this endpoint family
//! exchanges.
//!
//! The documents of this schema are shallow: a top-level object whose field
//! values are scalars, arrays of strings, arrays of flat objects, or one flat
//! object, where a flat object holds only scalars and arrays of strings.
//! The types here mirror exactly that shape, so every payload the schema can
//! exchange — and every wrong-shaped variation within those forms — is
//! representable and can be reasoned about.

use vstd::prelude::*;

verus! {

/// A field value inside a flat object (an institution, or the options map).
#[derive(Debug, Clone, PartialEq, Eq)]
pub enum WireField {
    Null,
    Bool(bool),
    Str(String),
    StrArr(Vec<String>),
}

/// A flat object: an ordered list of named fields.
#[derive(Debug, Clone, PartialEq, Eq)]
pub struct WireObject {
    pub entries: Vec<(String, WireField)>,
}

/// An element of a top-level array.
#[derive(Debug, Clone, PartialEq, Eq)]
pub enum WireElem {
    Str(String),
    Obj(WireObject),
}

/// A field value of a top-level document.
#[derive(Debug, Clone, PartialEq, Eq)]
pub enum WireValue {
    Null,
    Bool(bool),
    Str(String),
    Arr(Vec<WireElem>),
    Obj(WireObject),
}

/// A top-level document: an ordered list of named fields.
#[derive(Debug, Clone, PartialEq, Eq)]
pub struct WireDocument {
    pub entries: Vec<(String, WireValue)>,
}

/// Mathematical model of a [`WireField`].
#[verifier::ext_equal]
pub enum FieldModel {
    Null,
    Bool(bool),
    Str(Seq<char>),
    StrArr(Seq<Seq<char>>),
}

/// Mathematical model of a [`WireObject`].
#[verifier::ext_equal]
pub struct ObjectModel {
    pub entries: Seq<(Seq<char>, FieldModel)>,
}

/// Mathematical model of a [`WireElem`].
#[verifier::ext_equal]
pub enum ElemModel {
    Str(Seq<char>),
    Obj(ObjectModel),
}

/// Mathematical model of a [`WireValue`].
#[verifier::ext_equal]
pub enum ValueModel {
    Null,
    Bool(bool),
    Str(Seq<char>),
    Arr(Seq<ElemModel>),
    Obj(ObjectModel),
}

/// Mathematical model of a [`WireDocument`].
#[verifier::ext_equal]
pub struct DocModel {
    pub entries: Seq<(Seq<char>, ValueModel)>,
}

impl View for WireField {
    type V = FieldModel;

    open spec fn view(&self) -> FieldModel {
        match self {
            WireField::Null => FieldModel::Null,
            WireField::Bool(b) => FieldModel::Bool(*b),
            WireField::Str(s) => FieldModel::Str(s@),
            WireField::StrArr(v) => FieldModel::StrArr(v@.map_values(|s: String| s@)),
        }
    }
}

impl View for WireObject {
    type V = ObjectModel;

    open spec fn view(&self) -> ObjectModel {
        ObjectModel { entries: self.entries@.map_values(|p: (String, WireField)| (p.0@, p.1@)) }
    }
}

impl View for WireElem {
    type V = ElemModel;

    open spec fn view(&self) -> ElemModel {
        match self {
            WireElem::Str(s) => ElemModel::Str(s@),
            WireElem::Obj(o) => ElemModel::Obj(o@),
        }
    }
}

impl View for WireValue {
    type V = ValueModel;

    open spec fn view(&self) -> ValueModel {
        match self {
            WireValue::Null => ValueModel::Null,
            WireValue::Bool(b) => ValueModel::Bool(*b),
            WireValue::Str(s) => ValueModel::Str(s@),
            WireValue::Arr(v) => ValueModel::Arr(v@.map_values(|e: WireElem| e@)),
            WireValue::Obj(o) => ValueModel::Obj(o@),
        }
    }
}

impl View for WireDocument {
    type V = DocModel;

    open spec fn view(&self) -> DocModel {
        DocModel { entries: self.entries@.map_values(|p: (String, WireValue)| (p.0@, p.1@)) }
    }
}

/// The value of the first field named `key`, if any: objects are read
/// front to back, as a JSON reader that takes the first occurrence does.
pub open spec fn lookup<V>(entries: Seq<(Seq<char>, V)>, key: Seq<char>) -> Option<V>
    decreases entries.len(),
{
    if entries.len() == 0 {
        None
    } else if entries[0].0 == key {
        Some(entries[0].1)
    } else {
        lookup(entries.subrange(1, entries.len() as int), key)
    }
}

/// Character sequences of different lengths differ.
pub proof fn lemma_neq_by_len(a: Seq<char>, b: Seq<char>)
    requires
        a.len() != b.len(),
    ensures
        a != b,
{
}

/// Character sequences differing at one position differ.
pub proof fn lemma_neq_by_char(a: Seq<char>, b: Seq<char>, i: int)
    requires
        0 <= i < a.len(),
        0 <= i < b.len(),
        a[i] != b[i],
    ensures
        a != b,
{
}

/// `lookup` finds the entry at position `i` when no earlier entry has its key.
pub proof fn lemma_lookup_at<V>(entries: Seq<(Seq<char>, V)>, key: Seq<char>, i: int)
    requires
        0 <= i < entries.len(),
        entries[i].0 == key,
        forall|j: int| 0 <= j < i ==> (#[trigger] entries[j]).0 != key,
    ensures
        lookup(entries, key) == Some(entries[i].1),
    decreases i,
{
    if i > 0 {
        let rest = entries.subrange(1, entries.len() as int);
        lemma_lookup_at(rest, key, i - 1);
    }
}

/// `lookup` misses when no entry has the key.
pub proof fn lemma_lookup_none<V>(entries: Seq<(Seq<char>, V)>, key: Seq<char>)
    requires
        forall|j: int| 0 <= j < entries.len() ==> (#[trigger] entries[j]).0 != key,
    ensures
        lookup(entries, key) is None,
    decreases entries.len(),
{
    if entries.len() > 0 {
        let rest = entries.subrange(1, entries.len() as int);
        lemma_lookup_none(rest, key);
    }
}

/// Finds the first field of `o` named `key`, reported as its index.
pub fn find_entry(o: &WireObject, key: &String) -> (r: Option<usize>)
    ensures
        match r {
            Some(i) => {
                &&& i < o.entries.len()
                &&& lookup(o@.entries, key@) == Some(o@.entries[i as int].1)
                &&& o@.entries[i as int].0 == key@
            },
            None => lookup(o@.entries, key@) is None,
        },
{
    let n = o.entries.len();
    let mut i: usize = 0;
    while i < n
        invariant
            i <= n,
            n == o.entries.len(),
            forall|j: int| 0 <= j < i ==> (#[trigger] o@.entries[j]).0 != key@,
        decreases n - i,
    {
        if o.entries[i].0 == *key {
            proof {
                lemma_lookup_at(o@.entries, key@, i as int);
            }
            return Some(i);
        }
        i += 1;
    }
    proof {
        lemma_lookup_none(o@.entries, key@);
    }
    None
}

/// Finds the first field of `d` named `key`, reported as its index.
pub fn find_doc_entry(d: &WireDocument, key: &String) -> (r: Option<usize>)
    ensures
        match r {
            Some(i) => {
                &&& i < d.entries.len()
                &&& lookup(d@.entries, key@) == Some(d@.entries[i as int].1)
                &&& d@.entries[i as int].0 == key@
            },
            None => lookup(d@.entries, key@) is None,
        },
{
    let n = d.entries.len();
    let mut i: usize = 0;
    while i < n
        invariant
            i <= n,
            n == d.entries.len(),
            forall|j: int| 0 <= j < i ==> (#[trigger] d@.entries[j]).0 != key@,
        decreases n - i,
    {
        if d.entries[i].0 == *key {
            proof {
                lemma_lookup_at(d@.entries, key@, i as int);
            }
            return Some(i);
        }
        i += 1;
    }
    proof {
        lemma_lookup_none(d@.entries, key@);
    }
    None
}

} // verus!
