//! An owned JSON value, and the mathematical model the contracts speak of.

use vstd::prelude::*;

verus! {

broadcast use vstd::seq::group_seq_axioms, vstd::std_specs::vec::group_vec_axioms;

/// An owned JSON document.
///
/// A number is kept as the sign, decimal mantissa and decimal exponent it was
/// read with; an object keeps its members in document order, keys unique.
#[derive(Debug)]
pub enum JsonVal {
    Null,
    Bool(bool),
    /// Sign (`true` for non-negative), mantissa and base-ten exponent.
    Num(bool, u64, i16),
    Str(String),
    Arr(Vec<JsonVal>),
    Obj(Vec<(String, JsonVal)>),
}

/// The mathematical shape of a JSON document: what a [`JsonVal`] holds, with
/// every string a `Seq<char>` and every list a `Seq`.
pub enum JsonModel {
    Null,
    Bool(bool),
    Num(bool, u64, i16),
    Str(Seq<char>),
    Arr(Seq<JsonModel>),
    Obj(Seq<(Seq<char>, JsonModel)>),
}

impl JsonVal {
    /// The document this value denotes.
    pub open spec fn model(self) -> JsonModel
        decreases self,
    {
        match self {
            JsonVal::Null => JsonModel::Null,
            JsonVal::Bool(b) => JsonModel::Bool(b),
            JsonVal::Num(positive, mantissa, exponent) => {
                JsonModel::Num(positive, mantissa, exponent)
            },
            JsonVal::Str(s) => JsonModel::Str(s@),
            JsonVal::Arr(items) => JsonModel::Arr(models_of(items@)),
            JsonVal::Obj(fields) => JsonModel::Obj(field_models_of(fields@)),
        }
    }
}

/// The models of a sequence of values, element by element.
pub open spec fn models_of(items: Seq<JsonVal>) -> Seq<JsonModel>
    decreases items,
{
    if items.len() == 0 {
        Seq::empty()
    } else {
        seq![items[0].model()] + models_of(items.subrange(1, items.len() as int))
    }
}

/// The models of an object's members, keys viewed as `Seq<char>`.
pub open spec fn field_models_of(fields: Seq<(String, JsonVal)>) -> Seq<(Seq<char>, JsonModel)>
    decreases fields,
{
    if fields.len() == 0 {
        Seq::empty()
    } else {
        seq![(fields[0].0@, fields[0].1.model())] + field_models_of(
            fields.subrange(1, fields.len() as int),
        )
    }
}

/// `models_of` maps the sequence element by element.
pub proof fn lemma_models_of(items: Seq<JsonVal>)
    ensures
        models_of(items).len() == items.len(),
        forall|i: int| 0 <= i < items.len() ==> models_of(items)[i] == items[i].model(),
    decreases items.len(),
{
    if items.len() > 0 {
        lemma_models_of(items.subrange(1, items.len() as int));
    }
}

/// `field_models_of` maps the members element by element.
pub proof fn lemma_field_models_of(fields: Seq<(String, JsonVal)>)
    ensures
        field_models_of(fields).len() == fields.len(),
        forall|i: int|
            0 <= i < fields.len() ==> field_models_of(fields)[i] == (
                fields[i].0@,
                fields[i].1.model(),
            ),
    decreases fields.len(),
{
    if fields.len() > 0 {
        lemma_field_models_of(fields.subrange(1, fields.len() as int));
    }
}

impl JsonVal {
    /// A copy denoting the same document.
    pub fn deep_clone(&self) -> (r: JsonVal)
        ensures
            r.model() == self.model(),
        decreases self,
    {
        match self {
            JsonVal::Null => JsonVal::Null,
            JsonVal::Bool(b) => JsonVal::Bool(*b),
            JsonVal::Num(positive, mantissa, exponent) => {
                JsonVal::Num(*positive, *mantissa, *exponent)
            },
            JsonVal::Str(s) => JsonVal::Str(s.clone()),
            JsonVal::Arr(items) => JsonVal::Arr(clone_items(items)),
            JsonVal::Obj(fields) => JsonVal::Obj(clone_fields(fields)),
        }
    }
}

/// A copy of a value list, element by element.
pub(crate) fn clone_items(items: &Vec<JsonVal>) -> (r: Vec<JsonVal>)
    ensures
        models_of(r@) == models_of(items@),
    decreases items,
{
    let mut out: Vec<JsonVal> = Vec::new();
    let mut i: usize = 0;
    while i < items.len()
        invariant
            i <= items@.len(),
            out@.len() == i,
            forall|j: int| 0 <= j < i ==> out@[j].model() == items@[j].model(),
        decreases items@.len() - i,
    {
        out.push(items[i].deep_clone());
        i = i + 1;
    }
    proof {
        lemma_models_of(out@);
        lemma_models_of(items@);
        assert(models_of(out@) =~= models_of(items@));
    }
    out
}

/// A copy of an object's members, element by element.
pub(crate) fn clone_fields(fields: &Vec<(String, JsonVal)>) -> (r: Vec<(String, JsonVal)>)
    ensures
        field_models_of(r@) == field_models_of(fields@),
    decreases fields,
{
    let mut out: Vec<(String, JsonVal)> = Vec::new();
    let mut i: usize = 0;
    while i < fields.len()
        invariant
            i <= fields@.len(),
            out@.len() == i,
            forall|j: int|
                0 <= j < i ==> out@[j].0@ == fields@[j].0@ && out@[j].1.model()
                    == fields@[j].1.model(),
        decreases fields@.len() - i,
    {
        let member = &fields[i];
        out.push((member.0.clone(), member.1.deep_clone()));
        i = i + 1;
    }
    proof {
        lemma_field_models_of(out@);
        lemma_field_models_of(fields@);
        assert(field_models_of(out@) =~= field_models_of(fields@));
    }
    out
}

/// The value under the first member named `key`, if any.
pub open spec fn lookup(fields: Seq<(Seq<char>, JsonModel)>, key: Seq<char>) -> Option<JsonModel>
    decreases fields.len(),
{
    if fields.len() == 0 {
        None
    } else if fields[0].0 == key {
        Some(fields[0].1)
    } else {
        lookup(fields.drop_first(), key)
    }
}

/// The model of an optional value, element-wise.
pub open spec fn opt_model(v: Option<JsonVal>) -> Option<JsonModel> {
    match v {
        Some(x) => Some(x.model()),
        None => None,
    }
}

} // verus!
