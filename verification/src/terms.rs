//! Equality-terms filters over a field.

use vstd::prelude::*;

use crate::query::{i32_scalars, jval, qv, qv_seq, str_scalars, JsonVal, JsonValV, Query, QueryV};

verus! {

/// Builds the `terms` filter of a field from a vector of values: one query
/// when values are present, none at all otherwise, so that an absent
/// parameter imposes no constraint.
pub trait VectorOfTerms<T> {
    /// The scalar one `T` contributes to the terms list.
    spec fn term_scalar(t: T) -> JsonValV;

    /// One `terms` query over `values`; nothing when `values` is empty.
    fn build_terms(key: &str, values: &Vec<T>) -> (r: Vec<Query>)
        ensures
            qv_seq(r@) == if values@.len() == 0 {
                Seq::<QueryV>::empty()
            } else {
                seq![
                    QueryV::Terms {
                        field: key@,
                        values: values@.map_values(|t: T| Self::term_scalar(t)),
                    },
                ]
            },
    ;
}

impl VectorOfTerms<String> for Query {
    open spec fn term_scalar(t: String) -> JsonValV {
        JsonValV::S(t@)
    }

    fn build_terms(key: &str, values: &Vec<String>) -> (r: Vec<Query>) {
        if values.len() == 0 {
            let r: Vec<Query> = Vec::new();
            proof {
                assert(qv_seq(r@) =~= Seq::<QueryV>::empty());
            }
            return r;
        }
        let mut vals: Vec<JsonVal> = Vec::new();
        let mut i: usize = 0;
        while i < values.len()
            invariant
                i <= values@.len(),
                vals@.len() == i,
                forall|k: int| 0 <= k < i ==> vals@[k] == JsonVal::S(values@[k]),
            decreases values@.len() - i,
        {
            vals.push(JsonVal::S(values[i].clone()));
            i = i + 1;
        }
        let q = Query::Terms { field: key.to_owned(), values: vals };
        let mut r: Vec<Query> = Vec::new();
        r.push(q);
        proof {
            let ghost target = values@.map_values(
                |t: String| <Query as VectorOfTerms<String>>::term_scalar(t),
            );
            assert(qv(q) is Terms);
            assert(qv(q)->Terms_values =~= target);
            assert(qv(q) == QueryV::Terms { field: key@, values: target });
            assert(r@.subrange(0, 0) =~= Seq::<Query>::empty());
            assert(qv_seq(Seq::<Query>::empty()) =~= Seq::<QueryV>::empty());
            assert(qv_seq(r@) =~= seq![QueryV::Terms { field: key@, values: target }]);
        }
        r
    }
}

impl VectorOfTerms<i32> for Query {
    open spec fn term_scalar(t: i32) -> JsonValV {
        JsonValV::I(t as i64)
    }

    fn build_terms(key: &str, values: &Vec<i32>) -> (r: Vec<Query>) {
        if values.len() == 0 {
            let r: Vec<Query> = Vec::new();
            proof {
                assert(qv_seq(r@) =~= Seq::<QueryV>::empty());
            }
            return r;
        }
        let mut vals: Vec<JsonVal> = Vec::new();
        let mut i: usize = 0;
        while i < values.len()
            invariant
                i <= values@.len(),
                vals@.len() == i,
                forall|k: int| 0 <= k < i ==> vals@[k] == JsonVal::I(values@[k] as i64),
            decreases values@.len() - i,
        {
            vals.push(JsonVal::I(values[i] as i64));
            i = i + 1;
        }
        let q = Query::Terms { field: key.to_owned(), values: vals };
        let mut r: Vec<Query> = Vec::new();
        r.push(q);
        proof {
            let ghost target = values@.map_values(
                |t: i32| <Query as VectorOfTerms<i32>>::term_scalar(t),
            );
            assert(qv(q) is Terms);
            assert(qv(q)->Terms_values =~= target);
            assert(qv(q) == QueryV::Terms { field: key@, values: target });
            assert(r@.subrange(0, 0) =~= Seq::<Query>::empty());
            assert(qv_seq(Seq::<Query>::empty()) =~= Seq::<QueryV>::empty());
            assert(qv_seq(r@) =~= seq![QueryV::Terms { field: key@, values: target }]);
        }
        r
    }
}

/// The `terms` filter over string values: one query when values are
/// present, none otherwise.
pub open spec fn spec_str_terms(key: Seq<char>, ss: Seq<Seq<char>>) -> Seq<QueryV> {
    if ss.len() == 0 {
        Seq::empty()
    } else {
        seq![QueryV::Terms { field: key, values: str_scalars(ss) }]
    }
}

/// The `terms` filter over integer values.
pub open spec fn spec_i32_terms(key: Seq<char>, vs: Seq<i32>) -> Seq<QueryV> {
    if vs.len() == 0 {
        Seq::empty()
    } else {
        seq![QueryV::Terms { field: key, values: i32_scalars(vs) }]
    }
}

/// Build the `terms` filter of `key` over string values.
pub fn str_terms(key: &str, values: &Vec<String>) -> (r: Vec<Query>)
    ensures
        qv_seq(r@) == spec_str_terms(key@, values.deep_view()),
{
    let r = <Query as VectorOfTerms<String>>::build_terms(key, values);
    proof {
        assert(values.deep_view().len() == values@.len());
        if values@.len() > 0 {
            assert(values@.map_values(
                |t: String| <Query as VectorOfTerms<String>>::term_scalar(t),
            ) =~= str_scalars(values.deep_view()));
            assert(qv_seq(r@) =~= spec_str_terms(key@, values.deep_view()));
        } else {
            assert(qv_seq(r@) =~= spec_str_terms(key@, values.deep_view()));
        }
    }
    r
}

/// Build the `terms` filter of `key` over integer values.
pub fn i32_terms(key: &str, values: &Vec<i32>) -> (r: Vec<Query>)
    ensures
        qv_seq(r@) == spec_i32_terms(key@, values@),
{
    let r = <Query as VectorOfTerms<i32>>::build_terms(key, values);
    proof {
        if values@.len() > 0 {
            assert(values@.map_values(
                |t: i32| <Query as VectorOfTerms<i32>>::term_scalar(t),
            ) =~= i32_scalars(values@));
            assert(qv_seq(r@) =~= spec_i32_terms(key@, values@));
        } else {
            assert(qv_seq(r@) =~= spec_i32_terms(key@, values@));
        }
    }
    r
}

} // verus!
