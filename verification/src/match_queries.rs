//! Full-text match clauses over a field.

use vstd::prelude::*;

use crate::query::{qv, qv_seq, Query, QueryV};

verus! {

/// How a match clause treats its value.
#[derive(Clone, Copy, PartialEq, Eq, Debug)]
pub enum MatchType {
    Phrase,
    PhrasePrefix,
}

pub open spec fn match_type_text(t: MatchType) -> Seq<char> {
    match t {
        MatchType::Phrase => "phrase"@,
        MatchType::PhrasePrefix => "phrase_prefix"@,
    }
}

impl MatchType {
    /// The engine's name for this match type.
    pub fn as_str(&self) -> (r: &'static str)
        ensures
            r@ == match_type_text(*self),
    {
        match self {
            MatchType::Phrase => "phrase",
            MatchType::PhrasePrefix => "phrase_prefix",
        }
    }
}

pub open spec fn opt_match_type_text(t: Option<MatchType>) -> Option<Seq<char>> {
    match t {
        Some(x) => Some(match_type_text(x)),
        None => None,
    }
}

/// Builds one `match` clause per value, all with the same optional type.
pub trait VectorOfMatches<T> {
    /// The match text one `T` contributes.
    spec fn match_text(t: T) -> Seq<char>;

    /// One `match` query per element of `values`.
    fn build_match(key: &str, values: &Vec<T>, match_type: Option<MatchType>) -> (r: Vec<Query>)
        ensures
            qv_seq(r@) == values@.map_values(
                |t: T|
                    QueryV::Match {
                        field: key@,
                        query: Self::match_text(t),
                        match_type: opt_match_type_text(match_type),
                    },
            ),
    ;
}

impl VectorOfMatches<String> for Query {
    open spec fn match_text(t: String) -> Seq<char> {
        t@
    }

    fn build_match(key: &str, values: &Vec<String>, match_type: Option<MatchType>) -> (r: Vec<
        Query,
    >) {
        let ghost target = values@.map_values(
            |t: String|
                QueryV::Match {
                    field: key@,
                    query: <Query as VectorOfMatches<String>>::match_text(t),
                    match_type: opt_match_type_text(match_type),
                },
        );
        let mut r: Vec<Query> = Vec::new();
        proof {
            assert(qv_seq(r@) =~= target.subrange(0, 0));
        }
        let mut i: usize = 0;
        while i < values.len()
            invariant
                i <= values@.len(),
                target == values@.map_values(
                    |t: String|
                        QueryV::Match {
                            field: key@,
                            query: <Query as VectorOfMatches<String>>::match_text(t),
                            match_type: opt_match_type_text(match_type),
                        },
                ),
                target.len() == values@.len(),
                r@.len() == i,
                qv_seq(r@) =~= target.subrange(0, i as int),
            decreases values@.len() - i,
        {
            let mt: Option<String> = match match_type {
                Some(t) => Some(t.as_str().to_owned()),
                None => None,
            };
            let q = Query::Match {
                field: key.to_owned(),
                query: values[i].clone(),
                match_type: mt,
            };
            let ghost prev = r@;
            r.push(q);
            proof {
                assert(r@.subrange(0, r@.len() - 1) =~= prev);
                assert(qv(q) == target[i as int]);
                assert(qv_seq(r@) =~= target.subrange(0, i + 1));
            }
            i = i + 1;
        }
        proof {
            assert(target.subrange(0, target.len() as int) =~= target);
        }
        r
    }
}

} // verus!
