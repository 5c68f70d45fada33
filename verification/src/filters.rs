//! Visibility filters over epoch-second batch windows.
//!
//! The elder variant of the talent visibility rule: the batch window is
//! compared against a Unix timestamp, and the presented-talents override
//! comes from the requesting company's record.

use vstd::prelude::*;

use crate::company::Company;
use crate::query::{
    bool_must_v, bool_should_v, lemma_qv_seq, qv, qv_seq, JsonVal, JsonValV, Query, QueryV,
};
use crate::terms::{i32_terms, spec_i32_terms};

verus! {

/// An epoch-second upper bound, strict.
pub open spec fn range_lt_epoch_v(field: Seq<char>, now: i64) -> QueryV {
    QueryV::Range {
        field: field,
        gte: None,
        lte: None,
        lt: Some(JsonValV::I(now)),
        format: Some("epoch_second"@),
    }
}

/// An epoch-second lower bound.
pub open spec fn range_gte_epoch_v(field: Seq<char>, now: i64) -> QueryV {
    QueryV::Range {
        field: field,
        gte: Some(JsonValV::I(now)),
        lte: None,
        lt: None,
        format: Some("epoch_second"@),
    }
}

/// The visibility rule at `now`: accepted, batch begun, batch not ended.
pub open spec fn spec_epoch_visibility_rules(now: i64) -> QueryV {
    bool_must_v(
        seq![
            QueryV::Term { field: "accepted"@, value: JsonValV::B(true) },
            range_lt_epoch_v("batch_starts_at"@, now),
            range_gte_epoch_v("batch_ends_at"@, now),
        ],
    )
}

/// The visibility filter at `now`, waived for the talents presented to
/// the requesting company.
pub open spec fn spec_epoch_visibility_filters(now: i64, presented: Option<Seq<i32>>) -> Seq<
    QueryV,
> {
    match presented {
        Some(ids) => seq![
            bool_should_v(
                seq![
                    spec_epoch_visibility_rules(now),
                    bool_must_v(spec_i32_terms("ids"@, ids)),
                ],
            ),
        ],
        None => seq![spec_epoch_visibility_rules(now)],
    }
}

/// Visibility criteria over epoch seconds: the talent must be accepted and
/// inside a living batch, unless the requesting company was presented it.
pub fn visibility_filters(now: i64, company: Option<&Company>) -> (r: Vec<Query>)
    ensures
        qv_seq(r@) == spec_epoch_visibility_filters(
            now,
            match company {
                Some(c) => Some(c.presented_talents@),
                None => None,
            },
        ),
{
    let mut must: Vec<Query> = Vec::new();
    must.push(Query::term_bool("accepted", true));
    must.push(
        Query::Range {
            field: "batch_starts_at".to_owned(),
            gte: None,
            lte: None,
            lt: Some(JsonVal::I(now)),
            format: Some("epoch_second".to_owned()),
        },
    );
    must.push(
        Query::Range {
            field: "batch_ends_at".to_owned(),
            gte: Some(JsonVal::I(now)),
            lte: None,
            lt: None,
            format: Some("epoch_second".to_owned()),
        },
    );
    proof {
        lemma_qv_seq(must@);
        assert(qv_seq(must@) =~= seq![
            QueryV::Term { field: "accepted"@, value: JsonValV::B(true) },
            range_lt_epoch_v("batch_starts_at"@, now),
            range_gte_epoch_v("batch_ends_at"@, now),
        ]);
    }
    let visibility_rules = Query::bool_must(must);
    match company {
        Some(c) => {
            let ids = i32_terms("ids", &c.presented_talents);
            let presented = Query::bool_must(ids);
            let outer = Query::bool_should2(visibility_rules, presented);
            let mut r: Vec<Query> = Vec::new();
            r.push(outer);
            proof {
                lemma_qv_seq(r@);
                assert(qv_seq(r@) =~= spec_epoch_visibility_filters(
                    now,
                    Some(c.presented_talents@),
                ));
            }
            r
        },
        None => {
            let mut r: Vec<Query> = Vec::new();
            r.push(visibility_rules);
            proof {
                lemma_qv_seq(r@);
                assert(qv_seq(r@) =~= spec_epoch_visibility_filters(now, None));
            }
            r
        },
    }
}

} // verus!
