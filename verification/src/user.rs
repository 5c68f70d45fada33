//! The elder user search: equality filters over epoch-second visibility.

use vstd::prelude::*;

use crate::company::Company;
use crate::filters::{spec_epoch_visibility_filters, visibility_filters};
use crate::params::{
    i32_vec_from_params, spec_i32_vec_from_params, spec_vec_from_params, vec_from_params, ParamMap,
    ParamValueV,
};
use crate::query::{bool_must_v, concat_queries, qv, qv_seq, Query, QueryV};
use crate::terms::{i32_terms, spec_i32_terms, spec_str_terms, str_terms};

verus! {

/// The user record of the elder search surface.
#[derive(Debug, Clone)]
pub struct User {
    pub id: i32,
    pub first_name: Option<String>,
    pub last_name: Option<String>,
    pub headline: Option<String>,
    pub work_roles: Vec<String>,
    pub work_languages: Vec<String>,
    pub work_experience: Option<String>,
    pub avatar_url: Option<String>,
}

/// The whole elder search query: equality filters and visibility under
/// `must`, the requesting company's own and blocked ids excluded.
pub open spec fn spec_user_search_filters(
    m: Seq<(Seq<char>, ParamValueV)>,
    now: i64,
    presented: Option<Seq<i32>>,
) -> QueryV {
    let cid = spec_i32_vec_from_params(m, "company_id"@);
    QueryV::Filtered {
        filter: Box::new(
            QueryV::Bool {
                must: spec_str_terms("work_roles"@, spec_vec_from_params(m, "work_roles"@))
                    + spec_str_terms(
                    "work_languages"@,
                    spec_vec_from_params(m, "work_languages"@),
                ) + spec_str_terms(
                    "work_experience"@,
                    spec_vec_from_params(m, "work_experience"@),
                ) + spec_str_terms(
                    "work_locations"@,
                    spec_vec_from_params(m, "work_locations"@),
                ) + spec_str_terms(
                    "work_authorization"@,
                    spec_vec_from_params(m, "work_authorization"@),
                ) + spec_epoch_visibility_filters(now, presented),
                should: Seq::empty(),
                filter: Seq::empty(),
                must_not: spec_i32_terms("company_ids"@, cid) + spec_i32_terms(
                    "blocked_companies"@,
                    cid,
                ),
            },
        ),
    }
}

impl User {
    /// Visibility criteria for users: as for talents over epoch seconds.
    pub fn visibility_filters(now: i64, company: Option<&Company>) -> (r: Vec<Query>)
        ensures
            qv_seq(r@) == spec_epoch_visibility_filters(
                now,
                match company {
                    Some(c) => Some(c.presented_talents@),
                    None => None,
                },
            ),
    {
        visibility_filters(now, company)
    }

    /// Plan the elder user search at `now` for a company the caller has
    /// already resolved from the request's `company_id`.
    pub fn search_filters(params: &ParamMap, now: i64, company: Option<&Company>) -> (r: Query)
        ensures
            qv(r) == spec_user_search_filters(
                params@,
                now,
                match company {
                    Some(c) => Some(c.presented_talents@),
                    None => None,
                },
            ),
    {
        let company_id: Vec<i32> = i32_vec_from_params(params, "company_id");
        let mut must: Vec<Query> = Vec::new();
        let wr = vec_from_params(params, "work_roles");
        concat_queries(&mut must, str_terms("work_roles", &wr));
        let wl = vec_from_params(params, "work_languages");
        concat_queries(&mut must, str_terms("work_languages", &wl));
        let we = vec_from_params(params, "work_experience");
        concat_queries(&mut must, str_terms("work_experience", &we));
        let wloc = vec_from_params(params, "work_locations");
        concat_queries(&mut must, str_terms("work_locations", &wloc));
        let wauth = vec_from_params(params, "work_authorization");
        concat_queries(&mut must, str_terms("work_authorization", &wauth));
        concat_queries(&mut must, User::visibility_filters(now, company));
        let mut must_not: Vec<Query> = Vec::new();
        concat_queries(&mut must_not, i32_terms("company_ids", &company_id));
        concat_queries(&mut must_not, i32_terms("blocked_companies", &company_id));
        let inner = Query::Bool {
            must,
            should: Vec::new(),
            filter: Vec::new(),
            must_not,
        };
        let r = Query::Filtered { filter: Box::new(inner) };
        proof {
            let ghost presented = match company {
                Some(c) => Some(c.presented_talents@),
                None => None,
            };
            assert(qv_seq(Seq::<Query>::empty()) =~= Seq::<QueryV>::empty());
            assert(qv(inner)->Bool_must =~= spec_user_search_filters(
                params@,
                now,
                presented,
            )->Filtered_filter->Bool_must);
            assert(qv(inner)->Bool_must_not =~= spec_user_search_filters(
                params@,
                now,
                presented,
            )->Filtered_filter->Bool_must_not);
            assert(qv(inner) == *spec_user_search_filters(params@, now, presented)->Filtered_filter);
        }
        r
    }
}

} // verus!
