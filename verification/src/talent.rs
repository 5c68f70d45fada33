//! The talent query planner.
//!
//! Translates a flat parameter map and a reference epoch into the boolean
//! query tree sent to the search engine: visibility windows, nested salary
//! and role filters, multi-field keyword search, exclusions, sorting,
//! paging and highlighting.

use vstd::prelude::*;

use crate::json::{append_json_str, json_str_text};
use crate::params::{
    i32_vec_from_maybe_csv_params, i32_vec_from_params, lookup, spec_i32_vec_from_maybe_csv_params,
    spec_i32_vec_from_params, spec_vec_from_params, vec_from_params, ParamMap, ParamValue,
    ParamValueV,
};
use crate::query::{
    bool_must_v, bool_should_v, concat_queries, lemma_qv_seq, obj1, push_query, query_text, qv,
    qv_seq, term_str_v, JsonVal, JsonValV, Query, QueryV,
};
use crate::terms::{i32_terms, spec_i32_terms, spec_str_terms, str_terms};
use crate::text::{
    find_char, find_char_exec, parse_u8, spec_parse_u8, spec_trim, str_contains_char, trim_of,
    vec_contains_str,
};

verus! {

/// The talent record the service indexes and returns.
#[derive(Debug, Clone)]
pub struct Talent {
    pub id: u32,
    pub accepted: bool,
    pub desired_work_roles: Vec<String>,
    pub desired_work_roles_experience: Vec<String>,
    pub desired_roles: Vec<RolesExperience>,
    pub professional_experience: String,
    pub work_locations: Vec<String>,
    pub current_location: String,
    pub work_authorization: String,
    pub skills: Vec<String>,
    pub summary: String,
    pub headline: String,
    pub contacted_company_ids: Vec<u32>,
    pub batch_starts_at: String,
    pub batch_ends_at: String,
    pub added_to_batch_at: String,
    pub weight: i32,
    pub blocked_companies: Vec<u32>,
    pub work_experiences: Vec<String>,
    pub avatar_url: String,
    pub salary_expectations: Vec<SalaryExpectations>,
    pub latest_position: String,
    pub languages: Vec<String>,
    pub educations: Vec<String>,
}

/// A role paired with the experience band held in it.
#[derive(Debug, Clone, PartialEq, Eq)]
pub struct RolesExperience {
    pub role: String,
    pub experience: String,
}

impl RolesExperience {
    /// Pair a role with an experience band, an absent band reading as
    /// the empty string.
    pub fn new(role: &str, experience: Option<&String>) -> (r: RolesExperience)
        ensures
            r.role@ == role@,
            r.experience@ == match experience {
                Some(e) => e@,
                None => Seq::<char>::empty(),
            },
    {
        let experience: String = match experience {
            Some(e) => (*e).clone(),
            None => String::new(),
        };
        RolesExperience { role: role.to_owned(), experience }
    }
}

/// One salary expectation: an optional minimum in a currency at a city.
#[derive(Debug, Clone)]
pub struct SalaryExpectations {
    pub minimum: Option<u64>,
    pub currency: String,
    pub city: String,
}

/// One requested role with its optional experience window, parsed from a
/// `role[:min[:max]]` parameter item.
#[derive(Debug, Clone, PartialEq, Eq)]
pub struct DesiredRoleFilter {
    pub role: String,
    pub minimum: Option<u8>,
    pub maximum: Option<u8>,
}

/// Mathematical view of `DesiredRoleFilter`.
pub struct DesiredRoleFilterV {
    pub role: Seq<char>,
    pub minimum: Option<u8>,
    pub maximum: Option<u8>,
}

impl View for DesiredRoleFilter {
    type V = DesiredRoleFilterV;

    open spec fn view(&self) -> DesiredRoleFilterV {
        DesiredRoleFilterV { role: self.role@, minimum: self.minimum, maximum: self.maximum }
    }
}

/// The parse of a `role[:min[:max]]` item: the trimmed input is split at
/// colons; an all-blank item is no filter; an unreadable minimum is
/// dropped, and a maximum is kept only when it reads and is at least the
/// minimum.
pub open spec fn spec_parse_desired_role(input: Seq<char>) -> Option<DesiredRoleFilterV> {
    let t = spec_trim(input);
    if t.len() == 0 {
        None
    } else {
        let c1 = find_char(t, ':', 0);
        let role = t.subrange(0, c1);
        let minimum = if c1 == t.len() {
            None
        } else {
            spec_parse_u8(t.subrange(c1 + 1, find_char(t, ':', c1 + 1)))
        };
        let maximum = match minimum {
            None => None,
            Some(mn) => {
                let c2 = find_char(t, ':', c1 + 1);
                if c2 == t.len() {
                    None
                } else {
                    match spec_parse_u8(t.subrange(c2 + 1, find_char(t, ':', c2 + 1))) {
                        Some(mx) => if mx >= mn {
                            Some(mx)
                        } else {
                            None
                        },
                        None => None,
                    }
                }
            },
        };
        Some(DesiredRoleFilterV { role, minimum, maximum })
    }
}

/// Parse one `role[:min[:max]]` item.
pub fn parse_desired_role_filter(input: &str) -> (r: Option<DesiredRoleFilter>)
    ensures
        match r {
            Some(f) => spec_parse_desired_role(input@) == Some(f@),
            None => spec_parse_desired_role(input@) is None,
        },
{
    let t = trim_of(input);
    let n = t.unicode_len();
    if n == 0 {
        return None;
    }
    let c1 = find_char_exec(t, ':', 0);
    let role = t.substring_char(0, c1).to_owned();
    let minimum: Option<u8> = if c1 == n {
        None
    } else {
        let c2 = find_char_exec(t, ':', c1 + 1);
        parse_u8(t.substring_char(c1 + 1, c2))
    };
    let maximum: Option<u8> = match minimum {
        None => None,
        Some(mn) => {
            let c2 = find_char_exec(t, ':', c1 + 1);
            if c2 == n {
                None
            } else {
                let c3 = find_char_exec(t, ':', c2 + 1);
                match parse_u8(t.substring_char(c2 + 1, c3)) {
                    Some(mx) => if mx >= mn {
                        Some(mx)
                    } else {
                        None
                    },
                    None => None,
                }
            }
        },
    };
    Some(DesiredRoleFilter { role, minimum, maximum })
}

/// The experience bands meaning "at least `minimum` years": each band
/// whose upper end lies beyond the requested minimum.
pub open spec fn spec_mapped_ranges(minimum: u8) -> Seq<Seq<char>> {
    if minimum <= 1 {
        seq!["0..1"@, "1..2"@, "2..4"@, "4..6"@, "6..8"@, "8+"@]
    } else if minimum == 2 {
        seq!["1..2"@, "2..4"@, "4..6"@, "6..8"@, "8+"@]
    } else if minimum <= 4 {
        seq!["2..4"@, "4..6"@, "6..8"@, "8+"@]
    } else if minimum <= 6 {
        seq!["4..6"@, "6..8"@, "8+"@]
    } else if minimum <= 8 {
        seq!["6..8"@, "8+"@]
    } else {
        seq!["8+"@]
    }
}

/// The experience bands meaning "at least `minimum` years".
pub fn mapped_experience_ranges(minimum: u8) -> (r: Vec<String>)
    ensures
        r.deep_view() == spec_mapped_ranges(minimum),
{
    let mut r: Vec<String> = Vec::new();
    if minimum <= 1 {
        r.push("0..1".to_owned());
    }
    if minimum <= 2 {
        r.push("1..2".to_owned());
    }
    if minimum <= 4 {
        r.push("2..4".to_owned());
    }
    if minimum <= 6 {
        r.push("4..6".to_owned());
    }
    if minimum <= 8 {
        r.push("6..8".to_owned());
    }
    r.push("8+".to_owned());
    proof {
        assert(r.deep_view() =~~= spec_mapped_ranges(minimum));
    }
    r
}

/// A date-formatted upper bound on a field.
pub open spec fn range_lte_date_v(field: Seq<char>, epoch: Seq<char>) -> QueryV {
    QueryV::Range {
        field: field,
        gte: None,
        lte: Some(JsonValV::S(epoch)),
        lt: None,
        format: Some("dateOptionalTime"@),
    }
}

/// A date-formatted lower bound on a field.
pub open spec fn range_gte_date_v(field: Seq<char>, epoch: Seq<char>) -> QueryV {
    QueryV::Range {
        field: field,
        gte: Some(JsonValV::S(epoch)),
        lte: None,
        lt: None,
        format: Some("dateOptionalTime"@),
    }
}

/// The visibility rule proper: an accepted talent, inside the batch window
/// around `epoch` — or, when a date filter is given, whose batch starts
/// exactly at `epoch`.
pub open spec fn spec_visibility_rules(epoch: Seq<char>, date_filter_present: bool) -> QueryV {
    if date_filter_present {
        bool_must_v(
            seq![
                QueryV::Term { field: "accepted"@, value: JsonValV::B(true) },
                term_str_v("batch_starts_at"@, epoch),
            ],
        )
    } else {
        bool_must_v(
            seq![
                QueryV::Term { field: "accepted"@, value: JsonValV::B(true) },
                range_lte_date_v("batch_starts_at"@, epoch),
                range_gte_date_v("batch_ends_at"@, epoch),
            ],
        )
    }
}

/// The visibility filter: the visibility rule, waived for talents whose id
/// is among `presented` — a non-empty override list turns the rule into an
/// alternative rather than a requirement.
pub open spec fn spec_visibility_filters(
    epoch: Seq<char>,
    presented: Seq<i32>,
    date_filter_present: bool,
) -> Seq<QueryV> {
    if presented.len() > 0 {
        seq![
            bool_should_v(
                seq![
                    spec_visibility_rules(epoch, date_filter_present),
                    bool_must_v(spec_i32_terms("ids"@, presented)),
                ],
            ),
        ]
    } else {
        seq![spec_visibility_rules(epoch, date_filter_present)]
    }
}

impl Talent {
    /// Visibility criteria for talents: accepted and inside a living batch,
    /// unless presented explicitly.
    pub fn visibility_filters(
        epoch: &str,
        presented_talents: Vec<i32>,
        date_filter_present: bool,
    ) -> (r: Vec<Query>)
        ensures
            qv_seq(r@) == spec_visibility_filters(epoch@, presented_talents@, date_filter_present),
    {
        let visibility_rules: Query = if date_filter_present {
            Query::bool_must2(
                Query::term_bool("accepted", true),
                Query::term_str("batch_starts_at", epoch),
            )
        } else {
            let mut must: Vec<Query> = Vec::new();
            must.push(Query::term_bool("accepted", true));
            must.push(
                Query::Range {
                    field: "batch_starts_at".to_owned(),
                    gte: None,
                    lte: Some(JsonVal::S(epoch.to_owned())),
                    lt: None,
                    format: Some("dateOptionalTime".to_owned()),
                },
            );
            must.push(
                Query::Range {
                    field: "batch_ends_at".to_owned(),
                    gte: Some(JsonVal::S(epoch.to_owned())),
                    lte: None,
                    lt: None,
                    format: Some("dateOptionalTime".to_owned()),
                },
            );
            proof {
                lemma_qv_seq(must@);
                assert(qv_seq(must@) =~= seq![
                    QueryV::Term { field: "accepted"@, value: JsonValV::B(true) },
                    range_lte_date_v("batch_starts_at"@, epoch@),
                    range_gte_date_v("batch_ends_at"@, epoch@),
                ]);
            }
            Query::bool_must(must)
        };
        assert(qv(visibility_rules) == spec_visibility_rules(epoch@, date_filter_present));
        if presented_talents.len() > 0 {
            let ids = i32_terms("ids", &presented_talents);
            let presented_filters = Query::bool_must(ids);
            let outer = Query::bool_should2(visibility_rules, presented_filters);
            let mut r: Vec<Query> = Vec::new();
            r.push(outer);
            proof {
                lemma_qv_seq(r@);
                assert(qv_seq(r@) =~= spec_visibility_filters(
                    epoch@,
                    presented_talents@,
                    date_filter_present,
                ));
            }
            r
        } else {
            let mut r: Vec<Query> = Vec::new();
            r.push(visibility_rules);
            proof {
                lemma_qv_seq(r@);
                assert(qv_seq(r@) =~= spec_visibility_filters(
                    epoch@,
                    presented_talents@,
                    date_filter_present,
                ));
            }
            r
        }
    }
}

/// The salary cap applied to one nested salary expectation.
pub open spec fn range_salary_v(max: u64) -> QueryV {
    QueryV::Range {
        field: "salary_expectations.minimum"@,
        gte: None,
        lte: Some(JsonValV::U(max)),
        lt: None,
        format: None,
    }
}

/// The nested salary clause for one work location: the cap and the city
/// must hold of the same expectation.
pub open spec fn salary_location_clause_v(max: u64, loc: Seq<char>) -> QueryV {
    QueryV::Nested {
        path: "salary_expectations"@,
        query: Box::new(
            bool_must_v(
                seq![range_salary_v(max), term_str_v("salary_expectations.city"@, loc)],
            ),
        ),
    }
}

/// The salary filter. A `maximum_salary` that does not read as a
/// non-negative integer is ignored. Without work locations the cap alone
/// filters; with them, one location-scoped clause per location replaces
/// the plain cap.
pub open spec fn spec_salary_filters(m: Seq<(Seq<char>, ParamValueV)>) -> Seq<QueryV> {
    match lookup(m, "maximum_salary"@) {
        Some(ParamValueV::Str(s)) => match crate::text::spec_parse_u64(s) {
            Some(max) => if lookup(m, "work_locations"@) is None {
                seq![
                    QueryV::Nested {
                        path: "salary_expectations"@,
                        query: Box::new(range_salary_v(max)),
                    },
                ]
            } else {
                spec_vec_from_params(m, "work_locations"@).map_values(
                    |loc: Seq<char>| salary_location_clause_v(max, loc),
                )
            },
            None => Seq::empty(),
        },
        _ => Seq::empty(),
    }
}

impl Talent {
    /// The salary filter of the request, under the engine's non-scoring
    /// `filter` compartment.
    pub fn salary_expectations_filters(params: &ParamMap) -> (r: Vec<Query>)
        ensures
            qv_seq(r@) == spec_salary_filters(params@),
    {
        let max_salary: u64 = match params.get("maximum_salary") {
            Some(ParamValue::Str(s)) => match crate::text::parse_u64(s.as_str()) {
                Some(v) => v,
                None => {
                    let r: Vec<Query> = Vec::new();
                    proof {
                        assert(qv_seq(r@) =~= Seq::<QueryV>::empty());
                    }
                    return r;
                },
            },
            _ => {
                let r: Vec<Query> = Vec::new();
                proof {
                    assert(qv_seq(r@) =~= Seq::<QueryV>::empty());
                }
                return r;
            },
        };
        let salary_range = Query::Range {
            field: "salary_expectations.minimum".to_owned(),
            gte: None,
            lte: Some(JsonVal::U(max_salary)),
            lt: None,
            format: None,
        };
        assert(qv(salary_range) == range_salary_v(max_salary));
        match params.get("work_locations") {
            None => {
                let mut r: Vec<Query> = Vec::new();
                r.push(Query::nested("salary_expectations", salary_range));
                proof {
                    lemma_qv_seq(r@);
                    assert(qv_seq(r@) =~= spec_salary_filters(params@));
                }
                r
            },
            Some(_) => {
                let work_locations: Vec<String> = vec_from_params(params, "work_locations");
                let ghost locs = work_locations.deep_view();
                let ghost target = locs.map_values(
                    |loc: Seq<char>| salary_location_clause_v(max_salary, loc),
                );
                let mut r: Vec<Query> = Vec::new();
                let mut i: usize = 0;
                while i < work_locations.len()
                    invariant
                        i <= work_locations@.len(),
                        locs == work_locations.deep_view(),
                        locs.len() == work_locations@.len(),
                        target == locs.map_values(
                            |loc: Seq<char>| salary_location_clause_v(max_salary, loc),
                        ),
                        target.len() == locs.len(),
                        r@.len() == i,
                        forall|k: int| 0 <= k < i ==> qv(r@[k]) == target[k],
                    decreases work_locations@.len() - i,
                {
                    let range_q = Query::Range {
                        field: "salary_expectations.minimum".to_owned(),
                        gte: None,
                        lte: Some(JsonVal::U(max_salary)),
                        lt: None,
                        format: None,
                    };
                    let city_q = Query::term_str(
                        "salary_expectations.city",
                        work_locations[i].as_str(),
                    );
                    let clause = Query::nested(
                        "salary_expectations",
                        Query::bool_must2(range_q, city_q),
                    );
                    proof {
                        assert(locs[i as int] == work_locations@[i as int]@);
                        assert(qv(clause) == target[i as int]);
                    }
                    r.push(clause);
                    i = i + 1;
                }
                proof {
                    lemma_qv_seq(r@);
                    assert(qv_seq(r@) =~= target);
                    assert(qv_seq(r@) =~= spec_salary_filters(params@));
                }
                r
            },
        }
    }
}


/// The nested clause asking for `role` held with experience in `band`.
pub open spec fn role_band_clause_v(role: Seq<char>, band: Seq<char>) -> QueryV {
    QueryV::Nested {
        path: "desired_roles"@,
        query: Box::new(
            bool_must_v(
                seq![
                    term_str_v("desired_roles.role"@, role),
                    term_str_v("desired_roles.experience"@, band),
                ],
            ),
        ),
    }
}

/// The clauses of one role with a minimum: one per band meaning at least
/// that many years, to be ORred.
pub open spec fn role_min_clauses_v(role: Seq<char>, mn: u8) -> Seq<QueryV> {
    spec_mapped_ranges(mn).map_values(|band: Seq<char>| role_band_clause_v(role, band))
}

/// The experience-gated clauses of the desired-role items, in item order.
pub open spec fn spec_role_clauses(items: Seq<Seq<char>>) -> Seq<QueryV>
    decreases items.len(),
{
    if items.len() == 0 {
        Seq::empty()
    } else {
        spec_role_clauses(items.drop_last()) + (match spec_parse_desired_role(items.last()) {
            Some(f) => match f.minimum {
                Some(mn) => role_min_clauses_v(f.role, mn),
                None => Seq::empty(),
            },
            None => Seq::empty(),
        })
    }
}

/// The roles of the items without an experience gate, in item order.
pub open spec fn spec_basic_roles(items: Seq<Seq<char>>) -> Seq<Seq<char>>
    decreases items.len(),
{
    if items.len() == 0 {
        Seq::empty()
    } else {
        spec_basic_roles(items.drop_last()) + (match spec_parse_desired_role(items.last()) {
            Some(f) => if f.minimum is None {
                seq![f.role]
            } else {
                Seq::empty()
            },
            None => Seq::empty(),
        })
    }
}

/// The desired-roles filter: experience-gated nested clauses first, then
/// one terms filter over the ungated roles.
pub open spec fn spec_desired_roles_filters(m: Seq<(Seq<char>, ParamValueV)>) -> Seq<QueryV> {
    let items = spec_vec_from_params(m, "desired_work_roles"@);
    spec_role_clauses(items) + spec_str_terms("desired_work_roles.raw"@, spec_basic_roles(items))
}

impl Talent {
    /// The desired-roles filter of the request, under the engine's
    /// non-scoring `filter` compartment.
    pub fn desired_roles_filters(params: &ParamMap) -> (r: Vec<Query>)
        ensures
            qv_seq(r@) == spec_desired_roles_filters(params@),
    {
        let query_params: Vec<String> = vec_from_params(params, "desired_work_roles");
        let ghost items = query_params.deep_view();
        let mut terms_acc: Vec<Query> = Vec::new();
        let mut basic_roles: Vec<String> = Vec::new();
        proof {
            assert(items.subrange(0, 0) =~= Seq::<Seq<char>>::empty());
            assert(qv_seq(terms_acc@) =~= spec_role_clauses(items.subrange(0, 0)));
            assert(basic_roles.deep_view() =~= spec_basic_roles(items.subrange(0, 0)));
        }
        let mut i: usize = 0;
        while i < query_params.len()
            invariant
                i <= query_params@.len(),
                items == query_params.deep_view(),
                items.len() == query_params@.len(),
                qv_seq(terms_acc@) == spec_role_clauses(items.subrange(0, i as int)),
                basic_roles.deep_view() == spec_basic_roles(items.subrange(0, i as int)),
            decreases query_params@.len() - i,
        {
            let ghost pre = items.subrange(0, i as int);
            let ghost cur = items.subrange(0, i + 1);
            proof {
                assert(cur.drop_last() =~= pre);
                assert(cur.last() == items[i as int]);
                assert(items[i as int] == query_params@[i as int]@);
            }
            match parse_desired_role_filter(query_params[i].as_str()) {
                Some(filter) => {
                    match filter.minimum {
                        Some(mn) => {
                            let bands = mapped_experience_ranges(mn);
                            let ghost inner = role_min_clauses_v(filter@.role, mn);
                            let ghost bvs = bands.deep_view();
                            let ghost acc0 = qv_seq(terms_acc@);
                            let mut j: usize = 0;
                            while j < bands.len()
                                invariant
                                    j <= bands@.len(),
                                    bvs == bands.deep_view(),
                                    bvs.len() == bands@.len(),
                                    inner == role_min_clauses_v(filter@.role, mn),
                                    inner.len() == bvs.len(),
                                    bvs == spec_mapped_ranges(mn),
                                    filter.role@ == filter@.role,
                                    qv_seq(terms_acc@) == acc0 + inner.subrange(0, j as int),
                                decreases bands@.len() - j,
                            {
                                let clause = Query::nested(
                                    "desired_roles",
                                    Query::bool_must2(
                                        Query::term_str("desired_roles.role", filter.role.as_str()),
                                        Query::term_str(
                                            "desired_roles.experience",
                                            bands[j].as_str(),
                                        ),
                                    ),
                                );
                                proof {
                                    assert(bvs[j as int] == bands@[j as int]@);
                                    assert(qv(clause) == inner[j as int]);
                                }
                                push_query(&mut terms_acc, clause);
                                proof {
                                    assert(inner.subrange(0, j as int).push(inner[j as int]) =~= inner.subrange(0, j + 1));
                                    assert(qv_seq(terms_acc@) =~= acc0 + inner.subrange(0, j + 1));
                                }
                                j = j + 1;
                            }
                            proof {
                                assert(inner.subrange(0, inner.len() as int) =~= inner);
                                assert(qv_seq(terms_acc@) =~= spec_role_clauses(cur));
                                assert(basic_roles.deep_view() =~= spec_basic_roles(cur));
                            }
                        },
                        None => {
                            let ghost b0 = basic_roles.deep_view();
                            basic_roles.push(filter.role);
                            proof {
                                assert(basic_roles.deep_view() =~= b0.push(filter@.role));
                                assert(spec_basic_roles(cur) =~= b0.push(filter@.role));
                                assert(qv_seq(terms_acc@) =~= spec_role_clauses(cur));
                            }
                        },
                    }
                },
                None => {
                    proof {
                        assert(qv_seq(terms_acc@) =~= spec_role_clauses(cur));
                        assert(basic_roles.deep_view() =~= spec_basic_roles(cur));
                    }
                },
            }
            i = i + 1;
        }
        proof {
            assert(items.subrange(0, items.len() as int) =~= items);
        }
        let basic_terms = str_terms("desired_work_roles.raw", &basic_roles);
        concat_queries(&mut terms_acc, basic_terms);
        proof {
            assert(qv_seq(terms_acc@) =~= spec_desired_roles_filters(params@));
        }
        terms_acc
    }
}

/// The view of a field-override list.
pub open spec fn ovs_view(s: Seq<(String, String)>) -> Seq<(Seq<char>, Seq<char>)> {
    s.map_values(|p: (String, String)| (p.0@, p.1@))
}

/// The override suffix of a field: the first entry for it, or nothing.
pub open spec fn ov_of(ovs: Seq<(Seq<char>, Seq<char>)>, f: Seq<char>) -> Seq<char>
    decreases ovs.len(),
{
    if ovs.len() == 0 {
        Seq::empty()
    } else if ovs[0].0 == f {
        ovs[0].1
    } else {
        ov_of(ovs.drop_first(), f)
    }
}

/// A searched field's effective name: the field, its override suffix, and
/// `.raw` when the keyword asks for the exact-phrase variant.
pub open spec fn field_name_v(f: Seq<char>, ovs: Seq<(Seq<char>, Seq<char>)>, raw: bool) -> Seq<
    char,
> {
    f + ov_of(ovs, f) + if raw {
        ".raw"@
    } else {
        Seq::<char>::empty()
    }
}

/// The six searched fields under the given overrides.
pub open spec fn keyword_fields_v(ovs: Seq<(Seq<char>, Seq<char>)>, raw: bool) -> Seq<Seq<char>> {
    seq![
        field_name_v("skills"@, ovs, raw),
        field_name_v("summary"@, ovs, raw),
        field_name_v("headline"@, ovs, raw),
        field_name_v("desired_work_roles"@, ovs, raw),
        field_name_v("work_experiences"@, ovs, raw),
        field_name_v("educations"@, ovs, raw),
    ]
}

/// The keyword clause: none when `keywords` is absent, mistyped or empty;
/// else a query-string search over the six text fields, against their
/// `.raw` variants when the keyword holds a double quote.
pub open spec fn spec_full_text_search(
    m: Seq<(Seq<char>, ParamValueV)>,
    ovs: Seq<(Seq<char>, Seq<char>)>,
) -> Option<QueryV> {
    match lookup(m, "keywords"@) {
        Some(ParamValueV::Str(kw)) => if kw.len() == 0 {
            None
        } else {
            Some(QueryV::QueryString { query: kw, fields: keyword_fields_v(ovs, kw.contains('"')) })
        },
        _ => None,
    }
}

/// A searched field's effective name under the overrides.
fn field_with(f: &str, overrides: &Vec<(String, String)>, raw: bool) -> (r: String)
    ensures
        r@ == field_name_v(f@, ovs_view(overrides@), raw),
{
    let ghost ovs = ovs_view(overrides@);
    let mut s = String::new();
    s.append(f);
    let n = overrides.len();
    proof {
        assert(ovs.subrange(0, n as int) =~= ovs);
    }
    let mut i: usize = 0;
    let mut suffix_done = false;
    while i < n && !suffix_done
        invariant
            i <= n,
            n == overrides@.len(),
            ovs == ovs_view(overrides@),
            ovs.len() == n,
            suffix_done ==> s@ == f@ + ov_of(ovs, f@),
            !suffix_done ==> s@ == f@ && ov_of(ovs, f@) == ov_of(
                ovs.subrange(i as int, n as int),
                f@,
            ),
        decreases n - i + (if suffix_done { 0int } else { 1int }),
    {
        proof {
            let tail = ovs.subrange(i as int, n as int);
            assert(tail[0] == ovs[i as int]);
            assert(ovs[i as int] == (overrides@[i as int].0@, overrides@[i as int].1@));
            assert(tail.drop_first() =~= ovs.subrange(i + 1, n as int));
        }
        if crate::text::str_eq(overrides[i].0.as_str(), f) {
            s.append(overrides[i].1.as_str());
            suffix_done = true;
        } else {
            i = i + 1;
        }
    }
    proof {
        if !suffix_done {
            assert(ovs.subrange(n as int, n as int) =~= Seq::<(Seq<char>, Seq<char>)>::empty());
            assert(s@ =~= f@ + ov_of(ovs, f@));
        }
    }
    if raw {
        s.append(".raw");
        proof {
            assert(s@ =~= field_name_v(f@, ovs, raw));
        }
    } else {
        proof {
            assert(s@ =~= field_name_v(f@, ovs, raw));
        }
    }
    s
}

impl Talent {
    /// The keyword clause of the request, if the request carries keywords.
    pub fn full_text_search(params: &ParamMap, overrides: &Vec<(String, String)>) -> (r: Option<
        Query,
    >)
        ensures
            match r {
                Some(q) => spec_full_text_search(params@, ovs_view(overrides@)) == Some(qv(q)),
                None => spec_full_text_search(params@, ovs_view(overrides@)) is None,
            },
    {
        let keywords: &String = match params.get("keywords") {
            Some(ParamValue::Str(kw)) => kw,
            _ => {
                return None;
            },
        };
        if keywords.as_str().is_empty() {
            return None;
        }
        let raw = str_contains_char(keywords.as_str(), '"');
        let mut fields: Vec<String> = Vec::new();
        fields.push(field_with("skills", overrides, raw));
        fields.push(field_with("summary", overrides, raw));
        fields.push(field_with("headline", overrides, raw));
        fields.push(field_with("desired_work_roles", overrides, raw));
        fields.push(field_with("work_experiences", overrides, raw));
        fields.push(field_with("educations", overrides, raw));
        let q = Query::QueryString { query: keywords.clone(), fields };
        proof {
            assert(qv(q)->QueryString_fields =~= keyword_fields_v(ovs_view(overrides@), raw));
            assert(qv(q) == (QueryV::QueryString {
                query: keywords@,
                fields: keyword_fields_v(ovs_view(overrides@), raw),
            }));
        }
        Some(q)
    }
}

/// Whether the planner feature `name` is switched on by `features[]`.
pub open spec fn spec_feature_on(m: Seq<(Seq<char>, ParamValueV)>, name: Seq<char>) -> bool {
    spec_vec_from_params(m, "features"@).contains(name)
}

/// The field overrides in force: the keyword-analyzed variants of the
/// three prose fields when full-text search is switched off.
pub open spec fn spec_overrides(no_fulltext: bool) -> Seq<(Seq<char>, Seq<char>)> {
    if no_fulltext {
        seq![("summary"@, ".keyword"@), ("headline"@, ".keyword"@), ("skills"@, ".keyword"@)]
    } else {
        Seq::empty()
    }
}

/// The keyword clause as a compartment piece: one clause or none.
pub open spec fn spec_keyword_filter(m: Seq<(Seq<char>, ParamValueV)>) -> Seq<QueryV> {
    match spec_full_text_search(
        m,
        spec_overrides(spec_feature_on(m, "no_fulltext_search"@)),
    ) {
        Some(q) => seq![q],
        None => Seq::empty(),
    }
}

/// The per-language equality terms, all of which must hold.
pub open spec fn spec_languages_bool(m: Seq<(Seq<char>, ParamValueV)>) -> QueryV {
    bool_must_v(
        spec_vec_from_params(m, "languages"@).map_values(
            |l: Seq<char>| term_str_v("languages"@, l),
        ),
    )
}

/// The `must` compartment: language terms, the OR filters over the simple
/// fields, bookmarked ids, the visibility filter, and — unless the
/// `keywords_should` feature moves it — the keyword clause.
pub open spec fn spec_must_filters(m: Seq<(Seq<char>, ParamValueV)>, epoch: Seq<char>) -> Seq<
    QueryV,
> {
    seq![spec_languages_bool(m)] + spec_str_terms(
        "professional_experience"@,
        spec_vec_from_params(m, "professional_experience"@),
    ) + spec_str_terms("work_authorization"@, spec_vec_from_params(m, "work_authorization"@))
        + spec_str_terms("work_locations"@, spec_vec_from_params(m, "work_locations"@))
        + spec_str_terms("current_location"@, spec_vec_from_params(m, "current_location"@))
        + spec_i32_terms("id"@, spec_i32_vec_from_maybe_csv_params(m, "bookmarked_talents"@))
        + spec_visibility_filters(
        epoch,
        spec_i32_vec_from_params(m, "presented_talents"@),
        lookup(m, "epoch"@) is Some,
    ) + (if spec_feature_on(m, "keywords_should"@) {
        Seq::<QueryV>::empty()
    } else {
        spec_keyword_filter(m)
    })
}

/// The `should` compartment: the keyword clause when the `keywords_should`
/// feature asks for alternatives rather than a requirement.
pub open spec fn spec_should_filters(m: Seq<(Seq<char>, ParamValueV)>) -> Seq<QueryV> {
    if spec_feature_on(m, "keywords_should"@) {
        spec_keyword_filter(m)
    } else {
        Seq::empty()
    }
}

/// The non-scoring `filter` compartment: the salary alternatives and the
/// desired-role alternatives, both of which groups must hold.
pub open spec fn spec_filter_compartment(m: Seq<(Seq<char>, ParamValueV)>) -> QueryV {
    bool_must_v(
        seq![
            bool_should_v(spec_salary_filters(m)),
            bool_should_v(spec_desired_roles_filters(m)),
        ],
    )
}

/// The `must_not` compartment: talents already contacted by or blocking
/// the company, and explicitly contacted or ignored ids.
pub open spec fn spec_must_not_filters(m: Seq<(Seq<char>, ParamValueV)>) -> Seq<QueryV> {
    let cid = spec_i32_vec_from_params(m, "company_id"@);
    spec_i32_terms("contacted_company_ids"@, cid) + spec_i32_terms("blocked_companies"@, cid)
        + spec_i32_terms("id"@, spec_i32_vec_from_maybe_csv_params(m, "contacted_talents"@))
        + spec_i32_terms("id"@, spec_i32_vec_from_maybe_csv_params(m, "ignored_talents"@))
}

/// The whole search query of one request.
pub open spec fn spec_search_filters(m: Seq<(Seq<char>, ParamValueV)>, epoch: Seq<char>) -> QueryV {
    QueryV::Bool {
        must: spec_must_filters(m, epoch),
        should: spec_should_filters(m),
        filter: seq![spec_filter_compartment(m)],
        must_not: spec_must_not_filters(m),
    }
}

impl Talent {
    /// Plan the search query for the request's parameters at `epoch`.
    ///
    /// Within one multi-valued parameter the values are alternatives;
    /// across parameters the filters all apply. Mistyped or unparseable
    /// parameters impose no constraint.
    #[verifier::spinoff_prover]
    #[verifier::rlimit(60)]
    pub fn search_filters(params: &ParamMap, epoch: &str) -> (r: Query)
        ensures
            qv(r) == spec_search_filters(params@, epoch@),
    {
        let company_id: Vec<i32> = i32_vec_from_params(params, "company_id");
        let date_filter_present = match params.get("epoch") {
            Some(_) => true,
            None => false,
        };
        let features: Vec<String> = vec_from_params(params, "features");
        let no_fulltext = vec_contains_str(&features, "no_fulltext_search");
        let keywords_use_should = vec_contains_str(&features, "keywords_should");

        let languages: Vec<String> = vec_from_params(params, "languages");
        let ghost langs = languages.deep_view();
        let mut lang_terms: Vec<Query> = Vec::new();
        let ghost lang_target = langs.map_values(|l: Seq<char>| term_str_v("languages"@, l));
        let mut i: usize = 0;
        while i < languages.len()
            invariant
                i <= languages@.len(),
                langs == languages.deep_view(),
                langs.len() == languages@.len(),
                lang_target == langs.map_values(|l: Seq<char>| term_str_v("languages"@, l)),
                lang_target.len() == langs.len(),
                qv_seq(lang_terms@) == lang_target.subrange(0, i as int),
            decreases languages@.len() - i,
        {
            let t = Query::term_str("languages", languages[i].as_str());
            proof {
                assert(langs[i as int] == languages@[i as int]@);
                assert(qv(t) == lang_target[i as int]);
            }
            push_query(&mut lang_terms, t);
            proof {
                assert(lang_target.subrange(0, i as int).push(lang_target[i as int])
                    =~= lang_target.subrange(0, i + 1));
            }
            i = i + 1;
        }
        proof {
            assert(lang_target.subrange(0, lang_target.len() as int) =~= lang_target);
        }
        let languages_bool = Query::bool_must(lang_terms);
        proof {
            assert(qv(languages_bool)->Bool_must =~= spec_languages_bool(params@)->Bool_must);
            assert(qv(languages_bool) == spec_languages_bool(params@));
        }

        let mut must: Vec<Query> = Vec::new();
        push_query(&mut must, languages_bool);
        let pe = vec_from_params(params, "professional_experience");
        concat_queries(&mut must, str_terms("professional_experience", &pe));
        let wa = vec_from_params(params, "work_authorization");
        concat_queries(&mut must, str_terms("work_authorization", &wa));
        let wl = vec_from_params(params, "work_locations");
        concat_queries(&mut must, str_terms("work_locations", &wl));
        let cl = vec_from_params(params, "current_location");
        concat_queries(&mut must, str_terms("current_location", &cl));
        let bookmarked = i32_vec_from_maybe_csv_params(params, "bookmarked_talents");
        concat_queries(&mut must, i32_terms("id", &bookmarked));
        let presented = i32_vec_from_params(params, "presented_talents");
        concat_queries(
            &mut must,
            Talent::visibility_filters(epoch, presented, date_filter_present),
        );

        let mut overrides: Vec<(String, String)> = Vec::new();
        if no_fulltext {
            overrides.push(("summary".to_owned(), ".keyword".to_owned()));
            overrides.push(("headline".to_owned(), ".keyword".to_owned()));
            overrides.push(("skills".to_owned(), ".keyword".to_owned()));
        }
        proof {
            assert(ovs_view(overrides@) =~= spec_overrides(no_fulltext));
        }
        let mut keyword_filter: Vec<Query> = Vec::new();
        match Talent::full_text_search(params, &overrides) {
            Some(q) => {
                push_query(&mut keyword_filter, q);
            },
            None => {},
        }
        proof {
            assert(qv_seq(keyword_filter@) =~= spec_keyword_filter(params@));
        }

        let mut should: Vec<Query> = Vec::new();
        if keywords_use_should {
            concat_queries(&mut should, keyword_filter);
        } else {
            concat_queries(&mut must, keyword_filter);
        }

        let filter_inner = Query::bool_must2(
            Query::bool_should(Talent::salary_expectations_filters(params)),
            Query::bool_should(Talent::desired_roles_filters(params)),
        );
        let mut filter_vec: Vec<Query> = Vec::new();
        push_query(&mut filter_vec, filter_inner);

        let mut must_not: Vec<Query> = Vec::new();
        concat_queries(&mut must_not, i32_terms("contacted_company_ids", &company_id));
        concat_queries(&mut must_not, i32_terms("blocked_companies", &company_id));
        let contacted = i32_vec_from_maybe_csv_params(params, "contacted_talents");
        concat_queries(&mut must_not, i32_terms("id", &contacted));
        let ignored = i32_vec_from_maybe_csv_params(params, "ignored_talents");
        concat_queries(&mut must_not, i32_terms("id", &ignored));

        let r = Query::Bool { must, should, filter: filter_vec, must_not };
        proof {
            assert(qv(r)->Bool_must =~= spec_must_filters(params@, epoch@));
            assert(qv(r)->Bool_should =~= spec_should_filters(params@));
            assert(qv(r)->Bool_filter =~= seq![spec_filter_compartment(params@)]);
            assert(qv(r)->Bool_must_not =~= spec_must_not_filters(params@));
            assert(qv(r) == spec_search_filters(params@, epoch@));
        }
        r
    }
}

/// One sort criterion: a field, a direction, and the type assumed for
/// indexes that have not seen the field yet.
#[derive(Debug, Clone)]
pub struct SortField {
    pub field: String,
    pub order: String,
    pub unmapped_type: Option<String>,
}

/// Mathematical view of `SortField`.
pub struct SortFieldV {
    pub field: Seq<char>,
    pub order: Seq<char>,
    pub unmapped_type: Option<Seq<char>>,
}

impl View for SortField {
    type V = SortFieldV;

    open spec fn view(&self) -> SortFieldV {
        SortFieldV {
            field: self.field@,
            order: self.order@,
            unmapped_type: match self.unmapped_type {
                Some(u) => Some(u@),
                None => None,
            },
        }
    }
}

/// An ordered list of sort criteria.
#[derive(Debug, Clone)]
pub struct Sort {
    pub fields: Vec<SortField>,
}

impl View for Sort {
    type V = Seq<SortFieldV>;

    open spec fn view(&self) -> Seq<SortFieldV> {
        self.fields@.map_values(|f: SortField| f@)
    }
}

/// A descending sort on `field` with an unmapped-type fallback.
pub open spec fn desc_sort_v(field: Seq<char>, unmapped: Seq<char>) -> SortFieldV {
    SortFieldV { field: field, order: "desc"@, unmapped_type: Some(unmapped) }
}

/// The default sort: newest batch first, then weight, then the time the
/// talent joined its batch.
pub open spec fn spec_sorting_criteria() -> Seq<SortFieldV> {
    seq![
        desc_sort_v("batch_starts_at"@, "date"@),
        desc_sort_v("weight"@, "integer"@),
        desc_sort_v("added_to_batch_at"@, "date"@),
    ]
}

fn desc_sort(field: &str, unmapped: &str) -> (r: SortField)
    ensures
        r@ == desc_sort_v(field@, unmapped@),
{
    SortField {
        field: field.to_owned(),
        order: "desc".to_owned(),
        unmapped_type: Some(unmapped.to_owned()),
    }
}

impl Talent {
    /// The default sort applied when no keyword scoring orders the results.
    pub fn sorting_criteria() -> (r: Sort)
        ensures
            r@ == spec_sorting_criteria(),
    {
        let mut fields: Vec<SortField> = Vec::new();
        fields.push(desc_sort("batch_starts_at", "date"));
        fields.push(desc_sort("weight", "integer"));
        fields.push(desc_sort("added_to_batch_at", "date"));
        let r = Sort { fields };
        proof {
            assert(r@ =~~= spec_sorting_criteria());
        }
        r
    }
}

/// The reference epoch of the request: the `epoch` parameter, or the
/// caller's clock reading.
pub open spec fn spec_epoch_param(m: Seq<(Seq<char>, ParamValueV)>, now: Seq<char>) -> Seq<char> {
    match lookup(m, "epoch"@) {
        Some(ParamValueV::Str(s)) => s,
        _ => now,
    }
}

/// The target index override, if the request names one.
pub open spec fn spec_index_param(m: Seq<(Seq<char>, ParamValueV)>) -> Option<Seq<char>> {
    match lookup(m, "index"@) {
        Some(ParamValueV::Str(s)) => Some(s),
        _ => None,
    }
}

/// Whether the request carries a non-empty keyword.
pub open spec fn spec_keywords_present(m: Seq<(Seq<char>, ParamValueV)>) -> bool {
    match lookup(m, "keywords"@) {
        Some(ParamValueV::Str(k)) => k.len() > 0,
        _ => false,
    }
}

/// The paging offset; anything unreadable counts from the start.
pub open spec fn spec_offset(m: Seq<(Seq<char>, ParamValueV)>) -> u64 {
    match lookup(m, "offset"@) {
        Some(ParamValueV::Str(s)) => match crate::text::spec_parse_u64(s) {
            Some(v) => v,
            None => 0,
        },
        Some(ParamValueV::U64(v)) => v,
        _ => 0,
    }
}

/// The page size: ten when absent or unreadable, and ten again when a
/// request asks for zero rows.
pub open spec fn spec_per_page(m: Seq<(Seq<char>, ParamValueV)>) -> u64 {
    let raw = match lookup(m, "per_page"@) {
        Some(ParamValueV::Str(s)) => match crate::text::spec_parse_u64(s) {
            Some(v) => v,
            None => 10,
        },
        Some(ParamValueV::U64(v)) => v,
        _ => 10,
    };
    if raw == 0 {
        10
    } else {
        raw
    }
}

/// Whether the response should echo the engine's on-wire query.
pub open spec fn spec_debug_es_query(m: Seq<(Seq<char>, ParamValueV)>) -> bool {
    match lookup(m, "debug_es_query"@) {
        Some(ParamValueV::Str(s)) => s == "true"@,
        _ => false,
    }
}

/// The highlighted fields of a keyword search: the `.raw` variants for a
/// quoted keyword, else the fields with their keyword-analyzed variants.
pub open spec fn spec_highlight_fields(m: Seq<(Seq<char>, ParamValueV)>) -> Seq<Seq<char>> {
    if !spec_keywords_present(m) {
        Seq::empty()
    } else {
        let quoted = match lookup(m, "keywords"@) {
            Some(ParamValueV::Str(k)) => k.contains('"'),
            _ => false,
        };
        if quoted {
            seq![
                "skills.raw"@,
                "summary.raw"@,
                "headline.raw"@,
                "desired_work_roles.raw"@,
                "work_experiences.raw"@,
                "educations.raw"@,
            ]
        } else {
            seq![
                "skills"@,
                "skills.keyword"@,
                "summary"@,
                "summary.keyword"@,
                "headline"@,
                "headline.keyword"@,
                "desired_work_roles"@,
                "work_experiences"@,
                "educations"@,
            ]
        }
    }
}

/// Everything one search request asks of the engine, planned from the
/// parameters: the query tree, paging, sorting or score-gated
/// highlighting, and the debug echo.
pub struct SearchPlan {
    pub index: Option<String>,
    pub epoch: String,
    pub keywords_present: bool,
    pub offset: u64,
    pub per_page: u64,
    pub debug_es_query: bool,
    pub query: Query,
    pub sort: Option<Sort>,
    pub highlight_fields: Vec<String>,
}

impl Talent {
    /// Plan a whole search from the request's parameters, reading the
    /// clock as `now`. A keyword search ranks by relevance behind a
    /// minimum score and highlights the matched fragments; any other
    /// search orders by the default criteria.
    pub fn search_plan(params: &ParamMap, now: &str) -> (r: SearchPlan)
        ensures
            r.epoch@ == spec_epoch_param(params@, now@),
            match r.index {
                Some(s) => spec_index_param(params@) == Some(s@),
                None => spec_index_param(params@) is None,
            },
            r.keywords_present == spec_keywords_present(params@),
            r.offset == spec_offset(params@),
            r.per_page == spec_per_page(params@),
            r.per_page > 0,
            r.debug_es_query == spec_debug_es_query(params@),
            qv(r.query) == spec_search_filters(params@, spec_epoch_param(params@, now@)),
            r.highlight_fields.deep_view() == spec_highlight_fields(params@),
            r.keywords_present ==> r.sort is None,
            !r.keywords_present ==> match r.sort {
                Some(s) => s@ == spec_sorting_criteria(),
                None => false,
            },
    {
        let epoch: String = match params.get("epoch") {
            Some(ParamValue::Str(s)) => s.clone(),
            _ => now.to_owned(),
        };
        let index: Option<String> = match params.get("index") {
            Some(ParamValue::Str(s)) => Some(s.clone()),
            _ => None,
        };
        let (keywords_present, quoted): (bool, bool) = match params.get("keywords") {
            Some(ParamValue::Str(k)) => (
                !k.as_str().is_empty(),
                str_contains_char(k.as_str(), '"'),
            ),
            _ => (false, false),
        };
        let offset: u64 = match params.get("offset") {
            Some(ParamValue::Str(s)) => match crate::text::parse_u64(s.as_str()) {
                Some(v) => v,
                None => 0,
            },
            Some(ParamValue::U64(v)) => *v,
            _ => 0,
        };
        let per_page_raw: u64 = match params.get("per_page") {
            Some(ParamValue::Str(s)) => match crate::text::parse_u64(s.as_str()) {
                Some(v) => v,
                None => 10,
            },
            Some(ParamValue::U64(v)) => *v,
            _ => 10,
        };
        let per_page: u64 = if per_page_raw == 0 {
            10
        } else {
            per_page_raw
        };
        let debug_es_query: bool = match params.get("debug_es_query") {
            Some(ParamValue::Str(s)) => crate::text::str_eq(s.as_str(), "true"),
            _ => false,
        };
        let query = Talent::search_filters(params, epoch.as_str());
        let sort: Option<Sort> = if keywords_present {
            None
        } else {
            Some(Talent::sorting_criteria())
        };
        let mut highlight_fields: Vec<String> = Vec::new();
        if keywords_present {
            if quoted {
                highlight_fields.push("skills.raw".to_owned());
                highlight_fields.push("summary.raw".to_owned());
                highlight_fields.push("headline.raw".to_owned());
                highlight_fields.push("desired_work_roles.raw".to_owned());
                highlight_fields.push("work_experiences.raw".to_owned());
                highlight_fields.push("educations.raw".to_owned());
            } else {
                highlight_fields.push("skills".to_owned());
                highlight_fields.push("skills.keyword".to_owned());
                highlight_fields.push("summary".to_owned());
                highlight_fields.push("summary.keyword".to_owned());
                highlight_fields.push("headline".to_owned());
                highlight_fields.push("headline.keyword".to_owned());
                highlight_fields.push("desired_work_roles".to_owned());
                highlight_fields.push("work_experiences".to_owned());
                highlight_fields.push("educations".to_owned());
            }
        }
        proof {
            assert(highlight_fields.deep_view() =~~= spec_highlight_fields(params@));
        }
        SearchPlan {
            index,
            epoch,
            keywords_present,
            offset,
            per_page,
            debug_es_query,
            query,
            sort,
            highlight_fields,
        }
    }

    /// Plan a whole search, reading the clock for the reference epoch when
    /// the request does not name one. Whatever instant the clock returned,
    /// the plan is the one `search_plan` makes at the plan's own epoch.
    pub fn search_plan_now(params: &ParamMap) -> (r: SearchPlan)
        ensures
            match lookup(params@, "epoch"@) {
                Some(ParamValueV::Str(s)) => r.epoch@ == s,
                _ => true,
            },
            match r.index {
                Some(s) => spec_index_param(params@) == Some(s@),
                None => spec_index_param(params@) is None,
            },
            r.keywords_present == spec_keywords_present(params@),
            r.offset == spec_offset(params@),
            r.per_page == spec_per_page(params@),
            r.per_page > 0,
            r.debug_es_query == spec_debug_es_query(params@),
            qv(r.query) == spec_search_filters(params@, r.epoch@),
            r.highlight_fields.deep_view() == spec_highlight_fields(params@),
            r.keywords_present ==> r.sort is None,
            !r.keywords_present ==> match r.sort {
                Some(s) => s@ == spec_sorting_criteria(),
                None => false,
            },
    {
        let now = crate::auth::now_rfc3339();
        Talent::search_plan(params, now.as_str())
    }
}

/// The serialized text of one sort criterion.
pub open spec fn sort_field_text(f: SortFieldV) -> Seq<char> {
    obj1(
        f.field,
        seq!['{'] + json_str_text("order"@) + seq![':'] + json_str_text(f.order) + (
        match f.unmapped_type {
            Some(u) => seq![','] + json_str_text("unmapped_type"@) + seq![':'] + json_str_text(u),
            None => Seq::<char>::empty(),
        }) + seq!['}'],
    )
}

/// Comma-separated texts of the sort criteria.
pub open spec fn sort_list_text(fs: Seq<SortFieldV>) -> Seq<char>
    decreases fs.len(),
{
    if fs.len() == 0 {
        Seq::empty()
    } else if fs.len() == 1 {
        sort_field_text(fs.last())
    } else {
        sort_list_text(fs.drop_last()) + seq![','] + sort_field_text(fs.last())
    }
}

/// The fixed per-field highlight settings: plain fragments of size one
/// with positions and offsets.
pub open spec fn highlight_settings_text() -> Seq<char> {
    seq!['{'] + json_str_text("type"@) + seq![':'] + json_str_text("plain"@) + seq![',']
        + json_str_text("term_vector"@) + seq![':'] + json_str_text("with_positions_offsets"@)
        + seq![','] + json_str_text("fragment_size"@) + seq![':'] + seq!['1'] + seq!['}']
}

/// Comma-separated `"field":settings` pairs of the highlighted fields.
pub open spec fn highlight_fields_text(fields: Seq<Seq<char>>) -> Seq<char>
    decreases fields.len(),
{
    if fields.len() == 0 {
        Seq::empty()
    } else if fields.len() == 1 {
        json_str_text(fields.last()) + seq![':'] + highlight_settings_text()
    } else {
        highlight_fields_text(fields.drop_last()) + seq![','] + json_str_text(fields.last())
            + seq![':'] + highlight_settings_text()
    }
}

/// The serialized highlight request: HTML encoding with empty tags, so
/// the client receives the raw matched fragment.
pub open spec fn highlight_text(fields: Seq<Seq<char>>) -> Seq<char> {
    seq!['{'] + json_str_text("encoder"@) + seq![':'] + json_str_text("html"@) + seq![',']
        + json_str_text("pre_tags"@) + seq![':'] + seq!['['] + json_str_text(Seq::<char>::empty())
        + seq![']'] + seq![','] + json_str_text("post_tags"@) + seq![':'] + seq!['[']
        + json_str_text(Seq::<char>::empty()) + seq![']'] + seq![','] + json_str_text("fields"@)
        + seq![':'] + seq!['{'] + highlight_fields_text(fields) + seq!['}'] + seq!['}']
}

/// The whole search body sent to the engine. A keyword search is gated by
/// a minimum relevance score, tracks scores and highlights; any other
/// search carries its sort criteria.
pub open spec fn spec_search_body(
    q: QueryV,
    sort: Option<Seq<SortFieldV>>,
    hl: Seq<Seq<char>>,
    from: u64,
    size: u64,
    gated: bool,
) -> Seq<char> {
    seq!['{'] + json_str_text("from"@) + seq![':'] + crate::text::dec_str(from as nat) + seq![',']
        + json_str_text("size"@) + seq![':'] + crate::text::dec_str(size as nat) + seq![',']
        + json_str_text("query"@) + seq![':'] + query_text(q) + (match sort {
        Some(fs) => seq![','] + json_str_text("sort"@) + seq![':'] + seq!['['] + sort_list_text(fs)
            + seq![']'],
        None => Seq::<char>::empty(),
    }) + (if gated {
        seq![','] + json_str_text("min_score"@) + seq![':'] + seq!['0', '.', '5', '6'] + seq![',']
            + json_str_text("track_scores"@) + seq![':'] + seq!['t', 'r', 'u', 'e'] + seq![',']
            + json_str_text("highlight"@) + seq![':'] + highlight_text(hl)
    } else {
        Seq::<char>::empty()
    }) + seq!['}']
}

/// Append one serialized sort criterion.
fn append_sort_field(out: &mut String, f: &SortField)
    ensures
        final(out)@ == old(out)@ + sort_field_text(f@),
{
    proof {
        reveal_strlit("{");
        reveal_strlit("}");
        reveal_strlit(":");
        reveal_strlit(",");
    }
    out.append("{");
    append_json_str(out, f.field.as_str());
    out.append(":");
    out.append("{");
    append_json_str(out, "order");
    out.append(":");
    append_json_str(out, f.order.as_str());
    if let Some(u) = &f.unmapped_type {
        out.append(",");
        append_json_str(out, "unmapped_type");
        out.append(":");
        append_json_str(out, u.as_str());
    }
    out.append("}");
    out.append("}");
    proof {
        assert(out@ =~= old(out)@ + sort_field_text(f@));
    }
}

/// Append the fixed highlight settings of one field.
fn append_highlight_settings(out: &mut String)
    ensures
        final(out)@ == old(out)@ + highlight_settings_text(),
{
    proof {
        reveal_strlit("{");
        reveal_strlit("}");
        reveal_strlit(":");
        reveal_strlit(",");
        reveal_strlit("1");
    }
    out.append("{");
    append_json_str(out, "type");
    out.append(":");
    append_json_str(out, "plain");
    out.append(",");
    append_json_str(out, "term_vector");
    out.append(":");
    append_json_str(out, "with_positions_offsets");
    out.append(",");
    append_json_str(out, "fragment_size");
    out.append(":");
    out.append("1");
    out.append("}");
    proof {
        assert(out@ =~= old(out)@ + highlight_settings_text());
    }
}

/// Append `[s1,s2,...]` for the sort criteria.
#[verifier::loop_isolation(false)]
fn append_sort(out: &mut String, sort: &Sort)
    ensures
        final(out)@ == old(out)@ + seq!['['] + sort_list_text(sort@) + seq![']'],
{
    proof {
        reveal_strlit("[");
        reveal_strlit("]");
        reveal_strlit(",");
    }
    out.append("[");
    let ghost svs = sort@;
    let ghost mid = out@;
    let mut i: usize = 0;
    while i < sort.fields.len()
        invariant
            i <= sort.fields@.len(),
            svs.len() == sort.fields@.len(),
            out@ == mid + sort_list_text(svs.subrange(0, i as int)),
        decreases sort.fields@.len() - i,
    {
        if i > 0 {
            out.append(",");
        }
        append_sort_field(out, &sort.fields[i]);
        proof {
            let cur = svs.subrange(0, i + 1);
            assert(cur.drop_last() =~= svs.subrange(0, i as int));
            assert(cur.last() == svs[i as int]);
            assert(svs[i as int] == sort.fields@[i as int]@);
            if i == 0 {
                assert(sort_list_text(cur) == sort_field_text(cur.last()));
            }
            assert(out@ =~= mid + sort_list_text(cur));
        }
        i = i + 1;
    }
    out.append("]");
    proof {
        assert(svs.subrange(0, svs.len() as int) =~= svs);
    }
}

/// Append the serialized highlight request over `fields`.
#[verifier::loop_isolation(false)]
#[verifier::spinoff_prover]
#[verifier::rlimit(100)]
fn append_highlight(out: &mut String, fields: &Vec<String>)
    ensures
        final(out)@ == old(out)@ + highlight_text(fields.deep_view()),
{
    proof {
        reveal_strlit("{");
        reveal_strlit("}");
        reveal_strlit("[");
        reveal_strlit("]");
        reveal_strlit(":");
        reveal_strlit(",");
        reveal_strlit("");
    }
    out.append("{");
    append_json_str(out, "encoder");
    out.append(":");
    append_json_str(out, "html");
    out.append(",");
    append_json_str(out, "pre_tags");
    out.append(":");
    out.append("[");
    append_json_str(out, "");
    out.append("]");
    out.append(",");
    append_json_str(out, "post_tags");
    out.append(":");
    out.append("[");
    append_json_str(out, "");
    out.append("]");
    out.append(",");
    append_json_str(out, "fields");
    out.append(":");
    out.append("{");
    let ghost hvs = fields.deep_view();
    let ghost mid = out@;
    let mut i: usize = 0;
    while i < fields.len()
        invariant
            i <= fields@.len(),
            hvs.len() == fields@.len(),
            out@ == mid + highlight_fields_text(hvs.subrange(0, i as int)),
        decreases fields@.len() - i,
    {
        if i > 0 {
            out.append(",");
        }
        append_json_str(out, fields[i].as_str());
        out.append(":");
        append_highlight_settings(out);
        proof {
            let cur = hvs.subrange(0, i + 1);
            assert(cur.drop_last() =~= hvs.subrange(0, i as int));
            assert(cur.last() == hvs[i as int]);
            assert(hvs[i as int] == fields@[i as int]@);
            if i == 0 {
                assert(highlight_fields_text(cur) == json_str_text(cur.last()) + seq![':']
                    + highlight_settings_text());
            }
            assert(out@ =~= mid + highlight_fields_text(cur));
        }
        i = i + 1;
    }
    out.append("}");
    out.append("}");
    proof {
        assert(hvs.subrange(0, hvs.len() as int) =~= hvs);
        assert(out@ =~= old(out)@ + highlight_text(hvs));
    }
}

impl SearchPlan {
    /// The search body this plan sends to the engine, on the wire.
    #[verifier::spinoff_prover]
    #[verifier::rlimit(100)]
    pub fn body_json(&self) -> (r: String)
        ensures
            r@ == spec_search_body(
                qv(self.query),
                match self.sort {
                    Some(s) => Some(s@),
                    None => None,
                },
                self.highlight_fields.deep_view(),
                self.offset,
                self.per_page,
                self.keywords_present,
            ),
    {
        proof {
            reveal_strlit("{");
            reveal_strlit("}");
            reveal_strlit("[");
            reveal_strlit("]");
            reveal_strlit(":");
            reveal_strlit(",");
            reveal_strlit("0.56");
            reveal_strlit("true");
        }
        let mut out = String::new();
        out.append("{");
        append_json_str(&mut out, "from");
        out.append(":");
        crate::text::append_u64(&mut out, self.offset);
        out.append(",");
        append_json_str(&mut out, "size");
        out.append(":");
        crate::text::append_u64(&mut out, self.per_page);
        out.append(",");
        append_json_str(&mut out, "query");
        out.append(":");
        self.query.append_json(&mut out);
        if let Some(sort) = &self.sort {
            out.append(",");
            append_json_str(&mut out, "sort");
            out.append(":");
            append_sort(&mut out, sort);
        }
        if self.keywords_present {
            out.append(",");
            append_json_str(&mut out, "min_score");
            out.append(":");
            out.append("0.56");
            out.append(",");
            append_json_str(&mut out, "track_scores");
            out.append(":");
            out.append("true");
            out.append(",");
            append_json_str(&mut out, "highlight");
            out.append(":");
            append_highlight(&mut out, &self.highlight_fields);
        }
        out.append("}");
        proof {
            assert(out@ =~= spec_search_body(
                qv(self.query),
                match self.sort {
                    Some(s) => Some(s@),
                    None => None,
                },
                self.highlight_fields.deep_view(),
                self.offset,
                self.per_page,
                self.keywords_present,
            ));
        }
        out
    }

    /// The engine's on-wire request for this plan against `default_index`:
    /// the method line, then the body. This is the text a debugging client
    /// receives back.
    pub fn raw_es_query(&self, default_index: &str) -> (r: String)
        ensures
            r@ == "POST /"@ + (match self.index {
                Some(idx) => idx@,
                None => default_index@,
            }) + "/_search\n"@ + spec_search_body(
                qv(self.query),
                match self.sort {
                    Some(s) => Some(s@),
                    None => None,
                },
                self.highlight_fields.deep_view(),
                self.offset,
                self.per_page,
                self.keywords_present,
            ),
            r@.len() > 0,
    {
        let mut out = String::new();
        out.append("POST /");
        match &self.index {
            Some(idx) => out.append(idx.as_str()),
            None => out.append(default_index),
        }
        out.append("/_search\n");
        let body = self.body_json();
        out.append(body.as_str());
        proof {
            reveal_strlit("POST /");
            assert(out@.len() > 0);
        }
        out
    }
}

/// Mathematical view of `RolesExperience`.
pub struct RolesExperienceV {
    pub role: Seq<char>,
    pub experience: Seq<char>,
}

impl View for RolesExperience {
    type V = RolesExperienceV;

    open spec fn view(&self) -> RolesExperienceV {
        RolesExperienceV { role: self.role@, experience: self.experience@ }
    }
}

impl DeepView for RolesExperience {
    type V = RolesExperienceV;

    open spec fn deep_view(&self) -> RolesExperienceV {
        self.view()
    }
}

/// Mathematical view of `SalaryExpectations`.
pub struct SalaryExpectationsV {
    pub minimum: Option<u64>,
    pub currency: Seq<char>,
    pub city: Seq<char>,
}

impl View for SalaryExpectations {
    type V = SalaryExpectationsV;

    open spec fn view(&self) -> SalaryExpectationsV {
        SalaryExpectationsV { minimum: self.minimum, currency: self.currency@, city: self.city@ }
    }
}

impl DeepView for SalaryExpectations {
    type V = SalaryExpectationsV;

    open spec fn deep_view(&self) -> SalaryExpectationsV {
        self.view()
    }
}

/// Copy a vector of strings, keeping its contents.
fn copy_strings(v: &Vec<String>) -> (r: Vec<String>)
    ensures
        r.deep_view() == v.deep_view(),
{
    let mut r: Vec<String> = Vec::new();
    let mut i: usize = 0;
    while i < v.len()
        invariant
            i <= v@.len(),
            r@.len() == i,
            forall|k: int| 0 <= k < i ==> r@[k]@ == v@[k]@,
        decreases v@.len() - i,
    {
        r.push(v[i].clone());
        i = i + 1;
    }
    proof {
        assert(r.deep_view() =~= v.deep_view());
    }
    r
}

/// Copy a vector of salary expectations, keeping its contents.
fn copy_salaries(v: &Vec<SalaryExpectations>) -> (r: Vec<SalaryExpectations>)
    ensures
        r.deep_view() == v.deep_view(),
{
    let mut r: Vec<SalaryExpectations> = Vec::new();
    let mut i: usize = 0;
    while i < v.len()
        invariant
            i <= v@.len(),
            r@.len() == i,
            forall|k: int| 0 <= k < i ==> r@[k]@ == v@[k]@,
        decreases v@.len() - i,
    {
        r.push(
            SalaryExpectations {
                minimum: v[i].minimum,
                currency: v[i].currency.clone(),
                city: v[i].city.clone(),
            },
        );
        i = i + 1;
    }
    proof {
        assert(r.deep_view() =~= v.deep_view());
    }
    r
}

/// The roles paired from the two legacy parallel sequences: one pair per
/// role, with the empty band where the experience sequence runs short.
pub open spec fn spec_roles_experiences(roles: Seq<Seq<char>>, exps: Seq<Seq<char>>) -> Seq<
    RolesExperienceV,
> {
    Seq::new(
        roles.len(),
        |i: int|
            RolesExperienceV {
                role: roles[i],
                experience: if i < exps.len() {
                    exps[i]
                } else {
                    Seq::empty()
                },
            },
    )
}

/// The projection of a talent that search returns.
#[derive(Debug, Clone)]
pub struct FoundTalent {
    pub id: u32,
    pub headline: String,
    pub avatar_url: String,
    pub work_locations: Vec<String>,
    pub current_location: String,
    pub salary_expectations: Vec<SalaryExpectations>,
    pub roles_experiences: Vec<RolesExperience>,
    pub latest_position: String,
    pub batch_starts_at: String,
}

impl FoundTalent {
    /// Project a talent onto the fields search exposes, pairing the two
    /// legacy role sequences into one structured list.
    pub fn from_talent(talent: &Talent) -> (r: FoundTalent)
        ensures
            r.id == talent.id,
            r.headline@ == talent.headline@,
            r.avatar_url@ == talent.avatar_url@,
            r.work_locations.deep_view() == talent.work_locations.deep_view(),
            r.current_location@ == talent.current_location@,
            r.salary_expectations.deep_view() == talent.salary_expectations.deep_view(),
            r.roles_experiences.deep_view() == spec_roles_experiences(
                talent.desired_work_roles.deep_view(),
                talent.desired_work_roles_experience.deep_view(),
            ),
            r.latest_position@ == talent.latest_position@,
            r.batch_starts_at@ == talent.batch_starts_at@,
    {
        let mut roles_experiences: Vec<RolesExperience> = Vec::new();
        let n = talent.desired_work_roles.len();
        let mut i: usize = 0;
        while i < n
            invariant
                i <= n,
                n == talent.desired_work_roles@.len(),
                roles_experiences@.len() == i,
                forall|k: int|
                    0 <= k < i ==> roles_experiences@[k]@ == spec_roles_experiences(
                        talent.desired_work_roles.deep_view(),
                        talent.desired_work_roles_experience.deep_view(),
                    )[k],
            decreases n - i,
        {
            let experience: Option<&String> = if i < talent.desired_work_roles_experience.len() {
                Some(&talent.desired_work_roles_experience[i])
            } else {
                None
            };
            roles_experiences.push(
                RolesExperience::new(talent.desired_work_roles[i].as_str(), experience),
            );
            i = i + 1;
        }
        let r = FoundTalent {
            id: talent.id,
            headline: talent.headline.clone(),
            avatar_url: talent.avatar_url.clone(),
            work_locations: copy_strings(&talent.work_locations),
            current_location: talent.current_location.clone(),
            salary_expectations: copy_salaries(&talent.salary_expectations),
            roles_experiences,
            latest_position: talent.latest_position.clone(),
            batch_starts_at: talent.batch_starts_at.clone(),
        };
        proof {
            assert(r.roles_experiences.deep_view() =~= spec_roles_experiences(
                talent.desired_work_roles.deep_view(),
                talent.desired_work_roles_experience.deep_view(),
            ));
        }
        r
    }
}

/// One search hit: the projected talent and, for keyword searches, the
/// matched fragments by field.
#[derive(Debug, Clone)]
pub struct SearchResult {
    pub talent: FoundTalent,
    pub highlight: Option<Vec<(String, Vec<String>)>>,
}

/// A page of search results, with the on-wire query echoed back when the
/// request asked to see it.
#[derive(Debug)]
pub struct SearchResults {
    pub total: u64,
    pub talents: Vec<SearchResult>,
    pub raw_es_query: Option<String>,
}

impl Default for SearchResults {
    /// The empty page.
    fn default() -> (r: SearchResults)
        ensures
            r.total == 0,
            r.talents@.len() == 0,
            r.raw_es_query is None,
    {
        SearchResults { total: 0, talents: Vec::new(), raw_es_query: None }
    }
}

impl SearchResults {
    /// Assemble the response from what came back from the engine: a read
    /// failure or an empty page yields the empty result — never an error —
    /// and the echoed query is kept only on success.
    pub fn from_outcome(
        outcome: Option<(u64, Vec<SearchResult>)>,
        raw_es_query: Option<String>,
    ) -> (r: SearchResults)
        ensures
            match outcome {
                None => r.total == 0 && r.talents@.len() == 0 && r.raw_es_query is None,
                Some((total, hits)) => {
                    &&& r.raw_es_query == raw_es_query
                    &&& if total == 0 {
                        r.total == 0 && r.talents@.len() == 0
                    } else {
                        r.total == total && r.talents == hits
                    }
                },
            },
    {
        match outcome {
            None => SearchResults { total: 0, talents: Vec::new(), raw_es_query: None },
            Some((total, hits)) => {
                if total == 0 {
                    SearchResults { total: 0, talents: Vec::new(), raw_es_query }
                } else {
                    SearchResults { total, talents: hits, raw_es_query }
                }
            },
        }
    }
}

/// The roles of the structured representation, in order.
pub open spec fn roles_of(drs: Seq<RolesExperience>) -> Seq<Seq<char>> {
    drs.map_values(|r: RolesExperience| r.role@)
}

/// The experience bands of the structured representation, in order.
pub open spec fn experiences_of(drs: Seq<RolesExperience>) -> Seq<Seq<char>> {
    drs.map_values(|r: RolesExperience| r.experience@)
}

/// Law: synchronising from the structured form and reading the parallel
/// sequences back yields the same pairs — the two representations of
/// desired roles round-trip.
pub proof fn lemma_desired_roles_round_trip(drs: Seq<RolesExperience>)
    ensures
        spec_roles_experiences(roles_of(drs), experiences_of(drs)) =~= drs.map_values(
            |r: RolesExperience| r@,
        ),
{
}

impl Talent {
    /// Make the structured and legacy desired-role representations agree:
    /// a present structured form is authoritative and refills the parallel
    /// sequences; otherwise the structured form is read off them, a missing
    /// band reading as the empty string and the band sequence brought to the
    /// roles' length. Either way, the two representations leave ingest with
    /// the same length and the same pairs.
    pub fn sync_desired_work_roles(&mut self)
        ensures
            final(self).desired_work_roles.deep_view() == roles_of(final(self).desired_roles@),
            final(self).desired_work_roles_experience.deep_view() == experiences_of(
                final(self).desired_roles@,
            ),
            final(self).desired_work_roles@.len()
                == final(self).desired_work_roles_experience@.len(),
            old(self).desired_roles@.len() > 0
                ==> final(self).desired_roles == old(self).desired_roles,
            old(self).desired_roles@.len() == 0 ==> {
                &&& final(self).desired_work_roles == old(self).desired_work_roles
                &&& final(self).desired_roles.deep_view() == spec_roles_experiences(
                    old(self).desired_work_roles.deep_view(),
                    old(self).desired_work_roles_experience.deep_view(),
                )
            },
            final(self).id == old(self).id,
            final(self).accepted == old(self).accepted,
            final(self).professional_experience == old(self).professional_experience,
            final(self).work_locations == old(self).work_locations,
            final(self).current_location == old(self).current_location,
            final(self).work_authorization == old(self).work_authorization,
            final(self).skills == old(self).skills,
            final(self).summary == old(self).summary,
            final(self).headline == old(self).headline,
            final(self).contacted_company_ids == old(self).contacted_company_ids,
            final(self).batch_starts_at == old(self).batch_starts_at,
            final(self).batch_ends_at == old(self).batch_ends_at,
            final(self).added_to_batch_at == old(self).added_to_batch_at,
            final(self).weight == old(self).weight,
            final(self).blocked_companies == old(self).blocked_companies,
            final(self).work_experiences == old(self).work_experiences,
            final(self).avatar_url == old(self).avatar_url,
            final(self).salary_expectations == old(self).salary_expectations,
            final(self).latest_position == old(self).latest_position,
            final(self).languages == old(self).languages,
            final(self).educations == old(self).educations,
    {
        if self.desired_roles.len() > 0 {
            let mut roles: Vec<String> = Vec::new();
            let mut exps: Vec<String> = Vec::new();
            let n = self.desired_roles.len();
            let mut i: usize = 0;
            while i < n
                invariant
                    i <= n,
                    n == self.desired_roles@.len(),
                    *self == *old(self),
                    roles@.len() == i,
                    exps@.len() == i,
                    forall|k: int| 0 <= k < i ==> roles@[k]@ == self.desired_roles@[k].role@,
                    forall|k: int| 0 <= k < i ==> exps@[k]@ == self.desired_roles@[k].experience@,
                decreases n - i,
            {
                roles.push(self.desired_roles[i].role.clone());
                exps.push(self.desired_roles[i].experience.clone());
                i = i + 1;
            }
            proof {
                assert(roles.deep_view() =~= roles_of(self.desired_roles@));
                assert(exps.deep_view() =~= experiences_of(self.desired_roles@));
            }
            self.desired_work_roles = roles;
            self.desired_work_roles_experience = exps;
            proof {
                assert(self.desired_work_roles.deep_view() =~= roles_of(self.desired_roles@));
                assert(self.desired_work_roles_experience.deep_view() =~= experiences_of(
                    self.desired_roles@,
                ));
            }
        } else {
            let n = self.desired_work_roles.len();
            let mut drs: Vec<RolesExperience> = Vec::new();
            let mut exps: Vec<String> = Vec::new();
            let mut i: usize = 0;
            while i < n
                invariant
                    i <= n,
                    n == self.desired_work_roles@.len(),
                    *self == *old(self),
                    drs@.len() == i,
                    exps@.len() == i,
                    forall|k: int|
                        0 <= k < i ==> drs@[k]@ == spec_roles_experiences(
                            self.desired_work_roles.deep_view(),
                            self.desired_work_roles_experience.deep_view(),
                        )[k],
                    forall|k: int| 0 <= k < i ==> drs@[k].role@ == self.desired_work_roles@[k]@,
                    forall|k: int| 0 <= k < i ==> exps@[k]@ == drs@[k].experience@,
                decreases n - i,
            {
                let experience: Option<&String> = if i
                    < self.desired_work_roles_experience.len() {
                    Some(&self.desired_work_roles_experience[i])
                } else {
                    None
                };
                let re = RolesExperience::new(self.desired_work_roles[i].as_str(), experience);
                exps.push(re.experience.clone());
                drs.push(re);
                i = i + 1;
            }
            proof {
                assert(drs.deep_view() =~= spec_roles_experiences(
                    self.desired_work_roles.deep_view(),
                    self.desired_work_roles_experience.deep_view(),
                ));
                assert(exps.deep_view() =~= experiences_of(drs@));
            }
            self.desired_work_roles_experience = exps;
            self.desired_roles = drs;
            proof {
                assert(self.desired_work_roles.deep_view() =~= roles_of(self.desired_roles@));
                assert(self.desired_work_roles_experience.deep_view() =~= experiences_of(
                    self.desired_roles@,
                ));
            }
        }
        proof {
            assert(self.desired_work_roles.deep_view() =~= roles_of(self.desired_roles@));
            assert(self.desired_work_roles_experience.deep_view() =~= experiences_of(
                self.desired_roles@,
            ));
        }
    }
}

} // verus!
