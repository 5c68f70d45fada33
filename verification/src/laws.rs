//! The planner's boundary laws, stated and proved over the planner's own
//! specification functions.

use vstd::prelude::*;

use crate::params::{lookup, ParamValueV};
use crate::talent::{
    spec_highlight_fields, spec_keyword_filter, spec_keywords_present, spec_must_filters,
    spec_must_not_filters, spec_offset, spec_per_page, spec_salary_filters, spec_search_filters,
    spec_should_filters, spec_visibility_filters, spec_visibility_rules,
};
use crate::query::{bool_must_v, bool_should_v, QueryV};
use crate::terms::spec_i32_terms;
use crate::text::spec_parse_u64;

verus! {

/// Law: an empty `keywords` parameter behaves exactly as an absent one —
/// the planned query is the same, no keyword is present, and paging and
/// highlighting do not change; in particular the default sort applies to
/// both.
pub proof fn lemma_empty_keywords_like_absent(
    m1: Seq<(Seq<char>, ParamValueV)>,
    m2: Seq<(Seq<char>, ParamValueV)>,
    epoch: Seq<char>,
)
    requires
        lookup(m1, "keywords"@) == Some(ParamValueV::Str(Seq::<char>::empty())) || lookup(
            m1,
            "keywords"@,
        ) is None,
        lookup(m2, "keywords"@) is None,
        forall|k: Seq<char>| k != "keywords"@ ==> lookup(m1, k) == lookup(m2, k),
    ensures
        spec_search_filters(m1, epoch) == spec_search_filters(m2, epoch),
        !spec_keywords_present(m1),
        !spec_keywords_present(m2),
        spec_highlight_fields(m1) == spec_highlight_fields(m2),
        spec_per_page(m1) == spec_per_page(m2),
        spec_offset(m1) == spec_offset(m2),
{
    reveal_strlit("keywords");
    reveal_strlit("features");
    reveal_strlit("epoch");
    reveal_strlit("languages");
    reveal_strlit("company_id");
    reveal_strlit("professional_experience");
    reveal_strlit("work_authorization");
    reveal_strlit("work_locations");
    reveal_strlit("current_location");
    reveal_strlit("bookmarked_talents");
    reveal_strlit("presented_talents");
    reveal_strlit("maximum_salary");
    reveal_strlit("desired_work_roles");
    reveal_strlit("contacted_talents");
    reveal_strlit("ignored_talents");
    reveal_strlit("offset");
    reveal_strlit("per_page");
    assert("features"@[0] != "keywords"@[0]);
    assert("features"@ != "keywords"@);
    assert(lookup(m1, "features"@) == lookup(m2, "features"@));
    assert(lookup(m1, "epoch"@) == lookup(m2, "epoch"@));
    assert(lookup(m1, "languages"@) == lookup(m2, "languages"@));
    assert(lookup(m1, "company_id"@) == lookup(m2, "company_id"@));
    assert(lookup(m1, "professional_experience"@) == lookup(m2, "professional_experience"@));
    assert(lookup(m1, "work_authorization"@) == lookup(m2, "work_authorization"@));
    assert(lookup(m1, "work_locations"@) == lookup(m2, "work_locations"@));
    assert(lookup(m1, "current_location"@) == lookup(m2, "current_location"@));
    assert(lookup(m1, "bookmarked_talents"@) == lookup(m2, "bookmarked_talents"@));
    assert(lookup(m1, "presented_talents"@) == lookup(m2, "presented_talents"@));
    assert(lookup(m1, "maximum_salary"@) == lookup(m2, "maximum_salary"@));
    assert(lookup(m1, "desired_work_roles"@) == lookup(m2, "desired_work_roles"@));
    assert(lookup(m1, "contacted_talents"@) == lookup(m2, "contacted_talents"@));
    assert(lookup(m1, "ignored_talents"@) == lookup(m2, "ignored_talents"@));
    assert(lookup(m1, "offset"@) == lookup(m2, "offset"@));
    assert(lookup(m1, "per_page"@) == lookup(m2, "per_page"@));
    assert(spec_keyword_filter(m1) =~= Seq::<QueryV>::empty());
    assert(spec_keyword_filter(m2) =~= Seq::<QueryV>::empty());
    assert(spec_must_filters(m1, epoch) == spec_must_filters(m2, epoch));
    assert(spec_should_filters(m1) == spec_should_filters(m2));
    assert(spec_must_not_filters(m1) == spec_must_not_filters(m2));
    assert(spec_search_filters(m1, epoch) == spec_search_filters(m2, epoch));
}

/// Law: a page size of zero falls back to the default of ten rows, and no
/// plan ever asks the engine for a zero-row page.
pub proof fn lemma_zero_per_page_defaults(m: Seq<(Seq<char>, ParamValueV)>)
    requires
        lookup(m, "per_page"@) == Some(ParamValueV::U64(0)) || (match lookup(m, "per_page"@) {
            Some(ParamValueV::Str(s)) => spec_parse_u64(s) == Some(0u64),
            _ => false,
        }),
    ensures
        spec_per_page(m) == 10,
{
}

/// Every planned page size is positive.
pub proof fn lemma_per_page_positive(m: Seq<(Seq<char>, ParamValueV)>)
    ensures
        spec_per_page(m) > 0,
{
}

/// Law: a `maximum_salary` that does not read as a non-negative integer is
/// ignored — it imposes no salary constraint and is no error.
pub proof fn lemma_nonnumeric_salary_ignored(m: Seq<(Seq<char>, ParamValueV)>, s: Seq<char>)
    requires
        lookup(m, "maximum_salary"@) == Some(ParamValueV::Str(s)),
        spec_parse_u64(s) is None,
    ensures
        spec_salary_filters(m) == Seq::<QueryV>::empty(),
{
}

/// Law: a non-empty `presented_talents` list overrides the batch-window
/// visibility — the visibility rule becomes one alternative beside
/// membership in the presented list, rather than a requirement.
pub proof fn lemma_presented_talents_override(
    epoch: Seq<char>,
    presented: Seq<i32>,
    date_filter_present: bool,
)
    requires
        presented.len() > 0,
    ensures
        spec_visibility_filters(epoch, presented, date_filter_present) == seq![
            bool_should_v(
                seq![
                    spec_visibility_rules(epoch, date_filter_present),
                    bool_must_v(spec_i32_terms("ids"@, presented)),
                ],
            ),
        ],
{
}

/// Law: within one lifetime window the one-time code does not change —
/// two instants in the same step yield the same code, so a code stays
/// valid until its window closes.
pub proof fn lemma_code_stable_within_window(secret: Seq<u8>, lifetime: u64, now1: u64, now2: u64)
    requires
        lifetime > 0,
        now1 as int / lifetime as int == now2 as int / lifetime as int,
    ensures
        crate::auth::spec_totp_code(secret, lifetime, now1) == crate::auth::spec_totp_code(
            secret,
            lifetime,
            now2,
        ),
{
}

} // verus!
