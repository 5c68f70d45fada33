use searchspot::params::{ParamMap, ParamValue};
use searchspot::talent::SearchResults;
use searchspot::talent::{
    mapped_experience_ranges, parse_desired_role_filter, DesiredRoleFilter, Talent,
};

fn make_talent() -> Talent {
    Talent {
        id: 1,
        accepted: true,
        desired_work_roles: vec![],
        desired_work_roles_experience: vec![],
        desired_roles: vec![],
        professional_experience: "8+".to_string(),
        work_locations: vec!["Berlin".to_string()],
        current_location: "Berlin".to_string(),
        work_authorization: "yes".to_string(),
        skills: vec!["Rust".to_string()],
        summary: "Blabla".to_string(),
        headline: "I see things, I do stuff".to_string(),
        contacted_company_ids: vec![1],
        batch_starts_at: "2016-03-04T12:24:00+01:00".to_string(),
        batch_ends_at: "2016-04-11T12:24:00+02:00".to_string(),
        added_to_batch_at: "2016-03-11T12:24:37+01:00".to_string(),
        weight: 0,
        blocked_companies: vec![99],
        work_experiences: vec!["Frontend developer".to_string()],
        avatar_url: "https://example.test/avatar".to_string(),
        salary_expectations: vec![],
        latest_position: "Developer".to_string(),
        languages: vec!["English".to_string()],
        educations: vec!["CS".to_string()],
    }
}

#[test]
fn parsing_desired_roles() {
    fn check(input: u8, expected: &[&str]) {
        assert_eq!(mapped_experience_ranges(input), expected)
    }

    vec![
        (30, vec!["8+"]),
        (9, vec!["8+"]),
        (8, vec!["6..8", "8+"]),
        (7, vec!["6..8", "8+"]),
        (6, vec!["4..6", "6..8", "8+"]),
        (5, vec!["4..6", "6..8", "8+"]),
        (4, vec!["2..4", "4..6", "6..8", "8+"]),
        (3, vec!["2..4", "4..6", "6..8", "8+"]),
        (2, vec!["1..2", "2..4", "4..6", "6..8", "8+"]),
        (1, vec!["0..1", "1..2", "2..4", "4..6", "6..8", "8+"]),
        (0, vec!["0..1", "1..2", "2..4", "4..6", "6..8", "8+"]),
    ]
    .into_iter()
    .for_each(|(input, expected)| check(input, &expected))
}

#[test]
fn experience_range_mapping() {
    fn check(input: &str, expected: DesiredRoleFilter) {
        assert_eq!(parse_desired_role_filter(input), Some(expected))
    }

    vec![
        ("foobar", ("foobar", None, None)),
        ("ruby:5", ("ruby", Some(5), None)),
        ("ruby:five", ("ruby", None, None)),
        ("ruby:5:10", ("ruby", Some(5), Some(10))),
        ("ruby:5:ten", ("ruby", Some(5), None)),
        ("ruby:five:10", ("ruby", None, None)),
        ("ruby:5:2", ("ruby", Some(5), None)),
        ("ruby:5:5", ("ruby", Some(5), Some(5))),
    ]
    .into_iter()
    .map(|(s, (role, minimum, maximum))| {
        (s, DesiredRoleFilter { role: role.to_string(), minimum, maximum })
    })
    .for_each(|(input, expected)| check(input, expected))
}

#[test]
fn parsing_empty_desired_roles() {
    assert_eq!(parse_desired_role_filter(""), None);
    assert_eq!(parse_desired_role_filter("   "), None);
}

const EPOCH: &str = "2006-01-01T12:00:00+00:00";

fn visibility_json(date_filter: bool) -> String {
    if date_filter {
        format!(
            "{{\"bool\":{{\"must\":[{{\"term\":{{\"accepted\":true}}}},{{\"term\":{{\"batch_starts_at\":\"{EPOCH}\"}}}}]}}}}"
        )
    } else {
        format!(
            "{{\"bool\":{{\"must\":[{{\"term\":{{\"accepted\":true}}}},{{\"range\":{{\"batch_starts_at\":{{\"lte\":\"{EPOCH}\",\"format\":\"dateOptionalTime\"}}}}}},{{\"range\":{{\"batch_ends_at\":{{\"gte\":\"{EPOCH}\",\"format\":\"dateOptionalTime\"}}}}}}]}}}}"
        )
    }
}

#[test]
fn default_search_filters_hold_only_visibility() {
    let params = ParamMap::new();
    let query = Talent::search_filters(&params, EPOCH);
    let expected = format!(
        "{{\"bool\":{{\"must\":[{{\"bool\":{{}}}},{}],\"filter\":[{{\"bool\":{{\"must\":[{{\"bool\":{{}}}},{{\"bool\":{{}}}}]}}}}]}}}}",
        visibility_json(false)
    );
    assert_eq!(query.to_json_string(), expected);
}

#[test]
fn presented_talents_override_batch_window_visibility() {
    let filters = Talent::visibility_filters(EPOCH, vec![1, 2], false);
    assert_eq!(filters.len(), 1);
    let expected = format!(
        "{{\"bool\":{{\"should\":[{},{{\"bool\":{{\"must\":[{{\"terms\":{{\"ids\":[1,2]}}}}]}}}}]}}}}",
        visibility_json(false)
    );
    assert_eq!(filters[0].to_json_string(), expected);
}

#[test]
fn epoch_parameter_switches_visibility_to_equality() {
    let filters = Talent::visibility_filters(EPOCH, vec![], true);
    assert_eq!(filters.len(), 1);
    assert_eq!(filters[0].to_json_string(), visibility_json(true));
}

#[test]
fn empty_keywords_behave_as_absent() {
    let mut with_empty = ParamMap::new();
    with_empty.assign("keywords", ParamValue::Str("".into())).unwrap();
    with_empty.assign("work_locations[]", ParamValue::Str("Rome".into())).unwrap();
    let mut without = ParamMap::new();
    without.assign("work_locations[]", ParamValue::Str("Rome".into())).unwrap();

    let q1 = Talent::search_filters(&with_empty, EPOCH).to_json_string();
    let q2 = Talent::search_filters(&without, EPOCH).to_json_string();
    assert_eq!(q1, q2);

    let p1 = Talent::search_plan(&with_empty, EPOCH);
    let p2 = Talent::search_plan(&without, EPOCH);
    assert!(!p1.keywords_present && !p2.keywords_present);
    assert!(p1.sort.is_some() && p2.sort.is_some());
}

#[test]
fn keywords_build_a_query_string_over_the_six_fields() {
    let mut params = ParamMap::new();
    params.assign("keywords", ParamValue::Str("HTML".into())).unwrap();
    let overrides: Vec<(String, String)> = vec![];
    let q = Talent::full_text_search(&params, &overrides).unwrap();
    assert_eq!(
        q.to_json_string(),
        "{\"query_string\":{\"query\":\"HTML\",\"fields\":[\"skills\",\"summary\",\"headline\",\"desired_work_roles\",\"work_experiences\",\"educations\"]}}"
    );
}

#[test]
fn quoted_keywords_match_the_raw_variants() {
    let mut params = ParamMap::new();
    params.assign("keywords", ParamValue::Str("\"Unity\"".into())).unwrap();
    let overrides: Vec<(String, String)> = vec![];
    let q = Talent::full_text_search(&params, &overrides).unwrap();
    assert_eq!(
        q.to_json_string(),
        "{\"query_string\":{\"query\":\"\\\"Unity\\\"\",\"fields\":[\"skills.raw\",\"summary.raw\",\"headline.raw\",\"desired_work_roles.raw\",\"work_experiences.raw\",\"educations.raw\"]}}"
    );
}

#[test]
fn no_fulltext_search_feature_reroutes_the_prose_fields() {
    let mut params = ParamMap::new();
    params.assign("keywords", ParamValue::Str("rust".into())).unwrap();
    params
        .assign("features[]", ParamValue::Str("no_fulltext_search".into()))
        .unwrap();
    let plan = Talent::search_plan(&params, EPOCH);
    let json = plan.query.to_json_string();
    assert!(json.contains("\"skills.keyword\""));
    assert!(json.contains("\"summary.keyword\""));
    assert!(json.contains("\"headline.keyword\""));
    assert!(json.contains("\"desired_work_roles\""));
}

#[test]
fn keywords_should_feature_moves_the_clause() {
    let mut params = ParamMap::new();
    params.assign("keywords", ParamValue::Str("rust".into())).unwrap();
    let must_plan = Talent::search_filters(&params, EPOCH).to_json_string();
    params
        .assign("features[]", ParamValue::Str("keywords_should".into()))
        .unwrap();
    let should_plan = Talent::search_filters(&params, EPOCH).to_json_string();
    assert!(must_plan.contains("query_string"));
    assert!(should_plan.contains("\"should\":[{\"query_string\""));
    assert!(!must_plan.contains("\"should\""));
}

#[test]
fn maximum_salary_without_locations_caps_the_nested_minimum() {
    let mut params = ParamMap::new();
    params.assign("maximum_salary", ParamValue::Str("30000".into())).unwrap();
    let filters = Talent::salary_expectations_filters(&params);
    assert_eq!(filters.len(), 1);
    assert_eq!(
        filters[0].to_json_string(),
        "{\"nested\":{\"path\":\"salary_expectations\",\"query\":{\"range\":{\"salary_expectations.minimum\":{\"lte\":30000}}}}}"
    );
}

#[test]
fn maximum_salary_with_locations_scopes_the_cap_per_city() {
    let mut params = ParamMap::new();
    params.assign("maximum_salary", ParamValue::Str("30000".into())).unwrap();
    params
        .assign("work_locations[]", ParamValue::Str("Amsterdam".into()))
        .unwrap();
    let filters = Talent::salary_expectations_filters(&params);
    assert_eq!(filters.len(), 1);
    assert_eq!(
        filters[0].to_json_string(),
        "{\"nested\":{\"path\":\"salary_expectations\",\"query\":{\"bool\":{\"must\":[{\"range\":{\"salary_expectations.minimum\":{\"lte\":30000}}},{\"term\":{\"salary_expectations.city\":\"Amsterdam\"}}]}}}}"
    );
}

#[test]
fn nonnumeric_maximum_salary_is_ignored() {
    let mut params = ParamMap::new();
    params.assign("maximum_salary", ParamValue::Str("a lot".into())).unwrap();
    assert!(Talent::salary_expectations_filters(&params).is_empty());

    // and the whole search still plans
    let query = Talent::search_filters(&params, EPOCH).to_json_string();
    assert!(!query.contains("salary_expectations"));
}

#[test]
fn desired_roles_with_experience_expand_to_band_clauses() {
    let mut params = ParamMap::new();
    params
        .assign("desired_work_roles[]", ParamValue::Str("DevOps:9".into()))
        .unwrap();
    let filters = Talent::desired_roles_filters(&params);
    assert_eq!(filters.len(), 1);
    assert_eq!(
        filters[0].to_json_string(),
        "{\"nested\":{\"path\":\"desired_roles\",\"query\":{\"bool\":{\"must\":[{\"term\":{\"desired_roles.role\":\"DevOps\"}},{\"term\":{\"desired_roles.experience\":\"8+\"}}]}}}}"
    );
}

#[test]
fn desired_roles_without_experience_use_the_raw_terms_filter() {
    let mut params = ParamMap::new();
    params
        .assign("desired_work_roles[]", ParamValue::Str("Fullstack".into()))
        .unwrap();
    let filters = Talent::desired_roles_filters(&params);
    assert_eq!(filters.len(), 1);
    assert_eq!(
        filters[0].to_json_string(),
        "{\"terms\":{\"desired_work_roles.raw\":[\"Fullstack\"]}}"
    );
}

#[test]
fn per_page_zero_defaults_to_ten() {
    let mut params = ParamMap::new();
    params.assign("per_page", ParamValue::Str("0".into())).unwrap();
    let plan = Talent::search_plan(&params, EPOCH);
    assert_eq!(plan.per_page, 10);

    let plan = Talent::search_plan(&ParamMap::new(), EPOCH);
    assert_eq!(plan.per_page, 10);

    let mut params = ParamMap::new();
    params.assign("per_page", ParamValue::U64(2)).unwrap();
    params.assign("offset", ParamValue::Str("3".into())).unwrap();
    let plan = Talent::search_plan(&params, EPOCH);
    assert_eq!(plan.per_page, 2);
    assert_eq!(plan.offset, 3);
}

#[test]
fn search_body_carries_sort_without_keywords_and_score_gate_with_them() {
    let plan = Talent::search_plan(&ParamMap::new(), EPOCH);
    let body = plan.body_json();
    assert!(body.starts_with("{\"from\":0,\"size\":10,\"query\":"));
    assert!(body.contains(
        "\"sort\":[{\"batch_starts_at\":{\"order\":\"desc\",\"unmapped_type\":\"date\"}},{\"weight\":{\"order\":\"desc\",\"unmapped_type\":\"integer\"}},{\"added_to_batch_at\":{\"order\":\"desc\",\"unmapped_type\":\"date\"}}]"
    ));
    assert!(!body.contains("min_score"));

    let mut params = ParamMap::new();
    params.assign("keywords", ParamValue::Str("C#".into())).unwrap();
    let plan = Talent::search_plan(&params, EPOCH);
    let body = plan.body_json();
    assert!(body.contains("\"min_score\":0.56,\"track_scores\":true"));
    assert!(body.contains("\"highlight\":{\"encoder\":\"html\",\"pre_tags\":[\"\"],\"post_tags\":[\"\"],\"fields\":{"));
    assert!(body.contains("\"skills\":{\"type\":\"plain\",\"term_vector\":\"with_positions_offsets\",\"fragment_size\":1}"));
    assert!(!body.contains("\"sort\""));
}

#[test]
fn raw_es_query_echo_starts_with_the_method_line() {
    let mut params = ParamMap::new();
    params.assign("debug_es_query", ParamValue::Str("true".into())).unwrap();
    let plan = Talent::search_plan(&params, EPOCH);
    assert!(plan.debug_es_query);
    let raw = plan.raw_es_query("talents");
    assert!(raw.starts_with("POST /talents/_search\n"));

    let mut params = ParamMap::new();
    params.assign("index", ParamValue::Str("other".into())).unwrap();
    let plan = Talent::search_plan(&params, EPOCH);
    assert!(!plan.debug_es_query);
    assert!(plan.raw_es_query("talents").starts_with("POST /other/_search\n"));
}

#[test]
fn syncing_prefers_the_structured_roles() {
    let mut talent = make_talent();
    talent.desired_work_roles = vec!["stale".to_string()];
    talent.desired_work_roles_experience = vec!["0..1".to_string()];
    talent.desired_roles = vec![
        searchspot::talent::RolesExperience {
            role: "C/C++ Engineer".to_string(),
            experience: "2..4".to_string(),
        },
        searchspot::talent::RolesExperience {
            role: "DevOps".to_string(),
            experience: "8+".to_string(),
        },
    ];
    talent.sync_desired_work_roles();
    assert_eq!(talent.desired_work_roles, vec!["C/C++ Engineer", "DevOps"]);
    assert_eq!(talent.desired_work_roles_experience, vec!["2..4", "8+"]);
    assert_eq!(talent.desired_roles.len(), 2);
}

#[test]
fn syncing_reads_the_parallel_arrays_back() {
    let mut talent = make_talent();
    talent.desired_work_roles = vec!["C/C++ Engineer".to_string(), "DevOps".to_string()];
    talent.desired_work_roles_experience = vec!["2..4".to_string(), "8+".to_string()];
    talent.sync_desired_work_roles();
    assert_eq!(talent.desired_roles.len(), 2);
    assert_eq!(talent.desired_roles[0].role, "C/C++ Engineer");
    assert_eq!(talent.desired_roles[0].experience, "2..4");
    assert_eq!(talent.desired_roles[1].role, "DevOps");
    assert_eq!(talent.desired_roles[1].experience, "8+");
}

#[test]
fn found_talents_pair_roles_with_bands() {
    let mut talent = make_talent();
    talent.desired_work_roles = vec!["Fullstack".to_string(), "DevOps".to_string()];
    talent.desired_work_roles_experience = vec!["2..4".to_string()];
    let found = searchspot::talent::FoundTalent::from_talent(&talent);
    assert_eq!(found.id, 1);
    assert_eq!(found.roles_experiences.len(), 2);
    assert_eq!(found.roles_experiences[0].role, "Fullstack");
    assert_eq!(found.roles_experiences[0].experience, "2..4");
    assert_eq!(found.roles_experiences[1].role, "DevOps");
    assert_eq!(found.roles_experiences[1].experience, "");
}

#[test]
fn engine_failures_read_as_the_empty_page() {
    let failed = SearchResults::from_outcome(None, Some("POST ...".to_string()));
    assert_eq!(failed.total, 0);
    assert!(failed.talents.is_empty());
    assert!(failed.raw_es_query.is_none());

    let empty = SearchResults::from_outcome(Some((0, vec![])), Some("q".to_string()));
    assert_eq!(empty.total, 0);
    assert_eq!(empty.raw_es_query.as_deref(), Some("q"));
}

#[test]
fn clock_based_plans_default_like_explicit_ones() {
    let plan = Talent::search_plan_now(&ParamMap::new());
    assert_eq!(plan.per_page, 10);
    assert_eq!(plan.offset, 0);
    assert!(!plan.keywords_present);
    assert!(plan.sort.is_some());
    assert!(!plan.epoch.is_empty());

    let mut params = ParamMap::new();
    params.assign("epoch", ParamValue::Str(EPOCH.into())).unwrap();
    let plan = Talent::search_plan_now(&params);
    assert_eq!(plan.epoch, EPOCH);
}

#[test]
fn syncing_pads_missing_bands_so_the_arrays_agree() {
    let mut talent = make_talent();
    talent.desired_work_roles = vec!["Fullstack".to_string(), "DevOps".to_string()];
    talent.desired_work_roles_experience = vec!["2..4".to_string()];
    talent.sync_desired_work_roles();
    assert_eq!(talent.desired_work_roles, vec!["Fullstack", "DevOps"]);
    assert_eq!(talent.desired_work_roles_experience, vec!["2..4", ""]);
    assert_eq!(talent.desired_roles.len(), 2);
    assert_eq!(talent.desired_roles[1].role, "DevOps");
    assert_eq!(talent.desired_roles[1].experience, "");
}

#[test]
fn syncing_drops_surplus_bands_so_the_arrays_agree() {
    let mut talent = make_talent();
    talent.desired_work_roles = vec!["Fullstack".to_string()];
    talent.desired_work_roles_experience = vec!["2..4".to_string(), "8+".to_string()];
    talent.sync_desired_work_roles();
    assert_eq!(talent.desired_work_roles, vec!["Fullstack"]);
    assert_eq!(talent.desired_work_roles_experience, vec!["2..4"]);
    assert_eq!(talent.desired_roles.len(), 1);
    assert_eq!(talent.desired_roles[0].experience, "2..4");
}
