use searchspot::auth::{current_unix_seconds, is_authorized, totp_code};
use searchspot::company::Company;
use searchspot::config::{Monitor, Tokens, TokensLifetime};
use searchspot::filters;
use searchspot::handlers::{response_has_body, response_status, Operation};
use searchspot::index_settings::{talent_mapping_json, talent_settings_json};
use searchspot::json::Json;
use searchspot::match_queries::{MatchType, VectorOfMatches};
use searchspot::monitor::MonitorProvider;
use searchspot::query::Query;
use searchspot::score::{Score, SearchBuilder, SearchResults};
use searchspot::search::SearchResult;
use searchspot::terms::VectorOfTerms;
use searchspot::user::User;
use searchspot::params::{ParamMap, ParamValue};

#[test]
fn terms_test_vector_of_terms() {
    assert!(<Query as VectorOfTerms<String>>::build_terms("work_roles", &vec![]).is_empty());

    {
        let filters =
            <Query as VectorOfTerms<String>>::build_terms("work_roles", &vec!["Fullstack".to_owned()]);
        assert_eq!(
            filters[0].to_json_string(),
            "{\"terms\":{\"work_roles\":[\"Fullstack\"]}}".to_owned()
        );
    }

    {
        let filters = <Query as VectorOfTerms<i32>>::build_terms("work_roles", &vec![1]);
        assert_eq!(
            filters[0].to_json_string(),
            "{\"terms\":{\"work_roles\":[1]}}".to_owned()
        );
    }
}

#[test]
fn test_vector_of_matches() {
    assert!(
        <Query as VectorOfMatches<String>>::build_match("work_roles", &vec![], None).is_empty()
    );

    {
        let filters = <Query as VectorOfMatches<String>>::build_match(
            "work_roles",
            &vec!["Fullstack".to_owned()],
            None,
        );
        assert_eq!(
            filters[0].to_json_string(),
            "{\"match\":{\"work_roles\":{\"query\":\"Fullstack\"}}}".to_owned()
        );
    }

    {
        let filters = <Query as VectorOfMatches<String>>::build_match(
            "work_roles",
            &vec!["Fullstack".to_owned()],
            Some(MatchType::Phrase),
        );
        assert_eq!(
            filters[0].to_json_string(),
            "{\"match\":{\"work_roles\":{\"query\":\"Fullstack\",\"type\":\"phrase\"}}}".to_owned()
        );
    }
}

#[test]
fn filters_test_visibility_filters() {}

#[test]
fn user_test_visibility_filters() {}

#[test]
fn test_search_filters() {}

#[test]
fn test_search_result_to_json() {
    {
        let response = SearchResult { results: vec![] };

        let json_response = response.to_json_string();
        assert_eq!(json_response, "{\"results\":[]}");
    }
}

#[test]
fn json_strings_escape_quotes_and_backslashes() {
    let j = Json::Str("a\"b\\c\n".to_string());
    assert_eq!(j.to_json_string(), "\"a\\\"b\\\\c\\n\"");

    let doc = Json::Obj(vec![
        ("n".to_string(), Json::I(-7)),
        ("ok".to_string(), Json::Bool(true)),
        ("xs".to_string(), Json::Arr(vec![Json::U(1), Json::U(2)])),
    ]);
    assert_eq!(doc.to_json_string(), "{\"n\":-7,\"ok\":true,\"xs\":[1,2]}");
}

#[test]
fn score_search_builder_ands_the_given_ids() {
    let search = SearchBuilder::new().build();
    assert_eq!(search.to_query().to_json_string(), "{\"bool\":{}}");

    let search = SearchBuilder::new().with_job_id(1).build();
    assert_eq!(
        search.to_query().to_json_string(),
        "{\"bool\":{\"must\":[{\"term\":{\"job_id\":1}}]}}"
    );

    let search = SearchBuilder::new().with_talent_id(1).with_job_id(1).build();
    assert_eq!(
        search.to_query().to_json_string(),
        "{\"bool\":{\"must\":[{\"term\":{\"job_id\":1}},{\"term\":{\"talent_id\":1}}]}}"
    );
}

#[test]
fn score_results_swallow_engine_failures() {
    let failed = SearchResults::from_outcome(None);
    assert_eq!(failed.total, 0);
    assert!(failed.scores.is_empty());

    let score = Score {
        request_id: "515ec9bb-0511-4464-92bb-bd21c5ed7b22".to_string(),
        person_id: None,
        company_id: None,
        position_id: None,
        job_id: 1,
        talent_id: 1,
    };
    let got = SearchResults::from_outcome(Some((1, vec![score])));
    assert_eq!(got.total, 1);
    assert_eq!(got.scores[0].request_id, "515ec9bb-0511-4464-92bb-bd21c5ed7b22");
}

#[test]
fn the_mapping_document_starts_with_the_id_field() {
    let mapping = talent_mapping_json();
    assert!(mapping.starts_with(
        "{\"talent\":{\"properties\":{\"id\":{\"type\":\"integer\",\"index\":\"not_analyzed\"},"
    ));
    assert!(mapping.contains(
        "\"desired_work_roles\":{\"type\":\"string\",\"analyzer\":\"trigrams\",\"search_analyzer\":\"words\",\"fields\":{\"raw\":{\"type\":\"string\",\"index\":\"not_analyzed\"}}}"
    ));
    assert!(mapping.contains(
        "\"salary_expectations\":{\"type\":\"nested\",\"properties\":{\"minimum\":{\"type\":\"long\",\"index\":\"not_analyzed\"},\"city\":{\"type\":\"string\",\"index\":\"not_analyzed\"},\"currency\":{\"type\":\"string\",\"index\":\"not_analyzed\"}}}"
    ));
    assert!(mapping.contains("\"skills\":{\"type\":\"multi_field\","));
}

#[test]
fn the_settings_document_defines_the_analyzer_chains() {
    let settings = talent_settings_json();
    assert!(settings.starts_with("{\"number_of_shards\":1,\"analysis\":{\"filter\":{"));
    assert!(settings.contains(
        "\"trigrams\":{\"type\":\"custom\",\"tokenizer\":\"whitespace\",\"filter\":[\"lowercase\",\"words_splitter\",\"trigrams_filter\",\"english_words_filter\",\"tech_words_filter\"]}"
    ));
    assert!(settings.contains(
        "\"keywords\":{\"type\":\"custom\",\"tokenizer\":\"standard\",\"filter\":[\"lowercase\",\"protect_keywords\",\"trim\",\"english_words_filter\",\"strip_js\"]}"
    ));
    assert!(settings.contains(
        "\"protect_keywords\":{\"type\":\"keyword_marker\",\"keywords\":[\"C++\",\"C#\"],\"ignore_case\":true}"
    ));
    assert!(settings.contains("\"trigrams_filter\":{\"type\":\"ngram\",\"min_gram\":2,\"max_gram\":20}"));
}

#[test]
fn totp_codes_round_trip_through_the_header() {
    let secret = "yxxz7oap7rsf67zl";
    let now: u64 = 1_234_567_890;
    let lifetime: u64 = 30;
    let code = oath::hotp_raw(secret.as_bytes(), now / lifetime, 6);
    assert_eq!(code, totp_code(secret.as_bytes(), lifetime, now));

    let header = format!("token {}", code);
    assert!(is_authorized(true, secret, Some(&header), lifetime, now));

    let wrong = format!("token {}", (code + 1) % 1_000_000);
    assert!(!is_authorized(true, secret, Some(&wrong), lifetime, now));

    // the write secret does not open the read door
    assert!(!is_authorized(true, "6po2okn3ddwv6ili", Some(&header), lifetime, now));

    // outside the window the code expires
    assert!(!is_authorized(true, secret, Some(&header), lifetime, now + 120));

    // disabled authentication admits everything
    assert!(is_authorized(false, secret, None, lifetime, now));

    // a bare code without the marker is still read
    let bare = format!("{}", code);
    assert!(is_authorized(true, secret, Some(&bare), lifetime, now));

    assert!(!is_authorized(true, secret, None, lifetime, now));

    // the clock reads as some time at or after the epoch
    let _ = current_unix_seconds();
}

#[test]
fn the_clock_renders_as_a_calendar_text() {
    let now = searchspot::auth::now_rfc3339();
    assert!(now.len() >= 19);
    assert!(now.contains('T'));
    assert!(now.contains('-'));
    assert!(now.contains(':'));
}

#[test]
fn monitor_selection_knows_only_rollbar() {
    let config = Monitor {
        provider: "rollbar".to_string(),
        enabled: true,
        access_token: "blabla".to_string(),
        environment: "test".to_string(),
    };
    let monitor = MonitorProvider::find_with_config("rollbar", &config).unwrap();
    assert!(monitor.is_real());
    assert_eq!(monitor.access_token, "blabla");
    assert_eq!(monitor.environment, "test");

    assert!(MonitorProvider::find_with_config("somethingelse", &config).is_none());
    assert!(!MonitorProvider::null_monitor().is_real());
}

#[test]
fn token_lifetimes_default_to_thirty_seconds() {
    let tokens = Tokens::default();
    assert_eq!(tokens.lifetime.read, 30);
    assert_eq!(tokens.lifetime.write, 30);
    let lifetime = TokensLifetime::default();
    assert_eq!(lifetime.read, 30);
    assert_eq!(lifetime.write, 30);
}

#[test]
fn handler_responses_follow_the_status_table() {
    assert_eq!(response_status(Operation::Search, false, true), 401);
    assert_eq!(response_status(Operation::Search, true, true), 200);
    assert_eq!(response_status(Operation::Index, true, true), 201);
    assert_eq!(response_status(Operation::Index, true, false), 422);
    assert_eq!(response_status(Operation::Delete, true, true), 204);
    assert_eq!(response_status(Operation::Reset, true, false), 422);
    assert!(response_has_body(Operation::Search, true, true));
    assert!(!response_has_body(Operation::Index, true, true));
    assert!(response_has_body(Operation::Index, true, false));
    assert!(!response_has_body(Operation::Search, false, true));
}

#[test]
fn epoch_second_visibility_wraps_presented_talents() {
    let company = Company { presented_talents: vec![7] };
    let now: i64 = 1_136_116_800;
    let rules = filters::visibility_filters(now, None);
    assert_eq!(
        rules[0].to_json_string(),
        format!(
            "{{\"bool\":{{\"must\":[{{\"term\":{{\"accepted\":true}}}},{{\"range\":{{\"batch_starts_at\":{{\"lt\":{now},\"format\":\"epoch_second\"}}}}}},{{\"range\":{{\"batch_ends_at\":{{\"gte\":{now},\"format\":\"epoch_second\"}}}}}}]}}}}"
        )
    );
    let overridden = filters::visibility_filters(now, Some(&company));
    assert!(overridden[0].to_json_string().contains("\"should\""));
    assert!(overridden[0].to_json_string().contains("{\"terms\":{\"ids\":[7]}}"));
}

#[test]
fn user_search_filters_exclude_the_requesting_company() {
    let mut params = ParamMap::new();
    params.assign("company_id", ParamValue::Str("6".into())).unwrap();
    params.assign("work_roles[]", ParamValue::Str("Fullstack".into())).unwrap();
    let now: i64 = 1_136_116_800;
    let q = User::search_filters(&params, now, None).to_json_string();
    assert!(q.starts_with("{\"filtered\":{\"filter\":{\"bool\":{\"must\":["));
    assert!(q.contains("{\"terms\":{\"work_roles\":[\"Fullstack\"]}}"));
    assert!(q.contains(
        "\"must_not\":[{\"terms\":{\"company_ids\":[6]}},{\"terms\":{\"blocked_companies\":[6]}}]"
    ));
}

#[test]
fn filters_test_vector_of_terms() {
    assert!(<Query as VectorOfTerms<String>>::build_terms("work_roles", &vec![]).is_empty());

    {
        let filters = <Query as VectorOfTerms<String>>::build_terms(
            "work_roles",
            &vec![String::from("Fullstack")],
        );
        assert_eq!(
            filters[0].to_json_string(),
            String::from("{\"terms\":{\"work_roles\":[\"Fullstack\"]}}")
        );
    }

    {
        let filters = <Query as VectorOfTerms<i32>>::build_terms("work_roles", &vec![1]);
        assert_eq!(
            filters[0].to_json_string(),
            String::from("{\"terms\":{\"work_roles\":[1]}}")
        );
    }
}
