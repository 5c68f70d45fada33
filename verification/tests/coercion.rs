use searchspot::params::{
    i32_vec_from_maybe_csv_params, i32_vec_from_params, string_vec_from_params, vec_from_params,
    ParamError, ParamMap, ParamValue,
};
use searchspot::text::{parse_i32, parse_u64, parse_u8, trim_of};

#[test]
fn test_vec_from_params() {
    // given two strings, it returns a vector containing given strings
    {
        let mut params = ParamMap::new();
        params
            .assign("work_roles[]", ParamValue::Str("Fullstack".into()))
            .unwrap();
        params
            .assign("work_roles[]", ParamValue::Str("DevOps".into()))
            .unwrap();

        let work_roles: Vec<String> = vec_from_params(&params, "work_roles");
        assert_eq!(work_roles, vec!["Fullstack", "DevOps"]);
    }

    // given an empty string, it returns a vector containing an empty string
    {
        let mut params = ParamMap::new();
        params
            .assign("work_roles[]", ParamValue::Str("".into()))
            .unwrap();

        let work_roles: Vec<String> = vec_from_params(&params, "work_roles");
        assert_eq!(work_roles, vec![""]);
    }

    // given nothing, it returns an empty vector
    {
        let work_roles: Vec<String> = vec_from_params(&ParamMap::new(), "work_roles");
        assert_eq!(work_roles, Vec::<String>::new());
    }
}

#[test]
fn test_i32_vec_from_params() {
    // given a number cast to String, it returns a vector containing that number
    {
        let mut params = ParamMap::new();
        params
            .assign("company_id", ParamValue::Str("4".into()))
            .unwrap();

        let company_ids: Vec<i32> = i32_vec_from_params(&params, "company_id");
        assert_eq!(company_ids, vec![4]);
    }

    // given an empty string, it returns an empty vector
    {
        let mut params = ParamMap::new();
        params
            .assign("company_id", ParamValue::Str("".into()))
            .unwrap();

        let company_ids: Vec<i32> = i32_vec_from_params(&params, "company_id");
        assert!(company_ids.is_empty());
    }

    // given a non-number string, it returns an empty vector
    {
        let mut params = ParamMap::new();
        params
            .assign("company_id", ParamValue::Str("madukapls".into()))
            .unwrap();

        let company_ids: Vec<i32> = i32_vec_from_params(&params, "company_id");
        assert!(company_ids.is_empty());
    }

    {
        let mut params = ParamMap::new();
        params
            .assign("company_id[]", ParamValue::Str("madukapls".into()))
            .unwrap();

        let company_ids: Vec<i32> = i32_vec_from_params(&params, "company_id");
        assert!(company_ids.is_empty());
    }

    // given nothing, it returns an empty vector
    {
        let company_ids: Vec<i32> = i32_vec_from_params(&ParamMap::new(), "company_id");
        assert!(company_ids.is_empty());
    }
}

#[test]
fn test_company_id() {
    {
        let mut params = ParamMap::new();
        params.assign("company_id", ParamValue::Str("4".into())).unwrap();

        let company_id: Vec<i32> = i32_vec_from_params(&params, "company_id");
        assert_eq!(company_id, vec![4]);
    }

    {
        let mut params = ParamMap::new();
        params.assign("company_id", ParamValue::Str("".into())).unwrap();

        let company_id: Vec<i32> = i32_vec_from_params(&params, "company_id");
        assert_eq!(company_id, vec![]);
    }

    {
        let mut params = ParamMap::new();
        params
            .assign("company_id", ParamValue::Str("madukapls".into()))
            .unwrap();

        let company_id: Vec<i32> = i32_vec_from_params(&params, "company_id");
        assert_eq!(company_id, vec![]);
    }

    {
        let mut params = ParamMap::new();
        params
            .assign("company_id[]", ParamValue::Str("madukapls".into()))
            .unwrap();

        let company_id: Vec<i32> = i32_vec_from_params(&params, "company_id");
        assert_eq!(company_id, vec![]);
    }

    {
        let company_id: Vec<i32> = i32_vec_from_params(&ParamMap::new(), "company_id");
        assert_eq!(company_id, vec![]);
    }
}

#[test]
fn csv_and_list_forms_read_the_same_ids() {
    // bracketed list form
    let mut params = ParamMap::new();
    params.assign("bookmarked_talents[]", ParamValue::Str("2".into())).unwrap();
    params.assign("bookmarked_talents[]", ParamValue::Str("4".into())).unwrap();
    assert_eq!(i32_vec_from_maybe_csv_params(&params, "bookmarked_talents"), vec![2, 4]);

    // comma-separated scalar form, blanks trimmed
    let mut params = ParamMap::new();
    params.assign("bookmarked_talents", ParamValue::Str("2, 4".into())).unwrap();
    assert_eq!(i32_vec_from_maybe_csv_params(&params, "bookmarked_talents"), vec![2, 4]);
}

#[test]
fn csv_drops_unparseable_elements_but_a_list_is_all_or_nothing() {
    let mut params = ParamMap::new();
    params.assign("ignored_talents", ParamValue::Str("1, x, 4".into())).unwrap();
    assert_eq!(i32_vec_from_maybe_csv_params(&params, "ignored_talents"), vec![1, 4]);

    let mut params = ParamMap::new();
    params.assign("ignored_talents[]", ParamValue::Str("1".into())).unwrap();
    params.assign("ignored_talents[]", ParamValue::Str("x".into())).unwrap();
    assert_eq!(
        i32_vec_from_maybe_csv_params(&params, "ignored_talents"),
        Vec::<i32>::new()
    );
}

#[test]
fn plain_assign_replaces_and_scalar_reads_as_one_element() {
    let mut params = ParamMap::new();
    params.assign("index", ParamValue::Str("one".into())).unwrap();
    params.assign("index", ParamValue::Str("two".into())).unwrap();
    let values = string_vec_from_params(&params, "index");
    assert_eq!(values, vec!["two"]);
}

#[test]
fn mixing_list_and_scalar_forms_is_a_collision() {
    let mut params = ParamMap::new();
    params.assign("work_roles", ParamValue::Str("Fullstack".into())).unwrap();
    assert!(matches!(
        params.assign("work_roles[]", ParamValue::Str("DevOps".into())),
        Err(ParamError::Collision)
    ));
}

#[test]
fn a_list_entry_collects_only_strings() {
    let mut params = ParamMap::new();
    assert!(matches!(
        params.assign("ids[]", ParamValue::U64(4)),
        Err(ParamError::Unsupported)
    ));
    assert!(vec_from_params(&params, "ids").is_empty());
}

#[test]
fn unsigned_parsing_matches_the_standard_semantics() {
    assert_eq!(parse_u64("0"), Some(0));
    assert_eq!(parse_u64("+5"), Some(5));
    assert_eq!(parse_u64("30000"), Some(30000));
    assert_eq!(parse_u64("18446744073709551615"), Some(u64::MAX));
    assert_eq!(parse_u64("18446744073709551616"), None);
    assert_eq!(parse_u64(""), None);
    assert_eq!(parse_u64("12a"), None);
    assert_eq!(parse_u64("-3"), None);
    assert_eq!(parse_u8("255"), Some(255));
    assert_eq!(parse_u8("256"), None);
    assert_eq!(parse_i32("-2147483648"), Some(i32::MIN));
    assert_eq!(parse_i32("2147483647"), Some(i32::MAX));
    assert_eq!(parse_i32("-2147483649"), None);
}

#[test]
fn trimming_strips_blanks_on_both_ends() {
    assert_eq!(trim_of("  a b\t "), "a b");
    assert_eq!(trim_of("   "), "");
    assert_eq!(trim_of("x"), "x");
    // the whole Unicode White_Space set counts as blank
    assert_eq!(trim_of("\u{a0}\u{2003}x\u{3000}\u{85}"), "x");
    assert_eq!(trim_of("\u{2028}\u{202f}\u{205f}\u{1680}"), "");
}
