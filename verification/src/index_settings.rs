//! The talent index definition: field mappings and the analyzer chain.
//!
//! Resetting the index recreates it from these two documents. The mapping
//! table here is the source of truth for the field names the planner
//! queries; the analyzers implement trigram indexing, keyword-time word
//! splitting, stopword filtering and technical-term protection.

use vstd::prelude::*;

use crate::json::{append_json_str, json_str_text};
use crate::query::{obj1, str_list_text};

verus! {

/// How one talent field is indexed.
#[derive(Debug, Clone)]
pub enum FieldMapping {
    /// Stored as-is under the given engine type, not analyzed.
    NotAnalyzed(String),
    /// A date in the engine's optional-time format, not analyzed.
    Date,
    /// Trigram-analyzed text with a `.raw` exact sub-field; the flag says
    /// whether the raw sub-field is marked not-analyzed.
    TrigramsWithRaw(bool),
    /// The three-way text field named after itself: trigram-analyzed,
    /// keyword-analyzed under `.keyword`, and exact under `.raw`.
    MultiField(String),
    /// A nested document with the given not-analyzed properties.
    NestedProps(Vec<(String, String)>),
}

/// Mathematical view of `FieldMapping`.
pub enum FieldMappingV {
    NotAnalyzed(Seq<char>),
    Date,
    TrigramsWithRaw(bool),
    MultiField(Seq<char>),
    NestedProps(Seq<(Seq<char>, Seq<char>)>),
}

pub open spec fn fm_view(m: FieldMapping) -> FieldMappingV {
    match m {
        FieldMapping::NotAnalyzed(t) => FieldMappingV::NotAnalyzed(t@),
        FieldMapping::Date => FieldMappingV::Date,
        FieldMapping::TrigramsWithRaw(b) => FieldMappingV::TrigramsWithRaw(b),
        FieldMapping::MultiField(n) => FieldMappingV::MultiField(n@),
        FieldMapping::NestedProps(ps) => FieldMappingV::NestedProps(
            ps@.map_values(|p: (String, String)| (p.0@, p.1@)),
        ),
    }
}

/// The talent fields and how each is indexed. Renaming a field here must
/// be followed by a rename in the planner.
pub open spec fn spec_talent_fields() -> Seq<(Seq<char>, FieldMappingV)> {
    seq![
        ("id"@, FieldMappingV::NotAnalyzed("integer"@)),
        ("desired_work_roles"@, FieldMappingV::TrigramsWithRaw(true)),
        ("desired_work_roles_experience"@, FieldMappingV::NotAnalyzed("string"@)),
        (
            "desired_roles"@,
            FieldMappingV::NestedProps(seq![("role"@, "string"@), ("experience"@, "string"@)]),
        ),
        ("professional_experience"@, FieldMappingV::NotAnalyzed("string"@)),
        ("work_locations"@, FieldMappingV::NotAnalyzed("string"@)),
        ("educations"@, FieldMappingV::TrigramsWithRaw(false)),
        ("languages"@, FieldMappingV::NotAnalyzed("string"@)),
        ("current_location"@, FieldMappingV::NotAnalyzed("string"@)),
        ("work_authorization"@, FieldMappingV::NotAnalyzed("string"@)),
        ("skills"@, FieldMappingV::MultiField("skills"@)),
        ("summary"@, FieldMappingV::MultiField("summary"@)),
        ("headline"@, FieldMappingV::MultiField("headline"@)),
        ("work_experiences"@, FieldMappingV::TrigramsWithRaw(true)),
        ("contacted_company_ids"@, FieldMappingV::NotAnalyzed("integer"@)),
        ("accepted"@, FieldMappingV::NotAnalyzed("boolean"@)),
        ("batch_starts_at"@, FieldMappingV::Date),
        ("batch_ends_at"@, FieldMappingV::Date),
        ("added_to_batch_at"@, FieldMappingV::Date),
        ("weight"@, FieldMappingV::NotAnalyzed("integer"@)),
        ("blocked_companies"@, FieldMappingV::NotAnalyzed("integer"@)),
        ("avatar_url"@, FieldMappingV::NotAnalyzed("string"@)),
        (
            "salary_expectations"@,
            FieldMappingV::NestedProps(
                seq![("minimum"@, "long"@), ("city"@, "string"@), ("currency"@, "string"@)],
            ),
        ),
        ("latest_position"@, FieldMappingV::NotAnalyzed("string"@)),
    ]
}

/// `"type":T,"index":"not_analyzed"` — the body of a plain stored field.
pub open spec fn not_analyzed_body(t: Seq<char>) -> Seq<char> {
    json_str_text("type"@) + seq![':'] + json_str_text(t) + seq![','] + json_str_text("index"@)
        + seq![':'] + json_str_text("not_analyzed"@)
}

/// The serialized properties of a nested field.
pub open spec fn nested_props_text(ps: Seq<(Seq<char>, Seq<char>)>) -> Seq<char>
    decreases ps.len(),
{
    if ps.len() == 0 {
        Seq::empty()
    } else if ps.len() == 1 {
        json_str_text(ps.last().0) + seq![':'] + seq!['{'] + not_analyzed_body(ps.last().1)
            + seq!['}']
    } else {
        nested_props_text(ps.drop_last()) + seq![','] + json_str_text(ps.last().0) + seq![':']
            + seq!['{'] + not_analyzed_body(ps.last().1) + seq!['}']
    }
}

/// `"analyzer":"trigrams","search_analyzer":"words"` — the trigram pair.
pub open spec fn trigrams_analyzer_body() -> Seq<char> {
    json_str_text("analyzer"@) + seq![':'] + json_str_text("trigrams"@) + seq![',']
        + json_str_text("search_analyzer"@) + seq![':'] + json_str_text("words"@)
}

/// One sub-field of the three-way text field.
pub open spec fn multi_sub_text(analyzer: Seq<char>) -> Seq<char> {
    seq!['{'] + json_str_text("type"@) + seq![':'] + json_str_text("string"@) + seq![','] + (
    if analyzer == "trigrams"@ {
        trigrams_analyzer_body()
    } else {
        json_str_text("analyzer"@) + seq![':'] + json_str_text(analyzer) + seq![',']
            + json_str_text("search_analyzer"@) + seq![':'] + json_str_text(analyzer)
    }) + seq![','] + json_str_text("boost"@) + seq![':'] + json_str_text("2.0"@) + seq!['}']
}

/// The serialized body of one field mapping.
pub open spec fn field_mapping_text(m: FieldMappingV) -> Seq<char> {
    match m {
        FieldMappingV::NotAnalyzed(t) => seq!['{'] + not_analyzed_body(t) + seq!['}'],
        FieldMappingV::Date => seq!['{'] + json_str_text("type"@) + seq![':'] + json_str_text(
            "date"@,
        ) + seq![','] + json_str_text("format"@) + seq![':'] + json_str_text("dateOptionalTime"@)
            + seq![','] + json_str_text("index"@) + seq![':'] + json_str_text("not_analyzed"@)
            + seq!['}'],
        FieldMappingV::TrigramsWithRaw(raw_na) => seq!['{'] + json_str_text("type"@) + seq![':']
            + json_str_text("string"@) + seq![','] + trigrams_analyzer_body() + seq![',']
            + json_str_text("fields"@) + seq![':'] + seq!['{'] + json_str_text("raw"@) + seq![':']
            + seq!['{'] + (if raw_na {
            not_analyzed_body("string"@)
        } else {
            json_str_text("type"@) + seq![':'] + json_str_text("string"@)
        }) + seq!['}'] + seq!['}'] + seq!['}'],
        FieldMappingV::MultiField(name) => seq!['{'] + json_str_text("type"@) + seq![':']
            + json_str_text("multi_field"@) + seq![','] + json_str_text("fields"@) + seq![':']
            + seq!['{'] + json_str_text(name) + seq![':'] + multi_sub_text("trigrams"@) + seq![',']
            + json_str_text("keyword"@) + seq![':'] + multi_sub_text("keywords"@) + seq![',']
            + json_str_text("raw"@) + seq![':'] + seq!['{'] + not_analyzed_body("string"@)
            + seq!['}'] + seq!['}'] + seq!['}'],
        FieldMappingV::NestedProps(ps) => seq!['{'] + json_str_text("type"@) + seq![':']
            + json_str_text("nested"@) + seq![','] + json_str_text("properties"@) + seq![':']
            + seq!['{'] + nested_props_text(ps) + seq!['}'] + seq!['}'],
    }
}

/// The serialized field table.
pub open spec fn fields_text(fs: Seq<(Seq<char>, FieldMappingV)>) -> Seq<char>
    decreases fs.len(),
{
    if fs.len() == 0 {
        Seq::empty()
    } else if fs.len() == 1 {
        json_str_text(fs.last().0) + seq![':'] + field_mapping_text(fs.last().1)
    } else {
        fields_text(fs.drop_last()) + seq![','] + json_str_text(fs.last().0) + seq![':']
            + field_mapping_text(fs.last().1)
    }
}

/// The view of a field table.
pub open spec fn fields_view(s: Seq<(String, FieldMapping)>) -> Seq<(Seq<char>, FieldMappingV)> {
    s.map_values(|e: (String, FieldMapping)| (e.0@, fm_view(e.1)))
}

/// The whole talent mapping document.
pub open spec fn spec_talent_mapping_text() -> Seq<char> {
    obj1(
        "talent"@,
        obj1("properties"@, seq!['{'] + fields_text(spec_talent_fields()) + seq!['}']),
    )
}

/// Append `"key":"value"`.
fn append_str_entry(out: &mut String, key: &str, value: &str)
    ensures
        final(out)@ == old(out)@ + json_str_text(key@) + seq![':'] + json_str_text(value@),
{
    proof {
        reveal_strlit(":");
    }
    append_json_str(out, key);
    out.append(":");
    append_json_str(out, value);
}

/// Append the body of a plain stored field.
fn append_not_analyzed_body(out: &mut String, t: &str)
    ensures
        final(out)@ == old(out)@ + not_analyzed_body(t@),
{
    proof {
        reveal_strlit(",");
    }
    append_str_entry(out, "type", t);
    out.append(",");
    append_str_entry(out, "index", "not_analyzed");
    assert(out@ =~= old(out)@ + not_analyzed_body(t@));
}

/// Append the trigram analyzer pair.
fn append_trigrams_analyzer_body(out: &mut String)
    ensures
        final(out)@ == old(out)@ + trigrams_analyzer_body(),
{
    proof {
        reveal_strlit(",");
    }
    append_str_entry(out, "analyzer", "trigrams");
    out.append(",");
    append_str_entry(out, "search_analyzer", "words");
    assert(out@ =~= old(out)@ + trigrams_analyzer_body());
}

/// Append one sub-field of the three-way text field.
fn append_multi_sub(out: &mut String, analyzer: &str)
    ensures
        final(out)@ == old(out)@ + multi_sub_text(analyzer@),
{
    proof {
        reveal_strlit("{");
        reveal_strlit("}");
        reveal_strlit(",");
    }
    out.append("{");
    append_str_entry(out, "type", "string");
    out.append(",");
    if crate::text::str_eq(analyzer, "trigrams") {
        append_trigrams_analyzer_body(out);
    } else {
        append_str_entry(out, "analyzer", analyzer);
        out.append(",");
        append_str_entry(out, "search_analyzer", analyzer);
    }
    out.append(",");
    append_str_entry(out, "boost", "2.0");
    out.append("}");
    assert(out@ =~= old(out)@ + multi_sub_text(analyzer@));
}

/// Append a trigram-analyzed field with its `.raw` sub-field.
#[verifier::spinoff_prover]
#[verifier::rlimit(100)]
fn append_fm_trigrams(out: &mut String, raw_na: bool)
    ensures
        final(out)@ == old(out)@ + field_mapping_text(FieldMappingV::TrigramsWithRaw(raw_na)),
{
    proof {
        reveal_strlit("{");
        reveal_strlit("}");
        reveal_strlit(":");
        reveal_strlit(",");
    }
    out.append("{");
    append_str_entry(out, "type", "string");
    out.append(",");
    append_trigrams_analyzer_body(out);
    out.append(",");
    append_json_str(out, "fields");
    out.append(":");
    out.append("{");
    append_json_str(out, "raw");
    out.append(":");
    out.append("{");
    if raw_na {
        append_not_analyzed_body(out, "string");
    } else {
        append_str_entry(out, "type", "string");
    }
    out.append("}");
    out.append("}");
    out.append("}");
    assert(out@ =~= old(out)@ + field_mapping_text(FieldMappingV::TrigramsWithRaw(raw_na)));
}

/// Append a three-way text field.
#[verifier::spinoff_prover]
#[verifier::rlimit(100)]
fn append_fm_multi(out: &mut String, name: &str)
    ensures
        final(out)@ == old(out)@ + field_mapping_text(FieldMappingV::MultiField(name@)),
{
    proof {
        reveal_strlit("{");
        reveal_strlit("}");
        reveal_strlit(":");
        reveal_strlit(",");
    }
    let ghost head = seq!['{'] + json_str_text("type"@) + seq![':'] + json_str_text(
        "multi_field"@,
    ) + seq![','] + json_str_text("fields"@) + seq![':'] + seq!['{'];
    out.append("{");
    append_str_entry(out, "type", "multi_field");
    out.append(",");
    append_json_str(out, "fields");
    out.append(":");
    out.append("{");
    proof {
        assert(out@ =~= old(out)@ + head);
    }
    append_json_str(out, name);
    out.append(":");
    append_multi_sub(out, "trigrams");
    let ghost mid1 = head + json_str_text(name@) + seq![':'] + multi_sub_text("trigrams"@);
    proof {
        assert(out@ =~= old(out)@ + mid1);
    }
    out.append(",");
    append_json_str(out, "keyword");
    out.append(":");
    append_multi_sub(out, "keywords");
    let ghost mid2 = mid1 + seq![','] + json_str_text("keyword"@) + seq![':'] + multi_sub_text(
        "keywords"@,
    );
    proof {
        assert(out@ =~= old(out)@ + mid2);
    }
    out.append(",");
    append_json_str(out, "raw");
    out.append(":");
    out.append("{");
    append_not_analyzed_body(out, "string");
    out.append("}");
    out.append("}");
    out.append("}");
    proof {
        assert(out@ =~= old(out)@ + mid2 + seq![','] + json_str_text("raw"@) + seq![':'] + seq![
            '{'
        ] + not_analyzed_body("string"@) + seq!['}'] + seq!['}'] + seq!['}']);
        assert(out@ =~= old(out)@ + field_mapping_text(FieldMappingV::MultiField(name@)));
    }
}

/// Append a nested field with its not-analyzed properties.
#[verifier::loop_isolation(false)]
fn append_fm_nested(out: &mut String, ps: &Vec<(String, String)>)
    ensures
        final(out)@ == old(out)@ + field_mapping_text(
            FieldMappingV::NestedProps(ps@.map_values(|p: (String, String)| (p.0@, p.1@))),
        ),
{
    proof {
        reveal_strlit("{");
        reveal_strlit("}");
        reveal_strlit(":");
        reveal_strlit(",");
    }
    out.append("{");
    append_str_entry(out, "type", "nested");
    out.append(",");
    append_json_str(out, "properties");
    out.append(":");
    out.append("{");
    let ghost pvs = ps@.map_values(|p: (String, String)| (p.0@, p.1@));
    let ghost mid = out@;
    let mut i: usize = 0;
    while i < ps.len()
        invariant
            i <= ps@.len(),
            out@ == mid + nested_props_text(pvs.subrange(0, i as int)),
        decreases ps@.len() - i,
    {
        if i > 0 {
            out.append(",");
        }
        proof {
            assert(pvs[i as int] == (ps@[i as int].0@, ps@[i as int].1@));
        }
        append_json_str(out, ps[i].0.as_str());
        out.append(":");
        out.append("{");
        append_not_analyzed_body(out, ps[i].1.as_str());
        out.append("}");
        proof {
            let cur = pvs.subrange(0, i + 1);
            assert(cur.drop_last() =~= pvs.subrange(0, i as int));
            assert(cur.last() == pvs[i as int]);
            assert(out@ =~= mid + nested_props_text(cur));
        }
        i = i + 1;
    }
    out.append("}");
    out.append("}");
    proof {
        assert(pvs.subrange(0, pvs.len() as int) =~= pvs);
        assert(out@ =~= old(out)@ + field_mapping_text(FieldMappingV::NestedProps(pvs)));
    }
}

/// Append the serialized body of one field mapping.
fn append_field_mapping(out: &mut String, m: &FieldMapping)
    ensures
        final(out)@ == old(out)@ + field_mapping_text(fm_view(*m)),
{
    proof {
        reveal_strlit("{");
        reveal_strlit("}");
        reveal_strlit(":");
        reveal_strlit(",");
    }
    match m {
        FieldMapping::NotAnalyzed(t) => {
            out.append("{");
            append_not_analyzed_body(out, t.as_str());
            out.append("}");
            assert(out@ =~= old(out)@ + field_mapping_text(fm_view(*m)));
        },
        FieldMapping::Date => {
            out.append("{");
            append_str_entry(out, "type", "date");
            out.append(",");
            append_str_entry(out, "format", "dateOptionalTime");
            out.append(",");
            append_str_entry(out, "index", "not_analyzed");
            out.append("}");
            assert(out@ =~= old(out)@ + field_mapping_text(fm_view(*m)));
        },
        FieldMapping::TrigramsWithRaw(raw_na) => {
            append_fm_trigrams(out, *raw_na);
        },
        FieldMapping::MultiField(name) => {
            append_fm_multi(out, name.as_str());
        },
        FieldMapping::NestedProps(ps) => {
            append_fm_nested(out, ps);
        },
    }
}

/// Append one field-table entry.
fn push_field(r: &mut Vec<(String, FieldMapping)>, name: &str, m: FieldMapping)
    ensures
        fields_view(final(r)@) == fields_view(old(r)@).push((name@, fm_view(m))),
{
    let ghost mv = fm_view(m);
    r.push((name.to_owned(), m));
    proof {
        assert(fields_view(r@) =~= fields_view(old(r)@).push((name@, mv)));
    }
}

/// The talent field table, as data.
#[verifier::spinoff_prover]
#[verifier::rlimit(100)]
pub fn talent_fields() -> (r: Vec<(String, FieldMapping)>)
    ensures
        fields_view(r@) == spec_talent_fields(),
{
    let mut r: Vec<(String, FieldMapping)> = Vec::new();
    proof {
        assert(fields_view(r@) =~= Seq::<(Seq<char>, FieldMappingV)>::empty());
    }
    push_field(&mut r, "id", FieldMapping::NotAnalyzed("integer".to_owned()));
    push_field(&mut r, "desired_work_roles", FieldMapping::TrigramsWithRaw(true));
    push_field(
        &mut r,
        "desired_work_roles_experience",
        FieldMapping::NotAnalyzed("string".to_owned()),
    );
    let mut role_props: Vec<(String, String)> = Vec::new();
    role_props.push(("role".to_owned(), "string".to_owned()));
    role_props.push(("experience".to_owned(), "string".to_owned()));
    proof {
        assert(fm_view(FieldMapping::NestedProps(role_props))->NestedProps_0
            =~= seq![("role"@, "string"@), ("experience"@, "string"@)]);
    }
    push_field(&mut r, "desired_roles", FieldMapping::NestedProps(role_props));
    push_field(&mut r, "professional_experience", FieldMapping::NotAnalyzed("string".to_owned()));
    push_field(&mut r, "work_locations", FieldMapping::NotAnalyzed("string".to_owned()));
    push_field(&mut r, "educations", FieldMapping::TrigramsWithRaw(false));
    push_field(&mut r, "languages", FieldMapping::NotAnalyzed("string".to_owned()));
    push_field(&mut r, "current_location", FieldMapping::NotAnalyzed("string".to_owned()));
    push_field(&mut r, "work_authorization", FieldMapping::NotAnalyzed("string".to_owned()));
    push_field(&mut r, "skills", FieldMapping::MultiField("skills".to_owned()));
    push_field(&mut r, "summary", FieldMapping::MultiField("summary".to_owned()));
    push_field(&mut r, "headline", FieldMapping::MultiField("headline".to_owned()));
    push_field(&mut r, "work_experiences", FieldMapping::TrigramsWithRaw(true));
    push_field(&mut r, "contacted_company_ids", FieldMapping::NotAnalyzed("integer".to_owned()));
    push_field(&mut r, "accepted", FieldMapping::NotAnalyzed("boolean".to_owned()));
    push_field(&mut r, "batch_starts_at", FieldMapping::Date);
    push_field(&mut r, "batch_ends_at", FieldMapping::Date);
    push_field(&mut r, "added_to_batch_at", FieldMapping::Date);
    push_field(&mut r, "weight", FieldMapping::NotAnalyzed("integer".to_owned()));
    push_field(&mut r, "blocked_companies", FieldMapping::NotAnalyzed("integer".to_owned()));
    push_field(&mut r, "avatar_url", FieldMapping::NotAnalyzed("string".to_owned()));
    let mut salary_props: Vec<(String, String)> = Vec::new();
    salary_props.push(("minimum".to_owned(), "long".to_owned()));
    salary_props.push(("city".to_owned(), "string".to_owned()));
    salary_props.push(("currency".to_owned(), "string".to_owned()));
    proof {
        assert(fm_view(FieldMapping::NestedProps(salary_props))->NestedProps_0
            =~= seq![("minimum"@, "long"@), ("city"@, "string"@), ("currency"@, "string"@)]);
    }
    push_field(&mut r, "salary_expectations", FieldMapping::NestedProps(salary_props));
    push_field(&mut r, "latest_position", FieldMapping::NotAnalyzed("string".to_owned()));
    proof {
        assert(fields_view(r@) =~~= spec_talent_fields());
    }
    r
}

/// The talent mapping document, on the wire.
#[verifier::loop_isolation(false)]
#[verifier::spinoff_prover]
#[verifier::rlimit(100)]
pub fn talent_mapping_json() -> (r: String)
    ensures
        r@ == spec_talent_mapping_text(),
{
    proof {
        reveal_strlit("{");
        reveal_strlit("}");
        reveal_strlit(":");
        reveal_strlit(",");
    }
    let fields = talent_fields();
    let ghost fvs = spec_talent_fields();
    let mut out = String::new();
    out.append("{");
    append_json_str(&mut out, "talent");
    out.append(":");
    out.append("{");
    append_json_str(&mut out, "properties");
    out.append(":");
    out.append("{");
    let ghost mid = out@;
    let mut i: usize = 0;
    while i < fields.len()
        invariant
            i <= fields@.len(),
            fvs == spec_talent_fields(),
            fvs == fields_view(fields@),
            fvs.len() == fields@.len(),
            out@ == mid + fields_text(fvs.subrange(0, i as int)),
        decreases fields@.len() - i,
    {
        if i > 0 {
            out.append(",");
        }
        proof {
            assert(fvs[i as int] == (fields@[i as int].0@, fm_view(fields@[i as int].1)));
        }
        append_json_str(&mut out, fields[i].0.as_str());
        out.append(":");
        append_field_mapping(&mut out, &fields[i].1);
        proof {
            let cur = fvs.subrange(0, i + 1);
            assert(cur.drop_last() =~= fvs.subrange(0, i as int));
            assert(cur.last() == fvs[i as int]);
            assert(out@ =~= mid + fields_text(cur));
        }
        i = i + 1;
    }
    out.append("}");
    out.append("}");
    out.append("}");
    proof {
        assert(fvs.subrange(0, fvs.len() as int) =~= fvs);
        assert(out@ =~= spec_talent_mapping_text());
    }
    out
}

/// The filter chain of each analyzer: trigrams at index time, words at
/// query time, and the keyword-oriented chain.
pub open spec fn spec_analyzers() -> Seq<(Seq<char>, Seq<char>, Seq<Seq<char>>)> {
    seq![
        (
            "trigrams"@,
            "whitespace"@,
            seq![
                "lowercase"@,
                "words_splitter"@,
                "trigrams_filter"@,
                "english_words_filter"@,
                "tech_words_filter"@,
            ],
        ),
        (
            "words"@,
            "keyword"@,
            seq![
                "lowercase"@,
                "words_splitter"@,
                "english_words_filter"@,
                "tech_words_filter"@,
            ],
        ),
        (
            "keywords"@,
            "standard"@,
            seq![
                "lowercase"@,
                "protect_keywords"@,
                "trim"@,
                "english_words_filter"@,
                "strip_js"@,
            ],
        ),
    ]
}

/// One custom analyzer: its tokenizer and its filter chain, in order.
pub open spec fn analyzer_text(tokenizer: Seq<char>, filters: Seq<Seq<char>>) -> Seq<char> {
    seq!['{'] + json_str_text("type"@) + seq![':'] + json_str_text("custom"@) + seq![',']
        + json_str_text("tokenizer"@) + seq![':'] + json_str_text(tokenizer) + seq![',']
        + json_str_text("filter"@) + seq![':'] + seq!['['] + str_list_text(filters) + seq![']']
        + seq!['}']
}

/// The serialized analyzers.
pub open spec fn analyzers_text(az: Seq<(Seq<char>, Seq<char>, Seq<Seq<char>>)>) -> Seq<char>
    decreases az.len(),
{
    if az.len() == 0 {
        Seq::empty()
    } else if az.len() == 1 {
        json_str_text(az.last().0) + seq![':'] + analyzer_text(az.last().1, az.last().2)
    } else {
        analyzers_text(az.drop_last()) + seq![','] + json_str_text(az.last().0) + seq![':']
            + analyzer_text(az.last().1, az.last().2)
    }
}

/// `"name":{body}` — one named token filter.
pub open spec fn filter_entry_text(name: Seq<char>, body: Seq<char>) -> Seq<char> {
    json_str_text(name) + seq![':'] + seq!['{'] + body + seq!['}']
}

/// 2-to-20 ngrams.
pub open spec fn ngram_filter_body() -> Seq<char> {
    json_str_text("type"@) + seq![':'] + json_str_text("ngram"@) + seq![','] + json_str_text(
        "min_gram"@,
    ) + seq![':'] + seq!['2'] + seq![','] + json_str_text("max_gram"@) + seq![':'] + seq!['2', '0']
}

/// Word splitting that keeps the original token and its catenations.
pub open spec fn splitter_filter_body() -> Seq<char> {
    json_str_text("type"@) + seq![':'] + json_str_text("word_delimiter"@) + seq![',']
        + json_str_text("preserve_original"@) + seq![':'] + seq!['t', 'r', 'u', 'e'] + seq![',']
        + json_str_text("catenate_all"@) + seq![':'] + seq!['t', 'r', 'u', 'e']
}

/// The English stopword set.
pub open spec fn english_filter_body() -> Seq<char> {
    json_str_text("type"@) + seq![':'] + json_str_text("stop"@) + seq![','] + json_str_text(
        "stopwords"@,
    ) + seq![':'] + json_str_text("_english_"@)
}

/// The technical stopword list.
pub open spec fn tech_filter_body() -> Seq<char> {
    json_str_text("type"@) + seq![':'] + json_str_text("stop"@) + seq![','] + json_str_text(
        "stopwords"@,
    ) + seq![':'] + seq!['['] + json_str_text("js"@) + seq![']']
}

/// The strip of a trailing `js`, dot included.
pub open spec fn strip_js_filter_body() -> Seq<char> {
    json_str_text("type"@) + seq![':'] + json_str_text("pattern_replace"@) + seq![',']
        + json_str_text("pattern"@) + seq![':'] + json_str_text("(.*?)\\.?js\\z"@) + seq![',']
        + json_str_text("replacement"@) + seq![':'] + json_str_text("$1"@)
}

/// Case-insensitive protection of the tech keywords.
pub open spec fn protect_filter_body() -> Seq<char> {
    json_str_text("type"@) + seq![':'] + json_str_text("keyword_marker"@) + seq![',']
        + json_str_text("keywords"@) + seq![':'] + seq!['['] + json_str_text("C++"@) + seq![',']
        + json_str_text("C#"@) + seq![']'] + seq![','] + json_str_text("ignore_case"@) + seq![':']
        + seq!['t', 'r', 'u', 'e']
}

/// The token filters, in order.
pub open spec fn spec_filters_text() -> Seq<char> {
    filter_entry_text("trigrams_filter"@, ngram_filter_body()) + seq![','] + filter_entry_text(
        "words_splitter"@,
        splitter_filter_body(),
    ) + seq![','] + filter_entry_text("english_words_filter"@, english_filter_body()) + seq![',']
        + filter_entry_text("tech_words_filter"@, tech_filter_body()) + seq![',']
        + filter_entry_text("strip_js"@, strip_js_filter_body()) + seq![','] + filter_entry_text(
        "protect_keywords"@,
        protect_filter_body(),
    )
}

/// The whole settings document: one shard and the analysis chain.
pub open spec fn spec_talent_settings_text() -> Seq<char> {
    seq!['{'] + json_str_text("number_of_shards"@) + seq![':'] + seq!['1'] + seq![',']
        + json_str_text("analysis"@) + seq![':'] + seq!['{'] + json_str_text("filter"@) + seq![':']
        + seq!['{'] + spec_filters_text() + seq!['}'] + seq![','] + json_str_text("analyzer"@)
        + seq![':'] + seq!['{'] + analyzers_text(spec_analyzers()) + seq!['}'] + seq!['}']
        + seq!['}']
}

/// Append one custom analyzer.
#[verifier::loop_isolation(false)]
fn append_analyzer(out: &mut String, tokenizer: &str, filters: &Vec<String>)
    ensures
        final(out)@ == old(out)@ + analyzer_text(tokenizer@, filters.deep_view()),
{
    proof {
        reveal_strlit("{");
        reveal_strlit("}");
        reveal_strlit("[");
        reveal_strlit("]");
        reveal_strlit(":");
        reveal_strlit(",");
    }
    out.append("{");
    append_str_entry(out, "type", "custom");
    out.append(",");
    append_str_entry(out, "tokenizer", tokenizer);
    out.append(",");
    append_json_str(out, "filter");
    out.append(":");
    out.append("[");
    let ghost fvs = filters.deep_view();
    let ghost mid = out@;
    let mut i: usize = 0;
    while i < filters.len()
        invariant
            i <= filters@.len(),
            fvs.len() == filters@.len(),
            out@ == mid + str_list_text(fvs.subrange(0, i as int)),
        decreases filters@.len() - i,
    {
        if i > 0 {
            out.append(",");
        }
        assert(fvs[i as int] == filters@[i as int]@);
        append_json_str(out, filters[i].as_str());
        proof {
            let cur = fvs.subrange(0, i + 1);
            assert(cur.drop_last() =~= fvs.subrange(0, i as int));
            assert(cur.last() == fvs[i as int]);
            if i == 0 {
                assert(str_list_text(cur) == json_str_text(cur.last()));
            }
            assert(out@ =~= mid + str_list_text(cur));
        }
        i = i + 1;
    }
    out.append("]");
    out.append("}");
    proof {
        assert(fvs.subrange(0, fvs.len() as int) =~= fvs);
        assert(out@ =~= old(out)@ + analyzer_text(tokenizer@, fvs));
    }
}

fn push_str(v: &mut Vec<String>, s: &str)
    ensures
        final(v).deep_view() == old(v).deep_view().push(s@),
{
    v.push(s.to_owned());
    proof {
        assert(v.deep_view() =~= old(v).deep_view().push(s@));
    }
}

/// Append the 2-to-20 ngram filter body.
fn append_ngram_body(out: &mut String)
    ensures
        final(out)@ == old(out)@ + ngram_filter_body(),
{
    proof {
        reveal_strlit(":");
        reveal_strlit(",");
        reveal_strlit("2");
        reveal_strlit("20");
    }
    append_str_entry(out, "type", "ngram");
    out.append(",");
    append_json_str(out, "min_gram");
    out.append(":");
    out.append("2");
    out.append(",");
    append_json_str(out, "max_gram");
    out.append(":");
    out.append("20");
    assert(out@ =~= old(out)@ + ngram_filter_body());
}

/// Append the word-splitter filter body.
fn append_splitter_body(out: &mut String)
    ensures
        final(out)@ == old(out)@ + splitter_filter_body(),
{
    proof {
        reveal_strlit(":");
        reveal_strlit(",");
        reveal_strlit("true");
    }
    append_str_entry(out, "type", "word_delimiter");
    out.append(",");
    append_json_str(out, "preserve_original");
    out.append(":");
    out.append("true");
    out.append(",");
    append_json_str(out, "catenate_all");
    out.append(":");
    out.append("true");
    assert(out@ =~= old(out)@ + splitter_filter_body());
}

/// Append the English stopword filter body.
fn append_english_body(out: &mut String)
    ensures
        final(out)@ == old(out)@ + english_filter_body(),
{
    proof {
        reveal_strlit(",");
    }
    append_str_entry(out, "type", "stop");
    out.append(",");
    append_str_entry(out, "stopwords", "_english_");
    assert(out@ =~= old(out)@ + english_filter_body());
}

/// Append the technical stopword filter body.
fn append_tech_body(out: &mut String)
    ensures
        final(out)@ == old(out)@ + tech_filter_body(),
{
    proof {
        reveal_strlit(":");
        reveal_strlit(",");
        reveal_strlit("[");
        reveal_strlit("]");
    }
    append_str_entry(out, "type", "stop");
    out.append(",");
    append_json_str(out, "stopwords");
    out.append(":");
    out.append("[");
    append_json_str(out, "js");
    out.append("]");
    assert(out@ =~= old(out)@ + tech_filter_body());
}

/// Append the trailing-js strip filter body.
fn append_strip_js_body(out: &mut String)
    ensures
        final(out)@ == old(out)@ + strip_js_filter_body(),
{
    proof {
        reveal_strlit(",");
    }
    append_str_entry(out, "type", "pattern_replace");
    out.append(",");
    append_str_entry(out, "pattern", "(.*?)\\.?js\\z");
    out.append(",");
    append_str_entry(out, "replacement", "$1");
    assert(out@ =~= old(out)@ + strip_js_filter_body());
}

/// Append the keyword-protection filter body.
fn append_protect_body(out: &mut String)
    ensures
        final(out)@ == old(out)@ + protect_filter_body(),
{
    proof {
        reveal_strlit(":");
        reveal_strlit(",");
        reveal_strlit("[");
        reveal_strlit("]");
        reveal_strlit("true");
    }
    append_str_entry(out, "type", "keyword_marker");
    out.append(",");
    append_json_str(out, "keywords");
    out.append(":");
    out.append("[");
    append_json_str(out, "C++");
    out.append(",");
    append_json_str(out, "C#");
    out.append("]");
    out.append(",");
    append_json_str(out, "ignore_case");
    out.append(":");
    out.append("true");
    assert(out@ =~= old(out)@ + protect_filter_body());
}

/// Append one named filter entry.
fn append_filter_entry_open(out: &mut String, name: &str)
    ensures
        final(out)@ == old(out)@ + json_str_text(name@) + seq![':'] + seq!['{'],
{
    proof {
        reveal_strlit(":");
        reveal_strlit("{");
    }
    append_json_str(out, name);
    out.append(":");
    out.append("{");
}

/// Append the token filters.
#[verifier::spinoff_prover]
#[verifier::rlimit(100)]
fn append_filters(out: &mut String)
    ensures
        final(out)@ == old(out)@ + spec_filters_text(),
{
    proof {
        reveal_strlit("{");
        reveal_strlit("}");
        reveal_strlit(",");
    }
    let ghost p1 = filter_entry_text("trigrams_filter"@, ngram_filter_body());
    let ghost p2 = filter_entry_text("words_splitter"@, splitter_filter_body());
    let ghost p3 = filter_entry_text("english_words_filter"@, english_filter_body());
    let ghost p4 = filter_entry_text("tech_words_filter"@, tech_filter_body());
    let ghost p5 = filter_entry_text("strip_js"@, strip_js_filter_body());
    let ghost p6 = filter_entry_text("protect_keywords"@, protect_filter_body());
    append_filter_entry_open(out, "trigrams_filter");
    append_ngram_body(out);
    out.append("}");
    proof {
        assert(out@ =~= old(out)@ + p1);
    }
    out.append(",");
    append_filter_entry_open(out, "words_splitter");
    append_splitter_body(out);
    out.append("}");
    proof {
        assert(out@ =~= old(out)@ + p1 + seq![','] + p2);
    }
    out.append(",");
    append_filter_entry_open(out, "english_words_filter");
    append_english_body(out);
    out.append("}");
    proof {
        assert(out@ =~= old(out)@ + p1 + seq![','] + p2 + seq![','] + p3);
    }
    out.append(",");
    append_filter_entry_open(out, "tech_words_filter");
    append_tech_body(out);
    out.append("}");
    proof {
        assert(out@ =~= old(out)@ + p1 + seq![','] + p2 + seq![','] + p3 + seq![','] + p4);
    }
    out.append(",");
    append_filter_entry_open(out, "strip_js");
    append_strip_js_body(out);
    out.append("}");
    proof {
        assert(out@ =~= old(out)@ + p1 + seq![','] + p2 + seq![','] + p3 + seq![','] + p4 + seq![
            ','
        ] + p5);
    }
    out.append(",");
    append_filter_entry_open(out, "protect_keywords");
    append_protect_body(out);
    out.append("}");
    proof {
        assert(out@ =~= old(out)@ + p1 + seq![','] + p2 + seq![','] + p3 + seq![','] + p4 + seq![
            ','
        ] + p5 + seq![','] + p6);
        assert(out@ =~= old(out)@ + spec_filters_text());
    }
}

/// Append the three analyzers, in order.
#[verifier::spinoff_prover]
#[verifier::rlimit(100)]
fn append_analyzers(out: &mut String)
    ensures
        final(out)@ == old(out)@ + analyzers_text(spec_analyzers()),
{
    proof {
        reveal_strlit(":");
        reveal_strlit(",");
    }
    let ghost az = spec_analyzers();
    let mut chain: Vec<String> = Vec::new();
    push_str(&mut chain, "lowercase");
    push_str(&mut chain, "words_splitter");
    push_str(&mut chain, "trigrams_filter");
    push_str(&mut chain, "english_words_filter");
    push_str(&mut chain, "tech_words_filter");
    append_json_str(out, "trigrams");
    out.append(":");
    append_analyzer(out, "whitespace", &chain);
    let ghost a1 = json_str_text("trigrams"@) + seq![':'] + analyzer_text("whitespace"@, az[0].2);
    proof {
        assert(chain.deep_view() =~= az[0].2);
        assert(out@ =~= old(out)@ + a1);
    }
    out.append(",");

    let mut chain2: Vec<String> = Vec::new();
    push_str(&mut chain2, "lowercase");
    push_str(&mut chain2, "words_splitter");
    push_str(&mut chain2, "english_words_filter");
    push_str(&mut chain2, "tech_words_filter");
    append_json_str(out, "words");
    out.append(":");
    append_analyzer(out, "keyword", &chain2);
    let ghost a2 = json_str_text("words"@) + seq![':'] + analyzer_text("keyword"@, az[1].2);
    proof {
        assert(chain2.deep_view() =~= az[1].2);
        assert(out@ =~= old(out)@ + a1 + seq![','] + a2);
    }
    out.append(",");

    let mut chain3: Vec<String> = Vec::new();
    push_str(&mut chain3, "lowercase");
    push_str(&mut chain3, "protect_keywords");
    push_str(&mut chain3, "trim");
    push_str(&mut chain3, "english_words_filter");
    push_str(&mut chain3, "strip_js");
    append_json_str(out, "keywords");
    out.append(":");
    append_analyzer(out, "standard", &chain3);
    let ghost a3 = json_str_text("keywords"@) + seq![':'] + analyzer_text("standard"@, az[2].2);
    proof {
        assert(chain3.deep_view() =~= az[2].2);
        assert(out@ =~= old(out)@ + a1 + seq![','] + a2 + seq![','] + a3);
        let az01 = az.drop_last();
        let az0 = az01.drop_last();
        assert(az.last() == az[2]);
        assert(az01.last() == az[1]);
        assert(az0.last() == az[0]);
        assert(az0.len() == 1);
        assert(analyzers_text(az0) == a1);
        assert(analyzers_text(az01) == analyzers_text(az0) + seq![','] + a2);
        assert(analyzers_text(az) == analyzers_text(az01) + seq![','] + a3);
    }
}

/// The talent settings document, on the wire.
#[verifier::spinoff_prover]
#[verifier::rlimit(100)]
pub fn talent_settings_json() -> (r: String)
    ensures
        r@ == spec_talent_settings_text(),
{
    proof {
        reveal_strlit("{");
        reveal_strlit("}");
        reveal_strlit(":");
        reveal_strlit(",");
        reveal_strlit("1");
    }
    let mut out = String::new();
    out.append("{");
    append_json_str(&mut out, "number_of_shards");
    out.append(":");
    out.append("1");
    out.append(",");
    append_json_str(&mut out, "analysis");
    out.append(":");
    out.append("{");
    append_json_str(&mut out, "filter");
    out.append(":");
    out.append("{");
    let ghost head = seq!['{'] + json_str_text("number_of_shards"@) + seq![':'] + seq!['1'] + seq![
        ','
    ] + json_str_text("analysis"@) + seq![':'] + seq!['{'] + json_str_text("filter"@) + seq![':']
        + seq!['{'];
    proof {
        assert(out@ =~= head);
    }
    append_filters(&mut out);
    out.append("}");
    out.append(",");
    append_json_str(&mut out, "analyzer");
    out.append(":");
    out.append("{");
    let ghost mid = head + spec_filters_text() + seq!['}'] + seq![','] + json_str_text("analyzer"@)
        + seq![':'] + seq!['{'];
    proof {
        assert(out@ =~= mid);
    }
    append_analyzers(&mut out);
    out.append("}");
    out.append("}");
    out.append("}");
    proof {
        assert(out@ =~= spec_talent_settings_text());
    }
    out
}

} // verus!
