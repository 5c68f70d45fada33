//! The boolean query tree the planner builds and its on-wire JSON.
//!
//! `Query` is the library's model of the engine's query language, covering
//! the forms the planner emits: term and terms filters, ranges, boolean
//! composition, nested sub-queries, full-text query strings and match
//! clauses. `QueryV` is the mathematical view of a tree, and `query_text`
//! states the exact character sequence a tree serializes to.

use vstd::prelude::*;

use crate::json::{append_json_str, json_str_text};
use crate::text::{append_i64, append_u64, dec_str, dec_str_signed};

verus! {

/// A scalar in a query position.
#[derive(Debug, Clone)]
pub enum JsonVal {
    S(String),
    I(i64),
    U(u64),
    B(bool),
}

/// Mathematical view of `JsonVal`.
pub enum JsonValV {
    S(Seq<char>),
    I(i64),
    U(u64),
    B(bool),
}

pub open spec fn jval(v: JsonVal) -> JsonValV {
    match v {
        JsonVal::S(s) => JsonValV::S(s@),
        JsonVal::I(n) => JsonValV::I(n),
        JsonVal::U(n) => JsonValV::U(n),
        JsonVal::B(b) => JsonValV::B(b),
    }
}

/// The text of a scalar in the serialized query.
pub open spec fn jval_text(v: JsonValV) -> Seq<char> {
    match v {
        JsonValV::S(s) => json_str_text(s),
        JsonValV::I(n) => dec_str_signed(n as int),
        JsonValV::U(n) => dec_str(n as nat),
        JsonValV::B(b) => if b {
            seq!['t', 'r', 'u', 'e']
        } else {
            seq!['f', 'a', 'l', 's', 'e']
        },
    }
}

/// Append the text of a scalar.
pub fn append_jval(out: &mut String, v: &JsonVal)
    ensures
        final(out)@ == old(out)@ + jval_text(jval(*v)),
{
    proof {
        reveal_strlit("true");
        reveal_strlit("false");
    }
    match v {
        JsonVal::S(s) => append_json_str(out, s.as_str()),
        JsonVal::I(n) => append_i64(out, *n),
        JsonVal::U(n) => append_u64(out, *n),
        JsonVal::B(b) => {
            if *b {
                out.append("true");
                assert(out@ =~= old(out)@ + jval_text(jval(*v)));
            } else {
                out.append("false");
                assert(out@ =~= old(out)@ + jval_text(jval(*v)));
            }
        },
    }
}

/// A node of the engine query tree.
pub enum Query {
    Term { field: String, value: JsonVal },
    Terms { field: String, values: Vec<JsonVal> },
    Range {
        field: String,
        gte: Option<JsonVal>,
        lte: Option<JsonVal>,
        lt: Option<JsonVal>,
        format: Option<String>,
    },
    Bool { must: Vec<Query>, should: Vec<Query>, filter: Vec<Query>, must_not: Vec<Query> },
    Nested { path: String, query: Box<Query> },
    QueryString { query: String, fields: Vec<String> },
    Match { field: String, query: String, match_type: Option<String> },
    Filtered { filter: Box<Query> },
}

/// Mathematical view of a query tree.
pub enum QueryV {
    Term { field: Seq<char>, value: JsonValV },
    Terms { field: Seq<char>, values: Seq<JsonValV> },
    Range {
        field: Seq<char>,
        gte: Option<JsonValV>,
        lte: Option<JsonValV>,
        lt: Option<JsonValV>,
        format: Option<Seq<char>>,
    },
    Bool { must: Seq<QueryV>, should: Seq<QueryV>, filter: Seq<QueryV>, must_not: Seq<QueryV> },
    Nested { path: Seq<char>, query: Box<QueryV> },
    QueryString { query: Seq<char>, fields: Seq<Seq<char>> },
    Match { field: Seq<char>, query: Seq<char>, match_type: Option<Seq<char>> },
    Filtered { filter: Box<QueryV> },
}

pub open spec fn opt_str_view(o: Option<String>) -> Option<Seq<char>> {
    match o {
        Some(s) => Some(s@),
        None => None,
    }
}

pub open spec fn opt_jval_view(o: Option<JsonVal>) -> Option<JsonValV> {
    match o {
        Some(v) => Some(jval(v)),
        None => None,
    }
}

/// View of one query node.
pub open spec fn qv(q: Query) -> QueryV
    decreases q,
{
    match q {
        Query::Term { field, value } => QueryV::Term { field: field@, value: jval(value) },
        Query::Terms { field, values } => QueryV::Terms {
            field: field@,
            values: values@.map_values(|v: JsonVal| jval(v)),
        },
        Query::Range { field, gte, lte, lt, format } => QueryV::Range {
            field: field@,
            gte: opt_jval_view(gte),
            lte: opt_jval_view(lte),
            lt: opt_jval_view(lt),
            format: opt_str_view(format),
        },
        Query::Bool { must, should, filter, must_not } => QueryV::Bool {
            must: qv_seq(must@),
            should: qv_seq(should@),
            filter: qv_seq(filter@),
            must_not: qv_seq(must_not@),
        },
        Query::Nested { path, query } => QueryV::Nested {
            path: path@,
            query: Box::new(qv(*query)),
        },
        Query::QueryString { query, fields } => QueryV::QueryString {
            query: query@,
            fields: fields.deep_view(),
        },
        Query::Match { field, query, match_type } => QueryV::Match {
            field: field@,
            query: query@,
            match_type: opt_str_view(match_type),
        },
        Query::Filtered { filter } => QueryV::Filtered { filter: Box::new(qv(*filter)) },
    }
}

/// Views of a sequence of query nodes.
pub open spec fn qv_seq(qs: Seq<Query>) -> Seq<QueryV>
    decreases qs,
{
    if qs.len() == 0 {
        Seq::empty()
    } else {
        qv_seq(qs.subrange(0, qs.len() - 1)).push(qv(qs[qs.len() - 1]))
    }
}

/// `qv_seq` is the element-wise view.
pub proof fn lemma_qv_seq(qs: Seq<Query>)
    ensures
        qv_seq(qs).len() == qs.len(),
        forall|i: int| 0 <= i < qs.len() ==> qv_seq(qs)[i] == qv(qs[i]),
    decreases qs,
{
    if qs.len() > 0 {
        lemma_qv_seq(qs.subrange(0, qs.len() - 1));
    }
}

/// `{"key":inner}`
pub open spec fn obj1(key: Seq<char>, inner: Seq<char>) -> Seq<char> {
    seq!['{'] + json_str_text(key) + seq![':'] + inner + seq!['}']
}

/// Comma-separated concatenation of the pieces.
pub open spec fn comma_join(pieces: Seq<Seq<char>>) -> Seq<char>
    decreases pieces.len(),
{
    if pieces.len() == 0 {
        Seq::empty()
    } else if pieces.len() == 1 {
        pieces.last()
    } else {
        comma_join(pieces.drop_last()) + seq![','] + pieces.last()
    }
}

/// `"key":[body]` as one optional piece of a boolean query's body.
pub open spec fn opt_piece(key: Seq<char>, present: bool, body: Seq<char>) -> Seq<Seq<char>> {
    if present {
        seq![json_str_text(key) + seq![':'] + seq!['['] + body + seq![']']]
    } else {
        Seq::empty()
    }
}

/// `"key":value` as one optional piece of a range query's body.
pub open spec fn opt_val_piece(key: Seq<char>, v: Option<JsonValV>) -> Seq<Seq<char>> {
    match v {
        Some(x) => seq![json_str_text(key) + seq![':'] + jval_text(x)],
        None => Seq::empty(),
    }
}

/// `"key":"value"` as one optional piece.
pub open spec fn opt_str_piece(key: Seq<char>, v: Option<Seq<char>>) -> Seq<Seq<char>> {
    match v {
        Some(x) => seq![json_str_text(key) + seq![':'] + json_str_text(x)],
        None => Seq::empty(),
    }
}

/// Comma-separated scalar texts.
pub open spec fn jval_list_text(vs: Seq<JsonValV>) -> Seq<char>
    decreases vs.len(),
{
    if vs.len() == 0 {
        Seq::empty()
    } else if vs.len() == 1 {
        jval_text(vs.last())
    } else {
        jval_list_text(vs.drop_last()) + seq![','] + jval_text(vs.last())
    }
}

/// Comma-separated JSON string literals.
pub open spec fn str_list_text(ss: Seq<Seq<char>>) -> Seq<char>
    decreases ss.len(),
{
    if ss.len() == 0 {
        Seq::empty()
    } else if ss.len() == 1 {
        json_str_text(ss.last())
    } else {
        str_list_text(ss.drop_last()) + seq![','] + json_str_text(ss.last())
    }
}

/// The exact text a query node serializes to.
pub open spec fn query_text(v: QueryV) -> Seq<char>
    decreases v,
{
    match v {
        QueryV::Term { field, value } => obj1("term"@, obj1(field, jval_text(value))),
        QueryV::Terms { field, values } => obj1(
            "terms"@,
            obj1(field, seq!['['] + jval_list_text(values) + seq![']']),
        ),
        QueryV::Range { field, gte, lte, lt, format } => obj1(
            "range"@,
            obj1(
                field,
                seq!['{'] + comma_join(
                    opt_val_piece("gte"@, gte) + opt_val_piece("lte"@, lte) + opt_val_piece(
                        "lt"@,
                        lt,
                    ) + opt_str_piece("format"@, format),
                ) + seq!['}'],
            ),
        ),
        QueryV::Bool { must, should, filter, must_not } => obj1(
            "bool"@,
            seq!['{'] + comma_join(
                opt_piece("must"@, must.len() > 0, query_list_text(must)) + opt_piece(
                    "should"@,
                    should.len() > 0,
                    query_list_text(should),
                ) + opt_piece("filter"@, filter.len() > 0, query_list_text(filter)) + opt_piece(
                    "must_not"@,
                    must_not.len() > 0,
                    query_list_text(must_not),
                ),
            ) + seq!['}'],
        ),
        QueryV::Nested { path, query } => obj1(
            "nested"@,
            seq!['{'] + json_str_text("path"@) + seq![':'] + json_str_text(path) + seq![',']
                + json_str_text("query"@) + seq![':'] + query_text(*query) + seq!['}'],
        ),
        QueryV::QueryString { query, fields } => obj1(
            "query_string"@,
            seq!['{'] + json_str_text("query"@) + seq![':'] + json_str_text(query) + seq![',']
                + json_str_text("fields"@) + seq![':'] + seq!['['] + str_list_text(fields)
                + seq![']'] + seq!['}'],
        ),
        QueryV::Match { field, query, match_type } => obj1(
            "match"@,
            obj1(
                field,
                seq!['{'] + json_str_text("query"@) + seq![':'] + json_str_text(query) + (
                match match_type {
                    Some(t) => seq![','] + json_str_text("type"@) + seq![':'] + json_str_text(t),
                    None => Seq::empty(),
                }) + seq!['}'],
            ),
        ),
        QueryV::Filtered { filter } => obj1(
            "filtered"@,
            seq!['{'] + json_str_text("filter"@) + seq![':'] + query_text(*filter) + seq!['}'],
        ),
    }
}

/// Comma-separated texts of a sequence of query nodes.
pub open spec fn query_list_text(vs: Seq<QueryV>) -> Seq<char>
    decreases vs,
{
    if vs.len() == 0 {
        Seq::empty()
    } else if vs.len() == 1 {
        query_text(vs.last())
    } else {
        query_list_text(vs.subrange(0, vs.len() - 1)) + seq![','] + query_text(vs.last())
    }
}

/// Append the pieces, comma-separated.
#[verifier::loop_isolation(false)]
fn append_comma_join(out: &mut String, pieces: &Vec<String>)
    ensures
        final(out)@ == old(out)@ + comma_join(pieces.deep_view()),
{
    proof {
        reveal_strlit(",");
    }
    let mut i: usize = 0;
    while i < pieces.len()
        invariant
            i <= pieces@.len(),
            out@ == old(out)@ + comma_join(pieces.deep_view().subrange(0, i as int)),
        decreases pieces@.len() - i,
    {
        if i > 0 {
            out.append(",");
        }
        assert(pieces.deep_view()[i as int] == pieces@[i as int]@);
        out.append(pieces[i].as_str());
        proof {
            let dv = pieces.deep_view();
            let cur = dv.subrange(0, i + 1);
            assert(cur.drop_last() =~= dv.subrange(0, i as int));
            assert(cur.last() == dv[i as int]);
            if i == 0 {
                assert(comma_join(cur) == cur.last());
            }
            assert(out@ =~= old(out)@ + comma_join(cur));
        }
        i = i + 1;
    }
    proof {
        assert(pieces.deep_view().subrange(0, pieces.deep_view().len() as int)
            =~= pieces.deep_view());
    }
}

/// Append a serialized term query.
fn append_term(out: &mut String, field: &str, value: &JsonVal)
    ensures
        final(out)@ == old(out)@ + query_text(
            QueryV::Term { field: field@, value: jval(*value) },
        ),
{
    proof {
        reveal_strlit("{");
        reveal_strlit("}");
        reveal_strlit(":");
    }
    out.append("{");
    append_json_str(out, "term");
    out.append(":");
    out.append("{");
    append_json_str(out, field);
    out.append(":");
    append_jval(out, value);
    out.append("}");
    out.append("}");
    assert(out@ =~= old(out)@ + query_text(QueryV::Term { field: field@, value: jval(*value) }));
}

/// Append a serialized terms query.
#[verifier::loop_isolation(false)]
fn append_terms(out: &mut String, field: &str, values: &Vec<JsonVal>)
    ensures
        final(out)@ == old(out)@ + query_text(
            QueryV::Terms { field: field@, values: values@.map_values(|v: JsonVal| jval(v)) },
        ),
{
    proof {
        reveal_strlit("{");
        reveal_strlit("}");
        reveal_strlit("[");
        reveal_strlit("]");
        reveal_strlit(":");
        reveal_strlit(",");
    }
    out.append("{");
    append_json_str(out, "terms");
    out.append(":");
    out.append("{");
    append_json_str(out, field);
    out.append(":");
    out.append("[");
    let ghost vvs = values@.map_values(|v: JsonVal| jval(v));
    let ghost mid = out@;
    let mut i: usize = 0;
    while i < values.len()
        invariant
            i <= values@.len(),
            out@ == mid + jval_list_text(vvs.subrange(0, i as int)),
        decreases values@.len() - i,
    {
        if i > 0 {
            out.append(",");
        }
        append_jval(out, &values[i]);
        proof {
            let cur = vvs.subrange(0, i + 1);
            assert(cur.drop_last() =~= vvs.subrange(0, i as int));
            assert(cur.last() == vvs[i as int]);
            assert(vvs[i as int] == jval(values@[i as int]));
            if i == 0 {
                assert(jval_list_text(cur) == jval_text(cur.last()));
            }
            assert(out@ =~= mid + jval_list_text(cur));
        }
        i = i + 1;
    }
    out.append("]");
    out.append("}");
    out.append("}");
    proof {
        assert(vvs.subrange(0, vvs.len() as int) =~= vvs);
        assert(out@ =~= old(out)@ + query_text(
            QueryV::Terms { field: field@, values: vvs },
        ));
    }
}

/// Append `"key":value` to the pieces when the value is present.
fn push_opt_val_piece(pieces: &mut Vec<String>, key: &str, v: &Option<JsonVal>)
    ensures
        final(pieces).deep_view() == old(pieces).deep_view() + opt_val_piece(
            key@,
            opt_jval_view(*v),
        ),
{
    proof {
        reveal_strlit(":");
    }
    match v {
        Some(x) => {
            let mut p = String::new();
            append_json_str(&mut p, key);
            p.append(":");
            append_jval(&mut p, x);
            proof {
                assert(p@ =~= json_str_text(key@) + seq![':'] + jval_text(jval(*x)));
            }
            pieces.push(p);
            proof {
                assert(pieces.deep_view() =~~= old(pieces).deep_view() + opt_val_piece(
                    key@,
                    opt_jval_view(*v),
                ));
            }
        },
        None => {
            proof {
                assert(pieces.deep_view() =~~= old(pieces).deep_view() + opt_val_piece(
                    key@,
                    opt_jval_view(*v),
                ));
            }
        },
    }
}

/// Append `"key":"value"` to the pieces when the value is present.
fn push_opt_str_piece(pieces: &mut Vec<String>, key: &str, v: &Option<String>)
    ensures
        final(pieces).deep_view() == old(pieces).deep_view() + opt_str_piece(
            key@,
            opt_str_view(*v),
        ),
{
    proof {
        reveal_strlit(":");
    }
    match v {
        Some(x) => {
            let mut p = String::new();
            append_json_str(&mut p, key);
            p.append(":");
            append_json_str(&mut p, x.as_str());
            proof {
                assert(p@ =~= json_str_text(key@) + seq![':'] + json_str_text(x@));
            }
            pieces.push(p);
            proof {
                assert(pieces.deep_view() =~~= old(pieces).deep_view() + opt_str_piece(
                    key@,
                    opt_str_view(*v),
                ));
            }
        },
        None => {
            proof {
                assert(pieces.deep_view() =~~= old(pieces).deep_view() + opt_str_piece(
                    key@,
                    opt_str_view(*v),
                ));
            }
        },
    }
}

/// Append a serialized range query.
fn append_range(
    out: &mut String,
    field: &str,
    gte: &Option<JsonVal>,
    lte: &Option<JsonVal>,
    lt: &Option<JsonVal>,
    format: &Option<String>,
)
    ensures
        final(out)@ == old(out)@ + query_text(
            QueryV::Range {
                field: field@,
                gte: opt_jval_view(*gte),
                lte: opt_jval_view(*lte),
                lt: opt_jval_view(*lt),
                format: opt_str_view(*format),
            },
        ),
{
    proof {
        reveal_strlit("{");
        reveal_strlit("}");
        reveal_strlit(":");
    }
    let mut pieces: Vec<String> = Vec::new();
    proof {
        assert(pieces.deep_view() =~= Seq::<Seq<char>>::empty());
    }
    push_opt_val_piece(&mut pieces, "gte", gte);
    push_opt_val_piece(&mut pieces, "lte", lte);
    push_opt_val_piece(&mut pieces, "lt", lt);
    push_opt_str_piece(&mut pieces, "format", format);
    proof {
        assert(pieces.deep_view() =~~= opt_val_piece("gte"@, opt_jval_view(*gte)) + opt_val_piece(
            "lte"@,
            opt_jval_view(*lte),
        ) + opt_val_piece("lt"@, opt_jval_view(*lt)) + opt_str_piece(
            "format"@,
            opt_str_view(*format),
        ));
    }
    out.append("{");
    append_json_str(out, "range");
    out.append(":");
    out.append("{");
    append_json_str(out, field);
    out.append(":");
    out.append("{");
    append_comma_join(out, &pieces);
    out.append("}");
    out.append("}");
    out.append("}");
    assert(out@ =~= old(out)@ + query_text(
        QueryV::Range {
            field: field@,
            gte: opt_jval_view(*gte),
            lte: opt_jval_view(*lte),
            lt: opt_jval_view(*lt),
            format: opt_str_view(*format),
        },
    ));
}

/// Append a serialized full-text query-string query.
#[verifier::loop_isolation(false)]
fn append_query_string(out: &mut String, query: &str, fields: &Vec<String>)
    ensures
        final(out)@ == old(out)@ + query_text(
            QueryV::QueryString { query: query@, fields: fields.deep_view() },
        ),
{
    proof {
        reveal_strlit("{");
        reveal_strlit("}");
        reveal_strlit("[");
        reveal_strlit("]");
        reveal_strlit(":");
        reveal_strlit(",");
    }
    out.append("{");
    append_json_str(out, "query_string");
    out.append(":");
    out.append("{");
    append_json_str(out, "query");
    out.append(":");
    append_json_str(out, query);
    out.append(",");
    append_json_str(out, "fields");
    out.append(":");
    out.append("[");
    let ghost fvs = fields.deep_view();
    let ghost mid = out@;
    let mut i: usize = 0;
    while i < fields.len()
        invariant
            i <= fields@.len(),
            out@ == mid + str_list_text(fvs.subrange(0, i as int)),
        decreases fields@.len() - i,
    {
        if i > 0 {
            out.append(",");
        }
        assert(fvs[i as int] == fields@[i as int]@);
        append_json_str(out, fields[i].as_str());
        proof {
            let cur = fvs.subrange(0, i + 1);
            assert(cur.drop_last() =~= fvs.subrange(0, i as int));
            assert(cur.last() == fvs[i as int]);
            if i == 0 {
                assert(str_list_text(cur) == json_str_text(cur.last()));
            }
            assert(out@ =~= mid + str_list_text(cur));
        }
        i = i + 1;
    }
    out.append("]");
    out.append("}");
    out.append("}");
    proof {
        assert(fvs.subrange(0, fvs.len() as int) =~= fvs);
        assert(out@ =~= old(out)@ + query_text(
            QueryV::QueryString { query: query@, fields: fvs },
        ));
    }
}

/// Append a serialized match query.
fn append_match(out: &mut String, field: &str, query: &str, match_type: &Option<String>)
    ensures
        final(out)@ == old(out)@ + query_text(
            QueryV::Match { field: field@, query: query@, match_type: opt_str_view(*match_type) },
        ),
{
    proof {
        reveal_strlit("{");
        reveal_strlit("}");
        reveal_strlit(":");
        reveal_strlit(",");
    }
    out.append("{");
    append_json_str(out, "match");
    out.append(":");
    out.append("{");
    append_json_str(out, field);
    out.append(":");
    out.append("{");
    append_json_str(out, "query");
    out.append(":");
    append_json_str(out, query);
    if let Some(t) = match_type {
        out.append(",");
        append_json_str(out, "type");
        out.append(":");
        append_json_str(out, t.as_str());
    }
    out.append("}");
    out.append("}");
    out.append("}");
    assert(out@ =~= old(out)@ + query_text(
        QueryV::Match { field: field@, query: query@, match_type: opt_str_view(*match_type) },
    ));
}

impl Query {
    /// Append this node's serialized text.
    #[verifier::loop_isolation(false)]
    #[verifier::spinoff_prover]
    #[verifier::rlimit(80)]
    pub fn append_json(&self, out: &mut String)
        ensures
            final(out)@ == old(out)@ + query_text(qv(*self)),
        decreases *self,
    {
        proof {
            reveal_strlit("{");
            reveal_strlit("}");
            reveal_strlit(":");
        }
        match self {
            Query::Term { field, value } => {
                append_term(out, field.as_str(), value);
            },
            Query::Terms { field, values } => {
                append_terms(out, field.as_str(), values);
            },
            Query::Range { field, gte, lte, lt, format } => {
                append_range(out, field.as_str(), gte, lte, lt, format);
            },
            Query::QueryString { query, fields } => {
                append_query_string(out, query.as_str(), fields);
            },
            Query::Match { field, query, match_type } => {
                append_match(out, field.as_str(), query.as_str(), match_type);
            },
            Query::Bool { must, should, filter, must_not } => {
                proof {
                    lemma_qv_seq(must@);
                    lemma_qv_seq(should@);
                    lemma_qv_seq(filter@);
                    lemma_qv_seq(must_not@);
                }
                let mut pieces: Vec<String> = Vec::new();
                if must.len() > 0 {
                    let mut p = String::new();
                    append_json_str(&mut p, "must");
                    p.append(":");
                    proof {
                        assert(decreases_to!(*self => self->Bool_must));
                    }
                    append_query_array(&mut p, must);
                    pieces.push(p);
                }
                if should.len() > 0 {
                    let mut p = String::new();
                    append_json_str(&mut p, "should");
                    p.append(":");
                    proof {
                        assert(decreases_to!(*self => self->Bool_should));
                    }
                    append_query_array(&mut p, should);
                    pieces.push(p);
                }
                if filter.len() > 0 {
                    let mut p = String::new();
                    append_json_str(&mut p, "filter");
                    p.append(":");
                    proof {
                        assert(decreases_to!(*self => self->Bool_filter));
                    }
                    append_query_array(&mut p, filter);
                    pieces.push(p);
                }
                if must_not.len() > 0 {
                    let mut p = String::new();
                    append_json_str(&mut p, "must_not");
                    p.append(":");
                    proof {
                        assert(decreases_to!(*self => self->Bool_must_not));
                    }
                    append_query_array(&mut p, must_not);
                    pieces.push(p);
                }
                proof {
                    assert(pieces.deep_view() =~~= opt_piece(
                        "must"@,
                        qv_seq(must@).len() > 0,
                        query_list_text(qv_seq(must@)),
                    ) + opt_piece(
                        "should"@,
                        qv_seq(should@).len() > 0,
                        query_list_text(qv_seq(should@)),
                    ) + opt_piece(
                        "filter"@,
                        qv_seq(filter@).len() > 0,
                        query_list_text(qv_seq(filter@)),
                    ) + opt_piece(
                        "must_not"@,
                        qv_seq(must_not@).len() > 0,
                        query_list_text(qv_seq(must_not@)),
                    ));
                }
                out.append("{");
                append_json_str(out, "bool");
                out.append(":");
                out.append("{");
                append_comma_join(out, &pieces);
                out.append("}");
                out.append("}");
                assert(out@ =~= old(out)@ + query_text(qv(*self)));
            },
            Query::Nested { path, query } => {
                out.append("{");
                append_json_str(out, "nested");
                out.append(":");
                out.append("{");
                append_json_str(out, "path");
                out.append(":");
                append_json_str(out, path.as_str());
                out.append(",");
                append_json_str(out, "query");
                out.append(":");
                proof {
                    reveal_strlit(",");
                    assert(decreases_to!(*self => self->Nested_query));
                }
                (*query).append_json(out);
                out.append("}");
                out.append("}");
                assert(out@ =~= old(out)@ + query_text(qv(*self)));
            },
            Query::Filtered { filter } => {
                out.append("{");
                append_json_str(out, "filtered");
                out.append(":");
                out.append("{");
                append_json_str(out, "filter");
                out.append(":");
                proof {
                    assert(decreases_to!(*self => self->Filtered_filter));
                }
                (*filter).append_json(out);
                out.append("}");
                out.append("}");
                assert(out@ =~= old(out)@ + query_text(qv(*self)));
            },
        }
    }

    /// This node's serialized text as an owned string.
    pub fn to_json_string(&self) -> (r: String)
        ensures
            r@ == query_text(qv(*self)),
    {
        let mut out = String::new();
        self.append_json(&mut out);
        proof {
            assert(Seq::<char>::empty() + query_text(qv(*self)) =~= query_text(qv(*self)));
        }
        out
    }
}

/// Append `[q1,q2,...]` for the given nodes.
#[verifier::loop_isolation(false)]
fn append_query_array(out: &mut String, qs: &Vec<Query>)
    ensures
        final(out)@ == old(out)@ + seq!['['] + query_list_text(qv_seq(qs@)) + seq![']'],
    decreases *qs,
{
    proof {
        reveal_strlit("[");
        reveal_strlit("]");
        reveal_strlit(",");
        lemma_qv_seq(qs@);
    }
    out.append("[");
    let ghost vs = qv_seq(qs@);
    let mut i: usize = 0;
    while i < qs.len()
        invariant
            i <= qs@.len(),
            out@ == old(out)@ + seq!['['] + query_list_text(vs.subrange(0, i as int)),
        decreases qs@.len() - i,
    {
        if i > 0 {
            out.append(",");
        }
        proof {
            assert(decreases_to!(*qs => qs@[i as int]));
        }
        qs[i].append_json(out);
        proof {
            let cur = vs.subrange(0, i + 1);
            assert(cur.subrange(0, i as int) =~= vs.subrange(0, i as int));
            assert(cur.last() == vs[i as int]);
            assert(vs[i as int] == qv(qs@[i as int]));
            if i == 0 {
                assert(query_list_text(cur) == query_text(cur.last()));
            } else {
                assert(query_list_text(cur) == query_list_text(cur.subrange(0, i as int)) + seq![
                    ','
                ] + query_text(cur.last()));
            }
            assert(out@ =~= old(out)@ + seq!['['] + query_list_text(cur));
        }
        i = i + 1;
    }
    out.append("]");
    proof {
        assert(vs.subrange(0, vs.len() as int) =~= vs);
    }
}

/// The scalars of a sequence of strings.
pub open spec fn str_scalars(ss: Seq<Seq<char>>) -> Seq<JsonValV> {
    ss.map_values(|s: Seq<char>| JsonValV::S(s))
}

/// The scalars of a sequence of integers.
pub open spec fn i32_scalars(vs: Seq<i32>) -> Seq<JsonValV> {
    vs.map_values(|v: i32| JsonValV::I(v as i64))
}

/// A boolean node that only constrains by `must`.
pub open spec fn bool_must_v(qs: Seq<QueryV>) -> QueryV {
    QueryV::Bool {
        must: qs,
        should: Seq::empty(),
        filter: Seq::empty(),
        must_not: Seq::empty(),
    }
}

/// A boolean node that only offers alternatives by `should`.
pub open spec fn bool_should_v(qs: Seq<QueryV>) -> QueryV {
    QueryV::Bool {
        must: Seq::empty(),
        should: qs,
        filter: Seq::empty(),
        must_not: Seq::empty(),
    }
}

/// A term query over a string value.
pub open spec fn term_str_v(field: Seq<char>, value: Seq<char>) -> QueryV {
    QueryV::Term { field: field, value: JsonValV::S(value) }
}

impl Query {
    /// A term query over a string value.
    pub fn term_str(field: &str, value: &str) -> (q: Query)
        ensures
            qv(q) == term_str_v(field@, value@),
    {
        Query::Term { field: field.to_owned(), value: JsonVal::S(value.to_owned()) }
    }

    /// A term query over a boolean value.
    pub fn term_bool(field: &str, value: bool) -> (q: Query)
        ensures
            qv(q) == (QueryV::Term { field: field@, value: JsonValV::B(value) }),
    {
        Query::Term { field: field.to_owned(), value: JsonVal::B(value) }
    }

    /// A term query over an unsigned value.
    pub fn term_u32(field: &str, value: u32) -> (q: Query)
        ensures
            qv(q) == (QueryV::Term { field: field@, value: JsonValV::U(value as u64) }),
    {
        Query::Term { field: field.to_owned(), value: JsonVal::U(value as u64) }
    }

    /// A nested query along `path`.
    pub fn nested(path: &str, query: Query) -> (q: Query)
        ensures
            qv(q) == (QueryV::Nested { path: path@, query: Box::new(qv(query)) }),
    {
        Query::Nested { path: path.to_owned(), query: Box::new(query) }
    }

    /// A boolean node that only constrains by `must`.
    pub fn bool_must(qs: Vec<Query>) -> (q: Query)
        ensures
            qv(q) == bool_must_v(qv_seq(qs@)),
    {
        let q = Query::Bool { must: qs, should: Vec::new(), filter: Vec::new(), must_not: Vec::new() };
        proof {
            assert(qv_seq(Seq::<Query>::empty()) =~= Seq::<QueryV>::empty());
        }
        q
    }

    /// A boolean node that only offers alternatives by `should`.
    pub fn bool_should(qs: Vec<Query>) -> (q: Query)
        ensures
            qv(q) == bool_should_v(qv_seq(qs@)),
    {
        let q = Query::Bool { must: Vec::new(), should: qs, filter: Vec::new(), must_not: Vec::new() };
        proof {
            assert(qv_seq(Seq::<Query>::empty()) =~= Seq::<QueryV>::empty());
        }
        q
    }

    /// A boolean node whose `must` holds exactly two clauses.
    pub fn bool_must2(a: Query, b: Query) -> (q: Query)
        ensures
            qv(q) == bool_must_v(seq![qv(a), qv(b)]),
    {
        let ghost av = qv(a);
        let ghost bv = qv(b);
        let mut qs: Vec<Query> = Vec::new();
        qs.push(a);
        qs.push(b);
        proof {
            lemma_qv_seq(qs@);
            assert(qv_seq(qs@) =~= seq![av, bv]);
        }
        Query::bool_must(qs)
    }

    /// A boolean node whose `should` holds exactly two alternatives.
    pub fn bool_should2(a: Query, b: Query) -> (q: Query)
        ensures
            qv(q) == bool_should_v(seq![qv(a), qv(b)]),
    {
        let ghost av = qv(a);
        let ghost bv = qv(b);
        let mut qs: Vec<Query> = Vec::new();
        qs.push(a);
        qs.push(b);
        proof {
            lemma_qv_seq(qs@);
            assert(qv_seq(qs@) =~= seq![av, bv]);
        }
        Query::bool_should(qs)
    }
}

/// Append one node, extending the views by its view.
pub fn push_query(dst: &mut Vec<Query>, q: Query)
    ensures
        qv_seq(final(dst)@) == qv_seq(old(dst)@) + seq![qv(q)],
{
    let ghost d0 = dst@;
    let ghost q0 = qv(q);
    dst.push(q);
    proof {
        lemma_qv_seq(d0);
        lemma_qv_seq(dst@);
        assert(qv_seq(dst@) =~= qv_seq(d0) + seq![q0]);
    }
}

/// Move all of `src` to the end of `dst`, concatenating the views.
pub fn concat_queries(dst: &mut Vec<Query>, src: Vec<Query>)
    ensures
        qv_seq(final(dst)@) == qv_seq(old(dst)@) + qv_seq(src@),
{
    let ghost d0 = dst@;
    let ghost s0 = src@;
    let mut src = src;
    dst.append(&mut src);
    proof {
        lemma_qv_seq(d0);
        lemma_qv_seq(s0);
        lemma_qv_seq(dst@);
        assert(qv_seq(dst@) =~= qv_seq(d0) + qv_seq(s0));
    }
}

} // verus!
