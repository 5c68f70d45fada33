//! JSON documents and their on-wire text.
//!
//! `Json` carries the engine-facing documents the service composes (index
//! mappings, analyzer settings). `json_text` states the exact character
//! sequence the serializer emits, so callers can reason about the wire form.

use vstd::prelude::*;

use crate::text::{append_i64, append_u64, dec_str, dec_str_signed};

verus! {

/// Escape of one character inside a JSON string literal.
pub open spec fn esc_char(c: char) -> Seq<char> {
    if c == '"' {
        seq!['\\', '"']
    } else if c == '\\' {
        seq!['\\', '\\']
    } else if c == '\n' {
        seq!['\\', 'n']
    } else if c == '\r' {
        seq!['\\', 'r']
    } else if c == '\t' {
        seq!['\\', 't']
    } else {
        seq![c]
    }
}

/// Escape of a whole string body.
pub open spec fn esc(s: Seq<char>) -> Seq<char>
    decreases s.len(),
{
    if s.len() == 0 {
        Seq::empty()
    } else {
        esc(s.drop_last()) + esc_char(s.last())
    }
}

/// A JSON string literal: quotes around the escaped body.
pub open spec fn json_str_text(s: Seq<char>) -> Seq<char> {
    seq!['"'] + esc(s) + seq!['"']
}

/// Append the escaped body of `s` (no quotes).
pub fn append_escaped(out: &mut String, s: &str)
    ensures
        final(out)@ == old(out)@ + esc(s@),
{
    let n = s.unicode_len();
    let mut i: usize = 0;
    proof {
        assert(esc(s@.subrange(0, 0)) =~= Seq::<char>::empty());
        assert(old(out)@ + esc(s@.subrange(0, 0)) =~= old(out)@);
    }
    while i < n
        invariant
            i <= n,
            n == s@.len(),
            out@ == old(out)@ + esc(s@.subrange(0, i as int)),
        decreases n - i,
    {
        let c = s.get_char(i);
        proof {
            reveal_strlit("\\\"");
            reveal_strlit("\\\\");
            reveal_strlit("\\n");
            reveal_strlit("\\r");
            reveal_strlit("\\t");
            let pre = s@.subrange(0, i as int);
            let cur = s@.subrange(0, i + 1);
            assert(cur.drop_last() =~= pre);
            assert(cur.last() == c);
            assert(esc(cur) == esc(pre) + esc_char(c));
        }
        if c == '"' {
            out.append("\\\"");
        } else if c == '\\' {
            out.append("\\\\");
        } else if c == '\n' {
            out.append("\\n");
        } else if c == '\r' {
            out.append("\\r");
        } else if c == '\t' {
            out.append("\\t");
        } else {
            let piece = s.substring_char(i, i + 1);
            proof {
                assert(piece@ =~= esc_char(c));
            }
            out.append(piece);
        }
        proof {
            assert(out@ =~= old(out)@ + esc(s@.subrange(0, i + 1)));
        }
        i = i + 1;
    }
    proof {
        assert(s@.subrange(0, n as int) =~= s@);
    }
}

/// Append `s` as a JSON string literal.
pub fn append_json_str(out: &mut String, s: &str)
    ensures
        final(out)@ == old(out)@ + json_str_text(s@),
{
    proof {
        reveal_strlit("\"");
    }
    out.append("\"");
    append_escaped(out, s);
    out.append("\"");
    proof {
        assert(old(out)@ + "\""@ + esc(s@) + "\""@ =~= old(out)@ + json_str_text(s@));
    }
}

/// An engine-facing JSON document.
///
/// `Lit` holds raw, already-rendered token text (the service uses it for
/// the one fractional constant the engine reads); the serializer emits it
/// verbatim and unquoted.
pub enum Json {
    Bool(bool),
    U(u64),
    I(i64),
    Str(String),
    Lit(String),
    Arr(Vec<Json>),
    Obj(Vec<(String, Json)>),
}

/// The exact text `Json::write` emits.
pub open spec fn json_text(j: Json) -> Seq<char>
    decreases j,
{
    match j {
        Json::Bool(b) => if b {
            seq!['t', 'r', 'u', 'e']
        } else {
            seq!['f', 'a', 'l', 's', 'e']
        },
        Json::U(n) => dec_str(n as nat),
        Json::I(n) => dec_str_signed(n as int),
        Json::Str(s) => json_str_text(s@),
        Json::Lit(s) => s@,
        Json::Arr(items) => seq!['['] + json_text_list(items@) + seq![']'],
        Json::Obj(entries) => seq!['{'] + json_text_entries(entries@) + seq!['}'],
    }
}

/// Comma-separated renderings of the elements.
pub open spec fn json_text_list(items: Seq<Json>) -> Seq<char>
    decreases items,
{
    if items.len() == 0 {
        Seq::empty()
    } else if items.len() == 1 {
        json_text(items.last())
    } else {
        json_text_list(items.subrange(0, items.len() - 1)) + seq![','] + json_text(items.last())
    }
}

/// Comma-separated `"key":value` renderings of the entries.
pub open spec fn json_text_entries(entries: Seq<(String, Json)>) -> Seq<char>
    decreases entries,
{
    if entries.len() == 0 {
        Seq::empty()
    } else {
        let e = entries.last();
        let one = json_str_text(e.0@) + seq![':'] + json_text(e.1);
        if entries.len() == 1 {
            one
        } else {
            json_text_entries(entries.subrange(0, entries.len() - 1)) + seq![','] + one
        }
    }
}

impl Json {
    /// Append this document's text.
    #[verifier::loop_isolation(false)]
    pub fn write(&self, out: &mut String)
        ensures
            final(out)@ == old(out)@ + json_text(*self),
        decreases *self,
    {
        proof {
            reveal_strlit("true");
            reveal_strlit("false");
            reveal_strlit("[");
            reveal_strlit("]");
            reveal_strlit("{");
            reveal_strlit("}");
            reveal_strlit(",");
            reveal_strlit(":");
        }
        match self {
            Json::Bool(b) => {
                if *b {
                    out.append("true");
                    assert(out@ =~= old(out)@ + json_text(*self));
                } else {
                    out.append("false");
                    assert(out@ =~= old(out)@ + json_text(*self));
                }
            },
            Json::U(n) => {
                append_u64(out, *n);
            },
            Json::I(n) => {
                append_i64(out, *n);
            },
            Json::Str(s) => {
                append_json_str(out, s.as_str());
            },
            Json::Lit(s) => {
                out.append(s.as_str());
            },
            Json::Arr(items) => {
                out.append("[");
                let mut i: usize = 0;
                while i < items.len()
                    invariant
                        i <= items@.len(),
                        out@ == old(out)@ + seq!['['] + json_text_list(
                            items@.subrange(0, i as int),
                        ),
                    decreases items@.len() - i,
                {
                    if i > 0 {
                        out.append(",");
                    }
                    proof {
                        assert(decreases_to!(*self => self->Arr_0));
                        assert(decreases_to!(*items => (*items)[i as int]));
                    }
                    items[i].write(out);
                    proof {
                        let cur = items@.subrange(0, i + 1);
                        assert(cur.subrange(0, i as int) =~= items@.subrange(0, i as int));
                        assert(cur.last() == items@[i as int]);
                        assert(out@ =~= old(out)@ + seq!['['] + json_text_list(cur));
                    }
                    i = i + 1;
                }
                out.append("]");
                proof {
                    assert(items@.subrange(0, items@.len() as int) =~= items@);
                    assert(out@ =~= old(out)@ + json_text(*self));
                }
            },
            Json::Obj(entries) => {
                out.append("{");
                let mut i: usize = 0;
                while i < entries.len()
                    invariant
                        i <= entries@.len(),
                        out@ == old(out)@ + seq!['{'] + json_text_entries(
                            entries@.subrange(0, i as int),
                        ),
                    decreases entries@.len() - i,
                {
                    if i > 0 {
                        out.append(",");
                    }
                    append_json_str(out, entries[i].0.as_str());
                    out.append(":");
                    proof {
                        assert(decreases_to!(*self => self->Obj_0));
                        assert(decreases_to!(*entries => (*entries)[i as int]));
                        assert(decreases_to!(entries@[i as int] => entries@[i as int].1));
                    }
                    entries[i].1.write(out);
                    proof {
                        let cur = entries@.subrange(0, i + 1);
                        assert(cur.subrange(0, i as int) =~= entries@.subrange(0, i as int));
                        assert(cur.last() == entries@[i as int]);
                        assert(out@ =~= old(out)@ + seq!['{'] + json_text_entries(cur));
                    }
                    i = i + 1;
                }
                out.append("}");
                proof {
                    assert(entries@.subrange(0, entries@.len() as int) =~= entries@);
                    assert(out@ =~= old(out)@ + json_text(*self));
                }
            },
        }
    }

    /// This document's text as an owned string.
    pub fn to_json_string(&self) -> (r: String)
        ensures
            r@ == json_text(*self),
    {
        let mut out = String::new();
        self.write(&mut out);
        proof {
            assert(Seq::<char>::empty() + json_text(*self) =~= json_text(*self));
        }
        out
    }
}

} // verus!
