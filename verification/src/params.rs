//! Typed request parameters.
//!
//! A request's query string or form body arrives as an untyped mapping from
//! keys to scalar or list values. `ParamMap` models that mapping; the
//! extractors coerce entries into typed vectors, degrading to an empty
//! vector — never an error — when an entry is missing or of the wrong shape.

use vstd::prelude::*;

use crate::text::{csv_i32_rec, csv_i32s, parse_i32, spec_parse_i32, split_csv, str_eq};

verus! {

/// One parameter value: a scalar or a list of strings.
pub enum ParamValue {
    Str(String),
    U64(u64),
    I64(i64),
    List(Vec<String>),
}

/// Mathematical view of a parameter value.
pub enum ParamValueV {
    Str(Seq<char>),
    U64(u64),
    I64(i64),
    List(Seq<Seq<char>>),
}

pub open spec fn pv(v: ParamValue) -> ParamValueV {
    match v {
        ParamValue::Str(s) => ParamValueV::Str(s@),
        ParamValue::U64(n) => ParamValueV::U64(n),
        ParamValue::I64(n) => ParamValueV::I64(n),
        ParamValue::List(ss) => ParamValueV::List(ss.deep_view()),
    }
}

/// The value at `k`: the first entry with that key, as request parsing
/// inserts each key once.
pub open spec fn lookup(m: Seq<(Seq<char>, ParamValueV)>, k: Seq<char>) -> Option<ParamValueV>
    decreases m.len(),
{
    if m.len() == 0 {
        None
    } else if m[0].0 == k {
        Some(m[0].1)
    } else {
        lookup(m.subrange(1, m.len() as int), k)
    }
}

/// An error from `ParamMap::assign`.
#[derive(Debug)]
pub enum ParamError {
    /// The key names a list but the present entry is a scalar, or the
    /// other way round.
    Collision,
    /// A list entry can only collect string values.
    Unsupported,
}

/// The untyped parameter mapping of one request.
pub struct ParamMap {
    entries: Vec<(String, ParamValue)>,
}

impl View for ParamMap {
    type V = Seq<(Seq<char>, ParamValueV)>;

    closed spec fn view(&self) -> Seq<(Seq<char>, ParamValueV)> {
        self.entries@.map_values(|e: (String, ParamValue)| (e.0@, pv(e.1)))
    }
}

/// Whether the key uses the bracketed (list) form `name[]`.
pub open spec fn is_bracketed(k: Seq<char>) -> bool {
    k.len() >= 2 && k[k.len() - 2] == '[' && k[k.len() - 1] == ']'
}

/// The key under which a value is stored: `name[]` collects under `name`.
pub open spec fn base_key(k: Seq<char>) -> Seq<char> {
    if is_bracketed(k) {
        k.subrange(0, k.len() - 2)
    } else {
        k
    }
}

proof fn lemma_lookup_update(
    m: Seq<(Seq<char>, ParamValueV)>,
    i: int,
    v: ParamValueV,
    k2: Seq<char>,
)
    requires
        0 <= i < m.len(),
        forall|j: int| 0 <= j < i ==> m[j].0 != m[i].0,
    ensures
        lookup(m.update(i, (m[i].0, v)), k2) == if k2 == m[i].0 {
            Some(v)
        } else {
            lookup(m, k2)
        },
    decreases i,
{
    let m2 = m.update(i, (m[i].0, v));
    if i == 0 {
        assert(m2[0].0 == m[0].0);
        if k2 != m[0].0 {
            assert(m2.subrange(1, m2.len() as int) =~= m.subrange(1, m.len() as int));
        }
    } else {
        assert(m2[0] == m[0]);
        if k2 != m[0].0 {
            let mt = m.subrange(1, m.len() as int);
            lemma_lookup_update(mt, i - 1, v, k2);
            assert(m2.subrange(1, m2.len() as int) =~= mt.update(i - 1, (mt[i - 1].0, v)));
        }
    }
}

proof fn lemma_lookup_push(
    m: Seq<(Seq<char>, ParamValueV)>,
    k: Seq<char>,
    v: ParamValueV,
    k2: Seq<char>,
)
    requires
        forall|j: int| 0 <= j < m.len() ==> m[j].0 != k,
    ensures
        lookup(m.push((k, v)), k2) == if k2 == k {
            Some(v)
        } else {
            lookup(m, k2)
        },
    decreases m.len(),
{
    let m2 = m.push((k, v));
    if m.len() == 0 {
        assert(m2[0] == (k, v));
        if k2 == k {
            assert(lookup(m2, k2) == Some(v));
        } else {
            assert(m2.subrange(1, m2.len() as int) =~= Seq::<(Seq<char>, ParamValueV)>::empty());
            assert(lookup(Seq::<(Seq<char>, ParamValueV)>::empty(), k2) is None);
            assert(lookup(m2, k2) is None);
            assert(lookup(m, k2) is None);
        }
    } else {
        assert(m2[0] == m[0]);
        assert(m[0].0 != k);
        if k2 == m[0].0 {
            assert(lookup(m2, k2) == Some(m[0].1));
            assert(lookup(m, k2) == Some(m[0].1));
        } else {
            let mt = m.subrange(1, m.len() as int);
            assert(forall|j: int| 0 <= j < mt.len() ==> mt[j] == m[j + 1]);
            lemma_lookup_push(mt, k, v, k2);
            assert(m2.subrange(1, m2.len() as int) =~= mt.push((k, v)));
            assert(lookup(m2, k2) == lookup(mt.push((k, v)), k2));
            assert(lookup(m, k2) == lookup(mt, k2));
        }
    }
}

impl ParamMap {
    /// An empty mapping.
    pub fn new() -> (r: ParamMap)
        ensures
            r@ =~= Seq::<(Seq<char>, ParamValueV)>::empty(),
            forall|k: Seq<char>| lookup(r@, k) is None,
    {
        let r = ParamMap { entries: Vec::new() };
        proof {
            assert(r@ =~= Seq::<(Seq<char>, ParamValueV)>::empty());
            assert(forall|k: Seq<char>|
                lookup(Seq::<(Seq<char>, ParamValueV)>::empty(), k) is None);
        }
        r
    }

    /// The value stored under `key`, if any.
    pub fn get(&self, key: &str) -> (r: Option<&ParamValue>)
        ensures
            match r {
                Some(v) => lookup(self@, key@) == Some(pv(*v)),
                None => lookup(self@, key@) is None,
            },
    {
        let n = self.entries.len();
        proof {
            assert(self@.subrange(0, n as int) =~= self@);
        }
        let mut i: usize = 0;
        while i < n
            invariant
                i <= n,
                n == self.entries@.len(),
                self@.len() == n,
                lookup(self@, key@) == lookup(self@.subrange(i as int, n as int), key@),
            decreases n - i,
        {
            proof {
                let tail = self@.subrange(i as int, n as int);
                assert(tail[0] == self@[i as int]);
                assert(self@[i as int] == (self.entries@[i as int].0@, pv(
                    self.entries@[i as int].1,
                )));
                assert(tail.subrange(1, tail.len() as int) =~= self@.subrange(i + 1, n as int));
            }
            if str_eq(self.entries[i].0.as_str(), key) {
                return Some(&self.entries[i].1);
            }
            i = i + 1;
        }
        proof {
            assert(self@.subrange(n as int, n as int) =~= Seq::<(Seq<char>, ParamValueV)>::empty());
        }
        None
    }

    /// Store `value` under `key`.
    ///
    /// A key of the form `name[]` collects string values into the list under
    /// `name`, creating it on first use; a plain key replaces any present
    /// value. Mixing the two forms on one key is a collision.
    pub fn assign(&mut self, key: &str, value: ParamValue) -> (r: Result<(), ParamError>)
        ensures
            r matches Err(ParamError::Unsupported) <==> (is_bracketed(key@) && !(pv(
                value,
            ) is Str)),
            r matches Err(ParamError::Collision) <==> (is_bracketed(key@) && pv(value) is Str
                && match lookup(old(self)@, base_key(key@)) {
                Some(present) => !(present is List),
                None => false,
            }),
            match r {
                Ok(()) => {
                    let k = base_key(key@);
                    if is_bracketed(key@) {
                        match (pv(value), lookup(old(self)@, k)) {
                            (ParamValueV::Str(s), None) => forall|k2: Seq<char>|
                                lookup(final(self)@, k2) == if k2 == k {
                                    Some(ParamValueV::List(seq![s]))
                                } else {
                                    lookup(old(self)@, k2)
                                },
                            (ParamValueV::Str(s), Some(ParamValueV::List(ss))) => forall|
                                k2: Seq<char>,
                            |
                                lookup(final(self)@, k2) == if k2 == k {
                                    Some(ParamValueV::List(ss.push(s)))
                                } else {
                                    lookup(old(self)@, k2)
                                },
                            _ => false,
                        }
                    } else {
                        forall|k2: Seq<char>|
                            lookup(final(self)@, k2) == if k2 == k {
                                Some(pv(value))
                            } else {
                                lookup(old(self)@, k2)
                            }
                    }
                },
                Err(_) => final(self)@ == old(self)@,
            },
    {
        let n = key.unicode_len();
        let bracketed = n >= 2 && key.get_char(n - 2) == '[' && key.get_char(n - 1) == ']';
        assert(bracketed == is_bracketed(key@));
        let base: &str = if bracketed {
            key.substring_char(0, n - 2)
        } else {
            key
        };
        assert(base@ == base_key(key@));
        // Find the first entry with the base key.
        let count = self.entries.len();
        let mut i: usize = 0;
        let mut found: bool = false;
        while i < count && !found
            invariant
                i <= count,
                count == self.entries@.len(),
                self@.len() == count,
                found ==> i < count && self@[i as int].0 == base@,
                forall|j: int| 0 <= j < i ==> self@[j].0 != base@,
            decreases count - i + (if found { 0int } else { 1int }),
        {
            proof {
                assert(self@[i as int] == (self.entries@[i as int].0@, pv(
                    self.entries@[i as int].1,
                )));
            }
            if str_eq(self.entries[i].0.as_str(), base) {
                found = true;
            } else {
                i = i + 1;
            }
        }
        proof {
            lemma_lookup_first(self@, base@, i as int, found);
        }
        if bracketed {
            let s = match value {
                ParamValue::Str(s) => s,
                _ => {
                    return Err(ParamError::Unsupported);
                },
            };
            if found {
                let entry = self.entries.remove(i);
                let mut ss = match entry.1 {
                    ParamValue::List(ss) => ss,
                    _ => {
                        // Restore the map before reporting the collision.
                        self.entries.insert(i, entry);
                        proof {
                            assert(self@ =~= old(self)@);
                        }
                        return Err(ParamError::Collision);
                    },
                };
                let ghost old_ss = ss.deep_view();
                ss.push(s);
                proof {
                    assert(ss.deep_view() =~= old_ss.push(s@));
                }
                self.entries.insert(i, (entry.0, ParamValue::List(ss)));
                proof {
                    assert(self@ =~= old(self)@.update(
                        i as int,
                        (old(self)@[i as int].0, ParamValueV::List(old_ss.push(s@))),
                    ));
                    assert forall|k2: Seq<char>| true implies lookup(self@, k2) == (if k2 == base@ {
                        Some(ParamValueV::List(old_ss.push(s@)))
                    } else {
                        lookup(old(self)@, k2)
                    }) by {
                        lemma_lookup_update(
                            old(self)@,
                            i as int,
                            ParamValueV::List(old_ss.push(s@)),
                            k2,
                        );
                    }
                }
                Ok(())
            } else {
                let mut ss: Vec<String> = Vec::new();
                let ghost empty_ss = ss.deep_view();
                ss.push(s);
                proof {
                    assert(ss.deep_view() =~= seq![s@]);
                }
                self.entries.push((base.to_owned(), ParamValue::List(ss)));
                proof {
                    assert(self@ =~= old(self)@.push((base@, ParamValueV::List(seq![s@]))));
                    assert forall|k2: Seq<char>| true implies lookup(self@, k2) == (if k2 == base@ {
                        Some(ParamValueV::List(seq![s@]))
                    } else {
                        lookup(old(self)@, k2)
                    }) by {
                        lemma_lookup_push(old(self)@, base@, ParamValueV::List(seq![s@]), k2);
                    }
                }
                Ok(())
            }
        } else {
            if found {
                let entry = self.entries.remove(i);
                self.entries.insert(i, (entry.0, value));
                proof {
                    assert(self@ =~= old(self)@.update(
                        i as int,
                        (old(self)@[i as int].0, pv(value)),
                    ));
                    assert forall|k2: Seq<char>| true implies lookup(self@, k2) == (if k2 == base@ {
                        Some(pv(value))
                    } else {
                        lookup(old(self)@, k2)
                    }) by {
                        lemma_lookup_update(old(self)@, i as int, pv(value), k2);
                    }
                }
                Ok(())
            } else {
                self.entries.push((base.to_owned(), value));
                proof {
                    assert(self@ =~= old(self)@.push((base@, pv(value))));
                    assert forall|k2: Seq<char>| true implies lookup(self@, k2) == (if k2 == base@ {
                        Some(pv(value))
                    } else {
                        lookup(old(self)@, k2)
                    }) by {
                        lemma_lookup_push(old(self)@, base@, pv(value), k2);
                    }
                }
                Ok(())
            }
        }
    }
}

/// When a forward scan stops at `i` (`found` tells why), `lookup` is decided.
proof fn lemma_lookup_first(m: Seq<(Seq<char>, ParamValueV)>, k: Seq<char>, i: int, found: bool)
    requires
        0 <= i <= m.len(),
        found ==> i < m.len() && m[i].0 == k,
        forall|j: int| 0 <= j < i ==> m[j].0 != k,
        !found ==> i == m.len(),
    ensures
        found ==> lookup(m, k) == Some(m[i].1),
        !found ==> lookup(m, k) is None,
    decreases i + if found { 0int } else { 1int },
{
    if m.len() == 0 {
    } else if i == 0 && found {
    } else {
        let mt = m.subrange(1, m.len() as int);
        if found {
            lemma_lookup_first(mt, k, i - 1, found);
            assert(mt[i - 1] == m[i]);
        } else {
            assert(forall|j: int| 0 <= j < mt.len() ==> mt[j] == m[j + 1]);
            lemma_lookup_first(mt, k, i - 1, found);
        }
    }
}

/// The list of strings under `key`; empty when missing or not a list.
pub open spec fn spec_vec_from_params(m: Seq<(Seq<char>, ParamValueV)>, k: Seq<char>) -> Seq<
    Seq<char>,
> {
    match lookup(m, k) {
        Some(ParamValueV::List(ss)) => ss,
        _ => Seq::empty(),
    }
}

/// Return the values stored under `key` as strings; an empty vector when
/// the key is missing or holds a scalar.
pub fn vec_from_params(params: &ParamMap, key: &str) -> (r: Vec<String>)
    ensures
        r.deep_view() == spec_vec_from_params(params@, key@),
{
    match params.get(key) {
        Some(ParamValue::List(ss)) => {
            let r = ss.clone();
            proof {
                assert(r.deep_view() =~= ss.deep_view());
            }
            r
        },
        _ => {
            let r: Vec<String> = Vec::new();
            proof {
                assert(r.deep_view() =~= Seq::<Seq<char>>::empty());
            }
            r
        },
    }
}

/// The single scalar under `key` coerced to `i32`, as a one-element
/// sequence; empty when missing, a list, or unparseable.
pub open spec fn spec_i32_vec_from_params(
    m: Seq<(Seq<char>, ParamValueV)>,
    k: Seq<char>,
) -> Seq<i32> {
    match lookup(m, k) {
        Some(ParamValueV::Str(s)) => match spec_parse_i32(s) {
            Some(v) => seq![v],
            None => Seq::empty(),
        },
        Some(ParamValueV::U64(n)) => if n <= i32::MAX as u64 {
            seq![n as i32]
        } else {
            Seq::empty()
        },
        Some(ParamValueV::I64(n)) => if i32::MIN as i64 <= n <= i32::MAX as i64 {
            seq![n as i32]
        } else {
            Seq::empty()
        },
        _ => Seq::empty(),
    }
}

/// Coerce the scalar under `key` to `i32`, wrapped in a vector; an empty
/// vector when the coercion fails.
pub fn i32_vec_from_params(params: &ParamMap, key: &str) -> (r: Vec<i32>)
    ensures
        r@ == spec_i32_vec_from_params(params@, key@),
{
    let mut r: Vec<i32> = Vec::new();
    match params.get(key) {
        Some(ParamValue::Str(s)) => match parse_i32(s.as_str()) {
            Some(v) => {
                r.push(v);
                proof {
                    assert(r@ =~= spec_i32_vec_from_params(params@, key@));
                }
            },
            None => {
                proof {
                    assert(r@ =~= spec_i32_vec_from_params(params@, key@));
                }
            },
        },
        Some(ParamValue::U64(n)) => {
            if *n <= i32::MAX as u64 {
                r.push(*n as i32);
            }
            proof {
                assert(r@ =~= spec_i32_vec_from_params(params@, key@));
            }
        },
        Some(ParamValue::I64(n)) => {
            if i32::MIN as i64 <= *n && *n <= i32::MAX as i64 {
                r.push(*n as i32);
            }
            proof {
                assert(r@ =~= spec_i32_vec_from_params(params@, key@));
            }
        },
        _ => {
            proof {
                assert(r@ =~= spec_i32_vec_from_params(params@, key@));
            }
        },
    }
    r
}

/// The single scalar under `key` as a string, wrapped in a sequence.
pub open spec fn spec_string_vec_from_params(
    m: Seq<(Seq<char>, ParamValueV)>,
    k: Seq<char>,
) -> Seq<Seq<char>> {
    match lookup(m, k) {
        Some(ParamValueV::Str(s)) => seq![s],
        _ => Seq::empty(),
    }
}

/// Coerce the scalar under `key` to a string, wrapped in a vector.
pub fn string_vec_from_params(params: &ParamMap, key: &str) -> (r: Vec<String>)
    ensures
        r.deep_view() == spec_string_vec_from_params(params@, key@),
{
    let mut r: Vec<String> = Vec::new();
    match params.get(key) {
        Some(ParamValue::Str(s)) => {
            r.push(s.clone());
            proof {
                assert(r.deep_view() =~= spec_string_vec_from_params(params@, key@));
            }
        },
        _ => {
            proof {
                assert(r.deep_view() =~= spec_string_vec_from_params(params@, key@));
            }
        },
    }
    r
}

/// All-or-nothing parse of a list of strings as `i32`s.
pub open spec fn all_i32s(ss: Seq<Seq<char>>) -> Option<Seq<i32>>
    decreases ss.len(),
{
    if ss.len() == 0 {
        Some(Seq::empty())
    } else {
        match (all_i32s(ss.drop_last()), spec_parse_i32(ss.last())) {
            (Some(front), Some(v)) => Some(front.push(v)),
            _ => None,
        }
    }
}

/// The integers under `key`: a list parses all-or-nothing, a scalar string
/// is read as comma-separated values with unparseable elements dropped.
pub open spec fn spec_i32_vec_from_maybe_csv_params(
    m: Seq<(Seq<char>, ParamValueV)>,
    k: Seq<char>,
) -> Seq<i32> {
    match lookup(m, k) {
        Some(ParamValueV::List(ss)) => match all_i32s(ss) {
            Some(vs) => vs,
            None => Seq::empty(),
        },
        Some(ParamValueV::Str(s)) => csv_i32s(split_csv(s, 0)),
        _ => Seq::empty(),
    }
}

/// Read the values under `key` as integers, accepting both the bracketed
/// list form and a single comma-separated string.
pub fn i32_vec_from_maybe_csv_params(params: &ParamMap, key: &str) -> (r: Vec<i32>)
    ensures
        r@ == spec_i32_vec_from_maybe_csv_params(params@, key@),
{
    match params.get(key) {
        Some(ParamValue::List(ss)) => {
            let mut out: Vec<i32> = Vec::new();
            let mut i: usize = 0;
            let ghost dv = ss.deep_view();
            let mut ok = true;
            while i < ss.len() && ok
                invariant
                    i <= ss@.len(),
                    dv == ss.deep_view(),
                    dv.len() == ss@.len(),
                    ok ==> all_i32s(dv.subrange(0, i as int)) == Some(out@),
                    !ok ==> all_i32s(dv) is None,
                decreases ss@.len() - i + (if ok { 1int } else { 0int }),
            {
                assert(dv[i as int] == ss@[i as int]@);
                match parse_i32(ss[i].as_str()) {
                    Some(v) => {
                        out.push(v);
                        proof {
                            let cur = dv.subrange(0, i + 1);
                            assert(cur.drop_last() =~= dv.subrange(0, i as int));
                            assert(cur.last() == dv[i as int]);
                        }
                        i = i + 1;
                    },
                    None => {
                        proof {
                            lemma_all_i32s_bad(dv, i as int);
                        }
                        ok = false;
                    },
                }
            }
            if ok {
                proof {
                    assert(dv.subrange(0, dv.len() as int) =~= dv);
                }
                out
            } else {
                let r: Vec<i32> = Vec::new();
                r
            }
        },
        Some(ParamValue::Str(s)) => {
            let mut out: Vec<i32> = Vec::new();
            csv_i32_rec(s.as_str(), 0, &mut out);
            proof {
                assert(Seq::<i32>::empty() + csv_i32s(split_csv(s@, 0)) =~= csv_i32s(
                    split_csv(s@, 0),
                ));
            }
            out
        },
        _ => {
            let r: Vec<i32> = Vec::new();
            proof {
                assert(r@ =~= Seq::<i32>::empty());
            }
            r
        },
    }
}

/// One unparseable element poisons the all-or-nothing parse.
proof fn lemma_all_i32s_bad(ss: Seq<Seq<char>>, i: int)
    requires
        0 <= i < ss.len(),
        spec_parse_i32(ss[i]) is None,
    ensures
        all_i32s(ss) is None,
    decreases ss.len(),
{
    if ss.len() > 0 {
        if i == ss.len() - 1 {
        } else {
            assert(ss.drop_last()[i] == ss[i]);
            lemma_all_i32s_bad(ss.drop_last(), i);
        }
    }
}

} // verus!
