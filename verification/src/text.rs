//! Character-level utilities: decimal parsing and formatting, trimming,
//! and string comparison, each against an exact sequence-level model.

use vstd::prelude::*;

verus! {

pub open spec fn is_digit(c: char) -> bool {
    '0' <= c && c <= '9'
}

pub open spec fn digit_val(c: char) -> nat
    recommends
        is_digit(c),
{
    (c as nat - '0' as nat) as nat
}

/// Numeric value of a digit string, most significant digit first.
pub open spec fn digits_val(s: Seq<char>) -> nat
    decreases s.len(),
{
    if s.len() == 0 {
        0
    } else {
        digits_val(s.drop_last()) * 10 + digit_val(s.last())
    }
}

pub open spec fn all_digits(s: Seq<char>) -> bool {
    forall|i: int| 0 <= i < s.len() ==> is_digit(#[trigger] s[i])
}

/// A digit string's value only grows as more digits are read.
pub proof fn lemma_digits_val_prefix(s: Seq<char>, k: int)
    requires
        0 <= k <= s.len(),
    ensures
        digits_val(s.subrange(0, k)) <= digits_val(s),
    decreases s.len() - k,
{
    if k < s.len() {
        lemma_digits_val_prefix(s.drop_last(), k);
        assert(s.drop_last().subrange(0, k) =~= s.subrange(0, k));
    } else {
        assert(s.subrange(0, k) =~= s);
    }
}

/// A decimal body: one or more digits whose value fits the given bound.
pub open spec fn spec_parse_digits(s: Seq<char>) -> Option<nat> {
    if s.len() > 0 && all_digits(s) {
        Some(digits_val(s))
    } else {
        None
    }
}

/// Digits of `s` starting at `from`, as an unsigned value capped at `u64`.
fn parse_digits_from(s: &str, from: usize) -> (r: Option<u64>)
    requires
        from <= s@.len(),
    ensures
        match r {
            Some(v) => spec_parse_digits(s@.subrange(from as int, s@.len() as int))
                == Some(v as nat),
            None => {
                let b = s@.subrange(from as int, s@.len() as int);
                spec_parse_digits(b) is None || digits_val(b) > u64::MAX
            },
        },
{
    let ghost b = s@.subrange(from as int, s@.len() as int);
    let n = s.unicode_len();
    if from == n {
        return None;
    }
    let mut acc: u64 = 0;
    let mut j = from;
    while j < n
        invariant
            from <= j <= n,
            n == s@.len(),
            from < n,
            b == s@.subrange(from as int, n as int),
            all_digits(s@.subrange(from as int, j as int)),
            acc as nat == digits_val(s@.subrange(from as int, j as int)),
        decreases n - j,
    {
        let c = s.get_char(j);
        if !('0' <= c && c <= '9') {
            assert(b[j - from] == s@[j as int]);
            return None;
        }
        let d: u64 = (c as u32 - '0' as u32) as u64;
        assert(d as nat == digit_val(c));
        let ghost pre = s@.subrange(from as int, j as int);
        let ghost cur = s@.subrange(from as int, j + 1 as int);
        proof {
            assert(cur.drop_last() =~= pre);
            assert(cur.last() == s@[j as int]);
        }
        let next = match acc.checked_mul(10) {
            Some(x) => match x.checked_add(d) {
                Some(y) => y,
                None => {
                    proof {
                        assert(digits_val(cur) > u64::MAX);
                        lemma_digits_val_prefix_general(s@, from as int, j + 1, n as int);
                    }
                    return None;
                },
            },
            None => {
                proof {
                    assert(digits_val(cur) == acc as nat * 10 + d as nat);
                    assert(digits_val(cur) > u64::MAX);
                    lemma_digits_val_prefix_general(s@, from as int, j + 1, n as int);
                }
                return None;
            },
        };
        acc = next;
        j = j + 1;
    }
    proof {
        assert(s@.subrange(from as int, n as int) =~= b);
    }
    Some(acc)
}

/// As `lemma_digits_val_prefix`, for a window inside a larger sequence.
pub proof fn lemma_digits_val_prefix_general(s: Seq<char>, a: int, k: int, n: int)
    requires
        0 <= a <= k <= n <= s.len(),
    ensures
        digits_val(s.subrange(a, k)) <= digits_val(s.subrange(a, n)),
{
    lemma_digits_val_prefix(s.subrange(a, n), k - a);
    assert(s.subrange(a, n).subrange(0, k - a) =~= s.subrange(a, k));
}

/// The body of an unsigned decimal literal: an optional leading `+` is
/// skipped, as Rust's integer parsing does.
pub open spec fn unsigned_body(s: Seq<char>) -> Seq<char> {
    if s.len() > 0 && s[0] == '+' {
        s.subrange(1, s.len() as int)
    } else {
        s
    }
}

pub open spec fn spec_parse_u64(s: Seq<char>) -> Option<u64> {
    let b = unsigned_body(s);
    if s.len() > 0 && b.len() > 0 && all_digits(b) && digits_val(b) <= u64::MAX {
        Some(digits_val(b) as u64)
    } else {
        None
    }
}

/// Parse an unsigned 64-bit decimal, as `str::parse::<u64>` accepts it.
pub fn parse_u64(s: &str) -> (r: Option<u64>)
    ensures
        r == spec_parse_u64(s@),
{
    let n = s.unicode_len();
    if n == 0 {
        return None;
    }
    let from: usize = if s.get_char(0) == '+' {
        1
    } else {
        0
    };
    proof {
        assert(unsigned_body(s@) =~= s@.subrange(from as int, n as int));
    }
    parse_digits_from(s, from)
}

pub open spec fn spec_parse_u8(s: Seq<char>) -> Option<u8> {
    let b = unsigned_body(s);
    if s.len() > 0 && b.len() > 0 && all_digits(b) && digits_val(b) <= u8::MAX {
        Some(digits_val(b) as u8)
    } else {
        None
    }
}

/// Parse an unsigned 8-bit decimal, as `str::parse::<u8>` accepts it.
pub fn parse_u8(s: &str) -> (r: Option<u8>)
    ensures
        r == spec_parse_u8(s@),
{
    match parse_u64(s) {
        Some(v) => if v <= u8::MAX as u64 {
            Some(v as u8)
        } else {
            None
        },
        None => {
            proof {
                let b = unsigned_body(s@);
                if s@.len() > 0 && b.len() > 0 && all_digits(b) && digits_val(b) <= u8::MAX {
                    assert(digits_val(b) <= u64::MAX);
                }
            }
            None
        },
    }
}

pub open spec fn spec_parse_i32(s: Seq<char>) -> Option<i32> {
    if s.len() > 0 && s[0] == '-' {
        let b = s.subrange(1, s.len() as int);
        if b.len() > 0 && all_digits(b) && digits_val(b) <= 0x8000_0000 {
            Some((0 - digits_val(b)) as i32)
        } else {
            None
        }
    } else {
        let b = unsigned_body(s);
        if s.len() > 0 && b.len() > 0 && all_digits(b) && digits_val(b) <= i32::MAX {
            Some(digits_val(b) as i32)
        } else {
            None
        }
    }
}

/// Parse a signed 32-bit decimal, as `str::parse::<i32>` accepts it.
pub fn parse_i32(s: &str) -> (r: Option<i32>)
    ensures
        r == spec_parse_i32(s@),
{
    let n = s.unicode_len();
    if n == 0 {
        return None;
    }
    if s.get_char(0) == '-' {
        proof {
            assert(s@.subrange(1, n as int) =~= s@.subrange(1 as int, s@.len() as int));
        }
        match parse_digits_from(s, 1) {
            Some(v) => if v <= 0x8000_0000u64 {
                let neg: i64 = 0i64 - (v as i64);
                Some(neg as i32)
            } else {
                None
            },
            None => {
                proof {
                    let b = s@.subrange(1, s@.len() as int);
                    if b.len() > 0 && all_digits(b) && digits_val(b) <= 0x8000_0000 {
                        assert(digits_val(b) <= u64::MAX);
                    }
                }
                None
            },
        }
    } else {
        let from: usize = if s.get_char(0) == '+' {
            1
        } else {
            0
        };
        proof {
            assert(unsigned_body(s@) =~= s@.subrange(from as int, n as int));
        }
        match parse_digits_from(s, from) {
            Some(v) => if v <= i32::MAX as u64 {
                Some(v as i32)
            } else {
                None
            },
            None => {
                proof {
                    let b = unsigned_body(s@);
                    if b.len() > 0 && all_digits(b) && digits_val(b) <= i32::MAX {
                        assert(digits_val(b) <= u64::MAX);
                    }
                }
                None
            },
        }
    }
}

/// The whitespace the service trims: the characters of Unicode's
/// White_Space set, as the standard library's trimming reads them.
pub open spec fn is_space(c: char) -> bool {
    c == ' ' || c == '\t' || c == '\n' || c == '\r' || c == '\u{b}' || c == '\u{c}'
        || c == '\u{85}' || c == '\u{a0}' || c == '\u{1680}' || ('\u{2000}' <= c && c
        <= '\u{200a}') || c == '\u{2028}' || c == '\u{2029}' || c == '\u{202f}' || c
        == '\u{205f}' || c == '\u{3000}'
}

fn is_space_exec(c: char) -> (r: bool)
    ensures
        r == is_space(c),
{
    c == ' ' || c == '\t' || c == '\n' || c == '\r' || c == '\u{b}' || c == '\u{c}'
        || c == '\u{85}' || c == '\u{a0}' || c == '\u{1680}' || ('\u{2000}' <= c && c
        <= '\u{200a}') || c == '\u{2028}' || c == '\u{2029}' || c == '\u{202f}' || c
        == '\u{205f}' || c == '\u{3000}'
}

pub open spec fn trim_front(s: Seq<char>) -> Seq<char>
    decreases s.len(),
{
    if s.len() > 0 && is_space(s.first()) {
        trim_front(s.drop_first())
    } else {
        s
    }
}

pub open spec fn trim_back(s: Seq<char>) -> Seq<char>
    decreases s.len(),
{
    if s.len() > 0 && is_space(s.last()) {
        trim_back(s.drop_last())
    } else {
        s
    }
}

/// The string without leading and trailing blanks.
pub open spec fn spec_trim(s: Seq<char>) -> Seq<char> {
    trim_back(trim_front(s))
}

/// Trim leading and trailing blanks, as the service's own notion of `trim`.
pub fn trim_of<'a>(s: &'a str) -> (r: &'a str)
    ensures
        r@ == spec_trim(s@),
{
    let n = s.unicode_len();
    proof {
        assert(s@.subrange(0, n as int) =~= s@);
    }
    let mut start: usize = 0;
    while start < n && is_space_exec(s.get_char(start))
        invariant
            start <= n,
            n == s@.len(),
            trim_front(s@) == trim_front(s@.subrange(start as int, n as int)),
        decreases n - start,
    {
        proof {
            let cur = s@.subrange(start as int, n as int);
            assert(cur.first() == s@[start as int]);
            assert(cur.drop_first() =~= s@.subrange(start + 1, n as int));
        }
        start = start + 1;
    }
    proof {
        let cur = s@.subrange(start as int, n as int);
        if cur.len() > 0 {
            assert(cur.first() == s@[start as int]);
        }
        assert(trim_front(s@) == cur);
    }
    let mut end: usize = n;
    while end > start && is_space_exec(s.get_char(end - 1))
        invariant
            start <= end <= n,
            n == s@.len(),
            trim_front(s@) == s@.subrange(start as int, n as int),
            trim_back(s@.subrange(start as int, n as int)) == trim_back(
                s@.subrange(start as int, end as int),
            ),
        decreases end,
    {
        proof {
            let cur = s@.subrange(start as int, end as int);
            assert(cur.last() == s@[end - 1]);
            assert(cur.drop_last() =~= s@.subrange(start as int, end - 1));
        }
        end = end - 1;
    }
    proof {
        let cur = s@.subrange(start as int, end as int);
        if cur.len() > 0 {
            assert(cur.last() == s@[end - 1]);
        }
        assert(trim_back(s@.subrange(start as int, n as int)) == cur);
    }
    s.substring_char(start, end)
}

/// Character-wise string equality.
pub fn str_eq(a: &str, b: &str) -> (r: bool)
    ensures
        r == (a@ == b@),
{
    let na = a.unicode_len();
    let nb = b.unicode_len();
    if na != nb {
        return false;
    }
    let mut i: usize = 0;
    while i < na
        invariant
            i <= na,
            na == a@.len(),
            na == b@.len(),
            forall|k: int| 0 <= k < i ==> a@[k] == b@[k],
        decreases na - i,
    {
        if a.get_char(i) != b.get_char(i) {
            return false;
        }
        i = i + 1;
    }
    proof {
        assert(a@ =~= b@);
    }
    true
}

/// Whether the string holds the character anywhere.
pub fn str_contains_char(s: &str, c: char) -> (r: bool)
    ensures
        r == s@.contains(c),
{
    let n = s.unicode_len();
    let mut i: usize = 0;
    while i < n
        invariant
            i <= n,
            n == s@.len(),
            forall|k: int| 0 <= k < i ==> s@[k] != c,
        decreases n - i,
    {
        if s.get_char(i) == c {
            assert(s@[i as int] == c);
            return true;
        }
        i = i + 1;
    }
    assert(!s@.contains(c));
    false
}

/// Whether some element of the vector reads as the given string.
pub fn vec_contains_str(v: &Vec<String>, x: &str) -> (r: bool)
    ensures
        r == v.deep_view().contains(x@),
{
    let mut i: usize = 0;
    while i < v.len()
        invariant
            i <= v@.len(),
            v.deep_view().len() == v@.len(),
            forall|k: int| 0 <= k < i ==> v.deep_view()[k] != x@,
        decreases v@.len() - i,
    {
        assert(v.deep_view()[i as int] == v@[i as int]@);
        if str_eq(v[i].as_str(), x) {
            return true;
        }
        i = i + 1;
    }
    false
}

pub open spec fn digit_char(n: nat) -> char {
    if n == 0 {
        '0'
    } else if n == 1 {
        '1'
    } else if n == 2 {
        '2'
    } else if n == 3 {
        '3'
    } else if n == 4 {
        '4'
    } else if n == 5 {
        '5'
    } else if n == 6 {
        '6'
    } else if n == 7 {
        '7'
    } else if n == 8 {
        '8'
    } else {
        '9'
    }
}

/// Decimal text of an unsigned value, most significant digit first.
pub open spec fn dec_str(n: nat) -> Seq<char>
    decreases n,
{
    if n < 10 {
        seq![digit_char(n)]
    } else {
        dec_str(n / 10).push(digit_char(n % 10))
    }
}

fn digit_lit(d: u64) -> (r: &'static str)
    requires
        d < 10,
    ensures
        r@ =~= seq![digit_char(d as nat)],
{
    proof {
        reveal_strlit("0");
        reveal_strlit("1");
        reveal_strlit("2");
        reveal_strlit("3");
        reveal_strlit("4");
        reveal_strlit("5");
        reveal_strlit("6");
        reveal_strlit("7");
        reveal_strlit("8");
        reveal_strlit("9");
    }
    if d == 0 {
        "0"
    } else if d == 1 {
        "1"
    } else if d == 2 {
        "2"
    } else if d == 3 {
        "3"
    } else if d == 4 {
        "4"
    } else if d == 5 {
        "5"
    } else if d == 6 {
        "6"
    } else if d == 7 {
        "7"
    } else if d == 8 {
        "8"
    } else {
        "9"
    }
}

/// Append the decimal text of `n`.
pub fn append_u64(out: &mut String, n: u64)
    ensures
        final(out)@ == old(out)@ + dec_str(n as nat),
    decreases n,
{
    if n >= 10 {
        append_u64(out, n / 10);
    }
    out.append(digit_lit(n % 10));
    proof {
        if n >= 10 {
            assert(dec_str(n as nat) == dec_str(n as nat / 10).push(digit_char(n as nat % 10)));
            assert(old(out)@ + dec_str(n as nat / 10) + seq![digit_char(n as nat % 10)] =~= old(
                out,
            )@ + dec_str(n as nat));
        } else {
            assert(old(out)@ + seq![digit_char(n as nat)] =~= old(out)@ + dec_str(n as nat));
        }
    }
}

/// Decimal text of a signed value.
pub open spec fn dec_str_signed(n: int) -> Seq<char> {
    if n < 0 {
        seq!['-'] + dec_str((0 - n) as nat)
    } else {
        dec_str(n as nat)
    }
}

/// Append the decimal text of `n`, with a leading minus when negative.
pub fn append_i64(out: &mut String, n: i64)
    ensures
        final(out)@ == old(out)@ + dec_str_signed(n as int),
{
    if n < 0 {
        proof {
            reveal_strlit("-");
        }
        out.append("-");
        let m: u64 = if n == i64::MIN {
            9223372036854775808u64
        } else {
            (0i64 - n) as u64
        };
        assert(m as nat == (0 - n as int) as nat);
        append_u64(out, m);
        proof {
            assert(old(out)@ + "-"@ + dec_str(m as nat) =~= old(out)@ + dec_str_signed(n as int));
        }
    } else {
        append_u64(out, n as u64);
    }
}

/// Index of the first `c` at or after `from`; the length when absent.
pub open spec fn find_char(s: Seq<char>, c: char, from: int) -> int
    decreases s.len() - from,
{
    if from < 0 || from >= s.len() {
        s.len() as int
    } else if s[from] == c {
        from
    } else {
        find_char(s, c, from + 1)
    }
}

/// Find the first `c` at or after `from`.
pub fn find_char_exec(s: &str, c: char, from: usize) -> (r: usize)
    requires
        from <= s@.len(),
    ensures
        r as int == find_char(s@, c, from as int),
        from <= r <= s@.len(),
    decreases s@.len() - from,
{
    let n = s.unicode_len();
    if from == n {
        n
    } else if s.get_char(from) == c {
        from
    } else {
        find_char_exec(s, c, from + 1)
    }
}

/// `find_char` stays between `from` and the length.
pub proof fn lemma_find_char_bounds(s: Seq<char>, c: char, from: int)
    requires
        0 <= from <= s.len(),
    ensures
        from <= find_char(s, c, from) <= s.len(),
    decreases s.len() - from,
{
    if from < s.len() && s[from] != c {
        lemma_find_char_bounds(s, c, from + 1);
    }
}

/// The comma-separated segments of `s` starting at `from`.
pub open spec fn split_csv(s: Seq<char>, from: int) -> Seq<Seq<char>>
    decreases s.len() - from,
        when 0 <= from <= s.len()
    via split_csv_dec
{
    let j = find_char(s, ',', from);
    if j >= s.len() {
        seq![s.subrange(from, s.len() as int)]
    } else {
        seq![s.subrange(from, j)] + split_csv(s, j + 1)
    }
}

#[via_fn]
proof fn split_csv_dec(s: Seq<char>, from: int) {
    lemma_find_char_bounds(s, ',', from);
}

/// The integers among the segments, each trimmed; unparseable ones dropped.
pub open spec fn csv_i32s(parts: Seq<Seq<char>>) -> Seq<i32>
    decreases parts.len(),
{
    if parts.len() == 0 {
        Seq::empty()
    } else {
        (match spec_parse_i32(spec_trim(parts.first())) {
            Some(v) => seq![v],
            None => Seq::empty(),
        }) + csv_i32s(parts.drop_first())
    }
}

/// Parse the comma-separated integers of `s` from `from` on, dropping
/// whatever does not read as an integer after trimming.
pub fn csv_i32_rec(s: &str, from: usize, out: &mut Vec<i32>)
    requires
        from <= s@.len(),
    ensures
        final(out)@ == old(out)@ + csv_i32s(split_csv(s@, from as int)),
    decreases s@.len() - from,
{
    let j = find_char_exec(s, ',', from);
    let seg = s.substring_char(from, j);
    let trimmed = trim_of(seg);
    let ghost parts = split_csv(s@, from as int);
    proof {
        assert(parts.first() == s@.subrange(from as int, j as int));
    }
    match parse_i32(trimmed) {
        Some(v) => out.push(v),
        None => {},
    }
    if j < s.unicode_len() {
        csv_i32_rec(s, j + 1, out);
        proof {
            assert(parts.drop_first() =~= split_csv(s@, j + 1));
            assert(out@ =~= old(out)@ + csv_i32s(parts));
        }
    } else {
        proof {
            assert(j == s@.len());
            assert(parts =~~= seq![s@.subrange(from as int, s@.len() as int)]);
            assert(parts.drop_first() =~= Seq::<Seq<char>>::empty());
            assert(csv_i32s(parts.drop_first()) =~= Seq::<i32>::empty());
            assert(csv_i32s(parts) == (match spec_parse_i32(spec_trim(parts.first())) {
                Some(v) => seq![v],
                None => Seq::<i32>::empty(),
            }) + csv_i32s(parts.drop_first()));
            assert(out@ =~= old(out)@ + csv_i32s(parts));
        }
    }
}

/// Decimal text of an unsigned value as an owned string.
pub fn u64_string(n: u64) -> (r: String)
    ensures
        r@ == dec_str(n as nat),
{
    let mut out = String::new();
    append_u64(&mut out, n);
    proof {
        assert(Seq::<char>::empty() + dec_str(n as nat) =~= dec_str(n as nat));
    }
    out
}

} // verus!
