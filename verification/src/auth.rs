//! Time-based one-time-password authentication.
//!
//! A request authorizes with `Authorization: token <code>`, where the code
//! is the TOTP of a shared secret at the current time step. The library
//! extracts and checks the code; the one-way function itself and the clock
//! are relied on from outside.

use vstd::prelude::*;
use vstd::string::StringSliceAdditionalSpecFns;

use crate::text::{parse_u64, spec_parse_u64, str_eq};

verus! {

/// The code the HMAC-based one-time-password function yields for a key,
/// a counter and a digit count.
pub uninterp spec fn hotp_code_of(key: Seq<u8>, counter: u64, digits: u32) -> u64;

/// Relies on oath::hotp_raw (the HMAC-SHA-1 one-time password): the code
/// depends on the key, the counter and the digit count alone.
#[verifier::external_body]
fn hotp_raw_code(key: &[u8], counter: u64, digits: u32) -> (r: u64)
    requires
        digits <= 19,
    ensures
        r == hotp_code_of(key@, counter, digits),
{
    oath::hotp_raw(key, counter, digits)
}

/// Relies on std::time::SystemTime, the system clock, through `elapsed`
/// on the Unix epoch: the whole seconds the clock stands past the epoch,
/// and nothing when it stands before it. Neither outcome aborts, and two
/// calls may differ.
#[verifier::external_body]
fn clock_since_epoch() -> (r: Option<u64>) {
    match std::time::UNIX_EPOCH.elapsed() {
        Ok(d) => Some(d.as_secs()),
        Err(_) => None,
    }
}

/// The clock reading as seconds since the Unix epoch, clamped at it.
pub fn current_unix_seconds() -> (r: u64) {
    match clock_since_epoch() {
        Some(s) => s,
        None => 0,
    }
}

/// The RFC 3339 rendering of a count of seconds since the Unix epoch.
pub uninterp spec fn rfc3339_of(secs: u64) -> Seq<char>;

/// Relies on chrono's DateTime::from_timestamp, whose result is converted
/// by to_rfc3339: the text depends on the given seconds alone and is never
/// empty; seconds the calendar cannot carry give nothing, and any count
/// below the calendar's reach (beyond year two hundred thousand) is
/// carried. Neither call aborts.
#[verifier::external_body]
fn rfc3339_of_seconds(secs: u64) -> (r: Option<String>)
    ensures
        r matches Some(t) ==> t@ == rfc3339_of(secs) && t@.len() > 0,
        secs < 8_000_000_000_000 ==> r is Some,
{
    match chrono::DateTime::<chrono::Utc>::from_timestamp(secs as i64, 0) {
        Some(dt) => Some(dt.to_rfc3339()),
        None => None,
    }
}

/// The clock as an RFC 3339 timestamp: the rendering of some drawn count
/// of seconds; a reading the calendar cannot carry falls back to the
/// epoch itself.
pub fn now_rfc3339() -> (r: String)
    ensures
        (exists|s: u64| r@ == rfc3339_of(s)) || r@ == "1970-01-01T00:00:00+00:00"@,
        r@.len() > 0,
{
    let secs = current_unix_seconds();
    match rfc3339_of_seconds(secs) {
        Some(s) => {
            proof {
                assert(s@ == rfc3339_of(secs));
            }
            s
        },
        None => {
            proof {
                reveal_strlit("1970-01-01T00:00:00+00:00");
            }
            "1970-01-01T00:00:00+00:00".to_owned()
        },
    }
}

/// The six-digit one-time code of a secret at `now`, with steps of
/// `lifetime` seconds counted from the epoch.
pub open spec fn spec_totp_code(secret: Seq<u8>, lifetime: u64, now: u64) -> u64
    recommends
        lifetime > 0,
{
    hotp_code_of(secret, (now as int / lifetime as int) as u64, 6)
}

/// Compute the six-digit one-time code of a secret at `now`.
pub fn totp_code(secret: &[u8], lifetime: u64, now: u64) -> (r: u64)
    requires
        lifetime > 0,
    ensures
        r == spec_totp_code(secret@, lifetime, now),
{
    hotp_raw_code(secret, now / lifetime, 6)
}

/// What follows the last `token ` marker of the header; the whole header
/// when the marker never occurs.
pub open spec fn after_last_token(h: Seq<char>, i: int) -> Seq<char>
    decreases i + 1,
{
    if i < 0 {
        h
    } else if h.subrange(i, i + 6) == "token "@ {
        h.subrange(i + 6, h.len() as int)
    } else {
        after_last_token(h, i - 1)
    }
}

/// The code text of an authorization header.
pub open spec fn spec_auth_token(h: Seq<char>) -> Seq<char> {
    after_last_token(h, h.len() - 6)
}

/// Extract the code text of an authorization header.
fn auth_token_of<'a>(h: &'a str) -> (r: &'a str)
    ensures
        r@ == spec_auth_token(h@),
{
    let n = h.unicode_len();
    if n < 6 {
        assert(after_last_token(h@, n as int - 6) == h@);
        return h;
    }
    let mut i: usize = n - 6;
    loop
        invariant
            i <= n - 6,
            n == h@.len(),
            n >= 6,
            spec_auth_token(h@) == after_last_token(h@, i as int),
        decreases i,
    {
        let seg = h.substring_char(i, i + 6);
        if str_eq(seg, "token ") {
            let r = h.substring_char(i + 6, n);
            assert(after_last_token(h@, i as int) == h@.subrange(i + 6, n as int));
            return r;
        }
        if i == 0 {
            assert(after_last_token(h@, 0) == after_last_token(h@, -1));
            return h;
        }
        i = i - 1;
    }
}

/// Whether a request is authorized: always when the check is disabled,
/// else exactly when the header carries the secret's current code.
pub open spec fn spec_is_authorized(
    enabled: bool,
    secret: Seq<u8>,
    header: Option<Seq<char>>,
    lifetime: u64,
    now: u64,
) -> bool
    recommends
        lifetime > 0,
{
    if !enabled {
        true
    } else {
        match header {
            None => false,
            Some(h) => match spec_parse_u64(spec_auth_token(h)) {
                Some(token) => token == spec_totp_code(secret, lifetime, now),
                None => false,
            },
        }
    }
}

/// Decide a request's authorization from its header at time `now`.
pub fn is_authorized(
    enabled: bool,
    secret: &str,
    header: Option<&String>,
    lifetime: u64,
    now: u64,
) -> (r: bool)
    requires
        lifetime > 0,
    ensures
        r == spec_is_authorized(
            enabled,
            secret.spec_bytes(),
            match header {
                Some(h) => Some(h@),
                None => None,
            },
            lifetime,
            now,
        ),
{
    if !enabled {
        return true;
    }
    let h = match header {
        Some(h) => h,
        None => {
            return false;
        },
    };
    let token_text = auth_token_of(h.as_str());
    match parse_u64(token_text) {
        Some(token) => token == totp_code(secret.as_bytes(), lifetime, now),
        None => false,
    }
}

} // verus!
