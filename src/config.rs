use vstd::prelude::*;

use crate::text::{decimal_value, is_u64_numeral, parse_decimal_u64, unsigned_body};

verus! {

/// The run's settings, each read once from its environment variable.
#[derive(Clone, Debug, PartialEq, Eq)]
pub struct Config {
    pub show_body: bool,
    pub show_ip: bool,
    pub show_speed: bool,
    pub save_body: bool,
    pub curl_bin: String,
    pub debug: bool,
    pub timeout_secs: u64,
    pub metrics_only: bool,
}

pub const DEFAULT_SHOW_BODY: bool = false;

pub const DEFAULT_SHOW_IP: bool = true;

pub const DEFAULT_SHOW_SPEED: bool = false;

pub const DEFAULT_SAVE_BODY: bool = true;

pub const DEFAULT_CURL_BIN: &'static str = "curl";

pub const DEFAULT_DEBUG: bool = false;

pub const DEFAULT_TIMEOUT_SECS: u64 = 10;

pub const DEFAULT_METRICS_ONLY: bool = false;

/// `c` is the lower-case character `lower`, or its ASCII upper case.
pub open spec fn same_letter(c: char, lower: char) -> bool {
    c == lower || ('A' <= c && c <= 'Z' && c as u32 + 32 == lower as u32)
}

/// `s` equals the lower-case word `w` when ASCII case is ignored.
pub open spec fn equals_ignoring_case(s: Seq<char>, w: Seq<char>) -> bool {
    s.len() == w.len() && forall|i: int| 0 <= i < s.len() ==> same_letter(#[trigger] s[i], w[i])
}

/// The value reads as true: "true", "1" or "yes", in any case.
pub open spec fn is_truthy(s: Seq<char>) -> bool {
    equals_ignoring_case(s, "true"@) || equals_ignoring_case(s, "1"@) || equals_ignoring_case(
        s,
        "yes"@,
    )
}

/// The value reads as false: "false", "0" or "no", in any case.
pub open spec fn is_falsy(s: Seq<char>) -> bool {
    equals_ignoring_case(s, "false"@) || equals_ignoring_case(s, "0"@) || equals_ignoring_case(
        s,
        "no"@,
    )
}

/// A boolean setting: true or false where its value reads so; its default
/// where the variable is unset, empty or reads as neither.
pub open spec fn env_bool_of(value: Option<Seq<char>>, default: bool) -> bool {
    match value {
        Some(v) => if is_truthy(v) {
            true
        } else if is_falsy(v) {
            false
        } else {
            default
        },
        None => default,
    }
}

/// A numeric setting: its default where the variable is unset or does not
/// read as a `u64`.
pub open spec fn env_u64_of(value: Option<Seq<char>>, default: u64) -> u64 {
    match value {
        Some(v) => if is_u64_numeral(v) {
            decimal_value(unsigned_body(v)) as u64
        } else {
            default
        },
        None => default,
    }
}

/// The characters of an optional string.
pub open spec fn opt_view(value: Option<&str>) -> Option<Seq<char>> {
    match value {
        Some(v) => Some(v@),
        None => None,
    }
}

fn letter_matches(c: char, lower: char) -> (r: bool)
    ensures
        r == same_letter(c, lower),
{
    c == lower || ('A' <= c && c <= 'Z' && c as u32 + 32 == lower as u32)
}

/// Whether `s` equals the lower-case word `w`, ignoring case.
fn matches_ignoring_case(s: &str, w: &str) -> (r: bool)
    ensures
        r == equals_ignoring_case(s@, w@),
{
    let n = s.unicode_len();
    if n != w.unicode_len() {
        return false;
    }
    let mut i: usize = 0;
    while i < n
        invariant
            n == s@.len(),
            n == w@.len(),
            i <= n,
            forall|j: int| 0 <= j < i ==> same_letter(#[trigger] s@[j], w@[j]),
        decreases n - i,
    {
        if !letter_matches(s.get_char(i), w.get_char(i)) {
            return false;
        }
        i = i + 1;
    }
    true
}

/// Whether a setting's value reads as true.
pub fn parse_truthy(value: &str) -> (r: bool)
    ensures
        r == is_truthy(value@),
{
    matches_ignoring_case(value, "true") || matches_ignoring_case(value, "1")
        || matches_ignoring_case(value, "yes")
}

/// Whether a setting's value reads as false.
pub fn parse_falsy(value: &str) -> (r: bool)
    ensures
        r == is_falsy(value@),
{
    matches_ignoring_case(value, "false") || matches_ignoring_case(value, "0")
        || matches_ignoring_case(value, "no")
}

/// Reads a boolean setting from its variable's value, if it was set.
pub fn env_bool(value: Option<&str>, default: bool) -> (r: bool)
    ensures
        r == env_bool_of(opt_view(value), default),
{
    match value {
        Some(v) => if parse_truthy(v) {
            true
        } else if parse_falsy(v) {
            false
        } else {
            default
        },
        None => default,
    }
}

/// Reads a numeric setting from its variable's value, if it was set.
pub fn env_u64(value: Option<&str>, default: u64) -> (r: u64)
    ensures
        r == env_u64_of(opt_view(value), default),
{
    match value {
        Some(v) => match parse_decimal_u64(v) {
            Some(n) => n,
            None => default,
        },
        None => default,
    }
}

impl Config {
    /// The settings from the values of their environment variables (`None`
    /// for one that is unset or unreadable), each defaulted on its own.
    pub fn from_env_values(
        show_body: Option<&str>,
        show_ip: Option<&str>,
        show_speed: Option<&str>,
        save_body: Option<&str>,
        curl_bin: Option<&str>,
        debug: Option<&str>,
        timeout_secs: Option<&str>,
        metrics_only: Option<&str>,
    ) -> (r: Config)
        ensures
            r.show_body == env_bool_of(opt_view(show_body), DEFAULT_SHOW_BODY),
            r.show_ip == env_bool_of(opt_view(show_ip), DEFAULT_SHOW_IP),
            r.show_speed == env_bool_of(opt_view(show_speed), DEFAULT_SHOW_SPEED),
            r.save_body == env_bool_of(opt_view(save_body), DEFAULT_SAVE_BODY),
            r.curl_bin@ == (match curl_bin {
                Some(b) => b@,
                None => DEFAULT_CURL_BIN@,
            }),
            r.debug == env_bool_of(opt_view(debug), DEFAULT_DEBUG),
            r.timeout_secs == env_u64_of(opt_view(timeout_secs), DEFAULT_TIMEOUT_SECS),
            r.metrics_only == env_bool_of(opt_view(metrics_only), DEFAULT_METRICS_ONLY),
    {
        Config {
            show_body: env_bool(show_body, DEFAULT_SHOW_BODY),
            show_ip: env_bool(show_ip, DEFAULT_SHOW_IP),
            show_speed: env_bool(show_speed, DEFAULT_SHOW_SPEED),
            save_body: env_bool(save_body, DEFAULT_SAVE_BODY),
            curl_bin: match curl_bin {
                Some(b) => String::from_str(b),
                None => String::from_str(DEFAULT_CURL_BIN),
            },
            debug: env_bool(debug, DEFAULT_DEBUG),
            timeout_secs: env_u64(timeout_secs, DEFAULT_TIMEOUT_SECS),
            metrics_only: env_bool(metrics_only, DEFAULT_METRICS_ONLY),
        }
    }
}

} // verus!
