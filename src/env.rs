//! Settings read from the environment, with their fallbacks. The variables
//! themselves are read by the caller and handed over as optional values.
use vstd::prelude::*;

verus! {

/// The host used when `LILY_HOST` is not set.
pub const DEFAULT_HOST: &'static str = "0.0.0.0";

/// The port used when `LILY_PORT` is not set or does not hold an `i32`.
pub const DEFAULT_PORT: i32 = 5173;

/// The name used when `CARGO_PKG_NAME` is not set.
pub const DEFAULT_NAME: &'static str = "app";

/// The version used when `CARGO_PKG_VERSION` is not set.
pub const DEFAULT_VERSION: &'static str = "0.0.0";

/// Whether a text is a non-empty run of ASCII digits.
pub open spec fn is_digits(s: Seq<char>) -> bool {
    s.len() > 0 && forall|i: int| 0 <= i < s.len() ==> '0' <= #[trigger] s[i] && s[i] <= '9'
}

/// The value of a run of ASCII digits.
pub open spec fn digits_value(s: Seq<char>) -> int
    decreases s.len(),
{
    if s.len() == 0 {
        0
    } else {
        digits_value(s.drop_last()) * 10 + (s.last() as u32 - '0' as u32)
    }
}

/// The integer a text writes: an optional `+` or `-`, then ASCII digits.
pub open spec fn written_int(s: Seq<char>) -> Option<int> {
    if s.len() > 0 && (s[0] == '+' || s[0] == '-') {
        if is_digits(s.drop_first()) {
            if s[0] == '-' {
                Some(-digits_value(s.drop_first()))
            } else {
                Some(digits_value(s.drop_first()))
            }
        } else {
            None
        }
    } else if is_digits(s) {
        Some(digits_value(s))
    } else {
        None
    }
}

/// What `str::parse::<i32>` gives for a text: the integer it writes, where
/// that fits in an `i32`.
pub open spec fn parsed_i32(s: Seq<char>) -> Option<i32> {
    match written_int(s) {
        Some(v) => if i32::MIN <= v && v <= i32::MAX {
            Some(v as i32)
        } else {
            None
        },
        None => None,
    }
}

/// Relies on `str::parse::<i32>`: the number the text writes, if it writes one
/// that fits.
#[verifier::external_body]
fn parse_i32(s: &str) -> (r: Option<i32>)
    ensures
        r == parsed_i32(s@),
{
    s.parse::<i32>().ok()
}

/// The text of a setting, or its fallback when it is not set.
pub open spec fn text_setting(value: Option<String>, fallback: Seq<char>) -> Seq<char> {
    match value {
        Some(v) => v@,
        None => fallback,
    }
}

/// The number a setting holds, or its fallback when it is not set or not a number.
pub open spec fn number_setting(value: Option<String>, fallback: i32) -> i32 {
    match value {
        Some(v) => match parsed_i32(v@) {
            Some(n) => n,
            None => fallback,
        },
        None => fallback,
    }
}

/// A value that can be read from an environment variable, with a fallback.
pub trait FromEnv: Sized {
    /// The value the variable's content gives (`None`: the variable is not set).
    fn from_env(value: Option<String>, fallback: Self) -> Self;
}

impl FromEnv for String {
    fn from_env(value: Option<String>, fallback: String) -> (r: String)
        ensures
            r@ == text_setting(value, fallback@),
    {
        string_or(value, fallback)
    }
}

impl FromEnv for i32 {
    fn from_env(value: Option<String>, fallback: i32) -> (r: i32)
        ensures
            r == number_setting(value, fallback),
    {
        i32_or(value, fallback)
    }
}

/// The text of a setting, or the fallback when it is not set.
pub fn string_or(value: Option<String>, fallback: String) -> (r: String)
    ensures
        r@ == text_setting(value, fallback@),
{
    match value {
        Some(v) => v,
        None => fallback,
    }
}

/// The number a setting holds, or the fallback when it is not set or not an `i32`.
pub fn i32_or(value: Option<String>, fallback: i32) -> (r: i32)
    ensures
        r == number_setting(value, fallback),
{
    match value {
        Some(v) => match parse_i32(v.as_str()) {
            Some(n) => n,
            None => fallback,
        },
        None => fallback,
    }
}

/// The host to serve on, from the content of `LILY_HOST`.
pub fn get_lily_host(value: Option<String>) -> (r: String)
    ensures
        r@ == text_setting(value, DEFAULT_HOST@),
{
    string_or(value, String::from_str(DEFAULT_HOST))
}

/// The port to serve on, from the content of `LILY_PORT`.
pub fn get_lily_port(value: Option<String>) -> (r: i32)
    ensures
        r == number_setting(value, DEFAULT_PORT),
{
    i32_or(value, DEFAULT_PORT)
}

/// The product name, from the content of `CARGO_PKG_NAME`.
pub fn get_lily_name(value: Option<String>) -> (r: String)
    ensures
        r@ == text_setting(value, DEFAULT_NAME@),
{
    string_or(value, String::from_str(DEFAULT_NAME))
}

/// The product version with a leading `v`, from the content of `CARGO_PKG_VERSION`.
pub fn get_lily_version(value: Option<String>) -> (r: String)
    ensures
        r@ == "v"@ + text_setting(value, DEFAULT_VERSION@),
{
    let version = string_or(value, String::from_str(DEFAULT_VERSION));
    String::from_str("v").concat(version.as_str())
}

/// The product id: the name, a space, and the version with its `v`.
pub fn get_lily_product_id(name: Option<String>, version: Option<String>) -> (r: String)
    ensures
        r@ == text_setting(name, DEFAULT_NAME@) + " "@ + "v"@ + text_setting(version, DEFAULT_VERSION@),
{
    let n = get_lily_name(name);
    let v = get_lily_version(version);
    let r = n.concat(" ").concat(v.as_str());
    assert(r@ =~= text_setting(name, DEFAULT_NAME@) + " "@ + "v"@ + text_setting(version, DEFAULT_VERSION@));
    r
}

} // verus!
