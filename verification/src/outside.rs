//! Trusted bindings to the outside world: the clock, identifier generation,
//! Unicode case mapping, date formatting, and string assembly from characters.
//!
//! Every function here is `external_body`: its contract is believed, not
//! proved.  Each doc comment names the outside function relied on.

use vstd::prelude::*;

verus! {

/// Whether every character of `s` is ASCII.
pub open spec fn spec_all_ascii(s: Seq<char>) -> bool {
    forall|i: int| 0 <= i < s.len() ==> (s[i] as u32) < 128
}

/// ASCII uppercase mapping of one character.
pub open spec fn spec_ascii_upper_char(c: char) -> char {
    if 'a' <= c && c <= 'z' {
        (((c as u32) - 32) as u8) as char
    } else {
        c
    }
}

/// ASCII lowercase mapping of one character.
pub open spec fn spec_ascii_lower_char(c: char) -> char {
    if 'A' <= c && c <= 'Z' {
        (((c as u32) + 32) as u8) as char
    } else {
        c
    }
}

/// ASCII uppercase mapping of a character sequence.
pub open spec fn spec_ascii_upper(s: Seq<char>) -> Seq<char> {
    s.map(|i: int, c: char| spec_ascii_upper_char(c))
}

/// ASCII lowercase mapping of a character sequence.
pub open spec fn spec_ascii_lower(s: Seq<char>) -> Seq<char> {
    s.map(|i: int, c: char| spec_ascii_lower_char(c))
}

/// Whether `c` is a lowercase hexadecimal digit.
pub open spec fn spec_is_lower_hex(c: char) -> bool {
    ('0' <= c && c <= '9') || ('a' <= c && c <= 'f')
}

/// What `str::to_uppercase` returns: a function of the characters alone.
pub uninterp spec fn upper_of(s: Seq<char>) -> Seq<char>;

/// What `str::to_lowercase` returns: a function of the characters alone.
pub uninterp spec fn lower_of(s: Seq<char>) -> Seq<char>;

/// What `DateTime::<Utc>::to_rfc3339` renders for a microsecond timestamp:
/// a function of the timestamp alone.
pub uninterp spec fn rfc3339_of(micros: int) -> Seq<char>;

/// What formatting a microsecond timestamp with
/// `"%A, %B %d, %Y at %H:%M:%S UTC"` renders: a function of the timestamp
/// alone.
pub uninterp spec fn long_form_of(micros: int) -> Seq<char>;

/// Relies on `String::from_iter` (via `Iterator::collect`): collecting
/// characters yields the string of exactly those characters.
#[verifier::external_body]
pub(crate) fn chars_to_string(v: &Vec<char>) -> (r: String)
    ensures
        r@ == v@,
{
    v.iter().collect()
}

/// Relies on `str::to_uppercase`: the result depends on the characters
/// alone, and on ASCII input it is the ASCII uppercase mapping.
#[verifier::external_body]
pub(crate) fn to_upper(s: &str) -> (r: String)
    ensures
        r@ == upper_of(s@),
        spec_all_ascii(s@) ==> r@ == spec_ascii_upper(s@),
{
    s.to_uppercase()
}

/// Relies on `str::to_lowercase`: the result depends on the characters
/// alone, and on ASCII input it is the ASCII lowercase mapping.
#[verifier::external_body]
pub(crate) fn to_lower(s: &str) -> (r: String)
    ensures
        r@ == lower_of(s@),
        spec_all_ascii(s@) ==> r@ == spec_ascii_lower(s@),
{
    s.to_lowercase()
}

/// Relies on `chrono::Utc::now` and `DateTime::timestamp_micros`: the
/// current time as microseconds since the Unix epoch.  Nothing can be
/// promised of the clock's value.
#[verifier::external_body]
pub(crate) fn now_micros() -> i64 {
    chrono::Utc::now().timestamp_micros()
}

/// Relies on `chrono::Utc::now`, `DateTime::date_naive` and
/// `Datelike::num_days_from_ce`: the current civil date as a day number.
/// Nothing can be promised of the clock's value.
#[verifier::external_body]
pub(crate) fn today_days() -> i64 {
    chrono::Datelike::num_days_from_ce(&chrono::Utc::now().date_naive()) as i64
}

/// Relies on `DateTime::<Utc>::from_timestamp_micros` and
/// `DateTime::to_rfc3339`: the rendering is a function of the timestamp
/// alone (an out-of-range timestamp renders as the empty string).
#[verifier::external_body]
pub(crate) fn fmt_rfc3339(micros: i64) -> (r: String)
    ensures
        r@ == rfc3339_of(micros as int),
{
    chrono::DateTime::<chrono::Utc>::from_timestamp_micros(micros).map(
        |d| d.to_rfc3339(),
    ).unwrap_or_default()
}

/// Relies on `DateTime::<Utc>::from_timestamp_micros` and
/// `DateTime::format`: the rendering is a function of the timestamp alone
/// (an out-of-range timestamp renders as the empty string).
#[verifier::external_body]
pub(crate) fn fmt_long_form(micros: i64) -> (r: String)
    ensures
        r@ == long_form_of(micros as int),
{
    chrono::DateTime::<chrono::Utc>::from_timestamp_micros(micros).map(
        |d| format!("{}", d.format("%A, %B %d, %Y at %H:%M:%S UTC")),
    ).unwrap_or_default()
}

/// Relies on `uuid::Uuid::new_v4` and the `Display` of `Uuid`: the
/// hyphenated form is 36 characters, lowercase hexadecimal in five
/// hyphen-separated groups.  The value itself is random.
#[verifier::external_body]
pub(crate) fn uuid_hyphenated() -> (r: String)
    ensures
        r@.len() == 36,
        forall|i: int|
            0 <= i < 36 ==> if i == 8 || i == 13 || i == 18 || i == 23 {
                r@[i] == '-'
            } else {
                spec_is_lower_hex(r@[i])
            },
{
    format!("{}", uuid::Uuid::new_v4())
}

/// Relies on `uuid::Uuid::new_v4` and `Uuid::simple`: the simple form is
/// exactly 32 lowercase hexadecimal digits.  The value itself is random.
#[verifier::external_body]
pub(crate) fn uuid_simple() -> (r: String)
    ensures
        r@.len() == 32,
        forall|i: int| 0 <= i < 32 ==> spec_is_lower_hex(#[trigger] r@[i]),
{
    format!("{}", uuid::Uuid::new_v4().simple())
}

/// Relies on `char::from_u32`: `Some` exactly for Unicode scalar values,
/// and the returned character has the given code point.
pub assume_specification[ char::from_u32 ](i: u32) -> (r: Option<char>)
    ensures
        r is Some <==> (i < 0xD800 || (0xE000 <= i && i <= 0x10FFFF)),
        r matches Some(c) ==> (c as u32) == i,
;

} // verus!
