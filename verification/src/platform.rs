//! Calls into std and into the crates that provide randomness, clock time,
//! identifiers and Unicode case mapping, each with the contract that its
//! documentation gives.

use vstd::prelude::*;
use rand::seq::SliceRandom;
use rand::Rng;

verus! {

/// Draws a number uniformly from `low..high` with `Rng::gen_range` on the
/// thread-local generator. `gen_range` panics on an empty range and
/// otherwise returns a value inside it; which value comes out is chance.
#[verifier::external_body]
pub fn random_in_range(low: i64, high: i64) -> (r: i64)
    requires
        low < high,
    ensures
        low <= r < high,
{
    rand::thread_rng().gen_range(low..high)
}

/// Picks one element with `SliceRandom::choose` on the thread-local
/// generator. `choose` returns `None` only for an empty slice; otherwise
/// one of its elements, which one being chance.
#[verifier::external_body]
pub fn random_choice(items: &Vec<i64>) -> (r: i64)
    requires
        items@.len() > 0,
    ensures
        items@.contains(r),
{
    *items.choose(&mut rand::thread_rng()).expect("invalid minutes generated")
}

/// A lowercase hexadecimal digit.
pub open spec fn is_lower_hex(c: char) -> bool {
    ('0' <= c && c <= '9') || ('a' <= c && c <= 'f')
}

/// The hyphenated lowercase text of a version 4 (random) UUID:
/// `xxxxxxxx-xxxx-4xxx-Vxxx-xxxxxxxxxxxx` with `V` one of `8`, `9`, `a`, `b`.
pub open spec fn is_uuid_v4_text(s: Seq<char>) -> bool {
    &&& s.len() == 36
    &&& forall|i: int|
        0 <= i < 36 ==> if i == 8 || i == 13 || i == 18 || i == 23 {
            s[i] == '-'
        } else {
            is_lower_hex(#[trigger] s[i])
        }
    &&& s[14] == '4'
    &&& (s[19] == '8' || s[19] == '9' || s[19] == 'a' || s[19] == 'b')
}

/// A new random identifier: `Uuid::new_v4()` rendered with its `Display`
/// implementation. `new_v4` fixes the version nibble to 4 and the variant
/// bits to `10`; `Display` writes the hyphenated lowercase form. The other
/// digits are chance.
#[verifier::external_body]
pub fn new_uuid_v4() -> (r: String)
    ensures
        is_uuid_v4_text(r@),
{
    uuid::Uuid::new_v4().to_string()
}

/// What `uuid::Uuid::from_str` makes of a text: `None` where it reads the
/// text as an identifier, the text of the error otherwise.
pub uninterp spec fn uuid_parse_error(s: Seq<char>) -> Option<Seq<char>>;

/// A hexadecimal digit, in either case.
pub open spec fn is_hex_digit(c: char) -> bool {
    ('0' <= c && c <= '9') || ('a' <= c && c <= 'f') || ('A' <= c && c <= 'F')
}

/// 36 characters: hexadecimal digits, with hyphens at offsets 8, 13, 18 and
/// 23.
pub open spec fn is_hyphenated_uuid(s: Seq<char>) -> bool {
    &&& s.len() == 36
    &&& forall|i: int|
        0 <= i < 36 ==> if i == 8 || i == 13 || i == 18 || i == 23 {
            s[i] == '-'
        } else {
            is_hex_digit(#[trigger] s[i])
        }
}

/// `c` equals `p`, or `p` is a lowercase ASCII letter and `c` its uppercase
/// form.
pub open spec fn ascii_eq_ignore_case(c: char, p: char) -> bool {
    c == p || ('a' <= p && p <= 'z' && c as int == p as int - 32)
}

/// The texts that `uuid::Uuid::from_str` reads as an identifier: 32
/// hexadecimal digits; the hyphenated form; the hyphenated form in braces;
/// or the hyphenated form after the prefix `urn:uuid:`, in any case.
pub open spec fn is_uuid_text(s: Seq<char>) -> bool {
    ||| (s.len() == 32 && forall|i: int| 0 <= i < 32 ==> is_hex_digit(#[trigger] s[i]))
    ||| is_hyphenated_uuid(s)
    ||| (s.len() == 38 && s[0] == '{' && s[37] == '}' && is_hyphenated_uuid(s.subrange(1, 37)))
    ||| (s.len() == 45 && (forall|i: int|
        0 <= i < 9 ==> ascii_eq_ignore_case(#[trigger] s[i], "urn:uuid:"@[i]))
        && is_hyphenated_uuid(s.subrange(9, 45)))
}

/// Parses a text with `uuid::Uuid::from_str` and renders a parse error with
/// its `Display` implementation. The outcome depends on the text alone: the
/// parser accepts exactly the texts [`is_uuid_text`] describes (every byte
/// it accepts is ASCII, so counting characters counts bytes), which include
/// every text that `new_uuid_v4` writes. The error text is named, not
/// stated.
#[verifier::external_body]
pub fn check_uuid(s: &str) -> (r: Result<(), String>)
    ensures
        match r {
            Ok(()) => uuid_parse_error(s@) is None,
            Err(e) => uuid_parse_error(s@) == Some(e@),
        },
        r is Ok <==> is_uuid_text(s@),
        is_uuid_v4_text(s@) ==> r is Ok,
{
    match s.parse::<uuid::Uuid>() {
        Ok(_) => Ok(()),
        Err(e) => Err(e.to_string()),
    }
}

/// The current time from `chrono::Utc::now()`, as whole seconds since the
/// Unix epoch (`timestamp`) and the nanoseconds past that second
/// (`timestamp_subsec_nanos`, which chrono documents as below two billion,
/// the range above one billion standing for a leap second). chrono's dates
/// lie within the years -262144 to 262143, so the seconds stay below nine
/// trillion in size. The instant itself depends on the clock.
#[verifier::external_body]
pub fn utc_now() -> (r: (i64, i32))
    ensures
        -9_000_000_000_000 <= r.0 <= 9_000_000_000_000,
        0 <= r.1 < 2_000_000_000,
{
    let now = chrono::Utc::now();
    (now.timestamp(), now.timestamp_subsec_nanos() as i32)
}

/// The current time from `chrono::Local::now()`: whole seconds since the
/// Unix epoch, and the offset of the local time zone from UTC in seconds
/// (`local_minus_utc`, which chrono keeps strictly within one day). Both
/// depend on the clock and the machine's time zone.
#[verifier::external_body]
pub fn local_now() -> (r: (i64, i32))
    ensures
        -9_000_000_000_000 <= r.0 <= 9_000_000_000_000,
        -86_400 < r.1 < 86_400,
{
    let now = chrono::Local::now();
    (now.timestamp(), now.offset().local_minus_utc())
}

/// What `chrono::DateTime::parse_from_rfc3339` makes of a text: the instant
/// it denotes, as whole seconds since the Unix epoch and nanoseconds past
/// that second, or the text of the parse error where the text is not an
/// RFC 3339 date and time.
pub uninterp spec fn rfc3339_parse(s: Seq<char>) -> Result<(i64, u32), Seq<char>>;

/// Calls `chrono::DateTime::parse_from_rfc3339`, reads the instant of the
/// result with `timestamp` and `timestamp_subsec_nanos`, and renders a parse
/// error with its `Display` implementation. The outcome depends on the text
/// alone; the grammar is named, not stated.
#[verifier::external_body]
pub fn parse_rfc3339(s: &str) -> (r: Result<(i64, u32), String>)
    ensures
        match r {
            Ok(t) => rfc3339_parse(s@) == Ok::<(i64, u32), Seq<char>>(t),
            Err(e) => rfc3339_parse(s@) == Err::<(i64, u32), Seq<char>>(e@),
        },
{
    match chrono::DateTime::parse_from_rfc3339(s) {
        Ok(t) => Ok((t.timestamp(), t.timestamp_subsec_nanos())),
        Err(e) => Err(e.to_string()),
    }
}

/// The Unicode lowercase mapping of a character sequence, as computed by
/// `str::to_lowercase`.
pub uninterp spec fn lowercase(s: Seq<char>) -> Seq<char>;

/// Calls `str::to_lowercase`. Its result is a function of the input alone,
/// given the Unicode tables of std; the mapping itself is named, not stated.
#[verifier::external_body]
pub fn to_lowercase(s: &str) -> (r: String)
    ensures
        r@ == lowercase(s@),
{
    s.to_lowercase()
}

/// Collects characters into a `String` with `String::from_iter`, which
/// appends them in order.
#[verifier::external_body]
pub fn string_from_chars(chars: &Vec<char>) -> (r: String)
    ensures
        r@ == chars@,
{
    String::from_iter(chars.iter())
}

} // verus!
