//! The calls this library makes into `validator`, `bson`, `bcrypt` and `chrono`, each behind a
//! contract that the crate's source shows, and the `serde_json` value that requests carry.

use vstd::prelude::*;

verus! {

// ---------------------------------------------------------------------------
// validator
// ---------------------------------------------------------------------------

/// Whether `validator`'s HTML5 e-mail rule accepts `s`.
pub uninterp spec fn email_is_valid(s: Seq<char>) -> bool;

/// `validator::ValidateEmail::validate_email` on a `&str`.
///
/// The result is the named rule [`email_is_valid`] of the text. The rule itself (a pair of
/// regular expressions, the length limits of both parts and an IDN fallback) is not
/// restated; of it only the first test of the source is stated: an empty text, or one
/// without `@`, is refused.
#[verifier::external_body]
pub(crate) fn email_ok(s: &str) -> (r: bool)
    ensures
        r == email_is_valid(s@),
        s@.len() == 0 ==> !r,
        !s@.contains('@') ==> !r,
{
    validator::ValidateEmail::validate_email(&s)
}

/// `validator::ValidateLength::validate_length` on a `&str`, with no `equal` bound.
///
/// The length `validator` measures is the number of characters (`chars().count()`); the
/// text passes when it is at least `min` and at most `max`, where given.
#[verifier::external_body]
pub(crate) fn length_ok(s: &str, min: Option<u64>, max: Option<u64>) -> (r: bool)
    ensures
        r == ((min is None || s@.len() >= min->0) && (max is None || s@.len() <= max->0)),
{
    validator::ValidateLength::<u64>::validate_length(&s, min, max, None)
}

// ---------------------------------------------------------------------------
// bson
// ---------------------------------------------------------------------------

/// `c` is a hexadecimal digit, upper or lower case.
pub open spec fn is_hex_digit(c: char) -> bool {
    ('0' <= c && c <= '9') || ('a' <= c && c <= 'f') || ('A' <= c && c <= 'F')
}

/// The value of the hexadecimal digit `c`.
pub open spec fn hex_value(c: char) -> int {
    if '0' <= c && c <= '9' {
        (c as u32) - 48
    } else if 'a' <= c && c <= 'f' {
        (c as u32) - 87
    } else {
        (c as u32) - 55
    }
}

/// `s` is the text of an object id: exactly 24 hexadecimal digits.
pub open spec fn is_object_id_text(s: Seq<char>) -> bool {
    s.len() == 24 && forall|i: int| 0 <= i < 24 ==> is_hex_digit(#[trigger] s[i])
}

/// The 12 bytes that 24 hexadecimal digits spell, two digits per byte, high digit first.
pub open spec fn object_id_bytes(s: Seq<char>) -> Seq<u8> {
    Seq::new(12, |i: int| (hex_value(s[2 * i]) * 16 + hex_value(s[2 * i + 1])) as u8)
}

/// `bson::oid::ObjectId::parse_str`, giving the id's 12 bytes.
///
/// The source hex-decodes the text and accepts it when it decodes to exactly 12 bytes: the
/// text must be 24 hexadecimal digits, and byte `i` is spelled by digits `2i` and `2i + 1`.
#[verifier::external_body]
pub(crate) fn object_id_parse(s: &str) -> (r: Option<Vec<u8>>)
    ensures
        r is Some <==> is_object_id_text(s@),
        r matches Some(b) ==> b@ == object_id_bytes(s@),
{
    match bson::oid::ObjectId::parse_str(s) {
        Ok(id) => Some(id.bytes().to_vec()),
        Err(_) => None,
    }
}

// ---------------------------------------------------------------------------
// bcrypt
// ---------------------------------------------------------------------------

/// Whether `bcrypt` finds that `hash` is a hash of `password`.
pub uninterp spec fn bcrypt_matches(password: Seq<char>, hash: Seq<char>) -> bool;

/// `bcrypt::verify(password, hash)`, with an error (a malformed hash) read as `false`.
///
/// The result is the named [`bcrypt_matches`] of the two texts; the check recomputes the
/// hash with the cost and salt held in `hash`, so it depends on the two texts alone.
#[verifier::external_body]
pub(crate) fn password_matches(password: &str, hash: &str) -> (r: bool)
    ensures
        r == bcrypt_matches(password@, hash@),
{
    bcrypt::verify(password, hash).unwrap_or(false)
}

/// `bcrypt::hash(password, bcrypt::DEFAULT_COST)`, with an error given as `None`.
///
/// The hash carries a fresh random salt, so two calls on one password give different texts
/// and the text itself is left unstated. What is stated is the round trip the source shows:
/// `verify` recomputes the hash of the password with the cost and salt held in the hash
/// (truncating the password at 72 bytes exactly as `hash` does), so a hash made here is one
/// that [`bcrypt_matches`] the password. The call fails only when no random salt can be had.
#[verifier::external_body]
pub(crate) fn password_hash(password: &str) -> (r: Option<String>)
    ensures
        r matches Some(h) ==> bcrypt_matches(password@, h@),
{
    bcrypt::hash(password, bcrypt::DEFAULT_COST).ok()
}

// ---------------------------------------------------------------------------
// chrono
// ---------------------------------------------------------------------------

/// The UTC calendar day, written `%Y-%m-%d`, of the instant `millis` milliseconds after the
/// Unix epoch; none when the instant lies outside the range of dates `chrono` can hold.
pub uninterp spec fn utc_day_text(millis: i64) -> Option<Seq<char>>;

/// `chrono::DateTime::from_timestamp_millis(millis)` formatted with `"%Y-%m-%d"`.
///
/// The result is the named [`utc_day_text`] of `millis`: the conversion is a pure function of
/// the number (UTC, no time zone of the machine), and `None` comes from an out-of-range
/// number. The calendar arithmetic is not restated.
#[verifier::external_body]
pub(crate) fn utc_day_of_millis(millis: i64) -> (r: Option<String>)
    ensures
        (match r {
            Some(s) => Some(s@),
            None => None,
        }) == utc_day_text(millis),
{
    match chrono::DateTime::from_timestamp_millis(millis) {
        Some(d) => Some(d.format("%Y-%m-%d").to_string()),
        None => None,
    }
}

/// Whether `chrono` can hold the instant `millis` milliseconds after the Unix epoch.
pub uninterp spec fn chrono_holds_millis(millis: i64) -> bool;

/// `chrono::DateTime::from_timestamp_millis(millis).is_some()`.
///
/// The result is the named [`chrono_holds_millis`] of `millis`; the source splits the number
/// into seconds and milliseconds and checks the resulting date against the range of dates it
/// can hold, so the answer depends on the number alone. The range is not restated.
#[verifier::external_body]
pub(crate) fn millis_in_range(millis: i64) -> (r: bool)
    ensures
        r == chrono_holds_millis(millis),
{
    chrono::DateTime::from_timestamp_millis(millis).is_some()
}

// ---------------------------------------------------------------------------
// serde_json
// ---------------------------------------------------------------------------

/// `serde_json::Value`, carried through unread.
#[verifier::external_type_specification]
#[verifier::external_body]
pub struct ExJsonValue(serde_json::Value);

} // verus!
