use vstd::prelude::*;

verus! {

/// A lower-case hexadecimal digit.
pub open spec fn is_lower_hex(c: char) -> bool {
    ('0' <= c && c <= '9') || ('a' <= c && c <= 'f')
}

/// The hyphenated lower-case text of a version-4, RFC 4122 variant UUID:
/// `xxxxxxxx-xxxx-4xxx-Yxxx-xxxxxxxxxxxx` with `Y` one of `8`, `9`, `a`, `b`.
pub open spec fn is_uuid_v4_text(s: Seq<char>) -> bool {
    &&& s.len() == 36
    &&& forall|i: int|
        0 <= i < 36 ==> if i == 8 || i == 13 || i == 18 || i == 23 {
            s[i] == '-'
        } else {
            is_lower_hex(#[trigger] s[i])
        }
    &&& s[14] == '4'
    &&& s[19] == '8' || s[19] == '9' || s[19] == 'a' || s[19] == 'b'
}

/// A decimal digit.
pub open spec fn is_digit(c: char) -> bool {
    '0' <= c && c <= '9'
}

/// An RFC 3339 UTC time to the second: `YYYY-MM-DDTHH:MM:SSZ`, the year written
/// with four digits or more (a longer year carries a sign). Positions are
/// counted from the end, where the layout is fixed.
pub open spec fn is_utc_timestamp_text(s: Seq<char>) -> bool {
    let n = s.len() as int;
    &&& n >= 20
    &&& forall|k: int|
        1 <= k <= 20 ==> if k == 1 {
            s[n - k] == 'Z'
        } else if k == 4 || k == 7 {
            s[n - k] == ':'
        } else if k == 10 {
            s[n - k] == 'T'
        } else if k == 13 || k == 16 {
            s[n - k] == '-'
        } else {
            is_digit(#[trigger] s[n - k])
        }
}

/// Relies on uuid's `Uuid::new_v4` and its `Display`: a fresh random id, written
/// hyphenated in lower case, with the version and variant bits set.
#[verifier::external_body]
pub(crate) fn fresh_note_id() -> (r: String)
    ensures
        is_uuid_v4_text(r@),
{
    uuid::Uuid::new_v4().to_string()
}

/// Relies on chrono's `Utc::now` and `DateTime::to_rfc3339_opts` with whole seconds
/// and `Z`: the current time in UTC.
#[verifier::external_body]
pub(crate) fn current_timestamp() -> (r: String)
    ensures
        is_utc_timestamp_text(r@),
{
    chrono::Utc::now().to_rfc3339_opts(chrono::SecondsFormat::Secs, true)
}

} // verus!
