//! What the library takes from outside crates: slugs, identifiers and the
//! clock. Each item names the function it relies on.

use vstd::prelude::*;

use time::format_description::well_known::Rfc3339;
use time::OffsetDateTime;

verus! {

/// The slug that `slug::slugify` makes of a text.
pub uninterp spec fn slug_of(s: Seq<char>) -> Seq<char>;

/// Relies on `slug::slugify`: the result depends on the text alone and, as
/// its documentation states, holds only `a`-`z`, `0`-`9` and `-`, never two
/// dashes in a row, and no dash at either end.
#[verifier::external_body]
pub(crate) fn slugify(s: &str) -> (r: String)
    ensures
        r@ == slug_of(s@),
        forall|i: int|
            0 <= i < r@.len() ==> ('a' <= #[trigger] r@[i] <= 'z' || '0' <= r@[i] <= '9' || r@[i]
                == '-'),
        forall|i: int| 0 <= i < r@.len() - 1 ==> !(#[trigger] r@[i] == '-' && r@[i + 1] == '-'),
        r@.len() > 0 ==> r@[0] != '-' && r@.last() != '-',
{
    slug::slugify(s)
}

/// Relies on `ulid::Ulid::new` and `Ulid::to_string`: a fresh identifier of
/// 26 characters of Crockford's base 32 (digits and upper-case letters).
#[verifier::external_body]
pub(crate) fn fresh_ulid() -> (r: String)
    ensures
        r@.len() == 26,
        forall|i: int|
            0 <= i < r@.len() ==> ('0' <= #[trigger] r@[i] <= '9' || 'A' <= r@[i] <= 'Z'),
{
    ulid::Ulid::new().to_string()
}

/// The lower-case form that `str::to_lowercase` gives a text.
pub uninterp spec fn lower_of(s: Seq<char>) -> Seq<char>;

/// Relies on `str::to_lowercase`: the result depends on the characters
/// alone, and the empty string stays empty.
#[verifier::external_body]
pub(crate) fn lowercase(s: &str) -> (r: String)
    ensures
        r@ == lower_of(s@),
        s@.len() == 0 ==> r@.len() == 0,
{
    s.to_lowercase()
}

#[verifier::external_type_specification]
#[verifier::external_body]
pub struct ExOffsetDateTime(OffsetDateTime);

/// Relies on `time::OffsetDateTime::now_utc`: the current time in UTC.
pub assume_specification[ OffsetDateTime::now_utc ]() -> OffsetDateTime;

/// Relies on `time::OffsetDateTime::to_calendar_date`: year, month (1 to 12)
/// and day of the month (1 to 31).
#[verifier::external_body]
pub(crate) fn calendar_date(t: OffsetDateTime) -> (r: (i32, u8, u8))
    ensures
        1 <= r.1 <= 12,
        1 <= r.2 <= 31,
{
    let (y, m, d) = t.to_calendar_date();
    (y, u8::from(m), d)
}

/// Relies on `time::OffsetDateTime::format` with the RFC 3339 format; it
/// fails for years outside 0 to 9999.
#[verifier::external_body]
pub(crate) fn format_rfc3339(t: OffsetDateTime) -> (r: Option<String>) {
    t.format(&Rfc3339).ok()
}

} // verus!
