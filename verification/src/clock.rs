//! UTC instants as plain epoch seconds, and their RFC 3339 rendering.
//!
//! An instant is carried through the library as a count of non-leap seconds
//! since the Unix epoch. Reading the clock and rendering an instant as an
//! RFC 3339 string are done by `chrono`, behind the two trusted wrappers
//! below; everything that decides anything works on the plain seconds.

use vstd::prelude::*;

verus! {

/// The RFC 3339 UTC rendering, at seconds precision with a `Z` suffix, of
/// the instant `secs` seconds after the Unix epoch. The rendering depends
/// on the instant alone; it is pinned down only by the trusted wrapper
/// `rfc3339_utc` below.
pub uninterp spec fn rfc3339_of(secs: int) -> Seq<char>;

/// Instants representable as a `chrono` UTC datetime: roughly years
/// -262143 through 262142. `chrono::DateTime::from_timestamp` returns
/// `Some` exactly on this range.
pub open spec fn valid_epoch_secs(s: int) -> bool {
    -8_334_601_315_200 <= s <= 8_210_266_876_799
}

/// Relies on `chrono::Utc::now`: it reads the system clock, panics when the
/// clock is before the Unix epoch, and otherwise builds its result with
/// `DateTime::from_timestamp`, so the returned count of seconds (taken with
/// `DateTime::timestamp`) is non-negative and within the representable
/// range.
#[verifier::external_body]
pub(crate) fn now_epoch_secs() -> (r: i64)
    ensures
        0 <= r,
        valid_epoch_secs(r as int),
{
    chrono::Utc::now().timestamp()
}

/// Relies on `chrono::DateTime::from_timestamp` (which returns `Some` on
/// every instant in the representable range) and
/// `chrono::DateTime::to_rfc3339_opts` with `SecondsFormat::Secs` and a `Z`
/// suffix, whose result depends on the instant alone.
#[verifier::external_body]
pub(crate) fn rfc3339_utc(secs: i64) -> (r: String)
    requires
        valid_epoch_secs(secs as int),
    ensures
        r@ == rfc3339_of(secs as int),
{
    match chrono::DateTime::<chrono::Utc>::from_timestamp(secs, 0) {
        Some(t) => t.to_rfc3339_opts(chrono::SecondsFormat::Secs, true),
        None => String::new(),
    }
}

} // verus!
