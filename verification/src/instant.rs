//! Instants: microseconds since the Unix epoch, within the range that a
//! `chrono::DateTime<Utc>` can hold.
use vstd::prelude::*;

verus! {

/// The latest representable instant, 262143-12-31T23:59:59.999999Z.
pub const MAX_INSTANT: i64 = 8_210_298_412_799_999_999i64;

/// The earliest representable instant, -262144-01-01T00:00:00Z.
pub const MIN_INSTANT: i64 = -8_334_632_937_600_000_000i64;

/// Microseconds in one second.
pub const MICROS_PER_SECOND: i64 = 1_000_000i64;

/// A value in the representable range of instants.
pub open spec fn is_instant(t: int) -> bool {
    MIN_INSTANT <= t <= MAX_INSTANT
}

/// The instant that an RFC 3339 timestamp denotes, truncated to
/// microseconds; `None` where the text is not RFC 3339.
pub uninterp spec fn rfc3339_instant(s: Seq<char>) -> Option<int>;

#[verifier::external_type_specification]
#[verifier::external_body]
pub struct ExSystemTime(std::time::SystemTime);

/// Reads the system clock (`std::time::SystemTime::now`). Nothing is claimed
/// of the reading: it is whatever the machine's clock says.
#[verifier::external_body]
fn system_now() -> (t: std::time::SystemTime) {
    std::time::SystemTime::now()
}

/// The time elapsed from the Unix epoch to `t`
/// (`SystemTime::duration_since(UNIX_EPOCH)`), `None` when `t` is before the
/// epoch. Nothing is claimed of the value: it rests on the clock reading.
#[verifier::external_body]
fn since_epoch(t: &std::time::SystemTime) -> (r: Option<std::time::Duration>) {
    t.duration_since(std::time::UNIX_EPOCH).ok()
}

/// The whole microseconds of a duration (`Duration::as_micros`).
#[verifier::external_body]
fn duration_micros(d: &std::time::Duration) -> (r: u128) {
    d.as_micros()
}

/// The current instant, when the system clock reads one at or after the Unix
/// epoch and within the representable range; `None` otherwise.
pub(crate) fn clock_now() -> (t: Option<i64>)
    ensures
        t matches Some(v) ==> 0 <= v <= MAX_INSTANT,
{
    let now = system_now();
    match since_epoch(&now) {
        Some(d) => {
            let micros = duration_micros(&d);
            if micros <= MAX_INSTANT as u128 {
                Some(micros as i64)
            } else {
                None
            }
        },
        None => None,
    }
}

/// Parses an RFC 3339 timestamp (`chrono::DateTime::parse_from_rfc3339`) and
/// returns its instant in microseconds. Claims that the result is a function
/// of the text and that a parsed value is representable.
#[verifier::external_body]
pub(crate) fn parse_rfc3339(s: &str) -> (r: Option<i64>)
    ensures
        r matches Some(t) ==> rfc3339_instant(s@) == Some(t as int) && is_instant(t as int),
        r is None ==> rfc3339_instant(s@) is None,
{
    chrono::DateTime::parse_from_rfc3339(s).ok().map(|d| d.timestamp_micros())
}

} // verus!
