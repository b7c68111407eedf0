//! Instants in time, their parsing from RFC 3339 text, and instance age.
use vstd::prelude::*;

verus! {

/// Nanoseconds in one second.
pub const NANOS_PER_SEC: i128 = 1_000_000_000;

/// Minimum age, in nanoseconds, before an instance may be collected (five minutes).
pub const GRACE_NANOS: i128 = 300_000_000_000;

/// An instant as whole seconds since the Unix epoch and a nanosecond part.
#[derive(Clone, Copy, Debug, PartialEq, Eq)]
pub struct Timestamp {
    pub secs: i64,
    pub nanos: u32,
}

impl Timestamp {
    /// The instant as nanoseconds since the Unix epoch.
    pub open spec fn total_nanos(self) -> int {
        self.secs as int * 1_000_000_000 + self.nanos as int
    }
}

/// What `chrono::DateTime::parse_from_rfc3339` makes of a text, as
/// (seconds since the epoch, nanosecond part), or `None` where it refuses it.
pub uninterp spec fn rfc3339_instant(s: Seq<char>) -> Option<(int, int)>;

#[verifier::external_type_specification]
#[verifier::external_body]
pub struct ExParseError(chrono::ParseError);

/// Relies on chrono::DateTime::parse_from_rfc3339 (with `timestamp` and
/// `timestamp_subsec_nanos` on its result): the instant a text names.
#[verifier::external_body]
fn parse_rfc3339(s: &str) -> (r: Result<Timestamp, chrono::ParseError>)
    ensures
        match r {
            Ok(t) => rfc3339_instant(s@) == Some((t.secs as int, t.nanos as int)),
            Err(_) => rfc3339_instant(s@) is None,
        },
{
    chrono::DateTime::parse_from_rfc3339(s).map(
        |t| Timestamp { secs: t.timestamp(), nanos: t.timestamp_subsec_nanos() },
    )
}

/// Relies on chrono::Utc::now: the current instant, of which nothing is known.
#[verifier::external_body]
pub(crate) fn utc_now() -> (r: Timestamp) {
    let t = chrono::Utc::now();
    Timestamp { secs: t.timestamp(), nanos: t.timestamp_subsec_nanos() }
}

/// The instant that `s` names, in nanoseconds since the epoch.
pub open spec fn parsed_nanos(s: Seq<char>) -> Option<int> {
    match rfc3339_instant(s) {
        Some((secs, nanos)) => Some(secs * 1_000_000_000 + nanos),
        None => None,
    }
}

/// Parses an RFC 3339 text into a timestamp; `None` where the text is malformed.
pub fn parse_timestamp(s: &str) -> (r: Option<Timestamp>)
    ensures
        match r {
            Some(t) => parsed_nanos(s@) == Some(t.total_nanos()),
            None => parsed_nanos(s@) is None,
        },
{
    match parse_rfc3339(s) {
        Ok(t) => Some(t),
        Err(_) => None,
    }
}

/// Whether an instance created at `created` is still inside the grace period at `now`.
pub open spec fn within_grace(created: int, now: int) -> bool {
    now - created < GRACE_NANOS
}

/// Whether the time from `created` to `now` is less than the grace period.
pub fn is_within_grace(created: Timestamp, now: Timestamp) -> (r: bool)
    ensures
        r == within_grace(created.total_nanos(), now.total_nanos()),
{
    let ds: i128 = now.secs as i128 - created.secs as i128;
    let dn: i128 = now.nanos as i128 - created.nanos as i128;
    assert(-0x1_0000_0000_0000_0000 <= ds <= 0x1_0000_0000_0000_0000);
    assert(-0x1_0000_0000_0000_0000 * 1_000_000_000 <= ds * 1_000_000_000
        <= 0x1_0000_0000_0000_0000 * 1_000_000_000) by (nonlinear_arith)
        requires
            -0x1_0000_0000_0000_0000 <= ds <= 0x1_0000_0000_0000_0000,
    ;
    let age: i128 = ds * NANOS_PER_SEC + dn;
    assert(age == now.total_nanos() - created.total_nanos()) by (nonlinear_arith)
        requires
            ds == now.secs - created.secs,
            dn == now.nanos - created.nanos,
            age == ds * 1_000_000_000 + dn,
    ;
    age < GRACE_NANOS
}

} // verus!
