//! Instants.
use vstd::prelude::*;

verus! {

/// An instant: whole seconds since the Unix epoch, and nanoseconds on top.
#[derive(Clone, Copy, Debug, PartialEq, Eq, Structural)]
pub struct Timestamp {
    pub secs: i64,
    pub nanos: u32,
}

impl Timestamp {
    /// The nanoseconds since the Unix epoch.
    pub open spec fn total(self) -> int {
        self.secs * 1_000_000_000 + self.nanos
    }

    /// Whether `self` is earlier than `other`.
    pub open spec fn before(self, other: Timestamp) -> bool {
        self.secs < other.secs || (self.secs == other.secs && self.nanos < other.nanos)
    }

    /// Whether `self` is earlier than `other`.
    pub fn is_before(&self, other: &Timestamp) -> (r: bool)
        ensures
            r == self.before(*other),
    {
        self.secs < other.secs || (self.secs == other.secs && self.nanos < other.nanos)
    }
}

/// The whole milliseconds in a span of nanoseconds; what is left over is dropped,
/// on either side of zero.
pub open spec fn whole_millis(nanos: int) -> int {
    if nanos >= 0 {
        nanos / 1_000_000
    } else {
        -((-nanos) / 1_000_000)
    }
}

/// The whole milliseconds from `since` to `now`.
pub fn elapsed_millis(now: &Timestamp, since: &Timestamp) -> (r: i128)
    ensures
        r == whole_millis(now.total() - since.total()),
{
    let d: i128 = (now.secs as i128 - since.secs as i128) * 1_000_000_000 + (now.nanos as i128
        - since.nanos as i128);
    if d >= 0 {
        d / 1_000_000
    } else {
        -((-d) / 1_000_000)
    }
}

// ---------------------------------------------------------------------------
// What chrono computes
// ---------------------------------------------------------------------------

/// The last second that `chrono` can represent.
pub const LAST_SECOND: i64 = 8_210_266_876_799;

/// The instant that a text in the form of RFC 3339 names, as seconds and
/// nanoseconds.
pub uninterp spec fn rfc3339(s: Seq<char>) -> Option<(i64, u32)>;

/// The instant that a text names.
pub open spec fn instant_of(s: Seq<char>) -> Option<Timestamp> {
    match rfc3339(s) {
        Some((secs, nanos)) => Some(Timestamp { secs, nanos }),
        None => None,
    }
}

/// `chrono::DateTime::parse_from_rfc3339`, brought to UTC. The result depends on the
/// text alone, and is nothing where the text names no instant. Which texts name
/// which instants is left open.
#[verifier::external_body]
pub(crate) fn parse_rfc3339(s: &str) -> (r: Option<Timestamp>)
    ensures
        rfc3339(s@) == match r {
            Some(t) => Some((t.secs, t.nanos)),
            None => None,
        },
{
    let parsed = chrono::DateTime::parse_from_rfc3339(s).ok();
    parsed.map(|d| d.with_timezone(&chrono::Utc)).map(
        |d| Timestamp { secs: d.timestamp(), nanos: d.timestamp_subsec_nanos() },
    )
}

/// `chrono::Utc::now`. The instant is not before the Unix epoch, where the call
/// would panic, and `chrono` can represent it.
#[verifier::external_body]
pub(crate) fn utc_now() -> (r: Timestamp)
    ensures
        0 <= r.secs <= LAST_SECOND,
        r.nanos < 1_000_000_000,
{
    let now = chrono::Utc::now();
    Timestamp { secs: now.timestamp(), nanos: now.timestamp_subsec_nanos() }
}

/// A second, written in a format.
pub uninterp spec fn stamp_of(secs: i64, format: Seq<char>) -> Seq<char>;

/// Whether a format writes only text, years, months, days, hours, minutes and
/// seconds.
pub open spec fn plain_format(format: Seq<char>) -> bool {
    forall|i: int|
        0 <= i < format.len() && #[trigger] format[i] == '%' ==> i + 1 < format.len() && {
            let c = format[i + 1];
            c == 'Y' || c == 'm' || c == 'd' || c == 'H' || c == 'M' || c == 'S'
        }
}

/// The characters that years, months, days, hours, minutes and seconds are written
/// with: digits, and a sign before a year of more than four digits.
pub open spec fn stamp_char(c: char) -> bool {
    crate::text::digit(c) || c == '+'
}

/// `chrono::DateTime::format`, in UTC, with a format in which each percent sign stands
/// before one of six letters: the call panics on formats that `chrono` does not know.
/// The result depends on the second and the format alone, and is made of characters
/// of the format, digits and perhaps a sign. Which day a second falls on is left open.
#[verifier::external_body]
pub(crate) fn format_stamp(secs: i64, format: &str) -> (r: String)
    requires
        0 <= secs <= LAST_SECOND,
        plain_format(format@),
    ensures
        r@ == stamp_of(secs, format@),
        forall|i: int|
            0 <= i < r@.len() ==> stamp_char(#[trigger] r@[i]) || format@.contains(r@[i]),
{
    let instant = chrono::DateTime::<chrono::Utc>::from_timestamp(secs, 0).unwrap();
    instant.format(format).to_string()
}

/// An instant is before another exactly where fewer nanoseconds have passed at it.
pub proof fn earlier_instants_come_before(a: Timestamp, b: Timestamp)
    requires
        a.nanos < 1_000_000_000,
        b.nanos < 1_000_000_000,
    ensures
        a.before(b) <==> a.secs * 1_000_000_000 + a.nanos < b.secs * 1_000_000_000 + b.nanos,
        a.total() == a.secs * 1_000_000_000 + a.nanos,
{
}

/// A millisecond counts once it is over, before an instant as after it.
pub proof fn whole_milliseconds_are_counted(nanos: nat)
    ensures
        whole_millis(nanos as int) * 1_000_000 <= nanos,
        nanos < (whole_millis(nanos as int) + 1) * 1_000_000,
        whole_millis(-(nanos as int)) == -whole_millis(nanos as int),
{
}

/// An instant is what its text names, to the nanosecond.
pub proof fn instants_are_taken_to_the_nanosecond(s: Seq<char>)
    ensures
        rfc3339(s) is None ==> instant_of(s) is None,
        rfc3339(s) matches Some((secs, nanos)) ==> instant_of(s) == Some(Timestamp { secs, nanos }),
{
}

} // verus!
