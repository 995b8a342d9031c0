//! Instants of UTC, and their text in a document. The calendar is `chrono`'s.

use vstd::prelude::*;

verus! {

/// An instant of UTC: whole seconds since 1970-01-01T00:00:00Z, and the
/// nanoseconds into the second.
#[derive(Debug, Clone, Copy, PartialEq, Eq, Structural)]
pub struct Timestamp {
    pub seconds: i64,
    pub nanos: u32,
}

/// The text that `chrono` writes for an instant, to the second and with a
/// closing `Z`, or `None` where `chrono` has no date for the instant.
pub uninterp spec fn timestamp_text(seconds: i64, nanos: u32) -> Option<Seq<char>>;

/// The instant that `chrono` reads from a text, as seconds and nanoseconds, or
/// `None` where it refuses the text.
pub uninterp spec fn timestamp_reading(text: Seq<char>) -> Option<(i64, u32)>;

/// Writes an instant as text.
///
/// Trusted: the body makes the instant with `chrono::DateTime::from_timestamp`,
/// which returns `None` outside the dates that `chrono` can hold, and writes
/// it with `to_rfc3339_opts`, asked for whole seconds and a closing `Z`. The
/// contract gives the outcome the name `timestamp_text`.
#[verifier::external_body]
pub(crate) fn write_instant(seconds: i64, nanos: u32) -> (written: Option<String>)
    ensures
        match written {
            Some(text) => timestamp_text(seconds, nanos) == Some(text@),
            None => timestamp_text(seconds, nanos) is None,
        },
{
    chrono::DateTime::from_timestamp(seconds, nanos).map(
        |instant| instant.to_rfc3339_opts(chrono::SecondsFormat::Secs, true),
    )
}

/// Reads an instant from text.
///
/// Trusted: the body parses the text as a `chrono::DateTime<Utc>` (`FromStr`),
/// which reads RFC 3339 with any offset and moves the instant to UTC, and
/// takes the instant's `timestamp` and `timestamp_subsec_nanos`. The contract
/// gives the outcome the name `timestamp_reading`.
#[verifier::external_body]
pub(crate) fn read_instant(text: &str) -> (read: Option<(i64, u32)>)
    ensures
        read == timestamp_reading(text@),
{
    text.parse::<chrono::DateTime<chrono::Utc>>().ok().map(
        |instant| (instant.timestamp(), instant.timestamp_subsec_nanos()),
    )
}

/// The instant at which it is called.
///
/// Trusted: this is `chrono::Utc::now`, with the instant's `timestamp` and
/// `timestamp_subsec_nanos`. Which instant comes back is the clock's matter.
/// `chrono` makes it with `DateTime::from_timestamp`, from seconds and
/// nanoseconds that the two getters give back: so the calendar has a date for
/// it, which is all that the contract claims. Where the clock of the machine
/// stands before 1970, `chrono` panics.
#[verifier::external_body]
pub(crate) fn current_instant() -> (now: (i64, u32))
    ensures
        timestamp_text(now.0, now.1) is Some,
{
    let instant = chrono::Utc::now();
    (instant.timestamp(), instant.timestamp_subsec_nanos())
}

impl Timestamp {
    /// The text of this instant in a document, where it has one.
    pub open spec fn text(self) -> Option<Seq<char>> {
        timestamp_text(self.seconds, self.nanos)
    }

    /// The instant that a text of a document stands for, where it stands for
    /// one.
    pub open spec fn reading(text: Seq<char>) -> Option<Timestamp> {
        match timestamp_reading(text) {
            Some((seconds, nanos)) => Some(Timestamp { seconds, nanos }),
            None => None,
        }
    }

    /// Whether the text of this instant is read back as this instant. It is
    /// not where the instant has a fraction of a second, which the text leaves
    /// out.
    pub open spec fn survives_text(self) -> bool {
        match self.text() {
            Some(text) => Self::reading(text) == Some(self),
            None => false,
        }
    }

    /// The instant `seconds` and `nanos` after the beginning of 1970, UTC.
    pub fn new(seconds: i64, nanos: u32) -> (instant: Timestamp)
        ensures
            instant == (Timestamp { seconds, nanos }),
    {
        Timestamp { seconds, nanos }
    }

    /// The present instant, as the clock of the machine gives it. Whatever
    /// the clock says, the instant has a text in a document.
    pub fn now() -> (instant: Timestamp)
        ensures
            instant.text() is Some,
    {
        let (seconds, nanos) = current_instant();
        Timestamp { seconds, nanos }
    }

    /// Reads an instant from its text in a document: RFC 3339, with `T` or a
    /// space before the time and any offset.
    pub fn parse(text: &str) -> (read: Option<Timestamp>)
        ensures
            read == Self::reading(text@),
    {
        match read_instant(text) {
            Some((seconds, nanos)) => Some(Timestamp { seconds, nanos }),
            None => None,
        }
    }

    /// Writes this instant as it stands in a document: ISO 8601 in UTC, to
    /// the second, closed by `Z`. `None` where the calendar has no date for
    /// the instant.
    pub fn to_rfc3339(&self) -> (written: Option<String>)
        ensures
            match written {
                Some(text) => self.text() == Some(text@),
                None => self.text() is None,
            },
    {
        write_instant(self.seconds, self.nanos)
    }

    /// Whether this instant, written and read again, is this instant.
    pub fn is_kept_by_text(&self) -> (kept: bool)
        ensures
            kept == self.survives_text(),
    {
        match self.to_rfc3339() {
            Some(text) => match Self::parse(text.as_str()) {
                Some(read) => read.seconds == self.seconds && read.nanos == self.nanos,
                None => false,
            },
            None => false,
        }
    }
}

} // verus!
