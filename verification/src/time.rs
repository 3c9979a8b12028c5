//! Instants in UTC, as seconds and nanoseconds since the Unix epoch.
use crate::table::Row;
use crate::text::{blank, is_space, lemma_blank};
use vstd::prelude::*;

verus! {

/// The first second of the year -262143.
pub const MIN_SECONDS: i64 = -8334601228800;

/// The last second of the year 262142.
pub const MAX_SECONDS: i64 = 8210266876799;

/// An instant. Nanoseconds from one billion on stand for a leap second, which only the last
/// second of a minute can hold.
#[derive(Debug, Clone, Copy, PartialEq, Eq, Structural)]
pub struct Timestamp {
    seconds: i64,
    nanos: u32,
}

/// Whether seconds and nanoseconds are those of an instant.
pub open spec fn is_instant(seconds: int, nanos: int) -> bool {
    &&& MIN_SECONDS <= seconds <= MAX_SECONDS
    &&& 0 <= nanos < 2_000_000_000
    &&& nanos >= 1_000_000_000 ==> seconds % 60 == 59
}

impl DeepView for Timestamp {
    type V = Timestamp;

    open spec fn deep_view(&self) -> Timestamp {
        *self
    }
}

impl Row for Timestamp {
    fn dup(&self) -> (r: Self) {
        *self
    }

    fn same(&self, other: &Self) -> (r: bool) {
        *self == *other
    }
}

impl Timestamp {
    pub closed spec fn spec_seconds(self) -> int {
        self.seconds as int
    }

    pub closed spec fn spec_nanos(self) -> int {
        self.nanos as int
    }

    #[verifier::type_invariant]
    spec fn inv(self) -> bool {
        is_instant(self.seconds as int, self.nanos as int)
    }

    /// The instant of so many seconds and nanoseconds, where there is one.
    pub fn new(seconds: i64, nanos: u32) -> (r: Option<Timestamp>)
        ensures
            r is Some <==> is_instant(seconds as int, nanos as int),
            r matches Some(t) ==> t.spec_seconds() == seconds && t.spec_nanos() == nanos,
    {
        if seconds < MIN_SECONDS || seconds > MAX_SECONDS || nanos >= 2_000_000_000 {
            return None;
        }
        if nanos >= 1_000_000_000 {
            let of_minute: i64 = if seconds >= 0 {
                seconds % 60
            } else {
                59 - ((-1 - seconds) % 60)
            };
            if of_minute != 59 {
                return None;
            }
        }
        Some(Timestamp { seconds, nanos })
    }

    pub fn seconds(&self) -> (r: i64)
        ensures
            r == self.spec_seconds(),
    {
        self.seconds
    }

    pub fn nanos(&self) -> (r: u32)
        ensures
            r == self.spec_nanos(),
    {
        self.nanos
    }

    /// Earlier than another instant.
    pub open spec fn lt(self, other: Timestamp) -> bool {
        self.spec_seconds() < other.spec_seconds() || (self.spec_seconds() == other.spec_seconds()
            && self.spec_nanos() < other.spec_nanos())
    }

    pub fn earlier(&self, other: &Timestamp) -> (r: bool)
        ensures
            r == self.lt(*other),
    {
        self.seconds < other.seconds || (self.seconds == other.seconds && self.nanos < other.nanos)
    }

    /// Instants are ordered: of two different ones exactly one is earlier than the other, and an
    /// instant that is earlier than another is earlier than all that the other is earlier than.
    pub proof fn law_time_order(a: Timestamp, b: Timestamp, c: Timestamp)
        ensures
            !a.lt(a),
            a.lt(b) ==> !b.lt(a),
            a == b || a.lt(b) || b.lt(a),
            a.lt(b) && b.lt(c) ==> a.lt(c),
    {
    }

    /// An instant of an earlier second is earlier, and of two in one second the one with fewer
    /// nanoseconds.
    pub proof fn law_earlier_by_the_clock(a: Timestamp, b: Timestamp)
        ensures
            a.spec_seconds() < b.spec_seconds() ==> a.lt(b) && !b.lt(a),
            a.spec_seconds() == b.spec_seconds() ==> (a.lt(b) <==> a.spec_nanos() < b.spec_nanos()),
    {
    }

    /// The instant so many seconds later, unless that leaves the range of instants. A leap second
    /// is left behind by any step.
    pub closed spec fn plus_seconds(self, seconds: nat) -> Option<Timestamp> {
        if self.seconds + seconds > MAX_SECONDS {
            None
        } else {
            Some(
                Timestamp {
                    seconds: (self.seconds + seconds) as i64,
                    nanos: if self.nanos >= 1_000_000_000 && seconds > 0 {
                        (self.nanos - 1_000_000_000) as u32
                    } else {
                        self.nanos
                    },
                },
            )
        }
    }

    /// There is an instant so many seconds later where the range of instants holds one. It has the
    /// nanoseconds of this one, but that a leap second is left behind by any step.
    pub proof fn law_plus_seconds(self, seconds: nat)
        ensures
            self.plus_seconds(seconds) is Some <==> self.spec_seconds() + seconds <= MAX_SECONDS,
            self.plus_seconds(seconds) matches Some(later) ==> {
                &&& later.spec_seconds() == self.spec_seconds() + seconds
                &&& later.spec_nanos() == if self.spec_nanos() >= 1_000_000_000 && seconds > 0 {
                    self.spec_nanos() - 1_000_000_000
                } else {
                    self.spec_nanos()
                }
            },
    {
    }

    /// The instant so many seconds later, where there is one.
    pub fn checked_add_seconds(&self, seconds: u64) -> (r: Option<Timestamp>)
        ensures
            r == self.plus_seconds(seconds as nat),
    {
        proof {
            use_type_invariant(self);
        }
        if seconds > 16544868105599 {
            return None;
        }
        let sum: i64 = self.seconds + seconds as i64;
        if sum > MAX_SECONDS {
            return None;
        }
        let nanos: u32 = if self.nanos >= 1_000_000_000 && seconds > 0 {
            self.nanos - 1_000_000_000
        } else {
            self.nanos
        };
        Some(Timestamp { seconds: sum, nanos })
    }
}

/// How an instant is written.
pub uninterp spec fn rfc3339(seconds: int, nanos: int) -> Seq<char>;

/// Whether the year of an instant, in UTC, has at most four digits and no sign.
pub open spec fn four_digit_year(seconds: int) -> bool {
    -62167219200 <= seconds <= 253402300799
}

/// `chrono::DateTime::from_timestamp`, which gives an instant for the seconds and nanoseconds of
/// one, and `chrono::DateTime::to_rfc3339`, which writes it. The text depends on the two numbers
/// alone. From the year 0 to the year 9999 it begins with the digits of the year, and
/// `chrono::DateTime::parse_from_rfc3339` reads the same instant from it; the text of another year
/// begins with a sign, and nothing is said of reading it.
#[verifier::external_body]
fn format_rfc3339(seconds: i64, nanos: u32) -> (r: String)
    requires
        is_instant(seconds as int, nanos as int),
    ensures
        r@ == rfc3339(seconds as int, nanos as int),
        four_digit_year(seconds as int) ==> r@.len() > 0 && '0' <= r@[0] && r@[0] <= '9'
            && parsed_rfc3339(r@) == Some((seconds, nanos)),
{
    chrono::DateTime::from_timestamp(seconds, nanos).unwrap_or_default().to_rfc3339()
}

/// The seconds and nanoseconds of the instant that a text writes, if it writes one.
pub uninterp spec fn parsed_rfc3339(text: Seq<char>) -> Option<(i64, u32)>;

/// `chrono::DateTime::parse_from_rfc3339`: whether the text writes an instant, and which one,
/// depends on the text alone.
#[verifier::external_body]
fn parse_rfc3339(text: &str) -> (r: Option<(i64, u32)>)
    ensures
        r == parsed_rfc3339(text@),
{
    let parsed = chrono::DateTime::parse_from_rfc3339(text).ok()?;
    Some((parsed.timestamp(), parsed.timestamp_subsec_nanos()))
}

impl Timestamp {
    /// Whether what is written of the instant can be read back: its year has four digits.
    pub open spec fn writable(self) -> bool {
        four_digit_year(self.spec_seconds())
    }

    /// Whether the instant can be written so that it is read back.
    pub fn is_writable(&self) -> (r: bool)
        ensures
            r == self.writable(),
    {
        -62167219200 <= self.seconds && self.seconds <= 253402300799
    }

    pub open spec fn text(self) -> Seq<char> {
        rfc3339(self.spec_seconds(), self.spec_nanos())
    }

    /// Writes the instant. What is written of a year with four digits is read as the same instant.
    pub fn to_rfc3339(&self) -> (r: String)
        ensures
            r@ == self.text(),
            four_digit_year(self.spec_seconds()) ==> Self::of_text(r@) == Some(*self) && !blank(r@),
    {
        proof {
            use_type_invariant(self);
        }
        let r = format_rfc3339(self.seconds, self.nanos);
        proof {
            if four_digit_year(self.spec_seconds()) {
                lemma_blank(r@);
                assert(!is_space(r@[0]));
            }
        }
        r
    }

    /// The instant that a text writes.
    pub closed spec fn of_text(text: Seq<char>) -> Option<Timestamp> {
        match parsed_rfc3339(text) {
            Some((seconds, nanos)) => if is_instant(seconds as int, nanos as int) {
                Some(Timestamp { seconds, nanos })
            } else {
                None
            },
            None => None,
        }
    }

    /// Reads an instant.
    pub fn parse(text: &str) -> (r: Option<Timestamp>)
        ensures
            r == Self::of_text(text@),
    {
        match parse_rfc3339(text) {
            Some((seconds, nanos)) => Timestamp::new(seconds, nanos),
            None => None,
        }
    }
}

} // verus!
