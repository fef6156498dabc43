//! Instants and time spans. The calendar and the text form of an instant are those of
//! the `chrono` crate; this module holds an instant as seconds and nanoseconds.

use vstd::prelude::*;

verus! {

/// An instant as a number of seconds since 1970-01-01T00:00:00Z and of nanoseconds in it.
/// Nanoseconds from one billion on stand for a leap second.
pub type Instant = (int, int);

/// Whether `chrono` has a value for the instant: the years from -262143 to 262142, and a
/// leap second only at the end of a minute.
pub open spec fn valid_instant(i: Instant) -> bool {
    &&& -8334601228800 <= i.0 <= 8210266876799
    &&& 0 <= i.1 < 2_000_000_000
    &&& i.1 >= 1_000_000_000 ==> i.0 % 60 == 59
}

/// Whether the instant is one that the clock can show: not before 1970, and no leap second.
pub open spec fn clock_instant(i: Instant) -> bool {
    &&& valid_instant(i)
    &&& i.0 >= 0
    &&& i.1 < 1_000_000_000
}

/// Whether the instant lies in the years that RFC 3339 can write, 0000 to 9999.
pub open spec fn four_digit_year(i: Instant) -> bool {
    -62167219200 <= i.0 <= 253402300799
}

/// What `chrono::DateTime::parse_from_rfc3339` reads a text as, moved to UTC, or the text of its
/// error.
pub uninterp spec fn rfc3339_read(text: Seq<char>) -> Result<(int, int), Seq<char>>;

/// The instant that an RFC 3339 text stands for, if it is one.
pub open spec fn rfc3339_instant(text: Seq<char>) -> Option<Instant> {
    match rfc3339_read(text) {
        Ok(i) => Some(i),
        Err(_) => None,
    }
}

/// How `chrono::DateTime::<Utc>::to_rfc3339` writes an instant.
pub uninterp spec fn rfc3339_text(seconds: int, nanos: int) -> Seq<char>;

/// The nanoseconds from `earlier` to `later`. A leap second counts where the other time
/// lies on the far side of it within the day.
pub open spec fn elapsed_nanos(later: Instant, earlier: Instant) -> int {
    let l = later.0 % 86400;
    let e = earlier.0 % 86400;
    let leap: int = if l > e && earlier.1 >= 1_000_000_000 {
        1
    } else if l < e && later.1 >= 1_000_000_000 {
        -1
    } else {
        0
    };
    (later.0 - earlier.0 + leap) * 1_000_000_000 + (later.1 - earlier.1)
}

/// Division that drops the fraction, toward zero.
pub open spec fn quotient(a: int, b: int) -> int {
    if a >= 0 {
        a / b
    } else {
        -((-a) / b)
    }
}

/// An instant that `chrono` can represent.
#[derive(Clone, Copy, Debug, PartialEq, Eq, Structural)]
pub struct Timestamp {
    seconds: i64,
    nanos: u32,
}

impl View for Timestamp {
    type V = Instant;

    closed spec fn view(&self) -> Instant {
        (self.seconds as int, self.nanos as int)
    }
}

/// A number of seconds that no two instants are apart by.
pub const LONGEST_SPAN: i64 = 20_000_000_000_000;

/// What `chrono::OutOfRangeError` reads as.
pub const OUT_OF_RANGE: &'static str = "Source duration value is out of range for the target type";

/// A signed span of time: whole seconds toward zero and the rest, of the same sign.
#[derive(Clone, Copy, Debug, PartialEq, Eq, Structural)]
pub struct TimeDelta {
    seconds: i64,
    nanos: i32,
}

impl View for TimeDelta {
    type V = int;

    closed spec fn view(&self) -> int {
        self.seconds * 1_000_000_000 + self.nanos
    }
}

impl Timestamp {
    #[verifier::type_invariant]
    spec fn in_range(self) -> bool {
        valid_instant((self.seconds as int, self.nanos as int))
    }

    /// The instant at a number of seconds and nanoseconds after 1970-01-01T00:00:00Z, if
    /// `chrono` has a value for it.
    pub fn from_timestamp(seconds: i64, nanos: u32) -> (r: Option<Timestamp>)
        ensures
            match r {
                Some(t) => valid_instant((seconds as int, nanos as int)) && t@ == (
                    seconds as int,
                    nanos as int,
                ),
                None => !valid_instant((seconds as int, nanos as int)),
            },
    {
        if seconds < -8334601228800 || seconds > 8210266876799 || nanos >= 2_000_000_000 {
            return None;
        }
        if nanos >= 1_000_000_000 {
            // The range starts on a full minute, so the shift keeps the second of the minute.
            let shifted: u64 = (seconds + 8334601228800) as u64;
            if shifted % 60 != 59 {
                return None;
            }
        }
        Some(Timestamp { seconds, nanos })
    }

    /// The whole seconds since 1970-01-01T00:00:00Z.
    pub fn seconds(&self) -> (r: i64)
        ensures
            r == self@.0,
            valid_instant(self@),
    {
        proof {
            use_type_invariant(self);
        }
        self.seconds
    }

    /// The nanoseconds after the whole second.
    pub fn nanos(&self) -> (r: u32)
        ensures
            r == self@.1,
            valid_instant(self@),
    {
        proof {
            use_type_invariant(self);
        }
        self.nanos
    }

    /// The current time.
    pub fn now() -> (r: Timestamp)
        ensures
            clock_instant(r@),
    {
        let (seconds, nanos) = utc_now();
        Timestamp { seconds, nanos }
    }

    /// Reads an RFC 3339 date and time, or tells in words why it is none.
    pub fn parse_from_rfc3339(text: &str) -> (r: Result<Timestamp, String>)
        ensures
            match r {
                Ok(t) => rfc3339_instant(text@) == Some(t@) && valid_instant(t@),
                Err(e) => rfc3339_read(text@) == Err::<Instant, Seq<char>>(e@),
            },
    {
        match chrono_parse(text) {
            Ok((seconds, nanos)) => Ok(Timestamp { seconds, nanos }),
            Err(e) => Err(e),
        }
    }

    /// The RFC 3339 text of the instant, with the offset `+00:00`.
    pub fn to_rfc3339(&self) -> (r: String)
        ensures
            r@ == rfc3339_text(self@.0, self@.1),
            four_digit_year(self@) ==> rfc3339_instant(r@) == Some(self@),
    {
        proof {
            use_type_invariant(self);
        }
        chrono_text(self.seconds, self.nanos)
    }

    /// The time from `earlier` to this instant.
    pub fn since(&self, earlier: &Timestamp) -> (r: TimeDelta)
        ensures
            r@ == elapsed_nanos(self@, earlier@),
    {
        proof {
            use_type_invariant(self);
            use_type_invariant(earlier);
        }
        let (seconds, nanos) = chrono_elapsed(
            self.seconds,
            self.nanos,
            earlier.seconds,
            earlier.nanos,
        );
        TimeDelta { seconds, nanos }
    }
}

impl TimeDelta {
    #[verifier::type_invariant]
    spec fn in_range(self) -> bool {
        &&& -1_000_000_000 < self.nanos < 1_000_000_000
        &&& self.seconds > 0 ==> self.nanos >= 0
        &&& self.seconds < 0 ==> self.nanos <= 0
        &&& -LONGEST_SPAN <= self.seconds <= LONGEST_SPAN
    }

    /// The whole seconds of the span, toward zero.
    pub fn num_seconds(&self) -> (r: i64)
        ensures
            r == quotient(self@, 1_000_000_000),
    {
        proof {
            use_type_invariant(self);
        }
        self.seconds
    }

    /// The whole minutes of the span, toward zero.
    pub fn num_minutes(&self) -> (r: i64)
        ensures
            r == quotient(self@, 60_000_000_000),
    {
        proof {
            use_type_invariant(self);
        }
        let s: i64 = self.seconds;
        if s >= 0 {
            s / 60
        } else {
            -((-s) / 60)
        }
    }

    /// The span as whole seconds and nanoseconds, unless it is negative.
    pub fn to_std(&self) -> (r: Result<(u64, u32), String>)
        ensures
            match r {
                Ok((s, n)) => self@ >= 0 && s * 1_000_000_000 + n == self@ && n < 1_000_000_000,
                Err(e) => self@ < 0 && e@ == OUT_OF_RANGE@,
            },
    {
        proof {
            use_type_invariant(self);
        }
        chrono_to_std(self.seconds, self.nanos)
    }
}

/// Calls `chrono::TimeDelta::to_std` on the span of some seconds and nanoseconds, both of one
/// sign, and takes the seconds and nanoseconds of the result. It refuses a negative span only,
/// with an error that always reads the same.
#[verifier::external_body]
fn chrono_to_std(seconds: i64, nanos: i32) -> (r: Result<(u64, u32), String>)
    requires
        -LONGEST_SPAN <= seconds <= LONGEST_SPAN,
        -1_000_000_000 < nanos < 1_000_000_000,
        seconds > 0 ==> nanos >= 0,
        seconds < 0 ==> nanos <= 0,
    ensures
        match r {
            Ok((s, n)) => {
                &&& seconds >= 0 && nanos >= 0
                &&& s == seconds
                &&& n == nanos
            },
            Err(e) => (seconds < 0 || nanos < 0) && e@ == OUT_OF_RANGE@,
        },
{
    let span = chrono::TimeDelta::seconds(seconds) + chrono::TimeDelta::nanoseconds(nanos as i64);
    match span.to_std() {
        Ok(d) => Ok((d.as_secs(), d.subsec_nanos())),
        Err(e) => Err(e.to_string()),
    }
}

/// Calls `chrono::Utc::now` and takes the seconds and nanoseconds of the result. It reads the
/// system clock as the time that has passed since 1970, and panics where the clock
/// shows an earlier time, so the seconds are not negative; the nanoseconds are those within a
/// second. Which time it is, and that it goes on from call to call, is left unsaid: it rests on
/// the clock.
#[verifier::external_body]
fn utc_now() -> (r: (i64, u32))
    ensures
        clock_instant((r.0 as int, r.1 as int)),
{
    let now = chrono::Utc::now();
    (now.timestamp(), now.timestamp_subsec_nanos())
}

/// Calls `chrono::DateTime::parse_from_rfc3339`, moves the result to UTC and takes its
/// seconds and nanoseconds, or the text of the error; `rfc3339_read` names both.
#[verifier::external_body]
fn chrono_parse(text: &str) -> (r: Result<(i64, u32), String>)
    ensures
        match r {
            Ok(p) => {
                &&& rfc3339_read(text@) == Ok::<Instant, Seq<char>>((p.0 as int, p.1 as int))
                &&& valid_instant((p.0 as int, p.1 as int))
            },
            Err(e) => rfc3339_read(text@) == Err::<Instant, Seq<char>>(e@),
        },
{
    match chrono::DateTime::parse_from_rfc3339(text) {
        Ok(t) => Ok((t.timestamp(), t.timestamp_subsec_nanos())),
        Err(e) => Err(e.to_string()),
    }
}

/// Calls `chrono::DateTime::<Utc>::to_rfc3339`, whose result `rfc3339_text` names. A year of
/// four digits is written without a sign and the fraction of the second in full, so
/// `parse_from_rfc3339` reads such a text back as the same instant; it does not read any
/// other year.
#[verifier::external_body]
fn chrono_text(seconds: i64, nanos: u32) -> (r: String)
    requires
        valid_instant((seconds as int, nanos as int)),
    ensures
        r@ == rfc3339_text(seconds as int, nanos as int),
        four_digit_year((seconds as int, nanos as int)) ==> rfc3339_instant(r@) == Some(
            (seconds as int, nanos as int),
        ),
{
    chrono::DateTime::from_timestamp(seconds, nanos).unwrap().to_rfc3339()
}

/// Calls `chrono::DateTime::signed_duration_since` and takes the whole seconds and the
/// nanoseconds of the span, both toward zero, so both have its sign.
#[verifier::external_body]
fn chrono_elapsed(seconds: i64, nanos: u32, from_seconds: i64, from_nanos: u32) -> (r: (i64, i32))
    requires
        valid_instant((seconds as int, nanos as int)),
        valid_instant((from_seconds as int, from_nanos as int)),
    ensures
        r.0 * 1_000_000_000 + r.1 == elapsed_nanos(
            (seconds as int, nanos as int),
            (from_seconds as int, from_nanos as int),
        ),
        -1_000_000_000 < r.1 < 1_000_000_000,
        r.0 > 0 ==> r.1 >= 0,
        r.0 < 0 ==> r.1 <= 0,
{
    let later = chrono::DateTime::from_timestamp(seconds, nanos).unwrap();
    let earlier = chrono::DateTime::from_timestamp(from_seconds, from_nanos).unwrap();
    let span = later.signed_duration_since(earlier);
    (span.num_seconds(), span.subsec_nanos())
}

/// Without leap seconds the time that elapsed is the difference of the instants.
pub proof fn elapsed_without_leap_seconds(later: Instant, earlier: Instant)
    requires
        valid_instant(later),
        valid_instant(earlier),
        later.1 < 1_000_000_000,
        earlier.1 < 1_000_000_000,
    ensures
        elapsed_nanos(later, earlier) == (later.0 * 1_000_000_000 + later.1) - (earlier.0
            * 1_000_000_000 + earlier.1),
{
}

} // verus!
