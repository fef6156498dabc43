//! When updates may run: cron expressions and update time windows.

use vstd::prelude::*;
use vstd::string::*;

use super::scheduler_error::Error;
use crate::models::meta::text_option;
use crate::text::{
    all_digits, concat5, decimal, digits_value, is_digit, parse_unsigned, parsed_unsigned, u64_text,
    unsigned_digits,
};
use crate::time::{
    clock_instant, elapsed_nanos, quotient, valid_instant, Instant, TimeDelta, Timestamp,
    OUT_OF_RANGE,
};

verus! {

/// The schedule without any setting: every second.
pub const SCHEDULER_DEFAULT: &'static str = "* * * * * * *";

/// What is said where only one end of an update time window is set.
pub const MISSING_WINDOW_END: &'static str = "missing update time start variable or update time start variable, please provide both of them.";

/// What the error of `cron::Schedule::from_str` reads as.
pub const INVALID_EXPRESSION: &'static str = "Invalid expression: Invalid cron expression.";

/// Whether `cron::Schedule::from_str` accepts an expression.
pub uninterp spec fn cron_accepts(expression: Seq<char>) -> bool;

/// The first point of a schedule after an instant, as `cron::Schedule::after` gives it.
pub uninterp spec fn cron_next(expression: Seq<char>, seconds: int, nanos: int) -> Option<
    (int, int),
>;

/// Whether an instant is a point of a schedule, by `cron::Schedule::includes`.
pub uninterp spec fn cron_includes(expression: Seq<char>, seconds: int, nanos: int) -> bool;

/// The last second that `chrono` can represent.
pub const LAST_SECOND: i64 = 8210266876799;

/// Calls `cron::Schedule::from_str` and tells whether it accepts the expression. Its error
/// always reads the same.
#[verifier::external_body]
fn cron_parse(expression: &str) -> (r: Result<(), String>)
    ensures
        r is Ok <==> cron_accepts(expression@),
        r is Err ==> r->Err_0@ == INVALID_EXPRESSION@,
{
    match <cron::Schedule as std::str::FromStr>::from_str(expression) {
        Ok(_) => Ok(()),
        Err(e) => Err(e.to_string()),
    }
}

/// Takes the first item of `cron::Schedule::after`, which `cron_next` names, as seconds and
/// nanoseconds. The search starts one second after the given instant, so that instant must not
/// be the last one.
#[verifier::external_body]
fn cron_after(expression: &str, seconds: i64, nanos: u32) -> (r: Option<(i64, u32)>)
    requires
        cron_accepts(expression@),
        valid_instant((seconds as int, nanos as int)),
        seconds < LAST_SECOND,
    ensures
        match r {
            Some(p) => {
                &&& cron_next(expression@, seconds as int, nanos as int) == Some(
                    (p.0 as int, p.1 as int),
                )
                &&& valid_instant((p.0 as int, p.1 as int))
            },
            None => cron_next(expression@, seconds as int, nanos as int) is None,
        },
{
    let schedule = <cron::Schedule as std::str::FromStr>::from_str(expression).unwrap();
    let from = chrono::DateTime::from_timestamp(seconds, nanos).unwrap();
    let next = schedule.after(&from).next();
    next.map(|t| (t.timestamp(), t.timestamp_subsec_nanos()))
}

/// Calls `cron::Schedule::includes`, whose result `cron_includes` names.
#[verifier::external_body]
fn cron_contains(expression: &str, seconds: i64, nanos: u32) -> (r: bool)
    requires
        cron_accepts(expression@),
        valid_instant((seconds as int, nanos as int)),
    ensures
        r == cron_includes(expression@, seconds as int, nanos as int),
{
    let schedule = <cron::Schedule as std::str::FromStr>::from_str(expression).unwrap();
    schedule.includes(chrono::DateTime::from_timestamp(seconds, nanos).unwrap())
}

/// The first point of a schedule after an instant. After the last second there is none.
pub open spec fn next_point(expression: Seq<char>, from: Instant) -> Option<Instant> {
    if from.0 >= LAST_SECOND {
        None
    } else {
        cron_next(expression, from.0, from.1)
    }
}

/// The second point of a schedule after an instant.
pub open spec fn second_point(expression: Seq<char>, from: Instant) -> Option<Instant> {
    match next_point(expression, from) {
        Some(p) => next_point(expression, p),
        None => None,
    }
}

/// The type of a schedule whose points are some nanoseconds apart: points that are a second
/// apart make a window.
pub open spec fn type_of_gap(nanos: int) -> ScheduleType {
    if quotient(nanos, 1_000_000_000) == 1 {
        ScheduleType::Windowed
    } else {
        ScheduleType::Oneshot
    }
}

/// The type of a schedule, seen from an instant. Without two further points there is none.
pub open spec fn schedule_type_seen_from(expression: Seq<char>, from: Instant) -> Option<
    ScheduleType,
> {
    match (next_point(expression, from), second_point(expression, from)) {
        (Some(first), Some(second)) => Some(type_of_gap(elapsed_nanos(second, first))),
        _ => None,
    }
}

/// One or two digits for an hour, 0 to 23.
pub open spec fn is_hour(h: Seq<char>) -> bool {
    ||| h.len() == 2 && h[0] == '2' && '0' <= h[1] <= '3'
    ||| h.len() == 2 && (h[0] == '0' || h[0] == '1') && is_digit(h[1])
    ||| h.len() == 1 && is_digit(h[0])
}

/// One or two digits for a minute or a second, 0 to 59.
pub open spec fn is_sixtieth(m: Seq<char>) -> bool {
    ||| m.len() == 2 && '0' <= m[0] <= '5' && is_digit(m[1])
    ||| m.len() == 1 && is_digit(m[0])
}

/// Whether a time is an hour, a minute and a second with colons at `a` and `b` between them.
pub open spec fn is_time_split_at(t: Seq<char>, a: int, b: int) -> bool {
    &&& 0 <= a < b < t.len()
    &&& t[a] == ':'
    &&& t[b] == ':'
    &&& is_hour(t.subrange(0, a))
    &&& is_sixtieth(t.subrange(a + 1, b))
    &&& is_sixtieth(t.subrange(b + 1, t.len() as int))
}

/// Whether a text is a time of the form HH:MM:SS, in which each part may have one digit.
pub open spec fn is_window_time(t: Seq<char>) -> bool {
    exists|a: int, b: int| is_time_split_at(t, a, b)
}

/// The part of a text before its first colon.
pub open spec fn before_colon(t: Seq<char>) -> Seq<char> {
    t.subrange(0, t.index_of_first(':')->0)
}

/// The hour of a time.
pub open spec fn hour_of(t: Seq<char>) -> nat {
    digits_value(before_colon(t))
}

/// The cron expression of an update time window. A window that goes over midnight is made of
/// the hours up to 23 and those from 0 on.
pub open spec fn window_expression(start: nat, stop: nat) -> Seq<char> {
    if start <= stop {
        "* * "@ + decimal(start) + "-"@ + decimal(stop) + " * * * *"@
    } else {
        "* * "@ + decimal(start) + "-23,0-"@ + decimal(stop) + " * * * *"@
    }
}

/// An update time window.
#[derive(Debug)]
pub struct LegacyUpdateWindow {
    pub start_time: String,
    pub end_time: String,
}

/// The hour of a time, if the time is of the form HH:MM:SS.
fn window_hour(t: &str) -> (r: Option<u64>)
    ensures
        match r {
            Some(h) => is_window_time(t@) && hour_of(t@) == h && h < 24,
            None => !is_window_time(t@),
        },
{
    let n: usize = t.unicode_len();
    // The hour has one or two digits.
    let a: usize = if n > 1 && t.get_char(1) == ':' {
        1
    } else if n > 2 && t.get_char(2) == ':' {
        2
    } else {
        proof {
            assert forall|x: int, y: int| !is_time_split_at(t@, x, y) by {
                if is_time_split_at(t@, x, y) {
                    assert(t@.subrange(0, x).len() == x);
                }
            }
        }
        return None;
    };
    let hour = t.substring_char(0, a);
    // So has the minute.
    let b: usize = if n > a + 2 && t.get_char(a + 2) == ':' {
        a + 2
    } else if n > a + 3 && t.get_char(a + 3) == ':' {
        a + 3
    } else {
        proof {
            assert forall|x: int, y: int| !is_time_split_at(t@, x, y) by {
                lemma_split_is_at(t@, a as int, x, y);
            }
        }
        return None;
    };
    let minute = t.substring_char(a + 1, b);
    let second = t.substring_char(b + 1, n);
    if hour_digits(hour) && sixtieth_digits(minute) && sixtieth_digits(second) {
        proof {
            assert(is_time_split_at(t@, a as int, b as int));
            assert(hour@ == t@.subrange(0, a as int));
            lemma_first_colon(t@, a as int);
            lemma_hour_value(hour@);
        }
        let h: Option<u64> = parse_unsigned(hour, 255);
        h
    } else {
        proof {
            assert forall|x: int, y: int| !is_time_split_at(t@, x, y) by {
                lemma_split_is_at(t@, a as int, x, y);
                if is_time_split_at(t@, x, y) {
                    if y == a + 2 && b == a + 3 {
                        assert(t@[a + 2] == ':');
                    }
                    if y == a + 3 && b == a + 2 {
                        assert(t@.subrange(x + 1, y)[1] == t@[a + 2]);
                    }
                    assert(y == b);
                }
            }
        }
        None
    }
}

proof fn lemma_split_is_at(t: Seq<char>, a: int, x: int, y: int)
    requires
        (a == 1 && t.len() > 1 && t[1] == ':') || (a == 2 && t.len() > 2 && t[2] == ':' && t[1]
            != ':'),
    ensures
        is_time_split_at(t, x, y) ==> x == a && (y == a + 2 || y == a + 3) && t[y] == ':',
{
    if is_time_split_at(t, x, y) {
        let h = t.subrange(0, x);
        assert(h.len() == x);
        if x == 2 && a == 1 {
            assert(h[1] == t[1]);
        }
        assert(t.subrange(x + 1, y).len() == y - x - 1);
    }
}

proof fn lemma_first_colon(t: Seq<char>, a: int)
    requires
        0 < a < t.len(),
        t[a] == ':',
        is_hour(t.subrange(0, a)),
    ensures
        t.index_of_first(':') == Some(a),
        before_colon(t) == t.subrange(0, a),
{
    t.index_of_first_ensures(':');
    let h = t.subrange(0, a);
    assert(t.contains(':'));
    let k = t.index_of_first(':')->0;
    if k < a {
        assert(h[k] == t[k]);
    }
}

proof fn lemma_hour_value(h: Seq<char>)
    requires
        is_hour(h),
    ensures
        all_digits(h),
        digits_value(h) < 24,
        parsed_unsigned(h, 255) == Some(digits_value(h)),
{
    reveal_with_fuel(digits_value, 3);
    assert(unsigned_digits(h) == h);
    if h.len() == 2 {
        assert(h.drop_last() =~= seq![h[0]]);
        assert(h.drop_last().drop_last() =~= Seq::<char>::empty());
    } else {
        assert(h.drop_last() =~= Seq::<char>::empty());
    }
}

fn hour_digits(h: &str) -> (r: bool)
    ensures
        r == is_hour(h@),
{
    let n: usize = h.unicode_len();
    if n == 1 {
        let c: char = h.get_char(0);
        '0' <= c && c <= '9'
    } else if n == 2 {
        let c: char = h.get_char(0);
        let d: char = h.get_char(1);
        (c == '2' && '0' <= d && d <= '3') || ((c == '0' || c == '1') && '0' <= d && d <= '9')
    } else {
        false
    }
}

fn sixtieth_digits(m: &str) -> (r: bool)
    ensures
        r == is_sixtieth(m@),
{
    let n: usize = m.unicode_len();
    if n == 1 {
        let c: char = m.get_char(0);
        '0' <= c && c <= '9'
    } else if n == 2 {
        let c: char = m.get_char(0);
        let d: char = m.get_char(1);
        '0' <= c && c <= '5' && '0' <= d && d <= '9'
    } else {
        false
    }
}

impl LegacyUpdateWindow {
    /// The window that the environment sets, where it sets both ends. One end alone is an
    /// error.
    pub fn from_environment(start: Option<String>, stop: Option<String>) -> (r: Result<
        Option<Self>,
        Error,
    >)
        ensures
            match (text_option(start), text_option(stop)) {
                (Some(a), Some(b)) => {
                    &&& r is Ok
                    &&& r->Ok_0 is Some
                    &&& r->Ok_0->0.start_time@ == a
                    &&& r->Ok_0->0.end_time@ == b
                },
                (None, None) => r is Ok && r->Ok_0 is None,
                _ => {
                    &&& r is Err
                    &&& r->Err_0 is MissingTimeWindowVariable
                    &&& r->Err_0->message@ == MISSING_WINDOW_END@
                },
            },
    {
        match (start, stop) {
            (None, Some(_)) | (Some(_), None) => Err(
                Error::MissingTimeWindowVariable { message: String::from_str(MISSING_WINDOW_END) },
            ),
            (None, None) => Ok(None),
            (Some(update_window_start), Some(update_window_stop)) => Ok(
                Some(
                    Self::from_string(update_window_start.as_str(), update_window_stop.as_str()),
                ),
            ),
        }
    }

    /// The window between two times.
    pub fn from_string(start_time: &str, stop_time: &str) -> (r: Self)
        ensures
            r.start_time@ == start_time@,
            r.end_time@ == stop_time@,
    {
        LegacyUpdateWindow {
            start_time: String::from_str(start_time),
            end_time: String::from_str(stop_time),
        }
    }

    /// Convert update time window values to cron expression
    /// For overnight schedule, we format it to `{}-23,0-{}` on hour spot.
    /// For example, start time on 18 and stop time on 5. we format it to `18-23,0-5`
    pub fn cron_expression_converter(&self) -> (r: Result<String, Error>)
        ensures
            match r {
                Ok(expression) => {
                    &&& is_window_time(self.start_time@)
                    &&& is_window_time(self.end_time@)
                    &&& expression@ == window_expression(
                        hour_of(self.start_time@),
                        hour_of(self.end_time@),
                    )
                },
                Err(e) => {
                    &&& !is_window_time(self.start_time@) || !is_window_time(self.end_time@)
                    &&& e == Error::InvalidTimeWindowSettings
                },
            },
    {
        match (window_hour(self.start_time.as_str()), window_hour(self.end_time.as_str())) {
            (Some(start_hour), Some(stop_hour)) => {
                let start = u64_text(start_hour);
                let stop = u64_text(stop_hour);
                if start_hour <= stop_hour {
                    Ok(concat5("* * ", start.as_str(), "-", stop.as_str(), " * * * *"))
                } else {
                    Ok(concat5("* * ", start.as_str(), "-23,0-", stop.as_str(), " * * * *"))
                }
            },
            _ => Err(Error::InvalidTimeWindowSettings),
        }
    }
}

/// Cron expression can be configured to a time window or a specific trigger time.
/// specific trigger time: 0 0 10 * * Mon */Every Monday at 10AM.
/// maintenance window (time window): * * 10-12 * * MON */Every Monday between 10:00 and 12:00.
///
/// brupop controller needs to use different logics to deal with specific trigger time or
/// maintenance window (time window)
/// => specific trigger time: trigger brupop update and complete all waitingForUpdate nodes.
/// => maintenance window (time window): trigger brupop update within time window. If current
/// time isn't within the time window, controller shouldn't have any action on it.
#[derive(Clone, Copy, Debug, PartialEq, Eq, Structural)]
pub enum ScheduleType {
    Windowed,
    Oneshot,
}

/// A schedule of updates.
#[derive(Debug)]
pub struct BrupopCronScheduler {
    cron_expression: String,
    schedule_type: ScheduleType,
}

/// The contents of a `BrupopCronScheduler`.
pub struct SchedulerView {
    pub cron_expression: Seq<char>,
    pub schedule_type: ScheduleType,
}

impl View for BrupopCronScheduler {
    type V = SchedulerView;

    closed spec fn view(&self) -> SchedulerView {
        SchedulerView {
            cron_expression: self.cron_expression@,
            schedule_type: self.schedule_type,
        }
    }
}

/// Whether the outcome of making a schedule from an expression is right at an instant: an
/// expression that is not accepted is an error, and so is a schedule without two further points.
pub open spec fn schedule_made(
    expression: Seq<char>,
    now: Instant,
    r: Result<BrupopCronScheduler, Error>,
) -> bool {
    if !cron_accepts(expression) {
        &&& r is Err
        &&& r->Err_0 is GenerateScheduleFailed
        &&& r->Err_0->cron@ == expression
        &&& r->Err_0->GenerateScheduleFailed_source@ == INVALID_EXPRESSION@
    } else {
        match schedule_type_seen_from(expression, now) {
            Some(schedule_type) => r is Ok && r->Ok_0@ == (SchedulerView {
                cron_expression: expression,
                schedule_type,
            }),
            None => r is Err && r->Err_0 is GetScheduledDatetime,
        }
    }
}

/// The expression that the environment asks for: a cron expression before an update time window,
/// and every second without either. None where the window is not of the form HH:MM:SS.
pub open spec fn chosen_expression(
    window: Option<(Seq<char>, Seq<char>)>,
    cron: Option<Seq<char>>,
) -> Option<Seq<char>> {
    match (window, cron) {
        (_, Some(expression)) => Some(expression),
        (None, None) => Some(SCHEDULER_DEFAULT@),
        (Some((start, stop)), None) => if is_window_time(start) && is_window_time(stop) {
            Some(window_expression(hour_of(start), hour_of(stop)))
        } else {
            None
        },
    }
}

impl BrupopCronScheduler {
    #[verifier::type_invariant]
    spec fn expression_is_accepted(self) -> bool {
        cron_accepts(self.cron_expression@)
    }

    /// The schedule that the environment sets.
    pub fn from_environment(
        window_start: Option<String>,
        window_stop: Option<String>,
        cron_expression: Option<String>,
    ) -> (r: Result<Self, Error>)
        ensures
            (window_start is Some) != (window_stop is Some) ==> r is Err
                && r->Err_0 is MissingTimeWindowVariable && r->Err_0->message@
                == MISSING_WINDOW_END@,
            (window_start is Some) == (window_stop is Some) ==> ({
                let window = match (window_start, window_stop) {
                    (Some(a), Some(b)) => Some((a@, b@)),
                    _ => None,
                };
                match chosen_expression(window, text_option(cron_expression)) {
                    Some(expression) => exists|now: Instant| #[trigger]
                        clock_instant(now) && schedule_made(expression, now, r),
                    None => r is Err && r->Err_0 is InvalidTimeWindowSettings,
                }
            }),
    {
        let legacy_window = match LegacyUpdateWindow::from_environment(window_start, window_stop) {
            Ok(w) => w,
            Err(e) => {
                return Err(e);
            },
        };
        let expression: String = match (legacy_window, cron_expression) {
            // it's not allowed to set update time window and scheduler at same time, cron expression takes precedent
            (_, Some(cron_schedule)) => cron_schedule,
            // set cron expression scheduler to default "* * * * * * *" if no update time window and
            // scheduler variables are provided.
            (None, None) => String::from_str(SCHEDULER_DEFAULT),
            // convert update time window variable to cron expression format if users only provide
            // update time window variables.
            (Some(update_time_window), None) => match update_time_window.cron_expression_converter() {
                Ok(e) => e,
                Err(e) => {
                    return Err(e);
                },
            },
        };
        Self::from_string(expression.as_str())
    }

    /// The schedule of a cron expression.
    pub fn from_string(cron_expression: &str) -> (r: Result<Self, Error>)
        ensures
            exists|now: Instant| #[trigger]
                clock_instant(now) && schedule_made(cron_expression@, now, r),
    {
        let now = Timestamp::now();
        assert(clock_instant(now@));
        Self::from_string_at(cron_expression, now)
    }

    /// The schedule of a cron expression, seen from an instant.
    pub fn from_string_at(cron_expression: &str, now: Timestamp) -> (r: Result<Self, Error>)
        ensures
            schedule_made(cron_expression@, now@, r),
    {
        if let Err(source) = cron_parse(cron_expression) {
            return Err(
                Error::GenerateScheduleFailed { cron: String::from_str(cron_expression), source },
            );
        }
        match determine_schedule_type(cron_expression, now) {
            Ok(schedule_type) => Ok(
                BrupopCronScheduler {
                    cron_expression: String::from_str(cron_expression),
                    schedule_type,
                },
            ),
            Err(e) => Err(e),
        }
    }

    /// The cron expression of the schedule.
    pub fn cron_expression(&self) -> (r: &String)
        ensures
            r@ == self@.cron_expression,
    {
        &self.cron_expression
    }

    /// Whether the schedule is a window or a trigger time.
    pub fn schedule_type(&self) -> (r: ScheduleType)
        ensures
            r == self@.schedule_type,
    {
        self.schedule_type
    }

    /// How long to wait from an instant until the next scheduled point in time, in seconds and
    /// nanoseconds.
    pub fn wait_until_next_maintainence_window(&self, now: Timestamp) -> (r: Result<
        (u64, u32),
        Error,
    >)
        ensures
            match next_point(self@.cron_expression, now@) {
                None => r == Err::<(u64, u32), Error>(Error::GetScheduledDatetime),
                Some(next) => if elapsed_nanos(next, now@) < 0 {
                    r is Err && is_negative_error(r->Err_0)
                } else {
                    &&& r is Ok
                    &&& r->Ok_0.0 * 1_000_000_000 + r->Ok_0.1 == elapsed_nanos(next, now@)
                    &&& r->Ok_0.1 < 1_000_000_000
                },
            },
    {
        match self.duration_to_next(now) {
            Ok(duration_to_next) => std_duration(&duration_to_next),
            Err(e) => Err(e),
        }
    }

    /// Determine when controller needs discontinue updates.
    /// specific trigger time => never discontinue updates.
    /// maintenance window (time window): discontinue updates when current is outside of a scheduled window.
    pub fn should_discontinue_updates(&self) -> (r: bool)
        ensures
            exists|now: Instant| #[trigger]
                clock_instant(now) && r == outside_window(self@, now),
    {
        let now = Timestamp::now();
        assert(clock_instant(now@));
        self.should_discontinue_updates_impl(now)
    }

    /// The time from an instant to the next scheduled point.
    pub fn duration_to_next(&self, now: Timestamp) -> (r: Result<TimeDelta, Error>)
        ensures
            match next_point(self@.cron_expression, now@) {
                Some(next) => r is Ok && r->Ok_0@ == elapsed_nanos(next, now@),
                None => r is Err && r->Err_0 == Error::GetScheduledDatetime,
            },
    {
        proof {
            use_type_invariant(self);
        }
        match point_after(self.cron_expression.as_str(), now) {
            Some(next_scheduled_time) => Ok(next_scheduled_time.since(&now)),
            None => Err(Error::GetScheduledDatetime),
        }
    }

    /// Whether updates are discontinued at an instant.
    pub fn should_discontinue_updates_impl(&self, now: Timestamp) -> (r: bool)
        ensures
            r == outside_window(self@, now@),
    {
        proof {
            use_type_invariant(self);
        }
        let included = cron_contains(self.cron_expression.as_str(), now.seconds(), now.nanos());
        discontinues_updates(self.schedule_type, included)
    }
}

/// Whether a schedule of a type discontinues updates at an instant, which it includes or not.
pub fn discontinues_updates(schedule_type: ScheduleType, included: bool) -> (r: bool)
    ensures
        r == (schedule_type == ScheduleType::Windowed && !included),
{
    match schedule_type {
        ScheduleType::Windowed => !included,
        ScheduleType::Oneshot => false,
    }
}

/// Whether a schedule is a window and an instant lies outside of it.
pub open spec fn outside_window(s: SchedulerView, now: Instant) -> bool {
    s.schedule_type == ScheduleType::Windowed && !cron_includes(s.cron_expression, now.0, now.1)
}

fn point_after(expression: &str, from: Timestamp) -> (r: Option<Timestamp>)
    requires
        cron_accepts(expression@),
    ensures
        match r {
            Some(t) => next_point(expression@, from@) == Some(t@),
            None => next_point(expression@, from@) is None,
        },
{
    let seconds: i64 = from.seconds();
    if seconds >= LAST_SECOND {
        return None;
    }
    match cron_after(expression, seconds, from.nanos()) {
        Some((s, n)) => Timestamp::from_timestamp(s, n),
        None => None,
    }
}

/// Whether a schedule is a window or a trigger time, seen from an instant.
pub fn determine_schedule_type(schedule: &str, now: Timestamp) -> (r: Result<ScheduleType, Error>)
    requires
        cron_accepts(schedule@),
    ensures
        match schedule_type_seen_from(schedule@, now@) {
            Some(t) => r == Ok::<ScheduleType, Error>(t),
            None => r == Err::<ScheduleType, Error>(Error::GetScheduledDatetime),
        },
{
    match duration_between_next_two_points(schedule, now) {
        Ok(duration) => Ok(schedule_type_of_gap(&duration)),
        Err(e) => Err(e),
    }
}

/// Whether a schedule is a window or a trigger time, from the time between two of its points.
pub fn schedule_type_of_gap(duration: &TimeDelta) -> (r: ScheduleType)
    ensures
        r == type_of_gap(duration@),
{
    if duration.num_seconds() == 1 {
        ScheduleType::Windowed
    } else {
        ScheduleType::Oneshot
    }
}

/// The time between the next two points of a schedule after an instant.
pub fn duration_between_next_two_points(schedule: &str, from: Timestamp) -> (r: Result<
    TimeDelta,
    Error,
>)
    requires
        cron_accepts(schedule@),
    ensures
        match (next_point(schedule@, from@), second_point(schedule@, from@)) {
            (Some(first), Some(second)) => r is Ok && r->Ok_0@ == elapsed_nanos(second, first),
            _ => r is Err && r->Err_0 == Error::GetScheduledDatetime,
        },
{
    match point_after(schedule, from) {
        None => Err(Error::GetScheduledDatetime),
        Some(first_time) => match point_after(schedule, first_time) {
            None => Err(Error::GetScheduledDatetime),
            Some(second_time) => Ok(second_time.since(&first_time)),
        },
    }
}

/// Whether an error tells that a time span is negative.
pub open spec fn is_negative_error(e: Error) -> bool {
    e is ConvertToStdDuration && e->ConvertToStdDuration_source@ == OUT_OF_RANGE@
}

/// A time span as whole seconds and nanoseconds.
pub fn std_duration(d: &TimeDelta) -> (r: Result<(u64, u32), Error>)
    ensures
        match r {
            Ok((s, n)) => d@ >= 0 && s * 1_000_000_000 + n == d@ && n < 1_000_000_000,
            Err(e) => d@ < 0 && is_negative_error(e),
        },
{
    match d.to_std() {
        Ok(p) => Ok(p),
        Err(source) => Err(Error::ConvertToStdDuration { source }),
    }
}

/// Updates are never discontinued by a schedule of trigger times, nor inside a window.
pub proof fn updates_continue_in_window(s: SchedulerView, now: Instant)
    requires
        s.schedule_type == ScheduleType::Oneshot || cron_includes(s.cron_expression, now.0, now.1),
    ensures
        !outside_window(s, now),
{
}

/// A cron expression takes precedence over an update time window, and without either updates may
/// run at every second.
pub proof fn cron_expression_takes_precedence(
    window: Option<(Seq<char>, Seq<char>)>,
    cron: Option<Seq<char>>,
)
    ensures
        cron is Some ==> chosen_expression(window, cron) == cron,
        cron is None && window is None ==> chosen_expression(window, cron) == Some(
            SCHEDULER_DEFAULT@,
        ),
{
}

} // verus!
