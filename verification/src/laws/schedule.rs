//! The schedule of updates: when maintenance windows are, and what they are written as.

use vstd::prelude::*;

use crate::controller::scheduler::{
    before_colon, chosen_expression, cron_accepts, cron_includes, cron_next, discontinues_updates,
    hour_of, is_hour, is_sixtieth, is_time_split_at, is_window_time, next_point, outside_window,
    schedule_made, schedule_type_seen_from, second_point, type_of_gap, window_expression,
    BrupopCronScheduler, LegacyUpdateWindow, ScheduleType, SchedulerView,
};
use crate::controller::scheduler_error::Error;
use crate::text::{decimal, digits_value};
use crate::time::{elapsed_nanos, Instant, Timestamp};

verus! {

/// Points that are at least one second and less than two apart, in either direction of the fraction,
/// make up a window; any others stand alone.
pub proof fn points_a_second_apart_make_a_window(nanos: int)
    ensures
        type_of_gap(nanos) == ScheduleType::Windowed <==> 1_000_000_000 <= nanos < 2_000_000_000,
        type_of_gap(nanos) == ScheduleType::Oneshot <==> nanos < 1_000_000_000 || nanos
            >= 2_000_000_000,
{
}

/// The next point is the one that the expression gives, unless the last second that can be counted
/// has come; the second one is the next one seen from the first.
pub proof fn points_follow_the_expression(expression: Seq<char>, from: Instant)
    ensures
        from.0 < 8210266876799 ==> next_point(expression, from) == cron_next(
            expression,
            from.0,
            from.1,
        ),
        from.0 >= 8210266876799 ==> next_point(expression, from) is None,
        next_point(expression, from) is None ==> second_point(expression, from) is None,
        next_point(expression, from) is Some ==> second_point(expression, from) == next_point(
            expression,
            next_point(expression, from)->0,
        ),
{
}

/// A schedule is windowed where its next two points are one second apart, and has no type where it
/// has no two further points.
pub proof fn schedule_type_follows_from_points(
    expression: Seq<char>,
    from: Instant,
    first: Instant,
    second: Instant,
)
    requires
        next_point(expression, from) == Some(first),
        0 <= first.1 < 1_000_000_000,
        0 <= second.1 < 1_000_000_000,
    ensures
        next_point(expression, first) is None ==> schedule_type_seen_from(expression, from) is None,
        next_point(expression, first) == Some(second) ==> schedule_type_seen_from(expression, from)
            == Some(
            if second.0 * 1_000_000_000 + second.1 - (first.0 * 1_000_000_000 + first.1)
                >= 1_000_000_000 && second.0 * 1_000_000_000 + second.1 - (first.0 * 1_000_000_000
                + first.1) < 2_000_000_000 {
                ScheduleType::Windowed
            } else {
                ScheduleType::Oneshot
            },
        ),
{
    points_a_second_apart_make_a_window(elapsed_nanos(second, first));
}

/// A schedule without a further point has no type.
pub proof fn schedule_without_points_has_no_type(expression: Seq<char>, from: Instant)
    requires
        next_point(expression, from) is None,
    ensures
        schedule_type_seen_from(expression, from) is None,
{
}

/// Updates are discontinued outside of the window of a windowed schedule, and never by another one.
pub proof fn windows_end(s: SchedulerView, now: Instant)
    ensures
        s.schedule_type == ScheduleType::Oneshot ==> !outside_window(s, now),
        s.schedule_type == ScheduleType::Windowed ==> (outside_window(s, now) <==> !cron_includes(
            s.cron_expression,
            now.0,
            now.1,
        )),
{
}

proof fn lemma_two_digits(s: Seq<char>)
    ensures
        s.len() == 1 ==> digits_value(s) == (s[0] as nat - 48) as nat,
        s.len() == 2 ==> digits_value(s) == ((s[0] as nat - 48) as nat) * 10 + (s[1] as nat
            - 48) as nat,
{
    reveal_with_fuel(digits_value, 3);
    if s.len() == 2 {
        assert(s.drop_last()[0] == s[0]);
        assert(s.drop_last().drop_last().len() == 0);
    }
}

/// An hour is one or two digits that are less than 24.
pub proof fn hours_of_a_day(h: Seq<char>)
    ensures
        is_hour(h) <==> 1 <= h.len() <= 2 && (forall|i: int|
            0 <= i < h.len() ==> '0' <= #[trigger] h[i] <= '9') && digits_value(h) < 24,
{
    lemma_two_digits(h);
    if is_hour(h) {
        assert forall|i: int| 0 <= i < h.len() implies '0' <= #[trigger] h[i] <= '9' by {}
    } else if 1 <= h.len() <= 2 && forall|i: int|
        0 <= i < h.len() ==> '0' <= #[trigger] h[i] <= '9' {
        assert('0' <= h[0] <= '9');
        if h.len() == 2 {
            assert('0' <= h[1] <= '9');
        }
    }
}

/// A minute or a second is one or two digits that are less than 60.
pub proof fn sixtieths_of_an_hour(m: Seq<char>)
    ensures
        is_sixtieth(m) <==> 1 <= m.len() <= 2 && (forall|i: int|
            0 <= i < m.len() ==> '0' <= #[trigger] m[i] <= '9') && digits_value(m) < 60,
{
    lemma_two_digits(m);
    if is_sixtieth(m) {
        assert forall|i: int| 0 <= i < m.len() implies '0' <= #[trigger] m[i] <= '9' by {}
    } else if 1 <= m.len() <= 2 && forall|i: int|
        0 <= i < m.len() ==> '0' <= #[trigger] m[i] <= '9' {
        assert('0' <= m[0] <= '9');
        if m.len() == 2 {
            assert('0' <= m[1] <= '9');
        }
    }
}

/// The time of a window is an hour, a minute and a second with colons between them, and it stands for
/// its hour.
pub proof fn window_times_have_three_parts(t: Seq<char>, h: Seq<char>, m: Seq<char>, s: Seq<char>)
    requires
        t == h + seq![':'] + m + seq![':'] + s,
        !h.contains(':'),
        !m.contains(':'),
        !s.contains(':'),
    ensures
        is_window_time(t) <==> is_hour(h) && is_sixtieth(m) && is_sixtieth(s),
        is_window_time(t) ==> hour_of(t) == digits_value(h),
{
    let x = h.len() as int;
    let y = x + 1 + m.len();
    assert(t[x] == ':');
    assert(t[y] == ':');
    assert(t.subrange(0, x) =~= h);
    assert(t.subrange(x + 1, y) =~= m);
    assert(t.subrange(y + 1, t.len() as int) =~= s);
    assert forall|i: int| 0 <= i < t.len() && i != x && i != y implies #[trigger] t[i] != ':' by {
        if i < x {
            assert(h.contains(h[i]));
        } else if i < y {
            assert(m.contains(m[i - x - 1]));
        } else {
            assert(s.contains(s[i - y - 1]));
        }
    }
    if is_hour(h) && is_sixtieth(m) && is_sixtieth(s) {
        assert(is_time_split_at(t, x, y));
    }
    if is_window_time(t) {
        let (a, b) = choose|a: int, b: int| is_time_split_at(t, a, b);
        assert(a == x && b == y);
    }
    t.index_of_first_ensures(':');
    assert(t.contains(':'));
    assert(before_colon(t) =~= h);
}

/// A text without two colons is no time of a window.
pub proof fn other_texts_are_no_window_times(t: Seq<char>, i: int)
    requires
        forall|j: int| 0 <= j < t.len() && j != i ==> #[trigger] t[j] != ':',
    ensures
        !is_window_time(t),
{
    if is_window_time(t) {
        let (a, b) = choose|a: int, b: int| is_time_split_at(t, a, b);
        assert(t[a] == ':' && t[b] == ':');
    }
}

/// A window is written as all seconds and minutes of its hours, on every day. One that goes past
/// midnight is made of the hours from its start to the end of the day and of those from the start of
/// the day to its end.
pub proof fn windows_are_written_in_hours(start: nat, stop: nat)
    ensures
        start <= stop ==> window_expression(start, stop) == "* * "@ + decimal(start) + "-"@
            + decimal(stop) + " * * * *"@,
        start > stop ==> window_expression(start, stop) == "* * "@ + decimal(start) + "-23,0-"@
            + decimal(stop) + " * * * *"@,
{
}

/// An expression is taken as it is; without one a window is written as one where both of its ends
/// are times, and is refused where they are not; with neither all seconds are scheduled.
pub proof fn expression_of_a_schedule(start: Seq<char>, stop: Seq<char>, cron: Seq<char>)
    ensures
        chosen_expression(Some((start, stop)), Some(cron)) == Some(cron),
        chosen_expression(None, Some(cron)) == Some(cron),
        chosen_expression(None, None) == Some("* * * * * * *"@),
        is_window_time(start) && is_window_time(stop) ==> chosen_expression(
            Some((start, stop)),
            None,
        ) == Some(
            window_expression(digits_value(before_colon(start)), digits_value(before_colon(stop))),
        ),
        !is_window_time(start) || !is_window_time(stop) ==> chosen_expression(
            Some((start, stop)),
            None,
        ) is None,
{
}

/// The wait for a window lasts from now to the next point of the schedule. Without such a point, or
/// where it lies in the past, there is no wait.
pub proof fn waits_last_until_the_next_point(
    s: &BrupopCronScheduler,
    now: Timestamp,
    r: Result<(u64, u32), Error>,
)
    requires
        call_ensures(BrupopCronScheduler::wait_until_next_maintainence_window, (s, now), r),
        now@.1 < 1_000_000_000,
        next_point(s@.cron_expression, now@) is Some ==> (next_point(
            s@.cron_expression,
            now@,
        )->0).1 < 1_000_000_000,
    ensures
        match next_point(s@.cron_expression, now@) {
            None => r is Err && r->Err_0 is GetScheduledDatetime,
            Some(next) => {
                let gap = (next.0 * 1_000_000_000 + next.1) - (now@.0 * 1_000_000_000 + now@.1);
                if gap < 0 {
                    &&& r is Err
                    &&& r->Err_0 is ConvertToStdDuration
                    &&& r->Err_0->ConvertToStdDuration_source@
                        == "Source duration value is out of range for the target type"@
                } else {
                    &&& r is Ok
                    &&& (r->Ok_0).0 == gap / 1_000_000_000
                    &&& (r->Ok_0).1 == gap % 1_000_000_000
                }
            },
        },
{
}

/// A window is read from both of its ends, or there is none; one end alone is refused.
pub proof fn windows_have_two_ends(
    start: Option<String>,
    stop: Option<String>,
    r: Result<Option<LegacyUpdateWindow>, Error>,
)
    requires
        call_ensures(LegacyUpdateWindow::from_environment, (start, stop), r),
    ensures
        start is Some && stop is Some ==> r is Ok && r->Ok_0 is Some && r->Ok_0->0.start_time@
            == start->0@ && r->Ok_0->0.end_time@ == stop->0@,
        start is None && stop is None ==> r is Ok && r->Ok_0 is None,
        start is Some && stop is None || start is None && stop is Some ==> r is Err
            && r->Err_0 is MissingTimeWindowVariable,
{
}

/// A window is converted exactly where both of its ends are times.
pub proof fn windows_are_converted(w: &LegacyUpdateWindow, r: Result<String, Error>)
    requires
        call_ensures(LegacyUpdateWindow::cron_expression_converter, (w,), r),
    ensures
        r is Ok <==> is_window_time(w.start_time@) && is_window_time(w.end_time@),
        r is Ok ==> r->Ok_0@ == window_expression(hour_of(w.start_time@), hour_of(w.end_time@)),
        r is Err ==> r->Err_0 is InvalidTimeWindowSettings,
{
}

/// A schedule is made of an expression that is accepted and has two further points. It holds that
/// expression and the type that these points show.
pub proof fn schedules_are_made_of_expressions(
    expression: Seq<char>,
    now: Instant,
    r: Result<BrupopCronScheduler, Error>,
)
    requires
        schedule_made(expression, now, r),
    ensures
        r is Ok <==> cron_accepts(expression) && second_point(expression, now) is Some,
        r is Ok ==> r->Ok_0@.cron_expression == expression && Some(r->Ok_0@.schedule_type)
            == schedule_type_seen_from(expression, now),
        !cron_accepts(expression) ==> r->Err_0 is GenerateScheduleFailed && r->Err_0->cron@
            == expression,
        cron_accepts(expression) && r is Err ==> r->Err_0 is GetScheduledDatetime,
{
}

/// One end of a window without the other is refused, and so is a window whose ends are no times, where
/// no expression is given.
pub proof fn bad_windows_are_refused(
    start: Option<String>,
    stop: Option<String>,
    cron: Option<String>,
    r: Result<BrupopCronScheduler, Error>,
)
    requires
        call_ensures(BrupopCronScheduler::from_environment, (start, stop, cron), r),
    ensures
        start is Some && stop is None || start is None && stop is Some ==> r is Err
            && r->Err_0 is MissingTimeWindowVariable,
        start is Some && stop is Some && cron is None && (!is_window_time(start->0@)
            || !is_window_time(stop->0@)) ==> r is Err && r->Err_0 is InvalidTimeWindowSettings,
{
}

/// The environment decides the schedule: an expression if there is one, else the window if there is
/// one, else all seconds.
pub proof fn environment_decides_the_schedule(
    start: Option<String>,
    stop: Option<String>,
    cron: Option<String>,
    r: Result<BrupopCronScheduler, Error>,
)
    requires
        call_ensures(BrupopCronScheduler::from_environment, (start, stop, cron), r),
        r is Ok,
    ensures
        start is Some <==> stop is Some,
        cron is Some ==> r->Ok_0@.cron_expression == cron->0@,
        cron is None && start is None ==> r->Ok_0@.cron_expression == "* * * * * * *"@,
        cron is None && start is Some ==> r->Ok_0@.cron_expression == window_expression(
            hour_of(start->0@),
            hour_of(stop->0@),
        ),
{
}

/// Only a windowed schedule discontinues updates, and only outside of its window.
pub proof fn schedules_discontinue_updates(t: ScheduleType, included: bool, r: bool)
    requires
        call_ensures(discontinues_updates, (t, included), r),
    ensures
        r <==> t is Windowed && !included,
{
}

} // verus!
