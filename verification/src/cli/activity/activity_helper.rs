//! The tables that show activities: name, start, how long ago it started.
use vstd::prelude::*;
use vstd::string::*;

use crate::cli::activity::get_activities_log::Activity;
use crate::cli::activity::get_current_activity::CurrentActivity;
use crate::cli::clock::{TimePattern, civil_seconds, date_time_text, local_reading, valid_reading, local_text, representable_timestamp, seconds_since, timestamp_representable};
use crate::cli::command_exit::{text_of, CommandExit, ExitView};
use crate::cli::http_helper::{Action, Turn};
use crate::cli::text::{
    div_toward_zero,
    duration_string,
    duration_text,
    padded,
    pad_right,
    parse_i64,
    parsed_i64,
};

verus! {

/// The width of a table column.
pub const COLUMN: usize = 30;

/// The panic message of `unwrap` on a failed `parse::<i64>`.
pub open spec fn unparsable_message() -> Seq<char> {
    "called `Result::unwrap()` on an `Err` value: ParseIntError"@
}

/// The panic message of the `expect` on `DateTime::from_timestamp`.
pub open spec fn invalid_date_message() -> Seq<char> {
    "Invalid Date"@
}

/// The whole seconds of a millisecond stamp, as `ms / 1000` gives them.
pub open spec fn stamp_seconds(ms: i64) -> int {
    div_toward_zero(ms as int, 1000)
}

/// A start stamp (milliseconds as decimal text) from which the tables can
/// show a date: it parses, and its seconds are an instant chrono can
/// represent.
pub open spec fn readable_stamp(started_at: Seq<char>) -> bool {
    parsed_i64(started_at) matches Some(ms) && representable_timestamp(stamp_seconds(ms))
}

/// The seconds of a start stamp, or the panic message with which the
/// reading of it (`parse::<i64>().unwrap() / 1000`, then
/// `DateTime::from_timestamp(..).expect("Invalid Date")`) stops.
pub fn started_seconds(started_at: &str) -> (res: Result<i64, String>)
    ensures
        parsed_i64(started_at@) is None ==> (res matches Err(m) && m@ == unparsable_message()),
        parsed_i64(started_at@) matches Some(ms) ==> if representable_timestamp(stamp_seconds(ms)) {
            (res matches Ok(secs) && secs == stamp_seconds(ms))
        } else {
            (res matches Err(m) && m@ == invalid_date_message())
        },
{
    match parse_i64(started_at) {
        None => Err(text_of("called `Result::unwrap()` on an `Err` value: ParseIntError")),
        Some(ms) => {
            let secs = ms / 1000;
            if timestamp_representable(secs) {
                Ok(secs)
            } else {
                Err(text_of("Invalid Date"))
            }
        },
    }
}

/// The header line of the current activity table.
pub open spec fn current_header() -> Seq<char> {
    padded("Activity Name"@, 30) + seq![' '] + padded("Started At"@, 30) + seq![' '] + padded(
        "Duration"@,
        30,
    ) + seq![' '] + padded("Project"@, 30)
}

/// The row of the current activity table: `{:<30} {:<30} {:<30} {:<30}`
/// of the name, the local start time, the time since the start and the
/// project.
pub open spec fn current_row(
    name: Seq<char>,
    started: Seq<char>,
    elapsed: int,
    project: Seq<char>,
) -> Seq<char> {
    padded(name, 30) + seq![' '] + padded(started, 30) + seq![' '] + padded(
        duration_text(elapsed),
        30,
    ) + seq![' '] + padded(project, 30)
}

/// The header line of the current activity table.
pub fn current_header_line() -> (res: String)
    ensures
        res@ == current_header(),
{
    let mut out = String::new();
    pad_right(&mut out, "Activity Name", COLUMN);
    out.append(" ");
    pad_right(&mut out, "Started At", COLUMN);
    out.append(" ");
    pad_right(&mut out, "Duration", COLUMN);
    out.append(" ");
    pad_right(&mut out, "Project", COLUMN);
    proof {
        reveal_strlit(" ");
    }
    assert(out@ =~= current_header());
    out
}

/// The row of the current activity table for an activity named `name` of
/// project `project`, started at the local time `started`, `elapsed`
/// seconds ago.
pub fn current_row_line(name: &str, started: &str, elapsed: i64, project: &str) -> (res: String)
    ensures
        res@ == current_row(name@, started@, elapsed as int, project@),
{
    let mut out = String::new();
    pad_right(&mut out, name, COLUMN);
    out.append(" ");
    pad_right(&mut out, started, COLUMN);
    out.append(" ");
    let duration = duration_string(elapsed);
    pad_right(&mut out, duration.as_str(), COLUMN);
    out.append(" ");
    pad_right(&mut out, project, COLUMN);
    proof {
        reveal_strlit(" ");
    }
    assert(out@ =~= current_row(name@, started@, elapsed as int, project@));
    out
}

/// `res` shows `activity`: the header line is printed and the command ends
/// with the row, whose start time is how the local wall clock reads the
/// start stamp and whose duration the clock gave; or,
/// when the start stamp cannot be read, the program stops before anything
/// is printed (with the `unwrap` message when it does not parse).
pub open spec fn current_activity_shown(activity: CurrentActivity, res: Turn) -> bool {
    &&& !readable_stamp(activity.started_at@) ==> res.print@ == Seq::<char>::empty()
        && res.action is Abort
    &&& parsed_i64(activity.started_at@) is None ==> (res.action matches Action::Abort(m) && m@
        == unparsable_message())
    &&& readable_stamp(activity.started_at@) ==> {
        &&& res.print@ == current_header() + seq!['\n']
        &&& res.action matches Action::Finish(CommandExit::Normal(row))
        &&& exists|started: Seq<char>, elapsed: i64|
            #![trigger current_row(activity.name@, started, elapsed as int, activity.project_name@)]
            row@ == current_row(activity.name@, started, elapsed as int, activity.project_name@)
                && local_reading(
                stamp_seconds(parsed_i64(activity.started_at@)->0),
                TimePattern::DateAndTime,
                started,
            )
    }
}

/// Shows the current activity: prints the header line and ends with the
/// row, whose start time and duration come from the clock. A start stamp
/// that does not parse or that chrono cannot represent stops the program
/// before anything is printed.
pub fn print_current_activity(activity: &CurrentActivity) -> (res: Turn)
    ensures
        current_activity_shown(*activity, res),
{
    match started_seconds(activity.started_at.as_str()) {
        Err(m) => Turn { print: String::new(), action: Action::Abort(m) },
        Ok(secs) => {
            let started = local_text(secs, TimePattern::DateAndTime);
            let elapsed = seconds_since(secs);
            let mut print = current_header_line();
            proof {
                reveal_strlit("\n");
            }
            print.append("\n");
            let row = current_row_line(
                activity.name.as_str(),
                started.as_str(),
                elapsed,
                activity.project_name.as_str(),
            );
            assert(readable_stamp(activity.started_at@));
            assert(print@ == current_header() + seq!['\n']);
            assert(row@ == current_row(activity.name@, started@, elapsed as int, activity.project_name@)
                && local_reading(
                stamp_seconds(parsed_i64(activity.started_at@)->0),
                TimePattern::DateAndTime,
                started@,
            ));
            Turn { print, action: Action::Finish(CommandExit::Normal(row)) }
        },
    }
}

/// The header line of the activity log table.
pub open spec fn log_header() -> Seq<char> {
    padded("Activity Name"@, 30) + seq![' '] + padded("Started At"@, 30) + seq![' '] + padded(
        "Duration"@,
        30,
    )
}

/// A row of the activity log table: `{:<30} {:<30} {:<30} \n` of the name,
/// the local start time and the time since the start.
pub open spec fn log_row(name: Seq<char>, started: Seq<char>, elapsed: int) -> Seq<char> {
    padded(name, 30) + seq![' '] + padded(started, 30) + seq![' '] + padded(
        duration_text(elapsed),
        30,
    ) + seq![' ', '\n']
}

/// The rows of the activity log table for `activities`, given the local
/// start time and the elapsed seconds of each.
pub open spec fn log_rows(
    activities: Seq<Activity>,
    started: Seq<Seq<char>>,
    elapsed: Seq<i64>,
) -> Seq<char>
    decreases activities.len(),
{
    if activities.len() == 0 {
        Seq::empty()
    } else {
        let k = activities.len() - 1;
        log_rows(activities.drop_last(), started, elapsed) + log_row(
            activities[k].name@,
            started[k],
            elapsed[k] as int,
        )
    }
}

/// The header line of the activity log table.
pub fn log_header_line() -> (res: String)
    ensures
        res@ == log_header(),
{
    let mut out = String::new();
    pad_right(&mut out, "Activity Name", COLUMN);
    out.append(" ");
    pad_right(&mut out, "Started At", COLUMN);
    out.append(" ");
    pad_right(&mut out, "Duration", COLUMN);
    proof {
        reveal_strlit(" ");
    }
    assert(out@ =~= log_header());
    out
}

/// Appends a row of the activity log table.
pub fn push_log_row(out: &mut String, name: &str, started: &str, elapsed: i64)
    ensures
        final(out)@ == old(out)@ + log_row(name@, started@, elapsed as int),
{
    pad_right(out, name, COLUMN);
    out.append(" ");
    pad_right(out, started, COLUMN);
    out.append(" ");
    let duration = duration_string(elapsed);
    pad_right(out, duration.as_str(), COLUMN);
    out.append(" \n");
    proof {
        reveal_strlit(" ");
        reveal_strlit(" \n");
    }
    assert(final(out)@ =~= old(out)@ + log_row(name@, started@, elapsed as int));
}

/// Each start time in `started` is how the local wall clock reads the start
/// stamp of the activity in the same place.
pub open spec fn started_readings(activities: Seq<Activity>, started: Seq<Seq<char>>) -> bool {
    forall|k: int|
        0 <= k < activities.len() ==> local_reading(
            stamp_seconds(parsed_i64(activities[k].started_at@)->0),
            TimePattern::DateAndTime,
            #[trigger] started[k],
        )
}

/// Shows a page of activities: prints the header line and ends with the
/// rows, whose start times and durations come from the clock. The first
/// activity whose start stamp does not parse, or that chrono cannot
/// represent, stops the program after the header.
pub fn print_activities(activities: &Vec<Activity>) -> (res: Turn)
    ensures
        res.print@ == log_header() + seq!['\n'],
        (forall|i: int|
            0 <= i < activities.len() ==> readable_stamp(#[trigger] activities[i].started_at@))
            ==> (res.action matches Action::Finish(CommandExit::Normal(content)) && exists|
            started: Seq<Seq<char>>,
            elapsed: Seq<i64>,
        |
            started.len() == activities.len() && elapsed.len() == activities.len() && content@
                == log_rows(activities@, started, elapsed) && started_readings(activities@, started)),
        (exists|i: int|
            0 <= i < activities.len() && !readable_stamp(#[trigger] activities[i].started_at@))
            ==> res.action is Abort,
{
    let mut print = log_header_line();
    proof {
        reveal_strlit("\n");
    }
    print.append("\n");
    let mut content = String::new();
    let ghost mut started: Seq<Seq<char>> = Seq::empty();
    let ghost mut elapsed: Seq<i64> = Seq::empty();
    let mut i: usize = 0;
    while i < activities.len()
        invariant
            i <= activities.len(),
            print@ == log_header() + seq!['\n'],
            started.len() == i,
            elapsed.len() == i,
            forall|j: int| 0 <= j < i ==> readable_stamp(#[trigger] activities[j].started_at@),
            content@ == log_rows(activities@.take(i as int), started, elapsed),
            forall|k: int|
                0 <= k < i ==> local_reading(
                    stamp_seconds(parsed_i64(activities@[k].started_at@)->0),
                    TimePattern::DateAndTime,
                    #[trigger] started[k],
                ),
        decreases activities.len() - i,
    {
        let activity = &activities[i];
        match started_seconds(activity.started_at.as_str()) {
            Err(m) => {
                return Turn { print, action: Action::Abort(m) };
            },
            Ok(secs) => {
                let started_text = local_text(secs, TimePattern::DateAndTime);
                let since = seconds_since(secs);
                push_log_row(&mut content, activity.name.as_str(), started_text.as_str(), since);
                proof {
                    let taken = activities@.take(i + 1);
                    assert(taken.drop_last() =~= activities@.take(i as int));
                    lemma_log_rows_extend(activities@.take(i as int), started, elapsed, started_text@, since);
                    started = started.push(started_text@);
                    elapsed = elapsed.push(since);
                    assert(taken =~= activities@.take(i as int).push(*activity));
                }
            },
        }
        i = i + 1;
    }
    proof {
        assert(activities@.take(activities.len() as int) =~= activities@);
    }
    Turn { print, action: Action::Finish(CommandExit::Normal(content)) }
}

proof fn lemma_log_rows_extend(
    activities: Seq<Activity>,
    started: Seq<Seq<char>>,
    elapsed: Seq<i64>,
    s: Seq<char>,
    e: i64,
)
    requires
        started.len() == activities.len(),
        elapsed.len() == activities.len(),
    ensures
        forall|a: Activity|
            #[trigger] log_rows(activities.push(a), started.push(s), elapsed.push(e)) == log_rows(
                activities,
                started,
                elapsed,
            ) + log_row(a.name@, s, e as int),
{
    assert forall|a: Activity|
        #[trigger] log_rows(activities.push(a), started.push(s), elapsed.push(e)) == log_rows(
            activities,
            started,
            elapsed,
        ) + log_row(a.name@, s, e as int) by {
        assert(activities.push(a).drop_last() =~= activities);
        lemma_log_rows_prefix(activities, started, elapsed, started.push(s), elapsed.push(e));
    }
}

/// The rows of a list of activities depend only on the start times and
/// durations of its own activities.
proof fn lemma_log_rows_prefix(
    activities: Seq<Activity>,
    started: Seq<Seq<char>>,
    elapsed: Seq<i64>,
    started2: Seq<Seq<char>>,
    elapsed2: Seq<i64>,
)
    requires
        started.len() >= activities.len(),
        elapsed.len() >= activities.len(),
        started2.len() >= activities.len(),
        elapsed2.len() >= activities.len(),
        forall|i: int| 0 <= i < activities.len() ==> started[i] == started2[i] && elapsed[i] == elapsed2[i],
    ensures
        log_rows(activities, started, elapsed) == log_rows(activities, started2, elapsed2),
    decreases activities.len(),
{
    if activities.len() > 0 {
        lemma_log_rows_prefix(activities.drop_last(), started, elapsed, started2, elapsed2);
    }
}

/// The status row shows the activity's own start: its start column is a
/// calendar date and time, written `YYYY-MM-DD HH:MM:SS`, less than a day
/// (the local time zone's offset) away from the instant that the start
/// stamp names, and its other columns are the activity's name, a duration
/// and its project.
pub proof fn lemma_status_row_shows_its_start(activity: CurrentActivity, res: Turn)
    requires
        current_activity_shown(activity, res),
        readable_stamp(activity.started_at@),
    ensures
        res.action matches Action::Finish(CommandExit::Normal(row)) && exists|
            y: int,
            m: int,
            d: int,
            h: int,
            mi: int,
            s: int,
            elapsed: i64,
        |
            #![trigger civil_seconds(y, m, d, h, mi, s), current_row(activity.name@, date_time_text(y, m, d, h, mi, s), elapsed as int, activity.project_name@)]
            valid_reading(y, m, d, h, mi, s) && -86400 < civil_seconds(y, m, d, h, mi, s) - stamp_seconds(
                parsed_i64(activity.started_at@)->0,
            ) < 86400 && row@ == current_row(
                activity.name@,
                date_time_text(y, m, d, h, mi, s),
                elapsed as int,
                activity.project_name@,
            ),
{
    let secs = stamp_seconds(parsed_i64(activity.started_at@)->0);
    let row = res.action->Finish_0->Normal_0;
    let (started, elapsed) = choose|started: Seq<char>, elapsed: i64|
        #![trigger current_row(activity.name@, started, elapsed as int, activity.project_name@)]
        row@ == current_row(activity.name@, started, elapsed as int, activity.project_name@)
            && local_reading(secs, TimePattern::DateAndTime, started);
    let (y, m, d, h, mi, s) = choose|y: int, m: int, d: int, h: int, mi: int, s: int|
        #![trigger civil_seconds(y, m, d, h, mi, s)]
        valid_reading(y, m, d, h, mi, s) && -86400 < civil_seconds(y, m, d, h, mi, s) - secs < 86400
            && started == date_time_text(y, m, d, h, mi, s);
    assert(row@ == current_row(activity.name@, date_time_text(y, m, d, h, mi, s), elapsed as int, activity.project_name@));
}

} // verus!
