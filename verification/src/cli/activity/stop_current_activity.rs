//! `activity stop`: stops the activity running now. An activity started on
//! an earlier day (its start's UTC date against today's local date) is
//! split into one activity per day: the first keeps its id and start and
//! ends at 23:59:59 of its day, each day in between runs from 00:00:00 to
//! 23:59:59 local time, and the last runs from today's local midnight until
//! now.
use vstd::prelude::*;
use vstd::string::*;

use crate::cli::activity::activity_helper::{
    invalid_date_message,
    readable_stamp,
    started_seconds,
    stamp_seconds,
    unparsable_message,
};
use crate::cli::clock::representable_timestamp;
use crate::cli::activity::get_current_activity::{
    current_read,
    current_request,
    current_settle,
    get_current_activity,
    CurrentActivity,
};
use crate::cli::api_url;
use crate::cli::clock::{local_instant_millis, local_now_millis, local_today};
use crate::cli::command_exit::{error, success, text_of, CommandExit, ExitView};
use crate::cli::http_helper::{
    answer,
    fits,
    quiet,
    refused_status,
    step_of,
    Action,
    Event,
    HttpHelper,
    HttpRequest,
    Method,
    Payload,
    Progress,
    ReadKind,
    Reply,
    Screen,
    StepView,
    Turn,
};
use crate::cli::text::{decimal_string, decimal_text, parsed_i64, push_decimal};
use crate::cli::API_URL;

verus! {

/// An activity as the stop and sync requests carry it. Only the activity
/// that already exists carries an id.
pub struct ActivityDTO {
    pub id: Option<String>,
    pub name: String,
    pub project: String,
    pub user: String,
    /// Milliseconds since the epoch, as decimal text.
    pub started_at: String,
    /// Milliseconds since the epoch, as decimal text.
    pub stopped_at: String,
}

/// The body of the request that stops the activity running now.
pub struct UpdateActivityDTO {
    pub activity: ActivityDTO,
}

/// The body of the request that replaces the activity running now by one
/// activity per day.
pub struct SyncActivitiesDTO {
    pub activities: Vec<ActivityDTO>,
}

/// An optional id as text.
pub open spec fn id_view(id: Option<String>) -> Option<Seq<char>> {
    match id {
        Some(s) => Some(s@),
        None => None,
    }
}

/// `dto` is work on the same thing as `current`: same name, project and
/// user.
pub open spec fn same_work(current: CurrentActivity, dto: ActivityDTO) -> bool {
    &&& dto.name@ == current.name@
    &&& dto.project@ == current.project_id@
    &&& dto.user@ == current.user@
}

/// The day of an instant on the UTC calendar (days since 1970-01-01),
/// as `DateTime::from_timestamp(secs, 0).date_naive()` gives it.
pub open spec fn utc_day(secs: int) -> int {
    secs / 86400
}

/// The day on which the activity started, on the UTC calendar.
pub open spec fn start_day(current: CurrentActivity) -> int {
    utc_day(stamp_seconds(parsed_i64(current.started_at@)->0))
}

/// `dto` stops `current` itself at the stamp `now`.
pub open spec fn stop_entry(current: CurrentActivity, dto: ActivityDTO, now: i64) -> bool {
    &&& same_work(current, dto)
    &&& id_view(dto.id) == Some(current.id@)
    &&& dto.started_at@ == current.started_at@
    &&& dto.stopped_at@ == decimal_text(now as int)
}

/// How many days lie strictly between the start day and today, when the
/// start day is `days` days before today.
pub open spec fn middle_days(days: int) -> int {
    if days > 1 {
        days - 1
    } else {
        0
    }
}

/// How many local instants splitting an activity started `days` days
/// before today needs: the end of its first day, the start and the end of
/// each day in between, and the start of today.
pub open spec fn boundary_count(days: int) -> int {
    2 * middle_days(days) + 2
}

/// The day (days since 1970-01-01) and the wall clock time (hour, minute,
/// second) of the `j`-th of those instants, for an activity that started on
/// day `first` and is stopped on day `today`.
pub open spec fn boundary(first: int, today: int, j: int) -> (int, int, int, int) {
    if j == 0 {
        (first, 23, 59, 59)
    } else if j == boundary_count(today - first) - 1 {
        (today, 0, 0, 0)
    } else if j % 2 == 1 {
        (first + (j + 1) / 2, 0, 0, 0)
    } else {
        (first + j / 2, 23, 59, 59)
    }
}

/// `acts` split `current`, started `days` days before today, by day, given
/// the local instants of the day boundaries (in the order of `boundary`) and
/// the time `now`: the first keeps the activity's id and start and ends at
/// the end of its day; each day in between runs from its start to its end;
/// the last runs from the start of today until `now`. All are the same work.
pub open spec fn day_segments(
    current: CurrentActivity,
    acts: Seq<ActivityDTO>,
    days: int,
    instants: Seq<Result<i64, String>>,
    now: i64,
) -> bool {
    let middle = middle_days(days);
    &&& acts.len() == middle + 2
    &&& forall|k: int| 0 <= k < acts.len() ==> same_work(current, #[trigger] acts[k])
    &&& id_view(acts[0].id) == Some(current.id@)
    &&& acts[0].started_at@ == current.started_at@
    &&& acts[0].stopped_at@ == decimal_text(instants[0]->Ok_0 as int)
    &&& forall|k: int|
        1 <= k <= middle ==> (#[trigger] acts[k]).id is None && acts[k].started_at@ == decimal_text(
            instants[2 * k - 1]->Ok_0 as int,
        ) && acts[k].stopped_at@ == decimal_text(instants[2 * k]->Ok_0 as int)
    &&& acts[middle + 1].id is None
    &&& acts[middle + 1].started_at@ == decimal_text(instants[2 * middle + 1]->Ok_0 as int)
    &&& acts[middle + 1].stopped_at@ == decimal_text(now as int)
}

/// Splitting an activity started `days` days before today gives one
/// activity per calendar day from its start to today: `days + 1` of them
/// (two when `days` is not above one); only the first keeps the activity's
/// id and its start, the last ends now, and all are the same work as the
/// activity.
pub proof fn lemma_split_shape(
    current: CurrentActivity,
    acts: Seq<ActivityDTO>,
    days: int,
    instants: Seq<Result<i64, String>>,
    now: i64,
)
    requires
        day_segments(current, acts, days, instants, now),
    ensures
        acts.len() == if days > 1 {
            days + 1
        } else {
            2
        },
        id_view(acts[0].id) == Some(current.id@),
        acts[0].started_at@ == current.started_at@,
        acts.last().stopped_at@ == decimal_text(now as int),
        forall|k: int| 0 < k < acts.len() ==> (#[trigger] acts[k]).id is None,
        forall|k: int| 0 <= k < acts.len() ==> same_work(current, #[trigger] acts[k]),
{
    let middle = middle_days(days);
    assert forall|k: int| 0 < k < acts.len() implies (#[trigger] acts[k]).id is None by {
        if k <= middle {
            assert(1 <= k <= middle);
        }
    }
}

/// `req` stops the activity `current` itself at the time `now`.
pub open spec fn stop_request_at(req: HttpRequest, current: CurrentActivity, now: i64) -> bool {
    &&& req.method == Method::Put
    &&& req.url@ == API_URL@ + "/projects/"@ + current.project_id@ + "/activities/current/"@
        + current.id@
    &&& req.query is None
    &&& req.payload matches Payload::StopActivity(dto) && stop_entry(current, dto.activity, now)
}

/// `req` replaces `current`, started `days` days before today, by one
/// activity per day, given the boundary instants and the time `now`.
pub open spec fn sync_request_at(
    req: HttpRequest,
    current: CurrentActivity,
    days: int,
    instants: Seq<Result<i64, String>>,
    now: i64,
) -> bool {
    &&& req.method == Method::Put
    &&& req.url@ == API_URL@ + "/sync/activities"@
    &&& req.query is None
    &&& req.payload matches Payload::SyncActivities(dto) && day_segments(
        current,
        dto.activities@,
        days,
        instants,
        now,
    )
}

/// The message with which the program stops when the local time zone
/// gives no instant for a wall clock reading.
pub open spec fn no_such_local_time() -> Seq<char> {
    "No such local time"@
}

/// The message with which the program stops when the local time zone
/// gives two instants, `a` and `b`, for a wall clock reading.
pub open spec fn ambiguous_local_time(a: Seq<char>, b: Seq<char>) -> Seq<char> {
    "Ambiguous local time, ranging from "@ + a + " to "@ + b
}

/// `m` is the message of a wall clock reading without a single instant.
pub open spec fn local_time_failure(m: Seq<char>) -> bool {
    m == no_such_local_time() || exists|a: Seq<char>, b: Seq<char>| m == #[trigger] ambiguous_local_time(a, b)
}

/// Where `activity stop` goes after fetching the activity.
pub enum StopStage {
    /// Fetching the activity running now (and the stage to begin in).
    Fetching,
    /// Stopping the activity, started today.
    Stopping,
    /// Replacing the activity, started on an earlier day, by one per day.
    Syncing,
}

/// The panic message of the first boundary that has no single local
/// instant, in the order in which they are looked up.
pub open spec fn first_error(instants: Seq<Result<i64, String>>) -> Option<Seq<char>>
    decreases instants.len(),
{
    if instants.len() == 0 {
        None
    } else {
        match first_error(instants.drop_last()) {
            Some(m) => Some(m),
            None => match instants.last() {
                Err(m) => Some(m@),
                Ok(_) => None,
            },
        }
    }
}

proof fn lemma_first_error_prefix(instants: Seq<Result<i64, String>>, k: int)
    requires
        0 <= k <= instants.len(),
        first_error(instants.take(k)) is Some,
    ensures
        first_error(instants) == first_error(instants.take(k)),
    decreases instants.len() - k,
{
    if k < instants.len() {
        assert(instants.take(k + 1).drop_last() =~= instants.take(k));
        lemma_first_error_prefix(instants, k + 1);
    } else {
        assert(instants.take(k) =~= instants);
    }
}

proof fn lemma_no_error_all_ok(instants: Seq<Result<i64, String>>)
    requires
        first_error(instants) is None,
    ensures
        forall|i: int| 0 <= i < instants.len() ==> (#[trigger] instants[i]) is Ok,
    decreases instants.len(),
{
    if instants.len() > 0 {
        lemma_no_error_all_ok(instants.drop_last());
        assert forall|i: int| 0 <= i < instants.len() implies (#[trigger] instants[i]) is Ok by {
            if i < instants.len() - 1 {
                assert(instants[i] == instants.drop_last()[i]);
            }
        }
    }
}

/// What ending `current` gives when today is day `today` on the local
/// calendar, the time is `now` and the day boundaries are the local instants
/// `instants` (`None` where the time zone has no single instant): the panic
/// message when its start stamp does not parse or chrono cannot represent
/// it; the stop of the activity itself when it started today (on the UTC
/// calendar); else, when every boundary has an instant, the activities of
/// each day; else the panic message of the first boundary without one.
pub open spec fn stop_planned(
    current: CurrentActivity,
    today: int,
    now: i64,
    instants: Seq<Result<i64, String>>,
    r: Result<(StopStage, HttpRequest), String>,
) -> bool {
    match parsed_i64(current.started_at@) {
        None => r matches Err(m) && m@ == unparsable_message(),
        Some(ms) => if !representable_timestamp(stamp_seconds(ms)) {
            r matches Err(m) && m@ == invalid_date_message()
        } else if today == start_day(current) {
            r matches Ok((StopStage::Stopping, req)) && stop_request_at(req, current, now)
        } else if first_error(instants) is Some {
            r matches Err(m) && Some(m@) == first_error(instants)
        } else {
            r matches Ok((StopStage::Syncing, req)) && sync_request_at(
                req,
                current,
                today - start_day(current),
                instants,
                now,
            )
        },
    }
}

/// `r` is what ending `current` gives for some day of the local calendar,
/// some time and some boundary instants, one for each boundary, each an
/// instant or the message of a wall clock reading without a single one.
pub open spec fn stop_plan_of(current: CurrentActivity, r: Result<(StopStage, HttpRequest), String>) -> bool {
    exists|today: int, now: i64, instants: Seq<Result<i64, String>>|
        #[trigger] stop_planned(current, today, now, instants, r) && (readable_stamp(
            current.started_at@,
        ) ==> instants.len() == boundary_count(today - start_day(current))) && forall|j: int|
            0 <= j < instants.len() ==> (#[trigger] instants[j] matches Err(m) ==> local_time_failure(m@))
}

fn entry(current: &CurrentActivity, id: Option<String>, started_at: String, stopped_at: String) -> (res:
    ActivityDTO)
    ensures
        same_work(*current, res),
        res.id == id,
        res.started_at == started_at,
        res.stopped_at == stopped_at,
{
    ActivityDTO {
        id,
        name: current.name.clone(),
        project: current.project_id.clone(),
        user: current.user.clone(),
        started_at,
        stopped_at,
    }
}

/// The seconds of a millisecond stamp lie well within `i64`.
proof fn lemma_stamp_seconds_bound(ms: i64)
    ensures
        -10_000_000_000_000_000 < stamp_seconds(ms) < 10_000_000_000_000_000,
{
    let a: int = ms as int;
    if a >= 0 {
        assert(a / 1000 <= a) by (nonlinear_arith)
            requires
                a >= 0;
        assert(a / 1000 >= 0) by (nonlinear_arith)
            requires
                a >= 0;
    } else {
        assert((-a) / 1000 <= -a) by (nonlinear_arith)
            requires
                -a >= 0;
        assert((-a) / 1000 >= 0) by (nonlinear_arith)
            requires
                -a >= 0;
    }
}

/// The UTC day of an instant, rounding toward the past.
fn day_of(secs: i64) -> (res: i64)
    requires
        -10_000_000_000_000_000 < secs < 10_000_000_000_000_000,
    ensures
        res == utc_day(secs as int),
        -200_000_000_000 < res < 200_000_000_000,
{
    proof {
        let a: int = secs as int;
        assert(-200_000_000_000 < a / 86400 < 200_000_000_000) by (nonlinear_arith)
            requires
                -10_000_000_000_000_000 < a < 10_000_000_000_000_000;
    }
    let q = secs / 86400;
    if q * 86400 > secs {
        q - 1
    } else {
        q
    }
}

/// The instant at `hour:minute:second` local time on day `day`, or the
/// panic message when there is none: always so for a day outside `i32` or
/// a time of day that does not exist.
fn local_instant(day: i64, hour: u32, minute: u32, second: u32) -> (res: Result<i64, String>)
    ensures
        res matches Err(m) ==> local_time_failure(m@),
        day < i32::MIN || day > i32::MAX || hour >= 24 || minute >= 60 || second >= 60 ==> (res matches Err(
            m,
        ) && m@ == no_such_local_time()),
{
    if day < -2147483648 || day > 2147483647 {
        return Err(text_of("No such local time"));
    }
    match local_instant_millis(day as i32, hour, minute, second) {
        Ok(ms) => Ok(ms),
        Err(None) => Err(text_of("No such local time")),
        Err(Some((a, b))) => {
            let mut m = text_of("Ambiguous local time, ranging from ");
            m.append(a.as_str());
            m.append(" to ");
            m.append(b.as_str());
            proof {
                assert(m@ =~= ambiguous_local_time(a@, b@));
                assert(local_time_failure(m@));
            }
            Err(m)
        },
    }
}

/// The `j`-th day boundary of an activity started on day `first` and
/// stopped on day `today`: its day and its wall clock time.
pub fn stop_boundary(first: i64, today: i64, j: i64) -> (res: (i64, u32, u32, u32))
    requires
        -200_000_000_000 < first < 200_000_000_000,
        -200_000_000_000 < today < 200_000_000_000,
        0 <= j < boundary_count(today - first),
    ensures
        (res.0 as int, res.1 as int, res.2 as int, res.3 as int) == boundary(first as int, today as int, j as int),
{
    let days = today - first;
    let count: i64 = if days > 1 {
        2 * (days - 1) + 2
    } else {
        2
    };
    if j == 0 {
        (first, 23, 59, 59)
    } else if j == count - 1 {
        (today, 0, 0, 0)
    } else if j % 2 == 1 {
        (first + (j + 1) / 2, 0, 0, 0)
    } else {
        (first + j / 2, 23, 59, 59)
    }
}

/// The instant of a boundary that has one.
fn ok_value(r: &Result<i64, String>) -> (v: i64)
    requires
        r is Ok,
    ensures
        v == r->Ok_0,
{
    match r {
        Ok(v) => *v,
        Err(_) => 0,
    }
}

/// The request that ends `current` when today is day `today` on the local
/// calendar, the time is `now_ms` and the day boundaries (in the order of
/// `boundary`) have the local instants `instants`: the stop of the activity
/// when it started today, else the activities of each day, or the panic
/// message when its start stamp cannot be read or a boundary has no instant.
pub fn plan_stop_at(current: &CurrentActivity, today: i64, now_ms: i64, instants: &Vec<Result<i64, String>>) -> (res:
    Result<(StopStage, HttpRequest), String>)
    requires
        parsed_i64(current.started_at@) is Some ==> instants.len() == boundary_count(
            today - start_day(*current),
        ),
    ensures
        stop_planned(*current, today as int, now_ms, instants@, res),
{
    let secs = match started_seconds(current.started_at.as_str()) {
        Ok(secs) => secs,
        Err(m) => {
            return Err(m);
        },
    };
    proof {
        lemma_stamp_seconds_bound(parsed_i64(current.started_at@)->0);
    }
    let first = day_of(secs);
    if today == first {
        let mut url = api_url("/projects/");
        url.append(current.project_id.as_str());
        url.append("/activities/current/");
        url.append(current.id.as_str());
        let stop = entry(current, Some(current.id.clone()), current.started_at.clone(), decimal_string(now_ms));
        return Ok(
            (
                StopStage::Stopping,
                HttpRequest {
                    method: Method::Put,
                    url,
                    query: None,
                    payload: Payload::StopActivity(UpdateActivityDTO { activity: stop }),
                },
            ),
        );
    }
    let mut j: usize = 0;
    while j < instants.len()
        invariant
            j <= instants.len(),
            first_error(instants@.take(j as int)) is None,
            parsed_i64(current.started_at@) is Some,
            representable_timestamp(stamp_seconds(parsed_i64(current.started_at@)->0)),
            first == start_day(*current),
            today != first,
        decreases instants.len() - j,
    {
        proof {
            assert(instants@.take(j + 1).drop_last() =~= instants@.take(j as int));
        }
        if let Err(m) = &instants[j] {
            proof {
                lemma_first_error_prefix(instants@, j + 1);
            }
            return Err(m.clone());
        }
        j = j + 1;
    }
    proof {
        assert(instants@.take(instants.len() as int) =~= instants@);
        lemma_no_error_all_ok(instants@);
    }
    let n = instants.len();
    let middle: usize = (n - 2) / 2;
    let ghost days = today - first;
    assert(middle == middle_days(days));
    let mut acts: Vec<ActivityDTO> = Vec::new();
    acts.push(
        entry(
            current,
            Some(current.id.clone()),
            current.started_at.clone(),
            decimal_string(ok_value(&instants[0])),
        ),
    );
    let mut k: usize = 1;
    while k <= middle
        invariant
            n == instants.len(),
            n == 2 * middle + 2,
            1 <= k <= middle + 1,
            acts@.len() == k,
            forall|i: int| 0 <= i < n ==> (#[trigger] instants@[i]) is Ok,
            forall|i: int| 0 <= i < acts@.len() ==> same_work(*current, #[trigger] acts@[i]),
            id_view(acts@[0].id) == Some(current.id@),
            acts@[0].started_at@ == current.started_at@,
            acts@[0].stopped_at@ == decimal_text(instants@[0]->Ok_0 as int),
            forall|i: int|
                1 <= i < k ==> (#[trigger] acts@[i]).id is None && acts@[i].started_at@ == decimal_text(
                    instants@[2 * i - 1]->Ok_0 as int,
                ) && acts@[i].stopped_at@ == decimal_text(instants@[2 * i]->Ok_0 as int),
        decreases middle + 1 - k,
    {
        let from = ok_value(&instants[2 * k - 1]);
        let to = ok_value(&instants[2 * k]);
        acts.push(entry(current, None, decimal_string(from), decimal_string(to)));
        k = k + 1;
    }
    acts.push(entry(current, None, decimal_string(ok_value(&instants[2 * middle + 1])), decimal_string(now_ms)));
    let req = HttpRequest {
        method: Method::Put,
        url: api_url("/sync/activities"),
        query: None,
        payload: Payload::SyncActivities(SyncActivitiesDTO { activities: acts }),
    };
    Ok((StopStage::Syncing, req))
}

/// The request that ends `current`: the local calendar's today, the local
/// instant of each day boundary and the time are read from the clock, then
/// `plan_stop_at` decides.
pub fn plan_stop(current: &CurrentActivity) -> (res: Result<(StopStage, HttpRequest), String>)
    ensures
        stop_plan_of(*current, res),
{
    let secs = match started_seconds(current.started_at.as_str()) {
        Ok(secs) => secs,
        Err(m) => {
            let res = Err(m);
            assert(stop_planned(*current, 0, 0, Seq::empty(), res));
            return res;
        },
    };
    proof {
        lemma_stamp_seconds_bound(parsed_i64(current.started_at@)->0);
    }
    let first = day_of(secs);
    let today = local_today() as i64;
    let days = today - first;
    let count: i64 = if days > 1 {
        2 * (days - 1) + 2
    } else {
        2
    };
    let mut instants: Vec<Result<i64, String>> = Vec::new();
    let mut j: i64 = 0;
    while j < count
        invariant
            0 <= j <= count,
            count == boundary_count(today - first),
            -200_000_000_000 < first < 200_000_000_000,
            -200_000_000_000 < today < 200_000_000_000,
            instants@.len() == j,
            forall|i: int|
                0 <= i < instants@.len() ==> (#[trigger] instants@[i] matches Err(m) ==> local_time_failure(m@)),
        decreases count - j,
    {
        let (day, hour, minute, second) = stop_boundary(first, today, j);
        instants.push(local_instant(day, hour, minute, second));
        j = j + 1;
    }
    let now = local_now_millis();
    let res = plan_stop_at(current, today, now, &instants);
    assert(stop_planned(*current, today as int, now, instants@, res));
    res
}

/// How the reply to a stop or a sync is read: as text on 200 and 400, not
/// at all otherwise.
pub open spec fn stop_read(status: u16) -> Option<ReadKind> {
    if status == 200 || status == 400 {
        Some(ReadKind::Text)
    } else {
        None
    }
}

/// What a stop or a sync ends with: "Activity stopped" on 200, the error
/// text on 400, "Faild to stop current activity!" when the body cannot be
/// read or for any other status.
pub open spec fn stop_settle(status: u16, reply: Option<Reply>) -> ExitView {
    match reply {
        Some(Reply::Text(Some(message))) => if status == 200 {
            ExitView::Success("Activity stopped"@)
        } else {
            ExitView::Error(message@)
        },
        _ => ExitView::Error("Faild to stop current activity!"@),
    }
}

/// The move of the stop or sync exchange after `event`.
pub open spec fn stop_answer(event: Event) -> StepView<ExitView> {
    answer(
        |s: u16| stop_read(s),
        |s: u16, r: Option<Reply>| stop_settle(s, r),
        |e: ExitView| e,
        event,
    )
}

/// One move of the stop or the sync exchange, once its request was sent.
pub fn stop_current_activity(event: Event) -> (res: Progress<CommandExit>)
    requires
        fits(|s: u16| stop_read(s), event),
        !(event is Begin),
    ensures
        step_of(res, |e: CommandExit| e@) == stop_answer(event),
{
    match event {
        Event::Sent(sent) => match HttpHelper::request(sent) {
            Screen::Refuse(e) => Progress::Settled(e),
            Screen::ReadThenRefuse => Progress::Ongoing(Action::Read(ReadKind::Text)),
            Screen::Pass(status) => if status == 200 || status == 400 {
                Progress::Ongoing(Action::Read(ReadKind::Text))
            } else {
                Progress::Settled(error("Faild to stop current activity!"))
            },
        },
        Event::Replied(status, reply) => if status == 503 || status == 403 {
            Progress::Settled(HttpHelper::refusal(status, &reply))
        } else {
            match reply {
                Reply::Text(Some(message)) => if status == 200 {
                    Progress::Settled(success("Activity stopped"))
                } else {
                    Progress::Settled(CommandExit::Error(message))
                },
                _ => Progress::Settled(error("Faild to stop current activity!")),
            }
        },
        _ => Progress::Settled(error("Faild to stop current activity!")),
    }
}

/// The events `activity stop` can see in each stage.
pub open spec fn stop_fits(stage: StopStage, event: Event) -> bool {
    match stage {
        StopStage::Fetching => fits(|s: u16| current_read(s), event),
        _ => !(event is Begin) && fits(|s: u16| stop_read(s), event),
    }
}

/// The move of the current activity exchange after `event`.
pub open spec fn fetch_answer(event: Event) -> StepView<Result<CurrentActivity, ExitView>> {
    answer(
        |s: u16| current_read(s),
        |s: u16, r: Option<Reply>| current_settle(s, r),
        |e: ExitView| Err::<CurrentActivity, ExitView>(e),
        event,
    )
}

/// The move after fetching `current`: the request that `r` plans, or the
/// program stops with its panic message.
pub open spec fn plan_moves(r: Result<(StopStage, HttpRequest), String>, res: (StopStage, Turn)) -> bool {
    &&& res.1.print@ == Seq::<char>::empty()
    &&& match r {
        Ok((stage, req)) => res.0 == stage && res.1.action == Action::Send(req),
        Err(m) => res.1.action == Action::Abort(m),
    }
}

/// `format!("{:?}", s)`: a string as `Debug` writes it, in double quotes
/// with its special characters escaped.
pub uninterp spec fn debug_text(s: Seq<char>) -> Seq<char>;

/// Writes `s` as `Debug` writes a string (`format!("{:?}", s)`). The text
/// is a function of `s` alone; which characters std escapes, and how, is
/// left to std (it rests on its Unicode tables).
#[verifier::external_body]
fn debug_string(s: &str) -> (res: String)
    ensures
        res@ == debug_text(s@),
{
    format!("{:?}", s)
}

/// What the sync prints: on a status other than 200 and 400 (and other
/// than those the helper refuses) the status and a new line; once the body
/// of an accepted sync was read, that body as `Debug` writes a string and a
/// new line.
pub open spec fn sync_status_note(event: Event) -> Seq<char> {
    match event {
        Event::Sent(Some(status)) => if status != 200 && status != 400 && !refused_status(status) {
            decimal_text(status as int) + "\n"@
        } else {
            Seq::empty()
        },
        Event::Replied(200, Reply::Text(Some(body))) => debug_text(body@) + "\n"@,
        _ => Seq::empty(),
    }
}

/// `res` ends `current` as some plan of `plan_stop` says.
pub open spec fn stop_moves(current: CurrentActivity, res: (StopStage, Turn)) -> bool {
    exists|r: Result<(StopStage, HttpRequest), String>|
        #[trigger] stop_plan_of(current, r) && plan_moves(r, res)
}

/// The move once the activity running now was fetched.
fn stop_fetched(current: &CurrentActivity) -> (res: (StopStage, Turn))
    ensures
        stop_moves(*current, res),
{
    let plan = plan_stop(current);
    let ghost planned = plan;
    let res = match plan {
        Ok((next, req)) => (next, quiet(Action::Send(req))),
        Err(m) => (StopStage::Fetching, quiet(Action::Abort(m))),
    };
    assert(stop_plan_of(*current, planned) && plan_moves(planned, res));
    res
}

/// `activity stop`: one move. Any failure to fetch the activity running
/// now ends with "Failed to stop current activity!"; a fetched activity is
/// ended as `plan_stop` plans it.
pub fn run(stage: StopStage, event: Event) -> (res: (StopStage, Turn))
    requires
        stop_fits(stage, event),
    ensures
        stage is Fetching && event is Begin ==> {
            &&& res.0 is Fetching
            &&& res.1.print@ == Seq::<char>::empty()
            &&& res.1.action matches Action::Send(req) && current_request(req)
        },
        stage is Fetching && !(event is Begin) ==> match fetch_answer(event) {
            StepView::Read(kind) => res.0 is Fetching && res.1.action == Action::Read(kind)
                && res.1.print@ == Seq::<char>::empty(),
            StepView::Settle(Err(_)) => (res.1.action matches Action::Finish(x) && x@
                == ExitView::Error("Failed to stop current activity!"@)) && res.1.print@
                == Seq::<char>::empty(),
            StepView::Settle(Ok(current)) => stop_moves(current, res),
            _ => false,
        },
        !(stage is Fetching) ==> match stop_answer(event) {
            StepView::Read(kind) => res.0 == stage && res.1.action == Action::Read(kind),
            StepView::Settle(e) => (res.1.action matches Action::Finish(x) && x@ == e),
            _ => false,
        },
        stage is Stopping ==> res.1.print@ == Seq::<char>::empty(),
        stage is Syncing ==> res.1.print@ == sync_status_note(event),
{
    match stage {
        StopStage::Fetching => match get_current_activity(event) {
            Progress::Ongoing(action) => (StopStage::Fetching, quiet(action)),
            Progress::Settled(Err(_)) => (
                StopStage::Fetching,
                quiet(Action::Finish(error("Failed to stop current activity!"))),
            ),
            Progress::Settled(Ok(current)) => {
                assert(fetch_answer(event) == StepView::Settle(Ok::<CurrentActivity, ExitView>(current)));
                stop_fetched(&current)
            },
        },
        StopStage::Stopping => match stop_current_activity(event) {
            Progress::Ongoing(action) => (StopStage::Stopping, quiet(action)),
            Progress::Settled(e) => (StopStage::Stopping, quiet(Action::Finish(e))),
        },
        StopStage::Syncing => {
            let mut print = String::new();
            proof {
                reveal_strlit("\n");
            }
            match &event {
                Event::Sent(Some(status)) => {
                    if *status != 200 && *status != 400 && *status != 503 && *status != 403 {
                        push_decimal(&mut print, *status as i64);
                        print.append("\n");
                    }
                },
                Event::Replied(status, Reply::Text(Some(body))) => {
                    if *status == 200 {
                        print = debug_string(body.as_str());
                        print.append("\n");
                    }
                },
                _ => {},
            }
            let action = match stop_current_activity(event) {
                Progress::Ongoing(action) => action,
                Progress::Settled(e) => Action::Finish(e),
            };
            (StopStage::Syncing, Turn { print, action })
        },
    }
}

} // verus!
