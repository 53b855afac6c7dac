//! WeCom schedules: creation, listing by range, lookup, update, deletion and
//! free/busy queries.

use crate::http::{HttpRequest, Method};
use crate::json::{jv_members, jv_seq, opt_str_v, put, str_arr, Json, JsonV};
use crate::model::{
    AttendeeStatus, BusySlot, CalendarEvent, CreateEventRequest, EventAttendee, FreeBusyRequest,
    ImError, ListEventsRequest, Page, UpdateEventRequest,
};
use crate::text::{dec_int, or_empty};
use crate::time::{secs_representable, utc_text};
use crate::wecom::client::{is_token_request, token_result, WeComClient};
use vstd::prelude::*;

verus! {

/// The instant of a time in whole seconds, or `now` where chrono cannot represent it.
pub open spec fn secs_or_now(ts: i64, now: i64) -> i64 {
    if secs_representable(ts) {
        (ts * 1000) as i64
    } else {
        now
    }
}

pub fn time_of_secs(ts: i64, now: i64) -> (r: i64)
    ensures
        r == secs_or_now(ts, now),
{
    match crate::time::from_secs(ts) {
        Some(ms) => ms,
        None => now,
    }
}

/// The status of a WeCom response number: 1 accepted, 2 declined, 3 tentative,
/// anything else unknown.
pub open spec fn status_of_response(v: i32) -> AttendeeStatus {
    if v == 1 {
        AttendeeStatus::Accepted
    } else if v == 2 {
        AttendeeStatus::Declined
    } else if v == 3 {
        AttendeeStatus::Tentative
    } else {
        AttendeeStatus::Unknown
    }
}

/// How WeCom's attendee responses read: 1 accepted, 2 declined, 3 tentative, each
/// from that number alone; any other number is unknown. So a declining attendee
/// never reads as accepted.
pub proof fn law_response_codes(v: i32)
    ensures
        (status_of_response(v) == AttendeeStatus::Accepted) <==> v == 1,
        (status_of_response(v) == AttendeeStatus::Declined) <==> v == 2,
        (status_of_response(v) == AttendeeStatus::Tentative) <==> v == 3,
        (status_of_response(v) == AttendeeStatus::Unknown) <==> !(1 <= v <= 3),
{
}

pub fn attendee_status(v: i32) -> (r: AttendeeStatus)
    ensures
        r == status_of_response(v),
{
    if v == 1 {
        AttendeeStatus::Accepted
    } else if v == 2 {
        AttendeeStatus::Declined
    } else if v == 3 {
        AttendeeStatus::Tentative
    } else {
        AttendeeStatus::Unknown
    }
}

/// An attendee as WeCom gives it.
pub struct WcAttendee {
    pub userid: Option<String>,
    pub response_status: Option<i32>,
}

/// A schedule as WeCom gives it; times are whole seconds.
pub struct WcSchedule {
    pub schedule_id: Option<String>,
    pub summary: Option<String>,
    pub description: Option<String>,
    pub start_time: Option<i64>,
    pub end_time: Option<i64>,
    pub location: Option<String>,
    pub is_whole_day: Option<i32>,
    pub attendees: Vec<WcAttendee>,
}

pub open spec fn is_attendee_of(r: EventAttendee, a: WcAttendee) -> bool {
    &&& r.user_id@ == or_empty(a.userid)
    &&& r.name is None
    &&& r.status == status_of_response(
        match a.response_status {
            Some(v) => v,
            None => 0,
        },
    )
}

/// A time of a schedule at the instant `now`, which stands for a missing or
/// unrepresentable one.
pub open spec fn schedule_time(t: Option<i64>, now: i64) -> i64 {
    match t {
        Some(ts) => secs_or_now(ts, now),
        None => now,
    }
}

/// What a WeCom schedule says of an event at the instant `now`: all-day where its
/// whole-day flag is 1.
pub open spec fn is_event_of(r: CalendarEvent, s: WcSchedule, now: i64) -> bool {
    &&& r.id@ == or_empty(s.schedule_id)
    &&& r.title@ == or_empty(s.summary)
    &&& r.description == s.description
    &&& r.start_time == schedule_time(s.start_time, now)
    &&& r.end_time == schedule_time(s.end_time, now)
    &&& r.location == s.location
    &&& r.is_all_day == (s.is_whole_day == Some(1i32))
    &&& r.attendees@.len() == s.attendees@.len()
    &&& forall|i: int|
        0 <= i < s.attendees@.len() ==> is_attendee_of(#[trigger] r.attendees@[i], s.attendees@[i])
    &&& r.extra@ == JsonV::Null
}

fn time_or_now(t: Option<i64>, now: i64) -> (r: i64)
    ensures
        r == schedule_time(t, now),
{
    match t {
        Some(ts) => time_of_secs(ts, now),
        None => now,
    }
}

pub fn event_from_wc(s: WcSchedule, now: i64) -> (r: CalendarEvent)
    ensures
        is_event_of(r, s, now),
{
    let mut attendees: Vec<EventAttendee> = Vec::new();
    let ghost all = s.attendees@;
    for a in it: s.attendees.into_iter()
        invariant
            it.seq() == all,
            attendees@.len() == it.index(),
            forall|k: int| 0 <= k < attendees@.len() ==> is_attendee_of(#[trigger] attendees@[k], all[k]),
    {
        let status = attendee_status(
            match a.response_status {
                Some(v) => v,
                None => 0,
            },
        );
        attendees.push(
            EventAttendee { user_id: crate::text::unwrap_or_empty(a.userid), name: None, status },
        );
    }
    let is_all_day = match s.is_whole_day {
        Some(v) => v == 1,
        None => false,
    };
    CalendarEvent {
        id: crate::text::unwrap_or_empty(s.schedule_id),
        title: crate::text::unwrap_or_empty(s.summary),
        description: s.description,
        start_time: time_or_now(s.start_time, now),
        end_time: time_or_now(s.end_time, now),
        location: s.location,
        is_all_day,
        attendees,
        extra: Json::Null,
    }
}

pub fn events_from_wc(items: Vec<WcSchedule>, now: i64) -> (r: Vec<CalendarEvent>)
    ensures
        r@.len() == items@.len(),
        forall|i: int| 0 <= i < items@.len() ==> is_event_of(#[trigger] r@[i], items@[i], now),
{
    let mut out: Vec<CalendarEvent> = Vec::new();
    let ghost all = items@;
    for s in it: items.into_iter()
        invariant
            it.seq() == all,
            out@.len() == it.index(),
            forall|k: int| 0 <= k < out@.len() ==> is_event_of(#[trigger] out@[k], all[k], now),
    {
        out.push(event_from_wc(s, now));
    }
    out
}

/// An instant as WeCom's schedules take it: whole seconds (rounded down), as text.
pub open spec fn secs_text(ms: i64) -> Seq<char> {
    dec_int(ms / 1000)
}

fn secs_str(ms: i64) -> (r: Json)
    ensures
        r@ == JsonV::Str(secs_text(ms)),
{
    let s = crate::lark::messaging::millis_to_secs(ms);
    Json::Str(crate::text::fmt_i64(s))
}

pub open spec fn userid_items(ids: Seq<String>) -> Seq<JsonV>
    decreases ids.len(),
{
    if ids.len() == 0 {
        Seq::empty()
    } else {
        userid_items(ids.drop_last()).push(JsonV::Obj(seq![("userid"@, JsonV::Str(ids.last()@))]))
    }
}

/// Each attendee is sent, in order, as `{"userid": <id>}`.
pub proof fn law_userid_items(s: Seq<String>)
    ensures
        userid_items(s) == s.map_values(|x: String| JsonV::Obj(seq![("userid"@, JsonV::Str(x@))])),
    decreases s.len(),
{
    if s.len() > 0 {
        law_userid_items(s.drop_last());
        assert(s.map_values(|x: String| JsonV::Obj(seq![("userid"@, JsonV::Str(x@))])) =~= s.drop_last().map_values(|x: String| JsonV::Obj(seq![("userid"@, JsonV::Str(x@))])).push(
            JsonV::Obj(seq![("userid"@, JsonV::Str(s.last()@))]),
        ));
    }
}

fn userid_list(ids: &Vec<String>) -> (r: Json)
    ensures
        r@ == JsonV::Arr(userid_items(ids@)),
{
    broadcast use crate::json::group_json;

    let mut out: Vec<Json> = Vec::new();
    let mut i: usize = 0;
    while i < ids.len()
        invariant
            i <= ids@.len(),
            jv_seq(out@) == userid_items(ids@.subrange(0, i as int)),
        decreases ids@.len() - i,
    {
        let item = crate::json::obj1("userid", Json::Str(ids[i].clone()));
        let ghost before = out@;
        let ghost ig = item;
        out.push(item);
        proof {
            crate::json::lemma_jv_seq_push(before, ig);
            assert(ids@.subrange(0, i + 1).drop_last() =~= ids@.subrange(0, i as int));
        }
        i = i + 1;
    }
    assert(ids@.subrange(0, ids@.len() as int) =~= ids@);
    Json::Arr(out)
}

/// The body of a new schedule: times in whole seconds as text, the whole-day flag as
/// 1 or 0, and the attendees by user id.
pub open spec fn create_body_v(req: CreateEventRequest) -> JsonV {
    JsonV::Obj(
        seq![
            (
                "schedule"@,
                JsonV::Obj(
                    seq![
                        ("summary"@, JsonV::Str(req.title@)),
                        ("description"@, opt_str_v(req.description)),
                        ("start_time"@, JsonV::Str(secs_text(req.start_time))),
                        ("end_time"@, JsonV::Str(secs_text(req.end_time))),
                        ("location"@, opt_str_v(req.location)),
                        (
                            "is_whole_day"@,
                            JsonV::Int(
                                if req.is_all_day {
                                    1
                                } else {
                                    0
                                },
                            ),
                        ),
                        ("attendees"@, JsonV::Arr(userid_items(req.attendee_ids@))),
                    ],
                ),
            ),
        ],
    )
}

pub fn create_event_request(client: &WeComClient, req: &CreateEventRequest) -> (r: Result<
    HttpRequest,
    ImError,
>)
    ensures
        token_result(*client, r, Method::Post, "/cgi-bin/oa/schedule/add"@, Some(create_body_v(*req))),
{
    broadcast use crate::json::group_json;

    let mut m: Vec<(String, Json)> = Vec::new();
    put(&mut m, "summary", Json::Str(req.title.clone()));
    put(&mut m, "description", crate::json::jopt(req.description.clone()));
    put(&mut m, "start_time", secs_str(req.start_time));
    put(&mut m, "end_time", secs_str(req.end_time));
    put(&mut m, "location", crate::json::jopt(req.location.clone()));
    put(
        &mut m,
        "is_whole_day",
        Json::Int(
            if req.is_all_day {
                1
            } else {
                0
            },
        ),
    );
    put(&mut m, "attendees", userid_list(&req.attendee_ids));
    assert(jv_members(m@) =~= create_body_v(*req)->Obj_0[0].1->Obj_0);
    client.post("/cgi-bin/oa/schedule/add", crate::json::obj1("schedule", Json::Obj(m)))
}

/// The reading of a creation's reply, given the `schedule_id` string it carries (if
/// any): the event as asked for, with that id (empty where none) and no attendees.
pub fn create_event_reply(
    req: CreateEventRequest,
    status: u16,
    text: String,
    parsed: Result<Option<String>, String>,
) -> (r: Result<CalendarEvent, ImError>)
    ensures
        !crate::http::is_success(status) ==> r == Err::<CalendarEvent, ImError>(
            ImError::Platform { code: status as i64, message: text },
        ),
        crate::http::is_success(status) && parsed is Err ==> r == Err::<CalendarEvent, ImError>(
            ImError::Serialization(parsed->Err_0),
        ),
        crate::http::is_success(status) && parsed is Ok ==> (r matches Ok(e) && e.id@ == or_empty(
            parsed->Ok_0,
        ) && e.title == req.title && e.description == req.description && e.start_time
            == req.start_time && e.end_time == req.end_time && e.location == req.location
            && e.is_all_day == req.is_all_day && e.attendees@.len() == 0 && e.extra@ == JsonV::Null),
{
    let id = crate::http::read_reply(status, text, parsed)?;
    Ok(
        CalendarEvent {
            id: crate::text::unwrap_or_empty(id),
            title: req.title,
            description: req.description,
            start_time: req.start_time,
            end_time: req.end_time,
            location: req.location,
            is_all_day: req.is_all_day,
            attendees: Vec::new(),
            extra: Json::Null,
        },
    )
}

/// An instant as WeCom's range queries take it.
pub open spec fn second_text(ms: i64) -> Seq<char> {
    utc_text(ms, "%Y-%m-%d %H:%M:%S"@)
}

/// The body of a range listing.
pub open spec fn range_body_v(req: ListEventsRequest) -> JsonV {
    JsonV::Obj(
        seq![
            ("start_time"@, JsonV::Str(second_text(req.start_time))),
            ("end_time"@, JsonV::Str(second_text(req.end_time))),
        ],
    )
}

pub fn list_events_request(client: &WeComClient, req: &ListEventsRequest) -> (r: Result<
    HttpRequest,
    ImError,
>)
    ensures
        token_result(
            *client,
            r,
            Method::Post,
            "/cgi-bin/oa/schedule/get_by_range"@,
            Some(range_body_v(*req)),
        ),
{
    let body = crate::json::obj2(
        "start_time",
        Json::Str(crate::time::fmt_utc(req.start_time, "%Y-%m-%d %H:%M:%S")),
        "end_time",
        Json::Str(crate::time::fmt_utc(req.end_time, "%Y-%m-%d %H:%M:%S")),
    );
    client.post("/cgi-bin/oa/schedule/get_by_range", body)
}

/// The body that asks for the details of schedules.
pub open spec fn details_body_v(ids: Seq<String>) -> JsonV {
    JsonV::Obj(seq![("schedule_id_list"@, JsonV::Arr(str_arr(ids)))])
}

/// What follows a range listing's reply.
pub enum ListEventsStep {
    /// No schedule in the range: the page is empty and final.
    Empty,
    /// Fetch the details of the listed schedules with this request.
    Details(HttpRequest),
}

/// The decision after a range listing's reply, given the listed schedule ids: an empty
/// page where there are none, else the request for their details.
pub fn list_events_after_range(client: &WeComClient, ids: &Vec<String>) -> (r: Result<
    ListEventsStep,
    ImError,
>)
    ensures
        ids@.len() == 0 ==> r matches Ok(ListEventsStep::Empty),
        ids@.len() > 0 ==> (r is Err <==> client.access_token is None),
        ids@.len() > 0 ==> (r matches Ok(step) ==> (step matches ListEventsStep::Details(q)
            && is_token_request(*client, q, Method::Post, "/cgi-bin/oa/schedule/get"@, Some(details_body_v(ids@))))),
        r is Err ==> r->Err_0 is Auth,
{
    if ids.len() == 0 {
        return Ok(ListEventsStep::Empty);
    }
    let q = details_request(client, ids)?;
    Ok(ListEventsStep::Details(q))
}

/// The request for the details of schedules.
pub fn details_request(client: &WeComClient, ids: &Vec<String>) -> (r: Result<HttpRequest, ImError>)
    ensures
        token_result(*client, r, Method::Post, "/cgi-bin/oa/schedule/get"@, Some(details_body_v(ids@))),
{
    client.post(
        "/cgi-bin/oa/schedule/get",
        crate::json::obj1("schedule_id_list", crate::json::jstrs(ids)),
    )
}

/// The page of a details reply at the instant `now`: every schedule it carries, in
/// one final page; a reply that is not the expected JSON is a serialization error.
pub fn events_page(parsed: Result<Vec<WcSchedule>, String>, now: i64) -> (r: Result<
    Page<CalendarEvent>,
    ImError,
>)
    ensures
        parsed is Err ==> r == Err::<Page<CalendarEvent>, ImError>(
            ImError::Serialization(parsed->Err_0),
        ),
        parsed matches Ok(items) ==> (r matches Ok(p) && p.items@.len() == items@.len() && (forall|
            i: int,
        |
            0 <= i < items@.len() ==> is_event_of(#[trigger] p.items@[i], items@[i], now))
            && !p.has_more && p.next_cursor is None),
{
    match parsed {
        Ok(items) => Ok(Page { items: events_from_wc(items, now), has_more: false, next_cursor: None }),
        Err(e) => Err(ImError::Serialization(e)),
    }
}

/// The request for one schedule's details.
pub fn get_event_request(client: &WeComClient, event_id: &str) -> (r: Result<HttpRequest, ImError>)
    ensures
        token_result(
            *client,
            r,
            Method::Post,
            "/cgi-bin/oa/schedule/get"@,
            Some(JsonV::Obj(seq![("schedule_id_list"@, JsonV::Arr(seq![JsonV::Str(event_id@)]))])),
        ),
{
    broadcast use crate::json::group_json;

    let mut ids: Vec<Json> = Vec::new();
    ids.push(crate::json::jstr(event_id));
    assert(jv_seq(ids@) =~= seq![JsonV::Str(event_id@)]);
    client.post("/cgi-bin/oa/schedule/get", crate::json::obj1("schedule_id_list", Json::Arr(ids)))
}

/// The reading of one schedule's details at the instant `now`: the first schedule of
/// the reply, or not found ("schedule <id>") where there is none.
pub fn get_event_reply(event_id: &str, parsed: Result<Vec<WcSchedule>, String>, now: i64) -> (r: Result<
    CalendarEvent,
    ImError,
>)
    ensures
        parsed is Err ==> r == Err::<CalendarEvent, ImError>(ImError::Serialization(parsed->Err_0)),
        parsed matches Ok(items) ==> (items@.len() == 0 ==> (r matches Err(ImError::NotFound {
            resource: res,
        }) && res@ == "schedule "@ + event_id@)),
        parsed matches Ok(items) ==> (items@.len() > 0 ==> (r matches Ok(e) && is_event_of(
            e,
            items@[0],
            now,
        ))),
{
    let mut items = match parsed {
        Ok(items) => items,
        Err(e) => {
            return Err(ImError::Serialization(e));
        },
    };
    if items.len() == 0 {
        return Err(ImError::NotFound { resource: crate::text::concat2("schedule ", event_id) });
    }
    let first = items.remove(0);
    Ok(event_from_wc(first, now))
}

/// The body of an update: the schedule's id, then only what the request changes.
pub open spec fn update_body_v(req: UpdateEventRequest) -> JsonV {
    JsonV::Obj(
        seq![
            (
                "schedule"@,
                JsonV::Obj(
                    seq![("schedule_id"@, JsonV::Str(req.event_id@))] + (match req.title {
                        Some(t) => seq![("summary"@, JsonV::Str(t@))],
                        None => Seq::empty(),
                    }) + (match req.description {
                        Some(d) => seq![("description"@, JsonV::Str(d@))],
                        None => Seq::empty(),
                    }) + (match req.start_time {
                        Some(t) => seq![("start_time"@, JsonV::Str(secs_text(t)))],
                        None => Seq::empty(),
                    }) + (match req.end_time {
                        Some(t) => seq![("end_time"@, JsonV::Str(secs_text(t)))],
                        None => Seq::empty(),
                    }) + (match req.location {
                        Some(l) => seq![("location"@, JsonV::Str(l@))],
                        None => Seq::empty(),
                    }),
                ),
            ),
        ],
    )
}

/// The update request; once it succeeds the event is read back with
/// `get_event_request`.
pub fn update_event_request(client: &WeComClient, req: &UpdateEventRequest) -> (r: Result<
    HttpRequest,
    ImError,
>)
    ensures
        token_result(*client, r, Method::Post, "/cgi-bin/oa/schedule/update"@, Some(update_body_v(*req))),
{
    broadcast use crate::json::group_json;

    let mut m: Vec<(String, Json)> = Vec::new();
    put(&mut m, "schedule_id", Json::Str(req.event_id.clone()));
    match &req.title {
        Some(t) => put(&mut m, "summary", Json::Str(t.clone())),
        None => {},
    }
    match &req.description {
        Some(d) => put(&mut m, "description", Json::Str(d.clone())),
        None => {},
    }
    match req.start_time {
        Some(t) => put(&mut m, "start_time", secs_str(t)),
        None => {},
    }
    match req.end_time {
        Some(t) => put(&mut m, "end_time", secs_str(t)),
        None => {},
    }
    match &req.location {
        Some(l) => put(&mut m, "location", Json::Str(l.clone())),
        None => {},
    }
    assert(jv_members(m@) =~= update_body_v(*req)->Obj_0[0].1->Obj_0);
    client.post("/cgi-bin/oa/schedule/update", crate::json::obj1("schedule", Json::Obj(m)))
}

/// The request that deletes a schedule.
pub fn delete_event_request(client: &WeComClient, event_id: &str) -> (r: Result<HttpRequest, ImError>)
    ensures
        token_result(
            *client,
            r,
            Method::Post,
            "/cgi-bin/oa/schedule/del"@,
            Some(JsonV::Obj(seq![("schedule_id"@, JsonV::Str(event_id@))])),
        ),
{
    client.post("/cgi-bin/oa/schedule/del", crate::json::obj1("schedule_id", crate::json::jstr(event_id)))
}

/// The body of a free/busy query.
pub open spec fn free_busy_body_v(req: FreeBusyRequest) -> JsonV {
    JsonV::Obj(
        seq![
            ("check_user_list"@, JsonV::Arr(str_arr(req.user_ids@))),
            ("start_time"@, JsonV::Str(second_text(req.start_time))),
            ("end_time"@, JsonV::Str(second_text(req.end_time))),
        ],
    )
}

pub fn free_busy_request(client: &WeComClient, req: &FreeBusyRequest) -> (r: Result<HttpRequest, ImError>)
    ensures
        token_result(
            *client,
            r,
            Method::Post,
            "/cgi-bin/oa/schedule/check_availability"@,
            Some(free_busy_body_v(*req)),
        ),
{
    broadcast use crate::json::group_json;

    let mut m: Vec<(String, Json)> = Vec::new();
    put(&mut m, "check_user_list", crate::json::jstrs(&req.user_ids));
    put(&mut m, "start_time", Json::Str(crate::time::fmt_utc(req.start_time, "%Y-%m-%d %H:%M:%S")));
    put(&mut m, "end_time", Json::Str(crate::time::fmt_utc(req.end_time, "%Y-%m-%d %H:%M:%S")));
    assert(jv_members(m@) =~= free_busy_body_v(*req)->Obj_0);
    client.post("/cgi-bin/oa/schedule/check_availability", Json::Obj(m))
}

/// A busy slot as WeCom gives it; times are whole seconds.
pub struct WcBusySlot {
    pub start_time: Option<i64>,
    pub end_time: Option<i64>,
    pub subject: Option<String>,
}

/// One user's busy slots as WeCom gives them.
pub struct WcUserBusy {
    pub userid: Option<String>,
    /// The slots, where the reply lists them.
    pub busy_slots: Option<Vec<WcBusySlot>>,
}

/// A slot time: whole seconds (0 where missing), or `now` where chrono cannot
/// represent it.
pub open spec fn slot_time(t: Option<i64>, now: i64) -> i64 {
    secs_or_now(
        match t {
            Some(v) => v,
            None => 0,
        },
        now,
    )
}

/// The busy slots of one user at the instant `now`, in order.
pub open spec fn user_slots_ok(r: Seq<BusySlot>, u: WcUserBusy, now: i64) -> bool {
    match u.busy_slots {
        Some(ss) => r.len() == ss@.len() && forall|i: int|
            0 <= i < r.len() ==> (#[trigger] r[i]).user_id@ == or_empty(u.userid) && r[i].start_time
                == slot_time(ss@[i].start_time, now) && r[i].end_time == slot_time(ss@[i].end_time, now)
                && r[i].subject == ss@[i].subject,
        None => r.len() == 0,
    }
}

fn user_slots(u: WcUserBusy, now: i64) -> (r: Vec<BusySlot>)
    ensures
        user_slots_ok(r@, u, now),
{
    let uid = crate::text::unwrap_or_empty(u.userid);
    let ghost uidv = uid@;
    let mut out: Vec<BusySlot> = Vec::new();
    match u.busy_slots {
        Some(ss) => {
            let ghost all = ss@;
            for s in it: ss.into_iter()
                invariant
                    it.seq() == all,
                    uid@ == uidv,
                    out@.len() == it.index(),
                    forall|k: int|
                        0 <= k < out@.len() ==> (#[trigger] out@[k]).user_id@ == uidv
                            && out@[k].start_time == slot_time(all[k].start_time, now)
                            && out@[k].end_time == slot_time(all[k].end_time, now)
                            && out@[k].subject == all[k].subject,
            {
                let st = time_of_secs(
                    match s.start_time {
                        Some(v) => v,
                        None => 0,
                    },
                    now,
                );
                let et = time_of_secs(
                    match s.end_time {
                        Some(v) => v,
                        None => 0,
                    },
                    now,
                );
                out.push(BusySlot { user_id: uid.clone(), start_time: st, end_time: et, subject: s.subject });
            }
        },
        None => {},
    }
    out
}

/// The busy slots of the reply at the instant `now`: each user's slots in turn.
pub fn busy_slots(users: Vec<WcUserBusy>, now: i64) -> (r: Vec<BusySlot>)
    ensures
        exists|parts: Seq<Seq<BusySlot>>|
            parts.len() == users@.len() && (forall|i: int|
                0 <= i < users@.len() ==> user_slots_ok(#[trigger] parts[i], users@[i], now))
                && r@ == parts.flatten(),
{
    let mut out: Vec<BusySlot> = Vec::new();
    let ghost mut parts: Seq<Seq<BusySlot>> = Seq::empty();
    let ghost all = users@;
    for u in it: users.into_iter()
        invariant
            it.seq() == all,
            parts.len() == it.index(),
            forall|k: int| 0 <= k < parts.len() ==> user_slots_ok(#[trigger] parts[k], all[k], now),
            out@ == parts.flatten(),
    {
        let mut slots = user_slots(u, now);
        let ghost sv = slots@;
        proof {
            parts.lemma_flatten_push(sv);
            parts = parts.push(sv);
        }
        out.append(&mut slots);
    }
    out
}

} // verus!
