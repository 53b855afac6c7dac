//! DingTalk calendar events on the user's primary calendar, and free/busy queries.

use crate::dingtalk::client::DingTalkClient;
use crate::http::{HttpRequest, Method};
use crate::json::{jv_members, opt_str_v, put, str_arr, Json, JsonV};
use crate::model::{
    BusySlot, CalendarEvent, CreateEventRequest, FreeBusyRequest, ImError, Page, UpdateEventRequest,
};
use crate::text::or_empty;
use crate::time::{rfc3339_instant, rfc3339_text};
use vstd::prelude::*;

verus! {

/// The path of the primary calendar's events.
pub open spec fn events_path() -> Seq<char> {
    "/v1.0/calendar/users/me/calendars/primary/events"@
}

/// The instant of an RFC 3339 text, or `now` where there is none or it does not read.
pub open spec fn time_or_now(s: Option<String>, now: i64) -> i64 {
    match s {
        Some(t) => match rfc3339_instant(t@) {
            Some(ms) => ms,
            None => now,
        },
        None => now,
    }
}

pub fn parse_dt(s: &Option<String>, now: i64) -> (r: i64)
    ensures
        r == time_or_now(*s, now),
{
    match s {
        Some(t) => match crate::time::parse_rfc3339(t.as_str()) {
            Some(ms) => ms,
            None => now,
        },
        None => now,
    }
}

/// An event as DingTalk gives it.
pub struct DtEvent {
    pub event_id: Option<String>,
    pub title: Option<String>,
    pub description: Option<String>,
    pub start: Option<String>,
    pub end: Option<String>,
    pub location: Option<String>,
}

/// What a DingTalk event says of an event at the instant `now`, which stands for
/// missing times.
pub open spec fn is_event_of(r: CalendarEvent, e: DtEvent, now: i64) -> bool {
    &&& r.id@ == or_empty(e.event_id)
    &&& r.title@ == or_empty(e.title)
    &&& r.description == e.description
    &&& r.start_time == time_or_now(e.start, now)
    &&& r.end_time == time_or_now(e.end, now)
    &&& r.location == e.location
    &&& !r.is_all_day
    &&& r.attendees@.len() == 0
    &&& r.extra@ == JsonV::Null
}

pub fn event_from_dt(e: DtEvent, now: i64) -> (r: CalendarEvent)
    ensures
        is_event_of(r, e, now),
{
    let start = parse_dt(&e.start, now);
    let end = parse_dt(&e.end, now);
    CalendarEvent {
        id: crate::text::unwrap_or_empty(e.event_id),
        title: crate::text::unwrap_or_empty(e.title),
        description: e.description,
        start_time: start,
        end_time: end,
        location: e.location,
        is_all_day: false,
        attendees: Vec::new(),
        extra: Json::Null,
    }
}

/// The events of the reply's items at the instant `now`: DingTalk gives one page.
pub fn events_page(items: Vec<DtEvent>, now: i64) -> (r: Page<CalendarEvent>)
    ensures
        r.items@.len() == items@.len(),
        forall|i: int| 0 <= i < items@.len() ==> is_event_of(#[trigger] r.items@[i], items@[i], now),
        !r.has_more,
        r.next_cursor is None,
{
    let mut out: Vec<CalendarEvent> = Vec::new();
    let ghost all = items@;
    for e in it: items.into_iter()
        invariant
            it.seq() == all,
            out@.len() == it.index(),
            forall|k: int| 0 <= k < out@.len() ==> is_event_of(#[trigger] out@[k], all[k], now),
    {
        out.push(event_from_dt(e, now));
    }
    Page { items: out, has_more: false, next_cursor: None }
}

pub open spec fn date_time_v(ms: i64) -> JsonV {
    JsonV::Obj(seq![("dateTime"@, JsonV::Str(rfc3339_text(ms)))])
}

fn date_time(ms: i64) -> (r: Json)
    ensures
        r@ == date_time_v(ms),
{
    crate::json::obj1("dateTime", Json::Str(crate::time::fmt_rfc3339(ms)))
}

/// The body of a new event.
pub open spec fn create_body_v(req: CreateEventRequest) -> JsonV {
    JsonV::Obj(
        seq![
            ("title"@, JsonV::Str(req.title@)),
            ("description"@, opt_str_v(req.description)),
            ("start"@, date_time_v(req.start_time)),
            ("end"@, date_time_v(req.end_time)),
            (
                "location"@,
                match req.location {
                    Some(l) => JsonV::Obj(seq![("displayName"@, JsonV::Str(l@))]),
                    None => JsonV::Null,
                },
            ),
        ],
    )
}

pub fn create_event_request(client: &DingTalkClient, req: &CreateEventRequest) -> (r: Result<
    HttpRequest,
    ImError,
>)
    ensures
        r is Ok <==> client.access_token is Some,
        r matches Ok(q) ==> q.method == Method::Post && q.url@ == client.base_url@ + events_path() && (
        q.body matches Some(b) && b@ == create_body_v(*req)),
{
    broadcast use crate::json::group_json;

    let mut m: Vec<(String, Json)> = Vec::new();
    put(&mut m, "title", Json::Str(req.title.clone()));
    put(&mut m, "description", crate::json::jopt(req.description.clone()));
    put(&mut m, "start", date_time(req.start_time));
    put(&mut m, "end", date_time(req.end_time));
    let loc = match &req.location {
        Some(l) => crate::json::obj1("displayName", Json::Str(l.clone())),
        None => Json::Null,
    };
    put(&mut m, "location", loc);
    assert(jv_members(m@) =~= create_body_v(*req)->Obj_0);
    client.post("/v1.0/calendar/users/me/calendars/primary/events", Json::Obj(m))
}

/// The listing path: the range as RFC 3339 texts.
pub fn list_events_path(start_time: i64, end_time: i64) -> (r: String)
    ensures
        r@ == events_path() + "?timeMin="@ + rfc3339_text(start_time) + "&timeMax="@ + rfc3339_text(end_time),
{
    let mut p = crate::text::lit("/v1.0/calendar/users/me/calendars/primary/events");
    crate::text::push_str(&mut p, "?timeMin=");
    let a = crate::time::fmt_rfc3339(start_time);
    crate::text::push_str(&mut p, a.as_str());
    crate::text::push_str(&mut p, "&timeMax=");
    let b = crate::time::fmt_rfc3339(end_time);
    crate::text::push_str(&mut p, b.as_str());
    p
}

/// The path of one event.
pub fn event_path(event_id: &str) -> (r: String)
    ensures
        r@ == events_path() + "/"@ + event_id@,
{
    let mut p = crate::text::lit("/v1.0/calendar/users/me/calendars/primary/events");
    crate::text::push_str(&mut p, "/");
    crate::text::push_str(&mut p, event_id);
    p
}

/// The body of an update: only what the request changes (the location is not sent).
pub open spec fn update_body_v(req: UpdateEventRequest) -> JsonV {
    JsonV::Obj(
        (match req.title {
            Some(t) => seq![("title"@, JsonV::Str(t@))],
            None => Seq::empty(),
        }) + (match req.description {
            Some(d) => seq![("description"@, JsonV::Str(d@))],
            None => Seq::empty(),
        }) + (match req.start_time {
            Some(t) => seq![("start"@, date_time_v(t))],
            None => Seq::empty(),
        }) + (match req.end_time {
            Some(t) => seq![("end"@, date_time_v(t))],
            None => Seq::empty(),
        }),
    )
}

pub fn update_event_request(client: &DingTalkClient, req: &UpdateEventRequest) -> (r: Result<
    HttpRequest,
    ImError,
>)
    ensures
        r is Ok <==> client.access_token is Some,
        r matches Ok(q) ==> q.method == Method::Post && q.url@ == client.base_url@ + events_path() + "/"@
            + req.event_id@ && (q.body matches Some(b) && b@ == update_body_v(*req)),
{
    broadcast use crate::json::group_json;

    let mut m: Vec<(String, Json)> = Vec::new();
    match &req.title {
        Some(t) => put(&mut m, "title", Json::Str(t.clone())),
        None => {},
    }
    match &req.description {
        Some(d) => put(&mut m, "description", Json::Str(d.clone())),
        None => {},
    }
    match req.start_time {
        Some(t) => put(&mut m, "start", date_time(t)),
        None => {},
    }
    match req.end_time {
        Some(t) => put(&mut m, "end", date_time(t)),
        None => {},
    }
    assert(jv_members(m@) =~= update_body_v(*req)->Obj_0);
    let p = event_path(req.event_id.as_str());
    client.post(p.as_str(), Json::Obj(m))
}

/// The body of a free/busy query.
pub open spec fn free_busy_body_v(req: FreeBusyRequest) -> JsonV {
    JsonV::Obj(
        seq![
            ("userIds"@, JsonV::Arr(str_arr(req.user_ids@))),
            ("timeMin"@, JsonV::Str(rfc3339_text(req.start_time))),
            ("timeMax"@, JsonV::Str(rfc3339_text(req.end_time))),
        ],
    )
}

pub fn free_busy_request(client: &DingTalkClient, req: &FreeBusyRequest) -> (r: Result<HttpRequest, ImError>)
    ensures
        r is Ok <==> client.access_token is Some,
        r matches Ok(q) ==> q.method == Method::Post && q.url@ == client.base_url@
            + "/v1.0/calendar/users/me/calendars/primary/freeBusy/query"@ && (q.body matches Some(b)
            && b@ == free_busy_body_v(*req)),
{
    broadcast use crate::json::group_json;

    let mut m: Vec<(String, Json)> = Vec::new();
    put(&mut m, "userIds", crate::json::jstrs(&req.user_ids));
    put(&mut m, "timeMin", Json::Str(crate::time::fmt_rfc3339(req.start_time)));
    put(&mut m, "timeMax", Json::Str(crate::time::fmt_rfc3339(req.end_time)));
    assert(jv_members(m@) =~= free_busy_body_v(*req)->Obj_0);
    client.post("/v1.0/calendar/users/me/calendars/primary/freeBusy/query", Json::Obj(m))
}

/// One busy entry as DingTalk gives it.
pub struct DtBusy {
    pub user_id: Option<String>,
    pub start_time: Option<String>,
    pub end_time: Option<String>,
    pub subject: Option<String>,
}

/// Whether an entry names its user, start and end.
pub open spec fn complete(b: DtBusy) -> bool {
    b.user_id is Some && b.start_time is Some && b.end_time is Some
}

/// The complete entries, in order.
pub open spec fn complete_entries(s: Seq<DtBusy>) -> Seq<DtBusy>
    decreases s.len(),
{
    if s.len() == 0 {
        Seq::empty()
    } else if complete(s.last()) {
        complete_entries(s.drop_last()).push(s.last())
    } else {
        complete_entries(s.drop_last())
    }
}

pub open spec fn is_slot_of(r: BusySlot, b: DtBusy, now: i64) -> bool {
    r.user_id@ == or_empty(b.user_id) && r.start_time == time_or_now(b.start_time, now) && r.end_time
        == time_or_now(b.end_time, now) && r.subject == b.subject
}

/// The busy slots of the reply at the instant `now`: one per entry that names its
/// user, start and end; the others are left out.
pub fn busy_slots(items: Vec<DtBusy>, now: i64) -> (r: Vec<BusySlot>)
    ensures
        r@.len() == complete_entries(items@).len(),
        forall|i: int| 0 <= i < r@.len() ==> is_slot_of(#[trigger] r@[i], complete_entries(items@)[i], now),
{
    let mut out: Vec<BusySlot> = Vec::new();
    let ghost all = items@;
    for b in it: items.into_iter()
        invariant
            it.seq() == all,
            it.index() <= all.len(),
            out@.len() == complete_entries(all.take(it.index() as int)).len(),
            forall|k: int|
                0 <= k < out@.len() ==> is_slot_of(
                    #[trigger] out@[k],
                    complete_entries(all.take(it.index() as int))[k],
                    now,
                ),
    {
        let ghost i = it.index();
        proof {
            assert(all.take(i + 1).drop_last() =~= all.take(i as int));
        }
        if b.user_id.is_some() && b.start_time.is_some() && b.end_time.is_some() {
            let st = parse_dt(&b.start_time, now);
            let et = parse_dt(&b.end_time, now);
            out.push(
                BusySlot {
                    user_id: crate::text::unwrap_or_empty(b.user_id),
                    start_time: st,
                    end_time: et,
                    subject: b.subject,
                },
            );
        }
    }
    assert(all.take(all.len() as int) =~= all);
    out
}

} // verus!
