//! Lark calendar events on the primary calendar, and free/busy queries.

use crate::http::{HttpRequest, Method};
use crate::json::{jv_members, jv_seq, opt_str_v, put, str_arr, Json, JsonV};
use crate::lark::client::{authed_result, LarkClient};
use crate::lark::meeting::{instant_of, instant_or_now};
use crate::lark::messaging::millis_to_secs;
use crate::model::{
    AttendeeStatus, BusySlot, CalendarEvent, CreateEventRequest, EventAttendee, FreeBusyRequest,
    ImError, ListEventsRequest, Page, UpdateEventRequest,
};
use crate::text::{dec_int, dec_nat, opt_view, or_empty, str_eq};
use vstd::prelude::*;

verus! {

/// The path of the primary calendar's events.
pub open spec fn events_path() -> Seq<char> {
    "/open-apis/calendar/v4/calendars/primary/events"@
}

/// The status of a Lark attendee's answer.
pub open spec fn attendee_status_of(s: Option<String>) -> AttendeeStatus {
    match opt_view(s) {
        Some(t) => if t == "accept"@ {
            AttendeeStatus::Accepted
        } else if t == "decline"@ {
            AttendeeStatus::Declined
        } else if t == "tentative"@ {
            AttendeeStatus::Tentative
        } else {
            AttendeeStatus::Unknown
        },
        None => AttendeeStatus::Unknown,
    }
}

fn attendee_status(s: &Option<String>) -> (r: AttendeeStatus)
    ensures
        r == attendee_status_of(*s),
{
    match s {
        Some(t) => if str_eq(t.as_str(), "accept") {
            AttendeeStatus::Accepted
        } else if str_eq(t.as_str(), "decline") {
            AttendeeStatus::Declined
        } else if str_eq(t.as_str(), "tentative") {
            AttendeeStatus::Tentative
        } else {
            AttendeeStatus::Unknown
        },
        None => AttendeeStatus::Unknown,
    }
}

/// How Lark's RSVP statuses read: "accept" as accepted, "decline" as declined,
/// "tentative" as tentative, each from that text alone; any other status, or none,
/// is unknown. So a declining attendee never reads as accepted.
pub proof fn law_rsvp_texts(s: Option<String>)
    ensures
        (attendee_status_of(s) == AttendeeStatus::Accepted) <==> opt_view(s) == Some("accept"@),
        (attendee_status_of(s) == AttendeeStatus::Declined) <==> opt_view(s) == Some("decline"@),
        (attendee_status_of(s) == AttendeeStatus::Tentative) <==> opt_view(s) == Some("tentative"@),
        (attendee_status_of(s) == AttendeeStatus::Unknown) <==> !(opt_view(s) == Some("accept"@)
            || opt_view(s) == Some("decline"@) || opt_view(s) == Some("tentative"@)),
{
    reveal_strlit("accept");
    reveal_strlit("decline");
    reveal_strlit("tentative");
    assert("accept"@.len() == 6 && "decline"@.len() == 7 && "tentative"@.len() == 9);
}

/// An attendee as Lark gives it.
pub struct LarkAttendee {
    pub user_id: Option<String>,
    pub display_name: Option<String>,
    pub status: Option<String>,
}

/// An event as Lark gives it; times are decimal seconds.
pub struct LarkEvent {
    pub event_id: Option<String>,
    pub summary: Option<String>,
    pub description: Option<String>,
    pub start_timestamp: Option<String>,
    pub end_timestamp: Option<String>,
    pub location_name: Option<String>,
    pub attendees: Vec<LarkAttendee>,
}

pub open spec fn is_attendee_of(r: EventAttendee, a: LarkAttendee) -> bool {
    r.user_id@ == or_empty(a.user_id) && r.name == a.display_name && r.status == attendee_status_of(
        a.status,
    )
}

/// What a Lark event says of an event at the instant `now`, which stands for missing
/// times.
pub open spec fn is_event_of(r: CalendarEvent, e: LarkEvent, now: i64) -> bool {
    &&& r.id@ == or_empty(e.event_id)
    &&& r.title@ == or_empty(e.summary)
    &&& r.description == e.description
    &&& r.start_time == instant_or_now(e.start_timestamp, now)
    &&& r.end_time == instant_or_now(e.end_timestamp, now)
    &&& r.location == e.location_name
    &&& !r.is_all_day
    &&& r.attendees@.len() == e.attendees@.len()
    &&& forall|i: int| 0 <= i < e.attendees@.len() ==> is_attendee_of(#[trigger] r.attendees@[i], e.attendees@[i])
    &&& r.extra@ == JsonV::Null
}

pub fn event_from_lark(e: LarkEvent, now: i64) -> (r: CalendarEvent)
    ensures
        is_event_of(r, e, now),
{
    let start = instant_of(&e.start_timestamp, now);
    let end = instant_of(&e.end_timestamp, now);
    let mut attendees: Vec<EventAttendee> = Vec::new();
    let ghost all = e.attendees@;
    for a in it: e.attendees.into_iter()
        invariant
            it.seq() == all,
            attendees@.len() == it.index(),
            forall|k: int| 0 <= k < attendees@.len() ==> is_attendee_of(#[trigger] attendees@[k], all[k]),
    {
        let status = attendee_status(&a.status);
        attendees.push(
            EventAttendee { user_id: crate::text::unwrap_or_empty(a.user_id), name: a.display_name, status },
        );
    }
    CalendarEvent {
        id: crate::text::unwrap_or_empty(e.event_id),
        title: crate::text::unwrap_or_empty(e.summary),
        description: e.description,
        start_time: start,
        end_time: end,
        location: e.location_name,
        is_all_day: false,
        attendees,
        extra: Json::Null,
    }
}

/// The events of the reply's items at the instant `now`, with `has_more` (false where
/// absent) and page token.
pub fn events_page(items: Vec<LarkEvent>, has_more: Option<bool>, page_token: Option<String>, now: i64) -> (r:
    Page<CalendarEvent>)
    ensures
        r.items@.len() == items@.len(),
        forall|i: int| 0 <= i < items@.len() ==> is_event_of(#[trigger] r.items@[i], items@[i], now),
        r.has_more == (has_more == Some(true)),
        r.next_cursor == page_token,
{
    let mut out: Vec<CalendarEvent> = Vec::new();
    let ghost all = items@;
    for e in it: items.into_iter()
        invariant
            it.seq() == all,
            out@.len() == it.index(),
            forall|k: int| 0 <= k < out@.len() ==> is_event_of(#[trigger] out@[k], all[k], now),
    {
        out.push(event_from_lark(e, now));
    }
    let more = match has_more {
        Some(b) => b,
        None => false,
    };
    Page { items: out, has_more: more, next_cursor: page_token }
}

/// A time as Lark's calendar takes it.
pub open spec fn time_v(ms: i64) -> JsonV {
    JsonV::Obj(seq![("timestamp"@, JsonV::Str(dec_int(ms / 1000)))])
}

/// An event time written to Lark reads back, from the text its `timestamp` carries,
/// as the same instant rounded down to the second, wherever chrono can represent
/// that second.
pub proof fn law_event_time_roundtrip(ms: i64, t: String, now: i64)
    requires
        time_v(ms) == JsonV::Obj(seq![("timestamp"@, JsonV::Str(t@))]),
    ensures
        instant_or_now(Some(t), now) == (if crate::time::secs_representable((ms / 1000) as i64) {
            (ms / 1000) * 1000
        } else {
            now as int
        }),
{
    let a = seq![("timestamp"@, JsonV::Str(dec_int(ms / 1000)))];
    let b = seq![("timestamp"@, JsonV::Str(t@))];
    assert(a[0] == b[0]);
    crate::text::law_decimal_roundtrip((ms / 1000) as i64);
}

fn time_json(ms: i64) -> (r: Json)
    ensures
        r@ == time_v(ms),
{
    crate::json::obj1("timestamp", Json::Str(crate::text::fmt_i64(millis_to_secs(ms))))
}

pub open spec fn user_ids_v(s: Seq<String>) -> Seq<JsonV>
    decreases s.len(),
{
    if s.len() == 0 {
        Seq::empty()
    } else {
        user_ids_v(s.drop_last()).push(JsonV::Obj(seq![("user_id"@, JsonV::Str(s.last()@))]))
    }
}

fn user_ids_json(ids: &Vec<String>) -> (r: Json)
    ensures
        r@ == JsonV::Arr(user_ids_v(ids@)),
{
    broadcast use crate::json::group_json;

    let mut out: Vec<Json> = Vec::new();
    let mut i: usize = 0;
    while i < ids.len()
        invariant
            i <= ids@.len(),
            jv_seq(out@) == user_ids_v(ids@.subrange(0, i as int)),
        decreases ids@.len() - i,
    {
        let item = crate::json::obj1("user_id", Json::Str(ids[i].clone()));
        let ghost before = out@;
        let ghost ig = item;
        out.push(item);
        proof {
            crate::json::lemma_jv_seq_push(before, ig);
            assert(ids@.subrange(0, i + 1).drop_last() =~= ids@.subrange(0, i as int));
        }
        i = i + 1;
    }
    assert(ids@.subrange(0, ids@.len() as int) =~= ids@);
    Json::Arr(out)
}

/// The body of a new event.
pub open spec fn create_body_v(req: CreateEventRequest) -> JsonV {
    JsonV::Obj(
        seq![
            ("summary"@, JsonV::Str(req.title@)),
            ("description"@, opt_str_v(req.description)),
            ("start_time"@, time_v(req.start_time)),
            ("end_time"@, time_v(req.end_time)),
            (
                "location"@,
                match req.location {
                    Some(l) => JsonV::Obj(seq![("name"@, JsonV::Str(l@))]),
                    None => JsonV::Null,
                },
            ),
            ("attendees"@, JsonV::Arr(user_ids_v(req.attendee_ids@))),
        ],
    )
}

pub fn create_event_request(client: &LarkClient, req: &CreateEventRequest) -> (r: Result<
    HttpRequest,
    ImError,
>)
    ensures
        authed_result(*client, r, Method::Post, events_path(), Some(create_body_v(*req))),
{
    broadcast use crate::json::group_json;

    let mut m: Vec<(String, Json)> = Vec::new();
    put(&mut m, "summary", Json::Str(req.title.clone()));
    put(&mut m, "description", crate::json::jopt(req.description.clone()));
    put(&mut m, "start_time", time_json(req.start_time));
    put(&mut m, "end_time", time_json(req.end_time));
    let loc = match &req.location {
        Some(l) => crate::json::obj1("name", Json::Str(l.clone())),
        None => Json::Null,
    };
    put(&mut m, "location", loc);
    put(&mut m, "attendees", user_ids_json(&req.attendee_ids));
    assert(jv_members(m@) =~= create_body_v(*req)->Obj_0);
    client.post("/open-apis/calendar/v4/calendars/primary/events", Json::Obj(m))
}

/// The listing path: the range in whole seconds, then the cursor and page size where
/// given.
pub open spec fn list_path_v(req: ListEventsRequest) -> Seq<char> {
    events_path() + "?start_time="@ + dec_int(req.start_time / 1000) + "&end_time="@ + dec_int(
        req.end_time / 1000,
    ) + (match req.cursor {
        Some(c) => "&page_token="@ + c@,
        None => Seq::empty(),
    }) + (match req.limit {
        Some(l) => "&page_size="@ + dec_nat(l as nat),
        None => Seq::empty(),
    })
}

pub fn list_events_path(req: &ListEventsRequest) -> (r: String)
    ensures
        r@ == list_path_v(*req),
{
    let mut p = crate::text::lit("/open-apis/calendar/v4/calendars/primary/events");
    crate::text::push_str(&mut p, "?start_time=");
    let a = crate::text::fmt_i64(millis_to_secs(req.start_time));
    crate::text::push_str(&mut p, a.as_str());
    crate::text::push_str(&mut p, "&end_time=");
    let b = crate::text::fmt_i64(millis_to_secs(req.end_time));
    crate::text::push_str(&mut p, b.as_str());
    let ghost p0 = p@;
    match &req.cursor {
        Some(c) => {
            crate::text::push_str(&mut p, "&page_token=");
            crate::text::push_str(&mut p, c.as_str());
        },
        None => {},
    }
    let ghost p1 = p@;
    match req.limit {
        Some(l) => {
            crate::text::push_str(&mut p, "&page_size=");
            let n = crate::text::fmt_u64(l as u64);
            crate::text::push_str(&mut p, n.as_str());
        },
        None => {},
    }
    assert(p@ =~= list_path_v(*req));
    p
}

/// The path of one event.
pub fn event_path(event_id: &str) -> (r: String)
    ensures
        r@ == events_path() + "/"@ + event_id@,
{
    let mut p = crate::text::lit("/open-apis/calendar/v4/calendars/primary/events");
    crate::text::push_str(&mut p, "/");
    crate::text::push_str(&mut p, event_id);
    p
}

/// The body of an update: only what the request changes.
pub open spec fn update_body_v(req: UpdateEventRequest) -> JsonV {
    JsonV::Obj(
        (match req.title {
            Some(t) => seq![("summary"@, JsonV::Str(t@))],
            None => Seq::empty(),
        }) + (match req.description {
            Some(d) => seq![("description"@, JsonV::Str(d@))],
            None => Seq::empty(),
        }) + (match req.start_time {
            Some(t) => seq![("start_time"@, time_v(t))],
            None => Seq::empty(),
        }) + (match req.end_time {
            Some(t) => seq![("end_time"@, time_v(t))],
            None => Seq::empty(),
        }) + (match req.location {
            Some(l) => seq![("location"@, JsonV::Obj(seq![("name"@, JsonV::Str(l@))]))],
            None => Seq::empty(),
        }),
    )
}

pub fn update_event_request(client: &LarkClient, req: &UpdateEventRequest) -> (r: Result<
    HttpRequest,
    ImError,
>)
    ensures
        authed_result(*client, r, Method::Put, events_path() + "/"@ + req.event_id@, Some(update_body_v(*req))),
{
    broadcast use crate::json::group_json;

    let mut m: Vec<(String, Json)> = Vec::new();
    match &req.title {
        Some(t) => put(&mut m, "summary", Json::Str(t.clone())),
        None => {},
    }
    match &req.description {
        Some(d) => put(&mut m, "description", Json::Str(d.clone())),
        None => {},
    }
    match req.start_time {
        Some(t) => put(&mut m, "start_time", time_json(t)),
        None => {},
    }
    match req.end_time {
        Some(t) => put(&mut m, "end_time", time_json(t)),
        None => {},
    }
    match &req.location {
        Some(l) => put(&mut m, "location", crate::json::obj1("name", Json::Str(l.clone()))),
        None => {},
    }
    assert(jv_members(m@) =~= update_body_v(*req)->Obj_0);
    let p = event_path(req.event_id.as_str());
    client.put(p.as_str(), Json::Obj(m))
}

/// The body of a free/busy query: the range in whole seconds, as text, and the users.
pub open spec fn free_busy_body_v(req: FreeBusyRequest) -> JsonV {
    JsonV::Obj(
        seq![
            ("time_min"@, JsonV::Str(dec_int(req.start_time / 1000))),
            ("time_max"@, JsonV::Str(dec_int(req.end_time / 1000))),
            ("user_id_list"@, JsonV::Arr(str_arr(req.user_ids@))),
        ],
    )
}

pub fn free_busy_request(client: &LarkClient, req: &FreeBusyRequest) -> (r: Result<HttpRequest, ImError>)
    ensures
        authed_result(
            *client,
            r,
            Method::Post,
            "/open-apis/calendar/v4/calendars/primary/freebusy/query"@,
            Some(free_busy_body_v(*req)),
        ),
{
    broadcast use crate::json::group_json;

    let mut m: Vec<(String, Json)> = Vec::new();
    put(&mut m, "time_min", Json::Str(crate::text::fmt_i64(millis_to_secs(req.start_time))));
    put(&mut m, "time_max", Json::Str(crate::text::fmt_i64(millis_to_secs(req.end_time))));
    put(&mut m, "user_id_list", crate::json::jstrs(&req.user_ids));
    assert(jv_members(m@) =~= free_busy_body_v(*req)->Obj_0);
    client.post("/open-apis/calendar/v4/calendars/primary/freebusy/query", Json::Obj(m))
}

/// One user's busy ranges as Lark gives them; times are decimal seconds.
pub struct LarkFreeBusy {
    pub user_id: Option<String>,
    /// The ranges, where the reply lists them: start and end.
    pub time_ranges: Option<Vec<(Option<String>, Option<String>)>>,
}

/// The instant (milliseconds) of a slot's decimal seconds: a missing or unreadable
/// time reads as 0 seconds; an instant chrono cannot represent reads as `now`.
pub open spec fn slot_time(s: Option<String>, now: i64) -> int {
    let secs = match s {
        Some(t) => match crate::text::parse_i64_spec(t@) {
            Some(v) => v,
            None => 0,
        },
        None => 0,
    };
    if crate::time::secs_representable(secs) {
        secs * 1000
    } else {
        now as int
    }
}

fn slot_time_of(s: &Option<String>, now: i64) -> (r: i64)
    ensures
        r == slot_time(*s, now),
{
    let secs = match s {
        Some(t) => match crate::text::parse_i64(t.as_str()) {
            Some(v) => v,
            None => 0,
        },
        None => 0,
    };
    match crate::time::from_secs(secs) {
        Some(ms) => ms,
        None => now,
    }
}

/// The busy slots of one user at the instant `now`, in order.
pub open spec fn user_slots_ok(r: Seq<BusySlot>, u: LarkFreeBusy, now: i64) -> bool {
    match u.time_ranges {
        Some(rs) => r.len() == rs@.len() && forall|i: int|
            0 <= i < r.len() ==> (#[trigger] r[i]).user_id@ == or_empty(u.user_id) && r[i].start_time
                == slot_time(rs@[i].0, now) && r[i].end_time == slot_time(rs@[i].1, now)
                && r[i].subject is None,
        None => r.len() == 0,
    }
}

fn user_slots(u: LarkFreeBusy, now: i64) -> (r: Vec<BusySlot>)
    ensures
        user_slots_ok(r@, u, now),
{
    let uid = crate::text::unwrap_or_empty(u.user_id);
    let ghost uidv = uid@;
    let mut out: Vec<BusySlot> = Vec::new();
    match u.time_ranges {
        Some(rs) => {
            let ghost all = rs@;
            for range in it: rs.into_iter()
                invariant
                    it.seq() == all,
                    uid@ == uidv,
                    out@.len() == it.index(),
                    forall|k: int|
                        0 <= k < out@.len() ==> (#[trigger] out@[k]).user_id@ == uidv && out@[k].start_time
                            == slot_time(all[k].0, now) && out@[k].end_time == slot_time(all[k].1, now)
                            && out@[k].subject is None,
            {
                let st = slot_time_of(&range.0, now);
                let et = slot_time_of(&range.1, now);
                out.push(BusySlot { user_id: uid.clone(), start_time: st, end_time: et, subject: None });
            }
        },
        None => {},
    }
    out
}

/// The busy slots of the reply at the instant `now`: each user's slots in turn.
pub fn busy_slots(users: Vec<LarkFreeBusy>, now: i64) -> (r: Vec<BusySlot>)
    ensures
        exists|parts: Seq<Seq<BusySlot>>|
            parts.len() == users@.len() && (forall|i: int|
                0 <= i < users@.len() ==> user_slots_ok(#[trigger] parts[i], users@[i], now))
                && r@ == parts.flatten(),
{
    let mut out: Vec<BusySlot> = Vec::new();
    let ghost mut parts: Seq<Seq<BusySlot>> = Seq::empty();
    let ghost all = users@;
    for u in it: users.into_iter()
        invariant
            it.seq() == all,
            parts.len() == it.index(),
            forall|k: int| 0 <= k < parts.len() ==> user_slots_ok(#[trigger] parts[k], all[k], now),
            out@ == parts.flatten(),
    {
        let mut slots = user_slots(u, now);
        let ghost sv = slots@;
        proof {
            parts.lemma_flatten_push(sv);
            parts = parts.push(sv);
        }
        out.append(&mut slots);
    }
    out
}

} // verus!
