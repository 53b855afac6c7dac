//! DingTalk meeting rooms: search, lookup, and booking on calendar events.

use crate::dingtalk::client::DingTalkClient;
use crate::dingtalk::data_table::dt_authed;
use crate::http::{HttpRequest, Method};
use crate::json::{jv_members, put, Json, JsonV};
use crate::model::{BookRoomRequest, ImError, MeetingRoom, Page, SearchRoomRequest};
use crate::text::or_empty;
use crate::time::rfc3339_text;
use vstd::prelude::*;

verus! {

/// Where a room stands, as DingTalk gives it.
pub struct DtRoomLocation {
    pub building_name: Option<String>,
    pub floor_name: Option<String>,
}

/// A room as DingTalk gives it.
pub struct DtRoom {
    pub room_id: Option<String>,
    pub title: Option<String>,
    pub capacity: Option<u32>,
    pub room_location: Option<DtRoomLocation>,
    pub room_status: Option<u32>,
}

/// The building and the floor that are given, joined by a space.
pub open spec fn location_text(loc: DtRoomLocation) -> Seq<char> {
    match (loc.building_name, loc.floor_name) {
        (Some(b), Some(f)) => b@ + " "@ + f@,
        (Some(b), None) => b@,
        (None, Some(f)) => f@,
        (None, None) => Seq::empty(),
    }
}

/// A room: its location where DingTalk gives one, and free where its status is 0.
pub open spec fn is_room_of(r: MeetingRoom, x: DtRoom) -> bool {
    &&& r.id@ == or_empty(x.room_id)
    &&& r.name@ == or_empty(x.title)
    &&& r.capacity == x.capacity
    &&& match x.room_location {
        Some(loc) => r.location matches Some(l) && l@ == location_text(loc),
        None => r.location is None,
    }
    &&& r.has_video is None
    &&& r.is_available == match x.room_status {
        Some(s) => Some(s == 0),
        None => None,
    }
}

fn location_of(loc: DtRoomLocation) -> (r: String)
    ensures
        r@ == location_text(loc),
{
    match (loc.building_name, loc.floor_name) {
        (Some(b), Some(f)) => {
            let mut s = b;
            crate::text::push_str(&mut s, " ");
            crate::text::push_str(&mut s, f.as_str());
            s
        },
        (Some(b), None) => b,
        (None, Some(f)) => f,
        (None, None) => String::new(),
    }
}

pub fn room_from_dt(x: DtRoom) -> (r: MeetingRoom)
    ensures
        is_room_of(r, x),
{
    let location = match x.room_location {
        Some(loc) => Some(location_of(loc)),
        None => None,
    };
    let is_available = match x.room_status {
        Some(s) => Some(s == 0),
        None => None,
    };
    MeetingRoom {
        id: crate::text::unwrap_or_empty(x.room_id),
        name: crate::text::unwrap_or_empty(x.title),
        capacity: x.capacity,
        location,
        has_video: None,
        is_available,
    }
}

/// A page of rooms from the reply's rooms, `hasMore` (false where absent) and cursor.
pub fn rooms_page(items: Vec<DtRoom>, has_more: Option<bool>, next_cursor: Option<String>) -> (r: Page<
    MeetingRoom,
>)
    ensures
        r.items@.len() == items@.len(),
        forall|i: int| 0 <= i < items@.len() ==> is_room_of(#[trigger] r.items@[i], items@[i]),
        r.has_more == (has_more == Some(true)),
        r.next_cursor == next_cursor,
{
    let mut out: Vec<MeetingRoom> = Vec::new();
    let ghost all = items@;
    for x in it: items.into_iter()
        invariant
            it.seq() == all,
            out@.len() == it.index(),
            forall|k: int| 0 <= k < out@.len() ==> is_room_of(#[trigger] out@[k], all[k]),
    {
        out.push(room_from_dt(x));
    }
    let more = match has_more {
        Some(b) => b,
        None => false,
    };
    Page { items: out, has_more: more, next_cursor }
}

/// The body of a room search: the keyword, the range as RFC 3339 texts, the cursor
/// and the page size, each where given, in that order.
pub open spec fn search_body_v(req: SearchRoomRequest) -> JsonV {
    JsonV::Obj(
        (match req.keyword {
            Some(k) => seq![("keyword"@, JsonV::Str(k@))],
            None => Seq::empty(),
        }) + (match req.start_time {
            Some(t) => seq![("startTime"@, JsonV::Str(rfc3339_text(t)))],
            None => Seq::empty(),
        }) + (match req.end_time {
            Some(t) => seq![("endTime"@, JsonV::Str(rfc3339_text(t)))],
            None => Seq::empty(),
        }) + (match req.cursor {
            Some(c) => seq![("nextCursor"@, JsonV::Str(c@))],
            None => Seq::empty(),
        }) + (match req.limit {
            Some(l) => seq![("maxResults"@, JsonV::Int(l as i64))],
            None => Seq::empty(),
        }),
    )
}

pub fn search_rooms_request(client: &DingTalkClient, req: &SearchRoomRequest) -> (r: Result<
    HttpRequest,
    ImError,
>)
    ensures
        dt_authed(*client, r, Method::Post, "/v1.0/calendar/rooms/search"@, Some(search_body_v(*req))),
{
    broadcast use crate::json::group_json;

    let mut m: Vec<(String, Json)> = Vec::new();
    match &req.keyword {
        Some(k) => put(&mut m, "keyword", Json::Str(k.clone())),
        None => {},
    }
    match req.start_time {
        Some(t) => put(&mut m, "startTime", Json::Str(crate::time::fmt_rfc3339(t))),
        None => {},
    }
    match req.end_time {
        Some(t) => put(&mut m, "endTime", Json::Str(crate::time::fmt_rfc3339(t))),
        None => {},
    }
    match &req.cursor {
        Some(c) => put(&mut m, "nextCursor", Json::Str(c.clone())),
        None => {},
    }
    match req.limit {
        Some(l) => put(&mut m, "maxResults", Json::Int(l as i64)),
        None => {},
    }
    assert(jv_members(m@) =~= search_body_v(*req)->Obj_0);
    client.post("/v1.0/calendar/rooms/search", Json::Obj(m))
}

/// The path of one room.
pub fn room_path(room_id: &str) -> (r: String)
    ensures
        r@ == "/v1.0/calendar/rooms/"@ + room_id@,
{
    crate::text::concat2("/v1.0/calendar/rooms/", room_id)
}

/// The reading of a room lookup's reply.
pub fn room_reply(status: u16, text: String, parsed: Result<DtRoom, String>) -> (r: Result<
    MeetingRoom,
    ImError,
>)
    ensures
        !crate::http::is_success(status) ==> r == Err::<MeetingRoom, ImError>(
            ImError::Platform { code: status as i64, message: text },
        ),
        crate::http::is_success(status) && parsed is Err ==> r == Err::<MeetingRoom, ImError>(
            ImError::Serialization(parsed->Err_0),
        ),
        crate::http::is_success(status) && parsed is Ok ==> (r matches Ok(m) && is_room_of(
            m,
            parsed->Ok_0,
        )),
{
    let x = crate::http::read_reply(status, text, parsed)?;
    Ok(room_from_dt(x))
}

/// The path of an event's rooms.
pub open spec fn event_rooms_path(event_id: Seq<char>) -> Seq<char> {
    "/v1.0/calendar/events/"@ + event_id + "/rooms"@
}

/// The request that adds a room to an event.
pub fn book_room_request(client: &DingTalkClient, req: &BookRoomRequest) -> (r: Result<
    HttpRequest,
    ImError,
>)
    ensures
        dt_authed(
            *client,
            r,
            Method::Post,
            event_rooms_path(req.event_id@),
            Some(JsonV::Obj(seq![("roomId"@, JsonV::Str(req.room_id@))])),
        ),
{
    let mut p = crate::text::lit("/v1.0/calendar/events/");
    crate::text::push_str(&mut p, req.event_id.as_str());
    crate::text::push_str(&mut p, "/rooms");
    let body = crate::json::obj1("roomId", Json::Str(req.room_id.clone()));
    client.post(p.as_str(), body)
}

/// The request that takes a room off an event.
pub fn cancel_room_request(client: &DingTalkClient, room_id: &str, event_id: &str) -> (r: Result<
    HttpRequest,
    ImError,
>)
    ensures
        dt_authed(*client, r, Method::Delete, event_rooms_path(event_id@) + "/"@ + room_id@, None),
{
    let mut p = crate::text::lit("/v1.0/calendar/events/");
    crate::text::push_str(&mut p, event_id);
    crate::text::push_str(&mut p, "/rooms");
    crate::text::push_str(&mut p, "/");
    crate::text::push_str(&mut p, room_id);
    client.delete(p.as_str())
}

} // verus!
