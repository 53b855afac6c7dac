//! Lark meeting rooms: search and lookup; booking goes through calendar events.

use crate::http::{HttpRequest, Method};
use crate::json::{jv_members, put, Json, JsonV};
use crate::lark::client::{authed_result, LarkClient};
use crate::model::{ImError, MeetingRoom, Page, SearchRoomRequest};
use crate::text::{count_or, or_empty};
use vstd::prelude::*;

verus! {

/// The body of a room search: the keyword and cursor (empty by default) and the page
/// size (20 by default).
pub open spec fn search_body_v(req: SearchRoomRequest) -> JsonV {
    JsonV::Obj(
        seq![
            ("query"@, JsonV::Str(or_empty(req.keyword))),
            ("page_size"@, JsonV::Int(count_or(req.limit, 20))),
            ("page_token"@, JsonV::Str(or_empty(req.cursor))),
        ],
    )
}

pub fn search_rooms_request(client: &LarkClient, req: &SearchRoomRequest) -> (r: Result<
    HttpRequest,
    ImError,
>)
    ensures
        authed_result(*client, r, Method::Post, "/open-apis/vc/v1/rooms/search"@, Some(search_body_v(*req))),
{
    broadcast use crate::json::group_json;

    let limit: u32 = match req.limit {
        Some(l) => l,
        None => 20,
    };
    let mut m: Vec<(String, Json)> = Vec::new();
    put(&mut m, "query", Json::Str(crate::text::unwrap_or_empty(req.keyword.clone())));
    put(&mut m, "page_size", Json::Int(limit as i64));
    put(&mut m, "page_token", Json::Str(crate::text::unwrap_or_empty(req.cursor.clone())));
    assert(jv_members(m@) =~= search_body_v(*req)->Obj_0);
    client.post("/open-apis/vc/v1/rooms/search", Json::Obj(m))
}

/// A room as Lark gives it.
pub struct LarkRoom {
    pub room_id: Option<String>,
    pub name: Option<String>,
    pub capacity: Option<u32>,
    pub description: Option<String>,
}

/// What a Lark room says of a room: its description is its location.
pub open spec fn is_room_of(r: MeetingRoom, x: LarkRoom) -> bool {
    r.id@ == or_empty(x.room_id) && r.name@ == or_empty(x.name) && r.capacity == x.capacity
        && r.location == x.description && r.has_video is None && r.is_available is None
}

pub fn room_from_lark(x: LarkRoom) -> (r: MeetingRoom)
    ensures
        is_room_of(r, x),
{
    MeetingRoom {
        id: crate::text::unwrap_or_empty(x.room_id),
        name: crate::text::unwrap_or_empty(x.name),
        capacity: x.capacity,
        location: x.description,
        has_video: None,
        is_available: None,
    }
}

/// A page of rooms.
pub fn rooms_page(items: Vec<LarkRoom>, has_more: Option<bool>, page_token: Option<String>) -> (r: Page<
    MeetingRoom,
>)
    ensures
        r.items@.len() == items@.len(),
        forall|i: int| 0 <= i < items@.len() ==> is_room_of(#[trigger] r.items@[i], items@[i]),
        r.has_more == (has_more == Some(true)),
        r.next_cursor == page_token,
{
    let mut out: Vec<MeetingRoom> = Vec::new();
    let ghost all = items@;
    for x in it: items.into_iter()
        invariant
            it.seq() == all,
            out@.len() == it.index(),
            forall|k: int| 0 <= k < out@.len() ==> is_room_of(#[trigger] out@[k], all[k]),
    {
        out.push(room_from_lark(x));
    }
    let more = match has_more {
        Some(b) => b,
        None => false,
    };
    Page { items: out, has_more: more, next_cursor: page_token }
}

/// The path of one room.
pub fn room_path(room_id: &str) -> (r: String)
    ensures
        r@ == "/open-apis/vc/v1/rooms/"@ + room_id@,
{
    crate::text::concat2("/open-apis/vc/v1/rooms/", room_id)
}

/// The reading of a room lookup's data: the room, or "not found".
pub fn room_found(room_id: &str, room: Option<LarkRoom>) -> (r: Result<MeetingRoom, ImError>)
    ensures
        room matches Some(x) ==> (r matches Ok(m) && is_room_of(m, x)),
        room is None ==> (r matches Err(ImError::NotFound { resource: res }) && res@ == room_id@),
{
    match room {
        Some(x) => Ok(room_from_lark(x)),
        None => Err(ImError::NotFound { resource: room_id.to_string() }),
    }
}

/// Lark books and cancels rooms through calendar events only.
pub fn room_unsupported(book: bool) -> (e: ImError)
    ensures
        e matches ImError::NotSupported { feature: f, platform: p } && p@ == "lark"@ && f@ == (if book {
            "book_room (use calendar event creation with room_id in Lark)"@
        } else {
            "cancel_room (cancel the associated calendar event in Lark)"@
        }),
{
    if book {
        crate::http::not_supported("book_room (use calendar event creation with room_id in Lark)", "lark")
    } else {
        crate::http::not_supported("cancel_room (cancel the associated calendar event in Lark)", "lark")
    }
}

} // verus!
