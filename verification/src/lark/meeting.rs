//! Lark video meetings: search, lookup, and what the API does not offer.

use crate::http::{code_of, HttpRequest, Method};
use crate::json::{jv_members, put, Json, JsonV};
use crate::lark::client::{authed_result, LarkClient};
use crate::lark::messaging::{check_envelope, millis_to_secs, LarkEnvelope};
use crate::model::{ImError, Meeting, MeetingAttendee, MeetingStatus, MeetingType, Page};
use crate::text::{dec_int, or_empty, or_text, parse_i64_spec};
use crate::time::secs_representable;
use vstd::prelude::*;

verus! {

/// A search of meetings (times in milliseconds since the epoch).
pub struct ListMeetingsRequest {
    pub start_time: Option<i64>,
    pub end_time: Option<i64>,
    pub cursor: Option<String>,
    pub limit: Option<u32>,
}

/// A participant as Lark gives it.
pub struct LarkParticipant {
    pub id: Option<String>,
    pub user_type: Option<i32>,
}

/// A meeting as Lark gives it; times are decimal seconds.
pub struct LarkMeeting {
    pub id: Option<String>,
    pub topic: Option<String>,
    pub start_time: Option<String>,
    pub end_time: Option<String>,
    pub meeting_no: Option<String>,
    pub url: Option<String>,
    pub participants: Vec<LarkParticipant>,
}

/// The instant (milliseconds) of a decimal seconds text: a text that is not a number
/// reads as 0; an instant chrono cannot represent, or no text at all, reads as `now`.
pub open spec fn instant_or_now(s: Option<String>, now: i64) -> int {
    match s {
        Some(t) => {
            let secs = match parse_i64_spec(t@) {
                Some(v) => v,
                None => 0,
            };
            if secs_representable(secs) {
                secs * 1000
            } else {
                now as int
            }
        },
        None => now as int,
    }
}

/// Whole seconds from `start` to `end` (milliseconds), 0 where the end is not later.
pub open spec fn duration_secs_v(start: int, end: int) -> int {
    if end - start <= 0 {
        0
    } else {
        (end - start) / 1000
    }
}

/// What a Lark meeting says of a meeting at the instant `now`: a pending, one-off
/// meeting whose participants have not joined.
pub open spec fn is_meeting_of(r: Meeting, m: LarkMeeting, now: i64) -> bool {
    let start = instant_or_now(m.start_time, now);
    let end = instant_or_now(m.end_time, now);
    &&& r.id@ == or_empty(m.id)
    &&& r.title@ == or_empty(m.topic)
    &&& r.description is None
    &&& r.start_time == start
    &&& r.duration_secs == duration_secs_v(start, end)
    &&& r.location is None
    &&& r.meeting_code == m.meeting_no
    &&& r.meeting_link == m.url
    &&& r.status == MeetingStatus::Pending
    &&& r.meeting_type == MeetingType::Once
    &&& r.creator_id is None
    &&& r.attendees@.len() == m.participants@.len()
    &&& forall|i: int|
        0 <= i < m.participants@.len() ==> (#[trigger] r.attendees@[i]).user_id@ == or_empty(
            m.participants@[i].id,
        ) && r.attendees@[i].name is None && !r.attendees@[i].joined
            && r.attendees@[i].cumulative_time_secs is None
    &&& r.settings is None
    &&& r.extra@ == JsonV::Null
}

pub fn instant_of(s: &Option<String>, now: i64) -> (r: i64)
    ensures
        r == instant_or_now(*s, now),
{
    match s {
        Some(t) => {
            let secs = match crate::text::parse_i64(t.as_str()) {
                Some(v) => v,
                None => 0,
            };
            match crate::time::from_secs(secs) {
                Some(ms) => ms,
                None => now,
            }
        },
        None => now,
    }
}

/// The meeting of a Lark meeting, with `now` standing for missing times.
pub fn meeting_from_lark_at(m: LarkMeeting, now: i64) -> (r: Meeting)
    ensures
        is_meeting_of(r, m, now),
{
    let start = instant_of(&m.start_time, now);
    let end = instant_of(&m.end_time, now);
    let diff: i128 = (end as i128) - (start as i128);
    let dur: u64 = if diff <= 0 {
        0
    } else {
        (diff / 1000) as u64
    };
    let mut attendees: Vec<MeetingAttendee> = Vec::new();
    let ghost all = m.participants@;
    for p in it: m.participants.into_iter()
        invariant
            it.seq() == all,
            attendees@.len() == it.index(),
            forall|k: int|
                0 <= k < attendees@.len() ==> (#[trigger] attendees@[k]).user_id@ == or_empty(
                    all[k].id,
                ) && attendees@[k].name is None && !attendees@[k].joined
                    && attendees@[k].cumulative_time_secs is None,
    {
        attendees.push(
            MeetingAttendee {
                user_id: crate::text::unwrap_or_empty(p.id),
                name: None,
                joined: false,
                cumulative_time_secs: None,
            },
        );
    }
    Meeting {
        id: crate::text::unwrap_or_empty(m.id),
        title: crate::text::unwrap_or_empty(m.topic),
        description: None,
        start_time: start,
        duration_secs: dur,
        location: None,
        meeting_code: m.meeting_no,
        meeting_link: m.url,
        status: MeetingStatus::Pending,
        meeting_type: MeetingType::Once,
        creator_id: None,
        attendees,
        settings: None,
        extra: Json::Null,
    }
}

/// The meeting of a Lark meeting at the current instant.
pub fn meeting_from_lark(m: LarkMeeting) -> (r: Result<Meeting, ImError>)
    ensures
        r matches Ok(x) ==> exists|now: i64| is_meeting_of(x, m, now),
        r matches Err(e) ==> e matches ImError::Internal(t) && t@ == crate::time::clock_error_text(),
{
    match crate::time::now_millis() {
        Some(now) => Ok(meeting_from_lark_at(m, now)),
        None => Err(crate::time::clock_error()),
    }
}

/// The body of a search: each bound given, as decimal seconds text, the cursor and
/// the page size.
pub open spec fn search_body_v(req: ListMeetingsRequest) -> JsonV {
    JsonV::Obj(
        (match req.start_time {
            Some(t) => seq![("start_time"@, JsonV::Str(dec_int(t / 1000)))],
            None => Seq::empty(),
        }) + (match req.end_time {
            Some(t) => seq![("end_time"@, JsonV::Str(dec_int(t / 1000)))],
            None => Seq::empty(),
        }) + (match req.cursor {
            Some(c) => seq![("page_token"@, JsonV::Str(c@))],
            None => Seq::empty(),
        }) + (match req.limit {
            Some(l) => seq![("page_size"@, JsonV::Int(l as i64))],
            None => Seq::empty(),
        }),
    )
}

pub fn list_meetings_request(client: &LarkClient, req: &ListMeetingsRequest) -> (r: Result<
    HttpRequest,
    ImError,
>)
    ensures
        authed_result(*client, r, Method::Post, "/open-apis/vc/v1/meetings/search"@, Some(search_body_v(*req))),
{
    broadcast use crate::json::group_json;

    let mut m: Vec<(String, Json)> = Vec::new();
    match req.start_time {
        Some(t) => put(&mut m, "start_time", Json::Str(crate::text::fmt_i64(millis_to_secs(t)))),
        None => {},
    }
    match req.end_time {
        Some(t) => put(&mut m, "end_time", Json::Str(crate::text::fmt_i64(millis_to_secs(t)))),
        None => {},
    }
    match &req.cursor {
        Some(c) => put(&mut m, "page_token", Json::Str(c.clone())),
        None => {},
    }
    match req.limit {
        Some(l) => put(&mut m, "page_size", Json::Int(l as i64)),
        None => {},
    }
    assert(jv_members(m@) =~= search_body_v(*req)->Obj_0);
    client.post("/open-apis/vc/v1/meetings/search", Json::Obj(m))
}

/// A page of meetings from the reply's list at the instant `now`.
pub fn meetings_page_at(
    items: Vec<LarkMeeting>,
    has_more: Option<bool>,
    page_token: Option<String>,
    now: i64,
) -> (r: Page<Meeting>)
    ensures
        r.items@.len() == items@.len(),
        forall|i: int| 0 <= i < items@.len() ==> is_meeting_of(#[trigger] r.items@[i], items@[i], now),
        r.has_more == (has_more == Some(true)),
        r.next_cursor == page_token,
{
    let mut out: Vec<Meeting> = Vec::new();
    let ghost all = items@;
    for m in it: items.into_iter()
        invariant
            it.seq() == all,
            out@.len() == it.index(),
            forall|k: int| 0 <= k < out@.len() ==> is_meeting_of(#[trigger] out@[k], all[k], now),
    {
        out.push(meeting_from_lark_at(m, now));
    }
    let more = match has_more {
        Some(b) => b,
        None => false,
    };
    Page { items: out, has_more: more, next_cursor: page_token }
}

/// The path of one meeting.
pub fn meeting_path(meeting_id: &str) -> (r: String)
    ensures
        r@ == "/open-apis/vc/v1/meetings/"@ + meeting_id@,
{
    crate::text::concat2("/open-apis/vc/v1/meetings/", meeting_id)
}

/// The reading of one meeting's reply at the instant `now`: a reply without the
/// meeting is "not found" for `meeting_id`.
pub fn get_meeting_reply(
    meeting_id: &str,
    text: String,
    parsed: Result<(LarkEnvelope, Option<LarkMeeting>), String>,
    now: i64,
) -> (r: Result<Meeting, ImError>)
    ensures
        parsed is Err ==> r == Err::<Meeting, ImError>(ImError::Serialization(parsed->Err_0)),
        parsed matches Ok(p) ==> (r is Ok <==> code_of(p.0.code) == 0 && p.1 is Some),
        parsed matches Ok(p) ==> (code_of(p.0.code) != 0 ==> (r matches Err(ImError::Platform {
            code: c,
            message: m,
        }) && c == code_of(p.0.code) && m@ == or_text(p.0.msg, text@))),
        parsed matches Ok(p) ==> (code_of(p.0.code) == 0 && p.1 is None ==> (r matches Err(
            ImError::NotFound { resource: res },
        ) && res@ == meeting_id@)),
        parsed matches Ok(p) ==> (r matches Ok(m) ==> is_meeting_of(m, p.1->Some_0, now)),
{
    let (env, meeting) = match parsed {
        Ok(p) => p,
        Err(e) => {
            return Err(ImError::Serialization(e));
        },
    };
    check_envelope(&env, &text)?;
    match meeting {
        Some(m) => Ok(meeting_from_lark_at(m, now)),
        None => Err(ImError::NotFound { resource: meeting_id.to_string() }),
    }
}

/// What Lark's meeting API does not offer: creating (calendar events with video
/// stand in), cancelling and changing members.
pub fn meeting_unsupported(op: &str) -> (e: ImError)
    ensures
        e matches ImError::NotSupported { feature: f, platform: p } && f@ == (if op@ == "create"@ {
            "create_meeting (use Lark calendar events with video conference)"@
        } else if op@ == "cancel"@ {
            "cancel_meeting"@
        } else {
            "update_meeting_members"@
        }) && p@ == "lark"@,
{
    if crate::text::str_eq(op, "create") {
        crate::http::not_supported("create_meeting (use Lark calendar events with video conference)", "lark")
    } else if crate::text::str_eq(op, "cancel") {
        crate::http::not_supported("cancel_meeting", "lark")
    } else {
        crate::http::not_supported("update_meeting_members", "lark")
    }
}

} // verus!
