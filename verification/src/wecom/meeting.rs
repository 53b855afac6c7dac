//! WeCom meetings: status and type codes, meeting readings, creation and listing.

use crate::http::{code_of, HttpRequest, Method};
use crate::json::{jv_members, jv_seq, opt_str_v, put, str_arr, Json, JsonV};
use crate::model::{
    ImError, Meeting, MeetingAttendee, MeetingSettings, MeetingStatus, MeetingType, Page,
};
use crate::text::{or_empty, or_text};
use crate::time::{naive_utc_instant, utc_text};
use crate::wecom::client::{token_result, WeComClient, WeComEnvelope};
use vstd::prelude::*;

verus! {

/// The status of a WeCom meeting number: 2 ongoing, 3 ended, 4 cancelled,
/// 5 expired, anything else pending.
pub open spec fn status_of_code(v: i32) -> MeetingStatus {
    if v == 2 {
        MeetingStatus::Ongoing
    } else if v == 3 {
        MeetingStatus::Ended
    } else if v == 4 {
        MeetingStatus::Cancelled
    } else if v == 5 {
        MeetingStatus::Expired
    } else {
        MeetingStatus::Pending
    }
}

/// The type of a WeCom meeting number: 0 once, 1 recurring, 6 webinar, anything
/// else other.
pub open spec fn type_of_code(v: i32) -> MeetingType {
    if v == 0 {
        MeetingType::Once
    } else if v == 1 {
        MeetingType::Recurring
    } else if v == 6 {
        MeetingType::Webinar
    } else {
        MeetingType::Other
    }
}

/// How WeCom's meeting numbers read: statuses 2 ongoing, 3 ended, 4 cancelled, 5
/// expired and anything else pending; types 0 once, 1 recurring, 6 webinar and
/// anything else other; each from those numbers alone.
pub proof fn law_meeting_codes(v: i32)
    ensures
        (status_of_code(v) == MeetingStatus::Ongoing) <==> v == 2,
        (status_of_code(v) == MeetingStatus::Ended) <==> v == 3,
        (status_of_code(v) == MeetingStatus::Cancelled) <==> v == 4,
        (status_of_code(v) == MeetingStatus::Expired) <==> v == 5,
        (status_of_code(v) == MeetingStatus::Pending) <==> !(2 <= v <= 5),
        (type_of_code(v) == MeetingType::Once) <==> v == 0,
        (type_of_code(v) == MeetingType::Recurring) <==> v == 1,
        (type_of_code(v) == MeetingType::Webinar) <==> v == 6,
        (type_of_code(v) == MeetingType::Other) <==> !(v == 0 || v == 1 || v == 6),
{
}

pub fn meeting_status(v: i32) -> (r: MeetingStatus)
    ensures
        r == status_of_code(v),
{
    if v == 2 {
        MeetingStatus::Ongoing
    } else if v == 3 {
        MeetingStatus::Ended
    } else if v == 4 {
        MeetingStatus::Cancelled
    } else if v == 5 {
        MeetingStatus::Expired
    } else {
        MeetingStatus::Pending
    }
}

pub fn meeting_type(v: i32) -> (r: MeetingType)
    ensures
        r == type_of_code(v),
{
    if v == 0 {
        MeetingType::Once
    } else if v == 1 {
        MeetingType::Recurring
    } else if v == 6 {
        MeetingType::Webinar
    } else {
        MeetingType::Other
    }
}

/// A member of a meeting as WeCom gives it.
pub struct WcMeetingMember {
    pub userid: Option<String>,
    pub status: Option<i32>,
    pub cumulative_time: Option<u64>,
}

/// Meeting settings as WeCom gives them.
pub struct WcSettings {
    pub password: Option<String>,
    pub enable_waiting_room: Option<bool>,
    pub allow_enter_before_host: Option<bool>,
    pub enable_enter_mute: Option<i32>,
    pub allow_external_user: Option<bool>,
}

/// A meeting as WeCom gives it.
pub struct MeetingInfo {
    pub meetingid: Option<String>,
    pub title: Option<String>,
    pub description: Option<String>,
    pub meeting_start_datetime: Option<String>,
    pub meeting_duration: Option<u64>,
    pub meeting_code: Option<String>,
    pub meeting_link: Option<String>,
    pub status: Option<i32>,
    pub meeting_type: Option<i32>,
    pub creator_userid: Option<String>,
    pub admin_userid: Option<String>,
    /// The members, where the reply lists attendees.
    pub members: Option<Vec<WcMeetingMember>>,
    pub settings: Option<WcSettings>,
}

/// The start of a meeting from WeCom's text: minutes first, else seconds, else `now`.
pub open spec fn start_of(s: Option<String>, now: i64) -> i64 {
    match s {
        Some(t) => match naive_utc_instant(t@, "%Y-%m-%d %H:%M"@) {
            Some(ms) => ms,
            None => match naive_utc_instant(t@, "%Y-%m-%d %H:%M:%S"@) {
                Some(ms) => ms,
                None => now,
            },
        },
        None => now,
    }
}

pub open spec fn is_attendee_of(a: MeetingAttendee, m: WcMeetingMember) -> bool {
    a.user_id@ == or_empty(m.userid) && a.name is None && a.joined == (m.status == Some(1i32))
        && a.cumulative_time_secs == m.cumulative_time
}

pub open spec fn is_settings_of(r: MeetingSettings, s: WcSettings) -> bool {
    &&& r.password == s.password
    &&& r.enable_waiting_room == s.enable_waiting_room
    &&& r.allow_enter_before_host == s.allow_enter_before_host
    &&& r.mute_on_entry == match s.enable_enter_mute {
        Some(v) => Some(v == 1),
        None => None,
    }
    &&& r.allow_external_user == s.allow_external_user
}

/// What a WeCom meeting says of a meeting at the instant `now`: the creator is the
/// creating user, else the admin; a member has joined where its status is 1.
pub open spec fn is_meeting_of(r: Meeting, m: MeetingInfo, now: i64) -> bool {
    &&& r.id@ == or_empty(m.meetingid)
    &&& r.title@ == or_empty(m.title)
    &&& r.description == m.description
    &&& r.start_time == start_of(m.meeting_start_datetime, now)
    &&& r.duration_secs == match m.meeting_duration {
        Some(d) => d,
        None => 0,
    }
    &&& r.location is None
    &&& r.meeting_code == m.meeting_code
    &&& r.meeting_link == m.meeting_link
    &&& r.status == status_of_code(
        match m.status {
            Some(v) => v,
            None => 0,
        },
    )
    &&& r.meeting_type == type_of_code(
        match m.meeting_type {
            Some(v) => v,
            None => 0,
        },
    )
    &&& r.creator_id == match m.creator_userid {
        Some(c) => Some(c),
        None => m.admin_userid,
    }
    &&& match m.members {
        Some(ms) => r.attendees@.len() == ms@.len() && forall|i: int|
            0 <= i < ms@.len() ==> is_attendee_of(#[trigger] r.attendees@[i], ms@[i]),
        None => r.attendees@.len() == 0,
    }
    &&& match m.settings {
        Some(s) => r.settings matches Some(rs) && is_settings_of(rs, s),
        None => r.settings is None,
    }
    &&& r.extra@ == JsonV::Null
}

fn start_from(s: &Option<String>, now: i64) -> (r: i64)
    ensures
        r == start_of(*s, now),
{
    match s {
        Some(t) => match crate::time::parse_naive_utc(t.as_str(), "%Y-%m-%d %H:%M") {
            Some(ms) => ms,
            None => match crate::time::parse_naive_utc(t.as_str(), "%Y-%m-%d %H:%M:%S") {
                Some(ms) => ms,
                None => now,
            },
        },
        None => now,
    }
}

fn attendees_from(members: Vec<WcMeetingMember>) -> (r: Vec<MeetingAttendee>)
    ensures
        r@.len() == members@.len(),
        forall|i: int| 0 <= i < members@.len() ==> is_attendee_of(#[trigger] r@[i], members@[i]),
{
    let mut out: Vec<MeetingAttendee> = Vec::new();
    let ghost all = members@;
    for m in it: members.into_iter()
        invariant
            it.seq() == all,
            out@.len() == it.index(),
            forall|k: int| 0 <= k < out@.len() ==> is_attendee_of(#[trigger] out@[k], all[k]),
    {
        let joined = match m.status {
            Some(s) => s == 1,
            None => false,
        };
        out.push(
            MeetingAttendee {
                user_id: crate::text::unwrap_or_empty(m.userid),
                name: None,
                joined,
                cumulative_time_secs: m.cumulative_time,
            },
        );
    }
    out
}

/// The meeting of a WeCom meeting, with `now` standing for a missing or unreadable
/// start.
pub fn meeting_from_info(m: MeetingInfo, now: i64) -> (r: Meeting)
    ensures
        is_meeting_of(r, m, now),
{
    let start = start_from(&m.meeting_start_datetime, now);
    let status = meeting_status(
        match m.status {
            Some(v) => v,
            None => 0,
        },
    );
    let kind = meeting_type(
        match m.meeting_type {
            Some(v) => v,
            None => 0,
        },
    );
    let creator = match m.creator_userid {
        Some(c) => Some(c),
        None => m.admin_userid,
    };
    let attendees = match m.members {
        Some(ms) => attendees_from(ms),
        None => Vec::new(),
    };
    let settings = match m.settings {
        Some(s) => Some(
            MeetingSettings {
                password: s.password,
                enable_waiting_room: s.enable_waiting_room,
                allow_enter_before_host: s.allow_enter_before_host,
                mute_on_entry: match s.enable_enter_mute {
                    Some(v) => Some(v == 1),
                    None => None,
                },
                allow_external_user: s.allow_external_user,
            },
        ),
        None => None,
    };
    Meeting {
        id: crate::text::unwrap_or_empty(m.meetingid),
        title: crate::text::unwrap_or_empty(m.title),
        description: m.description,
        start_time: start,
        duration_secs: match m.meeting_duration {
            Some(d) => d,
            None => 0,
        },
        location: None,
        meeting_code: m.meeting_code,
        meeting_link: m.meeting_link,
        status,
        meeting_type: kind,
        creator_id: creator,
        attendees,
        settings,
        extra: Json::Null,
    }
}

/// A meeting to create (the start in milliseconds since the epoch).
pub struct CreateMeetingRequest {
    pub title: String,
    pub start_time: i64,
    pub duration_secs: u64,
    pub description: Option<String>,
    pub location: Option<String>,
    pub invitee_ids: Vec<String>,
    pub settings: Option<MeetingSettings>,
}

/// A time as WeCom's meetings take it.
pub open spec fn minute_text(ms: i64) -> Seq<char> {
    utc_text(ms, "%Y-%m-%d %H:%M"@)
}

pub open spec fn opt_bool_v(b: Option<bool>) -> JsonV {
    match b {
        Some(v) => JsonV::Bool(v),
        None => JsonV::Null,
    }
}

/// Settings as WeCom takes them: muting on entry as 1 or 0.
pub open spec fn settings_v(s: MeetingSettings) -> JsonV {
    JsonV::Obj(
        seq![
            ("password"@, opt_str_v(s.password)),
            ("enable_waiting_room"@, opt_bool_v(s.enable_waiting_room)),
            ("allow_enter_before_host"@, opt_bool_v(s.allow_enter_before_host)),
            (
                "enable_enter_mute"@,
                match s.mute_on_entry {
                    Some(v) => JsonV::Int(
                        if v {
                            1
                        } else {
                            0
                        },
                    ),
                    None => JsonV::Null,
                },
            ),
            ("allow_external_user"@, opt_bool_v(s.allow_external_user)),
        ],
    )
}

pub open spec fn opt_settings_v(s: Option<MeetingSettings>) -> JsonV {
    match s {
        Some(v) => settings_v(v),
        None => JsonV::Null,
    }
}

/// The body of a new meeting.
pub open spec fn create_body_v(req: CreateMeetingRequest) -> JsonV {
    JsonV::Obj(
        seq![
            ("title"@, JsonV::Str(req.title@)),
            ("meeting_start_datetime"@, JsonV::Str(minute_text(req.start_time))),
            ("meeting_duration"@, JsonV::Num(crate::text::dec_nat(req.duration_secs as nat))),
            ("description"@, opt_str_v(req.description)),
            ("location"@, opt_str_v(req.location)),
            ("invitees"@, JsonV::Obj(seq![("userid"@, JsonV::Arr(str_arr(req.invitee_ids@)))])),
            ("settings"@, opt_settings_v(req.settings)),
        ],
    )
}

fn opt_bool(b: Option<bool>) -> (r: Json)
    ensures
        r@ == opt_bool_v(b),
{
    match b {
        Some(v) => Json::Bool(v),
        None => Json::Null,
    }
}

fn settings_json(s: &MeetingSettings) -> (r: Json)
    ensures
        r@ == settings_v(*s),
{
    broadcast use crate::json::group_json;

    let mut m: Vec<(String, Json)> = Vec::new();
    put(&mut m, "password", crate::json::jopt(s.password.clone()));
    put(&mut m, "enable_waiting_room", opt_bool(s.enable_waiting_room));
    put(&mut m, "allow_enter_before_host", opt_bool(s.allow_enter_before_host));
    let mute = match s.mute_on_entry {
        Some(v) => Json::Int(
            if v {
                1
            } else {
                0
            },
        ),
        None => Json::Null,
    };
    put(&mut m, "enable_enter_mute", mute);
    put(&mut m, "allow_external_user", opt_bool(s.allow_external_user));
    assert(jv_members(m@) =~= settings_v(*s)->Obj_0);
    Json::Obj(m)
}

/// The request that creates a meeting.
pub fn create_meeting_request(client: &WeComClient, req: &CreateMeetingRequest) -> (r: Result<
    HttpRequest,
    ImError,
>)
    ensures
        token_result(*client, r, Method::Post, "/cgi-bin/meeting/create"@, Some(create_body_v(*req))),
{
    broadcast use crate::json::group_json;

    let mut m: Vec<(String, Json)> = Vec::new();
    put(&mut m, "title", Json::Str(req.title.clone()));
    put(&mut m, "meeting_start_datetime", Json::Str(crate::time::fmt_utc(req.start_time, "%Y-%m-%d %H:%M")));
    put(&mut m, "meeting_duration", Json::Num(crate::text::fmt_u64(req.duration_secs)));
    put(&mut m, "description", crate::json::jopt(req.description.clone()));
    put(&mut m, "location", crate::json::jopt(req.location.clone()));
    put(&mut m, "invitees", crate::json::obj1("userid", crate::json::jstrs(&req.invitee_ids)));
    let settings = match &req.settings {
        Some(s) => settings_json(s),
        None => Json::Null,
    };
    put(&mut m, "settings", settings);
    assert(jv_members(m@) =~= create_body_v(*req)->Obj_0);
    client.post("/cgi-bin/meeting/create", Json::Obj(m))
}

/// A creation's reply as WeCom gives it.
pub struct CreateResp {
    pub errcode: Option<i64>,
    pub errmsg: Option<String>,
    pub meetingid: Option<String>,
    pub meeting_code: Option<String>,
    pub meeting_link: Option<String>,
}

/// The reading of a creation's reply: the meeting as asked for, with the id, code
/// and link WeCom gave, pending and one-off.
pub fn create_meeting_reply(req: CreateMeetingRequest, text: String, parsed: Result<CreateResp, String>) -> (r:
    Result<Meeting, ImError>)
    ensures
        parsed is Err ==> r == Err::<Meeting, ImError>(ImError::Serialization(parsed->Err_0)),
        parsed matches Ok(d) ==> (r is Ok <==> code_of(d.errcode) == 0),
        parsed matches Ok(d) ==> (r matches Err(e) ==> (e matches ImError::Platform {
            code: c,
            message: m,
        } && c == code_of(d.errcode) && m@ == or_text(d.errmsg, text@))),
        parsed matches Ok(d) ==> (r matches Ok(m) ==> m.id@ == or_empty(d.meetingid) && m.title
            == req.title && m.description == req.description && m.start_time == req.start_time
            && m.duration_secs == req.duration_secs && m.location == req.location && m.meeting_code
            == d.meeting_code && m.meeting_link == d.meeting_link && m.status
            == MeetingStatus::Pending && m.meeting_type == MeetingType::Once && m.creator_id is None
            && m.attendees@.len() == 0 && m.settings == req.settings),
{
    let d = match parsed {
        Ok(d) => d,
        Err(e) => {
            return Err(ImError::Serialization(e));
        },
    };
    crate::http::check_code(d.errcode, d.errmsg, text)?;
    Ok(
        Meeting {
            id: crate::text::unwrap_or_empty(d.meetingid),
            title: req.title,
            description: req.description,
            start_time: req.start_time,
            duration_secs: req.duration_secs,
            location: req.location,
            meeting_code: d.meeting_code,
            meeting_link: d.meeting_link,
            status: MeetingStatus::Pending,
            meeting_type: MeetingType::Once,
            creator_id: None,
            attendees: Vec::new(),
            settings: req.settings,
            extra: Json::Null,
        },
    )
}

/// A listing of the user's meetings (times in milliseconds since the epoch).
pub struct ListMeetingsRequest {
    pub start_time: Option<i64>,
    pub end_time: Option<i64>,
    pub cursor: Option<String>,
    pub limit: Option<u32>,
}

pub open spec fn opt_minute_v(t: Option<i64>) -> JsonV {
    match t {
        Some(ms) => JsonV::Str(minute_text(ms)),
        None => JsonV::Null,
    }
}

pub open spec fn limit_or_20(l: Option<u32>) -> i64 {
    match l {
        Some(v) => v as i64,
        None => 20,
    }
}

/// The body of a listing: the time bounds, the cursor and the page size (20 by
/// default).
pub open spec fn list_body_v(req: ListMeetingsRequest) -> JsonV {
    JsonV::Obj(
        seq![
            ("begin_datetime"@, opt_minute_v(req.start_time)),
            ("end_datetime"@, opt_minute_v(req.end_time)),
            ("cursor"@, opt_str_v(req.cursor)),
            ("limit"@, JsonV::Int(limit_or_20(req.limit))),
        ],
    )
}

fn opt_minute(t: Option<i64>) -> (r: Json)
    ensures
        r@ == opt_minute_v(t),
{
    match t {
        Some(ms) => Json::Str(crate::time::fmt_utc(ms, "%Y-%m-%d %H:%M")),
        None => Json::Null,
    }
}

pub fn list_meetings_request(client: &WeComClient, req: &ListMeetingsRequest) -> (r: Result<
    HttpRequest,
    ImError,
>)
    ensures
        token_result(
            *client,
            r,
            Method::Post,
            "/cgi-bin/meeting/list_user_meetings"@,
            Some(list_body_v(*req)),
        ),
{
    broadcast use crate::json::group_json;

    let mut m: Vec<(String, Json)> = Vec::new();
    put(&mut m, "begin_datetime", opt_minute(req.start_time));
    put(&mut m, "end_datetime", opt_minute(req.end_time));
    put(&mut m, "cursor", crate::json::jopt(req.cursor.clone()));
    let limit: u32 = match req.limit {
        Some(l) => l,
        None => 20,
    };
    put(&mut m, "limit", Json::Int(limit as i64));
    assert(jv_members(m@) =~= list_body_v(*req)->Obj_0);
    client.post("/cgi-bin/meeting/list_user_meetings", Json::Obj(m))
}

/// The request of one meeting's details.
pub fn meeting_info_request(client: &WeComClient, meeting_id: &str) -> (r: Result<
    HttpRequest,
    ImError,
>)
    ensures
        token_result(
            *client,
            r,
            Method::Post,
            "/cgi-bin/meeting/get_info"@,
            Some(JsonV::Obj(seq![("meetingid"@, JsonV::Str(meeting_id@))])),
        ),
{
    client.post("/cgi-bin/meeting/get_info", crate::json::obj1("meetingid", crate::json::jstr(meeting_id)))
}

/// The meetings that could be read, in order.
pub open spec fn read_ok(s: Seq<Result<Meeting, ImError>>) -> Seq<Meeting>
    decreases s.len(),
{
    if s.len() == 0 {
        Seq::empty()
    } else {
        match s.last() {
            Ok(m) => read_ok(s.drop_last()).push(m),
            Err(_) => read_ok(s.drop_last()),
        }
    }
}

/// The page of a listing: the meetings whose details could be read (the others are
/// left out), with more exactly where the listing gave a next cursor.
pub fn meetings_page(details: Vec<Result<Meeting, ImError>>, next_cursor: Option<String>) -> (r: Page<
    Meeting,
>)
    ensures
        r.items@ == read_ok(details@),
        r.has_more == next_cursor is Some,
        r.next_cursor == next_cursor,
{
    let mut out: Vec<Meeting> = Vec::new();
    let ghost all = details@;
    for d in it: details.into_iter()
        invariant
            it.seq() == all,
            it.index() <= all.len(),
            out@ == read_ok(all.take(it.index() as int)),
    {
        let ghost i = it.index();
        proof {
            assert(all.take(i + 1).drop_last() =~= all.take(i as int));
        }
        match d {
            Ok(m) => out.push(m),
            Err(_) => {},
        }
    }
    assert(all.take(all.len() as int) =~= all);
    Page { has_more: next_cursor.is_some(), items: out, next_cursor }
}

/// The request that cancels a meeting.
pub fn cancel_meeting_request(client: &WeComClient, meeting_id: &str) -> (r: Result<
    HttpRequest,
    ImError,
>)
    ensures
        token_result(
            *client,
            r,
            Method::Post,
            "/cgi-bin/meeting/cancel"@,
            Some(JsonV::Obj(seq![("meetingid"@, JsonV::Str(meeting_id@))])),
        ),
{
    client.post("/cgi-bin/meeting/cancel", crate::json::obj1("meetingid", crate::json::jstr(meeting_id)))
}

/// Invitees as WeCom takes them: `{"userid": ..}` each.
pub open spec fn invitees_v(s: Seq<String>) -> Seq<JsonV>
    decreases s.len(),
{
    if s.len() == 0 {
        Seq::empty()
    } else {
        invitees_v(s.drop_last()).push(JsonV::Obj(seq![("userid"@, JsonV::Str(s.last()@))]))
    }
}

/// Each invitee is sent, in order, as `{"userid": <id>}`.
pub proof fn law_invitee_items(s: Seq<String>)
    ensures
        invitees_v(s) == s.map_values(|x: String| JsonV::Obj(seq![("userid"@, JsonV::Str(x@))])),
    decreases s.len(),
{
    if s.len() > 0 {
        law_invitee_items(s.drop_last());
        assert(s.map_values(|x: String| JsonV::Obj(seq![("userid"@, JsonV::Str(x@))])) =~= s.drop_last().map_values(|x: String| JsonV::Obj(seq![("userid"@, JsonV::Str(x@))])).push(
            JsonV::Obj(seq![("userid"@, JsonV::Str(s.last()@))]),
        ));
    }
}

/// The request that sets a meeting's invitees.
pub fn update_members_request(
    client: &WeComClient,
    meeting_id: &str,
    invitee_ids: &Vec<String>,
) -> (r: Result<HttpRequest, ImError>)
    ensures
        token_result(
            *client,
            r,
            Method::Post,
            "/cgi-bin/meeting/set_invite_members"@,
            Some(
                JsonV::Obj(
                    seq![("meetingid"@, JsonV::Str(meeting_id@)), ("invitees"@, JsonV::Arr(invitees_v(invitee_ids@)))],
                ),
            ),
        ),
{
    broadcast use crate::json::group_json;

    let mut out: Vec<Json> = Vec::new();
    let mut i: usize = 0;
    while i < invitee_ids.len()
        invariant
            i <= invitee_ids@.len(),
            jv_seq(out@) == invitees_v(invitee_ids@.subrange(0, i as int)),
        decreases invitee_ids@.len() - i,
    {
        let item = crate::json::obj1("userid", Json::Str(invitee_ids[i].clone()));
        let ghost before = out@;
        let ghost ig = item;
        out.push(item);
        proof {
            crate::json::lemma_jv_seq_push(before, ig);
            assert(invitee_ids@.subrange(0, i + 1).drop_last() =~= invitee_ids@.subrange(0, i as int));
        }
        i = i + 1;
    }
    assert(invitee_ids@.subrange(0, invitee_ids@.len() as int) =~= invitee_ids@);
    let body = crate::json::obj2("meetingid", crate::json::jstr(meeting_id), "invitees", Json::Arr(out));
    client.post("/cgi-bin/meeting/set_invite_members", body)
}

} // verus!
