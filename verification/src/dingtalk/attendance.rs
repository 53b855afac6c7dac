//! DingTalk attendance: check records, shifts and summaries.

use crate::dingtalk::approval::{dt_time, parse_dt_time};
use crate::dingtalk::client::DingTalkClient;
use crate::http::{HttpRequest, Method};
use crate::json::{jv_members, put, str_arr, Json, JsonV};
use crate::model::{
    AttendanceRecord, AttendanceResult, AttendanceShift, AttendanceSummary, CheckType, ImError,
    ListAttendanceRequest, Page,
};
use crate::text::{count_or, opt_view, or_empty, or_text, str_eq};
use crate::time::utc_text;
use vstd::prelude::*;

verus! {

/// The check type of a DingTalk text: on duty is a check-in, anything else a
/// check-out.
pub open spec fn check_type_of(s: Seq<char>) -> CheckType {
    if s == "OnDuty"@ || s == "on_duty"@ {
        CheckType::CheckIn
    } else {
        CheckType::CheckOut
    }
}

pub fn parse_check_type(s: &str) -> (r: CheckType)
    ensures
        r == check_type_of(s@),
{
    if str_eq(s, "OnDuty") || str_eq(s, "on_duty") {
        CheckType::CheckIn
    } else {
        CheckType::CheckOut
    }
}

/// The result of a DingTalk time result text; unknown texts are normal.
pub open spec fn result_of(s: Seq<char>) -> AttendanceResult {
    if s == "Normal"@ || s == "normal"@ {
        AttendanceResult::Normal
    } else if s == "Late"@ || s == "late"@ {
        AttendanceResult::Late
    } else if s == "Early"@ || s == "early"@ {
        AttendanceResult::EarlyLeave
    } else if s == "Absent"@ || s == "absent"@ || s == "SeriousLate"@ {
        AttendanceResult::Absent
    } else if s == "NotSigned"@ || s == "not_signed"@ {
        AttendanceResult::NotSigned
    } else {
        AttendanceResult::Normal
    }
}

pub fn parse_attendance_result(s: &str) -> (r: AttendanceResult)
    ensures
        r == result_of(s@),
{
    if str_eq(s, "Normal") || str_eq(s, "normal") {
        AttendanceResult::Normal
    } else if str_eq(s, "Late") || str_eq(s, "late") {
        AttendanceResult::Late
    } else if str_eq(s, "Early") || str_eq(s, "early") {
        AttendanceResult::EarlyLeave
    } else if str_eq(s, "Absent") || str_eq(s, "absent") || str_eq(s, "SeriousLate") {
        AttendanceResult::Absent
    } else if str_eq(s, "NotSigned") || str_eq(s, "not_signed") {
        AttendanceResult::NotSigned
    } else {
        AttendanceResult::Normal
    }
}

/// How DingTalk's check texts read: "OnDuty" or "on_duty" is a check-in, and every
/// other text a check-out.
pub proof fn law_check_type_texts(s: Seq<char>)
    ensures
        (check_type_of(s) == CheckType::CheckIn) <==> (s == "OnDuty"@ || s == "on_duty"@),
        (check_type_of(s) == CheckType::CheckOut) <==> !(s == "OnDuty"@ || s == "on_duty"@),
{
}

/// How DingTalk's time results read: "Late"/"late" as late, "Early"/"early" as an
/// early leave, "Absent"/"absent"/"SeriousLate" as absent, "NotSigned"/"not_signed"
/// as not signed, each result from those texts alone; "Normal"/"normal" and any
/// other text read as normal. So a late check never reads as normal.
pub proof fn law_attendance_result_texts(s: Seq<char>)
    ensures
        result_of("Normal"@) == AttendanceResult::Normal,
        result_of("normal"@) == AttendanceResult::Normal,
        (result_of(s) == AttendanceResult::Late) <==> (s == "Late"@ || s == "late"@),
        (result_of(s) == AttendanceResult::EarlyLeave) <==> (s == "Early"@ || s == "early"@),
        (result_of(s) == AttendanceResult::Absent) <==> (s == "Absent"@ || s == "absent"@ || s
            == "SeriousLate"@),
        (result_of(s) == AttendanceResult::NotSigned) <==> (s == "NotSigned"@ || s == "not_signed"@),
        (result_of(s) == AttendanceResult::Normal) <==> !(s == "Late"@ || s == "late"@ || s == "Early"@
            || s == "early"@ || s == "Absent"@ || s == "absent"@ || s == "SeriousLate"@ || s
            == "NotSigned"@ || s == "not_signed"@),
{
    reveal_strlit("Normal");
    reveal_strlit("normal");
    reveal_strlit("Late");
    reveal_strlit("late");
    reveal_strlit("Early");
    reveal_strlit("early");
    reveal_strlit("Absent");
    reveal_strlit("absent");
    reveal_strlit("SeriousLate");
    reveal_strlit("NotSigned");
    reveal_strlit("not_signed");
    assert("Normal"@[0] != "Absent"@[0] && "Normal"@[0] != "absent"@[0]);
    assert("normal"@[0] != "Absent"@[0] && "normal"@[0] != "absent"@[0]);
    assert("Normal"@[0] != "normal"@[0] && "Late"@[0] != "late"@[0] && "Early"@[0] != "early"@[0]);
    assert("Absent"@[0] != "absent"@[0]);
    assert("Normal"@.len() == 6 && "normal"@.len() == 6 && "Late"@.len() == 4 && "late"@.len() == 4);
    assert("Early"@.len() == 5 && "early"@.len() == 5 && "Absent"@.len() == 6 && "absent"@.len() == 6);
    assert("SeriousLate"@.len() == 11 && "NotSigned"@.len() == 9 && "not_signed"@.len() == 10);
}

/// A check record as DingTalk gives it.
pub struct DtAttendanceRecord {
    pub id: Option<String>,
    pub user_id: Option<String>,
    pub user_name: Option<String>,
    pub check_type: Option<String>,
    pub user_check_time: Option<String>,
    pub time_result: Option<String>,
    pub location_result: Option<String>,
}

pub open spec fn is_record_of(r: AttendanceRecord, x: DtAttendanceRecord) -> bool {
    &&& r.id@ == or_empty(x.id)
    &&& r.user_id@ == or_empty(x.user_id)
    &&& r.user_name == x.user_name
    &&& r.check_type == match x.check_type {
        Some(t) => check_type_of(t@),
        None => CheckType::CheckIn,
    }
    &&& r.check_time == match x.user_check_time {
        Some(t) => dt_time(t@),
        None => None,
    }
    &&& r.result == match x.time_result {
        Some(t) => result_of(t@),
        None => AttendanceResult::Normal,
    }
    &&& r.location == x.location_result
}

pub fn record_from_dt(x: DtAttendanceRecord) -> (r: AttendanceRecord)
    ensures
        is_record_of(r, x),
{
    let check_type = match &x.check_type {
        Some(t) => parse_check_type(t.as_str()),
        None => CheckType::CheckIn,
    };
    let check_time = match &x.user_check_time {
        Some(t) => parse_dt_time(t.as_str()),
        None => None,
    };
    let result = match &x.time_result {
        Some(t) => parse_attendance_result(t.as_str()),
        None => AttendanceResult::Normal,
    };
    AttendanceRecord {
        id: crate::text::unwrap_or_empty(x.id),
        user_id: crate::text::unwrap_or_empty(x.user_id),
        user_name: x.user_name,
        check_type,
        check_time,
        result,
        location: x.location_result,
    }
}

/// A page of records from the reply's list.
pub fn records_page(list: Vec<DtAttendanceRecord>, has_more: Option<bool>, next_cursor: Option<String>) -> (r:
    Page<AttendanceRecord>)
    ensures
        r.items@.len() == list@.len(),
        forall|i: int| 0 <= i < list@.len() ==> is_record_of(#[trigger] r.items@[i], list@[i]),
        r.has_more == (has_more == Some(true)),
        r.next_cursor == next_cursor,
{
    let mut out: Vec<AttendanceRecord> = Vec::new();
    let ghost all = list@;
    for x in it: list.into_iter()
        invariant
            it.seq() == all,
            out@.len() == it.index(),
            forall|k: int| 0 <= k < out@.len() ==> is_record_of(#[trigger] out@[k], all[k]),
    {
        out.push(record_from_dt(x));
    }
    let more = match has_more {
        Some(b) => b,
        None => false,
    };
    Page { items: out, has_more: more, next_cursor }
}

pub open spec fn date_text(ms: i64) -> Seq<char> {
    utc_text(ms, "%Y-%m-%d"@)
}

fn date_json(ms: i64) -> (r: Json)
    ensures
        r@ == JsonV::Str(date_text(ms)),
{
    Json::Str(crate::time::fmt_utc(ms, "%Y-%m-%d"))
}

/// The body of a records query: the users, the dates, the cursor (`0` by default) and
/// the size (50 by default).
pub open spec fn records_body_v(req: ListAttendanceRequest) -> JsonV {
    JsonV::Obj(
        seq![
            ("userIds"@, JsonV::Arr(str_arr(req.user_ids@))),
            ("startDate"@, JsonV::Str(date_text(req.start_date))),
            ("endDate"@, JsonV::Str(date_text(req.end_date))),
            ("cursor"@, JsonV::Str(or_text(req.cursor, "0"@))),
            ("size"@, JsonV::Int(count_or(req.limit, 50))),
        ],
    )
}

pub fn list_records_request(client: &DingTalkClient, req: &ListAttendanceRequest) -> (r: Result<
    HttpRequest,
    ImError,
>)
    ensures
        r is Ok <==> client.access_token is Some,
        r matches Ok(q) ==> q.method == Method::Post && q.url@ == client.base_url@
            + "/v1.0/attendance/records/query"@ && (q.body matches Some(b) && b@ == records_body_v(*req)),
{
    broadcast use crate::json::group_json;

    let size: u32 = match req.limit {
        Some(l) => l,
        None => 50,
    };
    let mut m: Vec<(String, Json)> = Vec::new();
    put(&mut m, "userIds", crate::json::jstrs(&req.user_ids));
    put(&mut m, "startDate", date_json(req.start_date));
    put(&mut m, "endDate", date_json(req.end_date));
    put(&mut m, "cursor", Json::Str(crate::text::unwrap_or_text(req.cursor.clone(), "0")));
    put(&mut m, "size", Json::Int(size as i64));
    assert(jv_members(m@) =~= records_body_v(*req)->Obj_0);
    client.post("/v1.0/attendance/records/query", Json::Obj(m))
}

/// The body of a shifts query: the users and the dates.
pub open spec fn shifts_body_v(user_ids: Seq<String>, start: i64, end: i64) -> JsonV {
    JsonV::Obj(
        seq![
            ("userIds"@, JsonV::Arr(str_arr(user_ids))),
            ("startDate"@, JsonV::Str(date_text(start))),
            ("endDate"@, JsonV::Str(date_text(end))),
        ],
    )
}

pub fn list_shifts_request(client: &DingTalkClient, user_ids: &Vec<String>, start_date: i64, end_date: i64) -> (r:
    Result<HttpRequest, ImError>)
    ensures
        r is Ok <==> client.access_token is Some,
        r matches Ok(q) ==> q.method == Method::Post && q.url@ == client.base_url@
            + "/v1.0/attendance/shifts/query"@ && (q.body matches Some(b) && b@ == shifts_body_v(
            user_ids@,
            start_date,
            end_date,
        )),
{
    broadcast use crate::json::group_json;

    let mut m: Vec<(String, Json)> = Vec::new();
    put(&mut m, "userIds", crate::json::jstrs(user_ids));
    put(&mut m, "startDate", date_json(start_date));
    put(&mut m, "endDate", date_json(end_date));
    assert(jv_members(m@) =~= shifts_body_v(user_ids@, start_date, end_date)->Obj_0);
    client.post("/v1.0/attendance/shifts/query", Json::Obj(m))
}

/// A shift as DingTalk gives it.
pub struct DtShift {
    pub id: Option<String>,
    pub name: Option<String>,
    pub sections: Json,
}

/// The shifts of the reply's list, in order.
pub fn shifts_from_dt(list: Vec<DtShift>) -> (r: Vec<AttendanceShift>)
    ensures
        r@.len() == list@.len(),
        forall|i: int|
            0 <= i < list@.len() ==> (#[trigger] r@[i]).id@ == or_empty(list@[i].id) && r@[i].name@
                == or_empty(list@[i].name) && r@[i].schedule == list@[i].sections,
{
    let mut out: Vec<AttendanceShift> = Vec::new();
    let ghost all = list@;
    for s in it: list.into_iter()
        invariant
            it.seq() == all,
            out@.len() == it.index(),
            forall|k: int|
                0 <= k < out@.len() ==> (#[trigger] out@[k]).id@ == or_empty(all[k].id) && out@[k].name@
                    == or_empty(all[k].name) && out@[k].schedule == all[k].sections,
    {
        out.push(
            AttendanceShift {
                id: crate::text::unwrap_or_empty(s.id),
                name: crate::text::unwrap_or_empty(s.name),
                schedule: s.sections,
            },
        );
    }
    out
}

/// The body of a summary query: the user and the dates.
pub open spec fn summary_body_v(user_id: Seq<char>, start: i64, end: i64) -> JsonV {
    JsonV::Obj(
        seq![
            ("userId"@, JsonV::Str(user_id)),
            ("startDate"@, JsonV::Str(date_text(start))),
            ("endDate"@, JsonV::Str(date_text(end))),
        ],
    )
}

pub fn summary_request(client: &DingTalkClient, user_id: &str, start_date: i64, end_date: i64) -> (r: Result<
    HttpRequest,
    ImError,
>)
    ensures
        r is Ok <==> client.access_token is Some,
        r matches Ok(q) ==> q.method == Method::Post && q.url@ == client.base_url@
            + "/v1.0/attendance/records/summary"@ && (q.body matches Some(b) && b@ == summary_body_v(
            user_id@,
            start_date,
            end_date,
        )),
{
    broadcast use crate::json::group_json;

    let mut m: Vec<(String, Json)> = Vec::new();
    put(&mut m, "userId", crate::json::jstr(user_id));
    put(&mut m, "startDate", date_json(start_date));
    put(&mut m, "endDate", date_json(end_date));
    assert(jv_members(m@) =~= summary_body_v(user_id@, start_date, end_date)->Obj_0);
    client.post("/v1.0/attendance/records/summary", Json::Obj(m))
}

/// A summary as DingTalk gives it (the overtime hours, a decimal, stay with the
/// caller).
pub struct DtSummary {
    pub user_id: Option<String>,
    pub work_days: Option<u32>,
    pub late_count: Option<u32>,
    pub early_leave_count: Option<u32>,
    pub absent_count: Option<u32>,
}

pub open spec fn or_zero(v: Option<u32>) -> u32 {
    match v {
        Some(x) => x,
        None => 0,
    }
}

/// The summary: the reply's user (else the one asked for) and counts (0 where absent).
pub fn summary_from_dt(user_id: &str, s: DtSummary) -> (r: AttendanceSummary)
    ensures
        r.user_id@ == or_text(s.user_id, user_id@),
        r.work_days == or_zero(s.work_days),
        r.late_count == or_zero(s.late_count),
        r.early_leave_count == or_zero(s.early_leave_count),
        r.absent_count == or_zero(s.absent_count),
{
    AttendanceSummary {
        user_id: crate::text::unwrap_or_text(s.user_id, user_id),
        work_days: match s.work_days {
            Some(v) => v,
            None => 0,
        },
        late_count: match s.late_count {
            Some(v) => v,
            None => 0,
        },
        early_leave_count: match s.early_leave_count {
            Some(v) => v,
            None => 0,
        },
        absent_count: match s.absent_count {
            Some(v) => v,
            None => 0,
        },
    }
}

} // verus!
