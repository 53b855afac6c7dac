//! Lark attendance: statistics queries, records, shifts and summaries.

use crate::http::{code_of, HttpRequest, Method};
use crate::json::{jv_members, put, str_arr, Json, JsonV};
use crate::lark::client::{authed_result, LarkClient};
use crate::lark::messaging::{check_envelope, LarkEnvelope};
use crate::model::{
    AttendanceRecord, AttendanceResult, AttendanceShift, AttendanceSummary, CheckType, ImError,
    ListAttendanceRequest, Page,
};
use crate::text::{dec_int, dec_nat, or_empty, or_text, parse_u32_spec};
use crate::time::utc_text;
use vstd::prelude::*;

verus! {

/// One statistic of a user as Lark gives it.
pub struct StatItem {
    pub code: Option<String>,
    pub value: Option<String>,
    pub title: Option<String>,
}

/// A user's statistics as Lark gives them.
pub struct UserStatData {
    pub user_id: Option<String>,
    pub name: Option<String>,
    pub datas: Vec<StatItem>,
}

/// A date as Lark takes it.
pub open spec fn date_text(ms: i64) -> Seq<char> {
    utc_text(ms, "%Y-%m-%d"@)
}

fn date_json(ms: i64) -> (r: Json)
    ensures
        r@ == JsonV::Str(date_text(ms)),
{
    Json::Str(crate::time::fmt_utc(ms, "%Y-%m-%d"))
}

/// The body of a statistics query.
pub open spec fn stats_query_v(req: ListAttendanceRequest) -> JsonV {
    JsonV::Obj(
        seq![
            ("user_ids"@, JsonV::Arr(str_arr(req.user_ids@))),
            ("start_date"@, JsonV::Str(date_text(req.start_date))),
            ("end_date"@, JsonV::Str(date_text(req.end_date))),
            ("page_token"@, JsonV::Str(or_empty(req.cursor))),
            (
                "page_size"@,
                JsonV::Int(
                    match req.limit {
                        Some(l) => l as i64,
                        None => 50,
                    },
                ),
            ),
        ],
    )
}

pub fn list_records_request(client: &LarkClient, req: &ListAttendanceRequest) -> (r: Result<
    HttpRequest,
    ImError,
>)
    ensures
        authed_result(
            *client,
            r,
            Method::Post,
            "/open-apis/attendance/v1/user_stats_datas/query"@,
            Some(stats_query_v(*req)),
        ),
{
    broadcast use crate::json::group_json;

    let mut m: Vec<(String, Json)> = Vec::new();
    put(&mut m, "user_ids", crate::json::jstrs(&req.user_ids));
    put(&mut m, "start_date", date_json(req.start_date));
    put(&mut m, "end_date", date_json(req.end_date));
    put(&mut m, "page_token", Json::Str(crate::text::unwrap_or_empty(req.cursor.clone())));
    let size: u32 = match req.limit {
        Some(l) => l,
        None => 50,
    };
    put(&mut m, "page_size", Json::Int(size as i64));
    assert(jv_members(m@) =~= stats_query_v(*req)->Obj_0);
    client.post("/open-apis/attendance/v1/user_stats_datas/query", Json::Obj(m))
}

/// The records of one user's statistics: one per statistic, numbered from 0 after
/// the user's id, each a normal check-in whose location is the statistic's value.
pub open spec fn user_records_ok(r: Seq<AttendanceRecord>, u: UserStatData) -> bool {
    &&& r.len() == u.datas@.len()
    &&& forall|i: int|
        0 <= i < r.len() ==> {
            &&& (#[trigger] r[i]).id@ == or_empty(u.user_id) + "_"@ + dec_nat(i as nat)
            &&& r[i].user_id@ == or_empty(u.user_id)
            &&& r[i].user_name == u.name
            &&& r[i].check_type == CheckType::CheckIn
            &&& r[i].check_time is None
            &&& r[i].result == AttendanceResult::Normal
            &&& r[i].location == u.datas@[i].value
        }
}

/// The records of one user's statistics.
pub fn user_records(u: &UserStatData) -> (r: Vec<AttendanceRecord>)
    ensures
        user_records_ok(r@, *u),
{
    let uid = crate::text::unwrap_or_empty(u.user_id.clone());
    let mut out: Vec<AttendanceRecord> = Vec::new();
    let mut i: usize = 0;
    while i < u.datas.len()
        invariant
            i <= u.datas@.len(),
            uid@ == or_empty(u.user_id),
            out@.len() == i,
            forall|k: int|
                0 <= k < i ==> {
                    &&& (#[trigger] out@[k]).id@ == or_empty(u.user_id) + "_"@ + dec_nat(k as nat)
                    &&& out@[k].user_id@ == or_empty(u.user_id)
                    &&& out@[k].user_name == u.name
                    &&& out@[k].check_type == CheckType::CheckIn
                    &&& out@[k].check_time is None
                    &&& out@[k].result == AttendanceResult::Normal
                    &&& out@[k].location == u.datas@[k].value
                },
        decreases u.datas@.len() - i,
    {
        let mut id = crate::text::lit(uid.as_str());
        crate::text::push_str(&mut id, "_");
        let n = crate::text::fmt_u64(i as u64);
        crate::text::push_str(&mut id, n.as_str());
        out.push(
            AttendanceRecord {
                id,
                user_id: uid.clone(),
                user_name: u.name.clone(),
                check_type: CheckType::CheckIn,
                check_time: None,
                result: AttendanceResult::Normal,
                location: u.datas[i].value.clone(),
            },
        );
        i = i + 1;
    }
    out
}

/// A page of records from the reply's users, `has_more` (false where absent) and
/// page token: each user's records in turn.
pub fn records_page(users: Vec<UserStatData>, has_more: Option<bool>, page_token: Option<String>) -> (r:
    Page<AttendanceRecord>)
    ensures
        exists|parts: Seq<Seq<AttendanceRecord>>|
            parts.len() == users@.len() && (forall|i: int|
                0 <= i < users@.len() ==> user_records_ok(#[trigger] parts[i], users@[i]))
                && r.items@ == parts.flatten(),
        r.has_more == (has_more == Some(true)),
        r.next_cursor == page_token,
{
    let mut out: Vec<AttendanceRecord> = Vec::new();
    let ghost mut parts: Seq<Seq<AttendanceRecord>> = Seq::empty();
    let mut i: usize = 0;
    while i < users.len()
        invariant
            i <= users@.len(),
            parts.len() == i,
            forall|k: int| 0 <= k < i ==> user_records_ok(#[trigger] parts[k], users@[k]),
            out@ == parts.flatten(),
        decreases users@.len() - i,
    {
        let mut recs = user_records(&users[i]);
        let ghost rv = recs@;
        proof {
            parts.lemma_flatten_push(rv);
            parts = parts.push(rv);
        }
        out.append(&mut recs);
        i = i + 1;
    }
    let more = match has_more {
        Some(b) => b,
        None => false,
    };
    Page { items: out, has_more: more, next_cursor: page_token }
}

/// A shift as Lark gives it.
pub struct LarkShift {
    pub shift_id: Option<String>,
    pub shift_name: Option<String>,
    pub punch_time_rules: Json,
}

/// The shifts of the reply, in order.
pub fn shifts_from_lark(items: Vec<LarkShift>) -> (r: Vec<AttendanceShift>)
    ensures
        r@.len() == items@.len(),
        forall|i: int|
            0 <= i < items@.len() ==> (#[trigger] r@[i]).id@ == or_empty(items@[i].shift_id)
                && r@[i].name@ == or_empty(items@[i].shift_name) && r@[i].schedule
                == items@[i].punch_time_rules,
{
    let mut out: Vec<AttendanceShift> = Vec::new();
    let ghost all = items@;
    for s in it: items.into_iter()
        invariant
            it.seq() == all,
            out@.len() == it.index(),
            forall|k: int|
                0 <= k < out@.len() ==> (#[trigger] out@[k]).id@ == or_empty(all[k].shift_id)
                    && out@[k].name@ == or_empty(all[k].shift_name) && out@[k].schedule
                    == all[k].punch_time_rules,
    {
        out.push(
            AttendanceShift {
                id: crate::text::unwrap_or_empty(s.shift_id),
                name: crate::text::unwrap_or_empty(s.shift_name),
                schedule: s.punch_time_rules,
            },
        );
    }
    out
}

/// The body of a summary query for one user.
pub open spec fn summary_query_v(user_id: Seq<char>, start: i64, end: i64) -> JsonV {
    JsonV::Obj(
        seq![
            ("user_ids"@, JsonV::Arr(seq![JsonV::Str(user_id)])),
            ("start_date"@, JsonV::Str(date_text(start))),
            ("end_date"@, JsonV::Str(date_text(end))),
        ],
    )
}

pub fn summary_request(client: &LarkClient, user_id: &str, start_date: i64, end_date: i64) -> (r:
    Result<HttpRequest, ImError>)
    ensures
        authed_result(
            *client,
            r,
            Method::Post,
            "/open-apis/attendance/v1/user_stats_views/query"@,
            Some(summary_query_v(user_id@, start_date, end_date)),
        ),
{
    broadcast use crate::json::group_json;

    let mut ids: Vec<String> = Vec::new();
    ids.push(user_id.to_string());
    let arr = crate::json::jstrs(&ids);
    proof {
        reveal_with_fuel(str_arr, 2);
        assert(str_arr(ids@) =~= seq![JsonV::Str(user_id@)]);
    }
    let mut m: Vec<(String, Json)> = Vec::new();
    put(&mut m, "user_ids", arr);
    put(&mut m, "start_date", date_json(start_date));
    put(&mut m, "end_date", date_json(end_date));
    assert(jv_members(m@) =~= summary_query_v(user_id@, start_date, end_date)->Obj_0);
    client.post("/open-apis/attendance/v1/user_stats_views/query", Json::Obj(m))
}

/// The count a statistic gives: its value (`0` where absent) as a `u32`, or 0 where
/// it is not one.
pub open spec fn item_count(item: StatItem) -> u32 {
    match parse_u32_spec(or_text(item.value, "0"@)) {
        Some(v) => v,
        None => 0,
    }
}

/// The count of the statistic `code`: that of the last statistic with that code,
/// or 0 where there is none.
pub open spec fn stat_count(items: Seq<StatItem>, code: Seq<char>) -> u32
    decreases items.len(),
{
    if items.len() == 0 {
        0
    } else if or_empty(items.last().code) == code {
        item_count(items.last())
    } else {
        stat_count(items.drop_last(), code)
    }
}

/// A summary for `user_id` from the reply's users: the counts of the first user's
/// work days, late arrivals, early leaves and absences (all 0 where there is no
/// user).
pub open spec fn summary_v(r: AttendanceSummary, user_id: Seq<char>, users: Seq<UserStatData>) -> bool {
    let items = if users.len() > 0 {
        users[0].datas@
    } else {
        Seq::empty()
    };
    &&& r.user_id@ == user_id
    &&& r.work_days == stat_count(items, "work_days"@)
    &&& r.late_count == stat_count(items, "late_count"@)
    &&& r.early_leave_count == stat_count(items, "early_leave_count"@)
    &&& r.absent_count == stat_count(items, "absent_count"@)
}

proof fn lemma_codes_distinct()
    ensures
        "work_days"@ != "late_count"@,
        "work_days"@ != "early_leave_count"@,
        "work_days"@ != "absent_count"@,
        "late_count"@ != "early_leave_count"@,
        "late_count"@ != "absent_count"@,
        "early_leave_count"@ != "absent_count"@,
{
    reveal_strlit("work_days");
    reveal_strlit("late_count");
    reveal_strlit("early_leave_count");
    reveal_strlit("absent_count");
    assert("work_days"@.len() == 9);
    assert("late_count"@.len() == 10);
    assert("early_leave_count"@.len() == 17);
    assert("absent_count"@.len() == 12);
}

fn count_of(item: &StatItem) -> (r: u32)
    ensures
        r == item_count(*item),
{
    let v = crate::text::unwrap_or_text(item.value.clone(), "0");
    match crate::text::parse_u32(v.as_str()) {
        Some(n) => n,
        None => 0,
    }
}

/// The summary for `user_id` from the reply's users.
pub fn summary_from_stats(user_id: &str, users: &Vec<UserStatData>) -> (r: AttendanceSummary)
    ensures
        summary_v(r, user_id@, users@),
{
    let mut work_days: u32 = 0;
    let mut late_count: u32 = 0;
    let mut early_leave_count: u32 = 0;
    let mut absent_count: u32 = 0;
    if users.len() > 0 {
        let items = &users[0].datas;
        let mut i: usize = 0;
        while i < items.len()
            invariant
                i <= items@.len(),
                work_days == stat_count(items@.take(i as int), "work_days"@),
                late_count == stat_count(items@.take(i as int), "late_count"@),
                early_leave_count == stat_count(items@.take(i as int), "early_leave_count"@),
                absent_count == stat_count(items@.take(i as int), "absent_count"@),
            decreases items@.len() - i,
        {
            let item = &items[i];
            let code = crate::text::unwrap_or_empty(item.code.clone());
            proof {
                lemma_codes_distinct();
                assert(items@.take(i + 1).drop_last() =~= items@.take(i as int));
                assert(items@.take(i + 1).last() == items@[i as int]);
            }
            if crate::text::str_eq(code.as_str(), "work_days") {
                work_days = count_of(item);
            } else if crate::text::str_eq(code.as_str(), "late_count") {
                late_count = count_of(item);
            } else if crate::text::str_eq(code.as_str(), "early_leave_count") {
                early_leave_count = count_of(item);
            } else if crate::text::str_eq(code.as_str(), "absent_count") {
                absent_count = count_of(item);
            }
            i = i + 1;
        }
        assert(items@.take(items@.len() as int) =~= items@);
    }
    AttendanceSummary {
        user_id: user_id.to_string(),
        work_days,
        late_count,
        early_leave_count,
        absent_count,
    }
}

/// The reading of a summary query's reply.
pub fn summary_reply(
    user_id: &str,
    text: String,
    parsed: Result<(LarkEnvelope, Vec<UserStatData>), String>,
) -> (r: Result<AttendanceSummary, ImError>)
    ensures
        parsed is Err ==> r == Err::<AttendanceSummary, ImError>(
            ImError::Serialization(parsed->Err_0),
        ),
        parsed matches Ok(p) ==> (r is Ok <==> code_of(p.0.code) == 0),
        parsed matches Ok(p) ==> (r matches Err(e) ==> (e matches ImError::Platform {
            code: c,
            message: m,
        } && c == code_of(p.0.code) && m@ == or_text(p.0.msg, text@))),
        parsed matches Ok(p) ==> (r matches Ok(s) ==> summary_v(s, user_id@, p.1@)),
{
    let (env, users) = match parsed {
        Ok(p) => p,
        Err(e) => {
            return Err(ImError::Serialization(e));
        },
    };
    check_envelope(&env, &text)?;
    Ok(summary_from_stats(user_id, &users))
}

} // verus!
