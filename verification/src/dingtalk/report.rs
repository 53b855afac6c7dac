//! DingTalk reports: templates, submission, listing and statistics.

use crate::dingtalk::approval::{dt_time, parse_dt_time};
use crate::dingtalk::client::DingTalkClient;
use crate::dingtalk::data_table::dt_authed;
use crate::http::{HttpRequest, Method};
use crate::json::{jv_members, put, str_arr, Json, JsonV};
use crate::model::{
    CreateReportRequest, ImError, ListReportsRequest, Page, Report, ReportStatistics, ReportTemplate,
};
use crate::text::or_empty;
use vstd::prelude::*;

verus! {

/// A template as DingTalk gives it.
pub struct DtTemplate {
    pub id: Option<String>,
    pub name: Option<String>,
    pub fields: Option<Json>,
}

pub open spec fn or_null(j: Option<Json>) -> JsonV {
    match j {
        Some(x) => x@,
        None => JsonV::Null,
    }
}

fn unwrap_or_null(j: Option<Json>) -> (r: Json)
    ensures
        r@ == or_null(j),
{
    match j {
        Some(x) => x,
        None => Json::Null,
    }
}

pub open spec fn is_template_of(r: ReportTemplate, t: DtTemplate) -> bool {
    r.id@ == or_empty(t.id) && r.name@ == or_empty(t.name) && r.fields@ == or_null(t.fields)
}

pub fn template_from_dt(t: DtTemplate) -> (r: ReportTemplate)
    ensures
        is_template_of(r, t),
{
    ReportTemplate {
        id: crate::text::unwrap_or_empty(t.id),
        name: crate::text::unwrap_or_empty(t.name),
        fields: unwrap_or_null(t.fields),
    }
}

pub fn templates_from_dt(items: Vec<DtTemplate>) -> (r: Vec<ReportTemplate>)
    ensures
        r@.len() == items@.len(),
        forall|i: int| 0 <= i < items@.len() ==> is_template_of(#[trigger] r@[i], items@[i]),
{
    let mut out: Vec<ReportTemplate> = Vec::new();
    let ghost all = items@;
    for t in it: items.into_iter()
        invariant
            it.seq() == all,
            out@.len() == it.index(),
            forall|k: int| 0 <= k < out@.len() ==> is_template_of(#[trigger] out@[k], all[k]),
    {
        out.push(template_from_dt(t));
    }
    out
}

/// The path of one template, by name.
pub fn template_path(template_name: &str) -> (r: String)
    ensures
        r@ == "/v1.0/report/templates/"@ + template_name@,
{
    crate::text::concat2("/v1.0/report/templates/", template_name)
}

/// The reading of a template lookup's reply.
pub fn template_reply(status: u16, text: String, parsed: Result<DtTemplate, String>) -> (r: Result<
    ReportTemplate,
    ImError,
>)
    ensures
        !crate::http::is_success(status) ==> r == Err::<ReportTemplate, ImError>(
            ImError::Platform { code: status as i64, message: text },
        ),
        crate::http::is_success(status) && parsed is Err ==> r == Err::<ReportTemplate, ImError>(
            ImError::Serialization(parsed->Err_0),
        ),
        crate::http::is_success(status) && parsed is Ok ==> (r matches Ok(t) && is_template_of(
            t,
            parsed->Ok_0,
        )),
{
    let t = crate::http::read_reply(status, text, parsed)?;
    Ok(template_from_dt(t))
}

/// A report as DingTalk gives it.
pub struct DtReport {
    pub report_id: Option<String>,
    pub template_name: Option<String>,
    pub creator_id: Option<String>,
    pub creator_name: Option<String>,
    pub content: Option<Json>,
    pub create_time: Option<String>,
    pub modified_time: Option<String>,
}

/// A time that DingTalk gives as RFC 3339 or as milliseconds since the epoch.
pub open spec fn opt_dt_time(s: Option<String>) -> Option<i64> {
    match s {
        Some(t) => dt_time(t@),
        None => None,
    }
}

fn read_opt_time(s: &Option<String>) -> (r: Option<i64>)
    ensures
        r == opt_dt_time(*s),
{
    match s {
        Some(t) => parse_dt_time(t.as_str()),
        None => None,
    }
}

pub open spec fn is_report_of(r: Report, x: DtReport) -> bool {
    &&& r.id@ == or_empty(x.report_id)
    &&& r.template_name == x.template_name
    &&& r.creator_id@ == or_empty(x.creator_id)
    &&& r.creator_name == x.creator_name
    &&& r.content@ == or_null(x.content)
    &&& r.created_at == opt_dt_time(x.create_time)
    &&& r.modified_at == opt_dt_time(x.modified_time)
}

pub fn report_from_dt(x: DtReport) -> (r: Report)
    ensures
        is_report_of(r, x),
{
    let created_at = read_opt_time(&x.create_time);
    let modified_at = read_opt_time(&x.modified_time);
    Report {
        id: crate::text::unwrap_or_empty(x.report_id),
        template_name: x.template_name,
        creator_id: crate::text::unwrap_or_empty(x.creator_id),
        creator_name: x.creator_name,
        content: unwrap_or_null(x.content),
        created_at,
        modified_at,
    }
}

/// The reading of a reply that carries one report (submission and lookup).
pub fn report_reply(status: u16, text: String, parsed: Result<DtReport, String>) -> (r: Result<
    Report,
    ImError,
>)
    ensures
        !crate::http::is_success(status) ==> r == Err::<Report, ImError>(
            ImError::Platform { code: status as i64, message: text },
        ),
        crate::http::is_success(status) && parsed is Err ==> r == Err::<Report, ImError>(
            ImError::Serialization(parsed->Err_0),
        ),
        crate::http::is_success(status) && parsed is Ok ==> (r matches Ok(x) && is_report_of(
            x,
            parsed->Ok_0,
        )),
{
    let x = crate::http::read_reply(status, text, parsed)?;
    Ok(report_from_dt(x))
}

/// A page of reports from the reply's list, `hasMore` (false where absent) and cursor.
pub fn reports_page(items: Vec<DtReport>, has_more: Option<bool>, next_cursor: Option<String>) -> (r:
    Page<Report>)
    ensures
        r.items@.len() == items@.len(),
        forall|i: int| 0 <= i < items@.len() ==> is_report_of(#[trigger] r.items@[i], items@[i]),
        r.has_more == (has_more == Some(true)),
        r.next_cursor == next_cursor,
{
    let mut out: Vec<Report> = Vec::new();
    let ghost all = items@;
    for x in it: items.into_iter()
        invariant
            it.seq() == all,
            out@.len() == it.index(),
            forall|k: int| 0 <= k < out@.len() ==> is_report_of(#[trigger] out@[k], all[k]),
    {
        out.push(report_from_dt(x));
    }
    let more = match has_more {
        Some(b) => b,
        None => false,
    };
    Page { items: out, has_more: more, next_cursor }
}

/// The body of a report submission.
pub open spec fn create_body_v(req: CreateReportRequest) -> JsonV {
    JsonV::Obj(
        seq![
            ("templateId"@, JsonV::Str(req.template_id@)),
            ("content"@, req.content@),
            ("toUserIds"@, JsonV::Arr(str_arr(req.to_user_ids@))),
        ],
    )
}

pub fn create_report_request(client: &DingTalkClient, req: &CreateReportRequest) -> (r: Result<
    HttpRequest,
    ImError,
>)
    ensures
        dt_authed(*client, r, Method::Post, "/v1.0/report/reports"@, Some(create_body_v(*req))),
{
    broadcast use crate::json::group_json;

    let mut m: Vec<(String, Json)> = Vec::new();
    put(&mut m, "templateId", Json::Str(req.template_id.clone()));
    put(&mut m, "content", crate::json::json_clone(&req.content));
    put(&mut m, "toUserIds", crate::json::jstrs(&req.to_user_ids));
    assert(jv_members(m@) =~= create_body_v(*req)->Obj_0);
    client.post("/v1.0/report/reports", Json::Obj(m))
}

/// The body of a report query: the template, the creator, the range in milliseconds,
/// the cursor and the page size, each where given, in that order.
pub open spec fn query_body_v(req: ListReportsRequest) -> JsonV {
    JsonV::Obj(
        (match req.template_name {
            Some(n) => seq![("templateName"@, JsonV::Str(n@))],
            None => Seq::empty(),
        }) + (match req.creator_id {
            Some(c) => seq![("creatorId"@, JsonV::Str(c@))],
            None => Seq::empty(),
        }) + (match req.start_time {
            Some(t) => seq![("startTime"@, JsonV::Int(t))],
            None => Seq::empty(),
        }) + (match req.end_time {
            Some(t) => seq![("endTime"@, JsonV::Int(t))],
            None => Seq::empty(),
        }) + (match req.cursor {
            Some(c) => seq![("nextCursor"@, JsonV::Str(c@))],
            None => Seq::empty(),
        }) + (match req.limit {
            Some(l) => seq![("maxResults"@, JsonV::Int(l as i64))],
            None => Seq::empty(),
        }),
    )
}

pub fn list_reports_request(client: &DingTalkClient, req: &ListReportsRequest) -> (r: Result<
    HttpRequest,
    ImError,
>)
    ensures
        dt_authed(*client, r, Method::Post, "/v1.0/report/reports/query"@, Some(query_body_v(*req))),
{
    broadcast use crate::json::group_json;

    let mut m: Vec<(String, Json)> = Vec::new();
    match &req.template_name {
        Some(n) => put(&mut m, "templateName", Json::Str(n.clone())),
        None => {},
    }
    match &req.creator_id {
        Some(c) => put(&mut m, "creatorId", Json::Str(c.clone())),
        None => {},
    }
    match req.start_time {
        Some(t) => put(&mut m, "startTime", Json::Int(t)),
        None => {},
    }
    match req.end_time {
        Some(t) => put(&mut m, "endTime", Json::Int(t)),
        None => {},
    }
    match &req.cursor {
        Some(c) => put(&mut m, "nextCursor", Json::Str(c.clone())),
        None => {},
    }
    match req.limit {
        Some(l) => put(&mut m, "maxResults", Json::Int(l as i64)),
        None => {},
    }
    assert(jv_members(m@) =~= query_body_v(*req)->Obj_0);
    client.post("/v1.0/report/reports/query", Json::Obj(m))
}

/// The path of one report.
pub fn report_path(report_id: &str) -> (r: String)
    ensures
        r@ == "/v1.0/report/reports/"@ + report_id@,
{
    crate::text::concat2("/v1.0/report/reports/", report_id)
}

/// The path of a report's statistics.
pub fn statistics_path(report_id: &str) -> (r: String)
    ensures
        r@ == "/v1.0/report/reports/"@ + report_id@ + "/statistics"@,
{
    let mut p = report_path(report_id);
    crate::text::push_str(&mut p, "/statistics");
    p
}

/// Statistics as DingTalk gives them.
pub struct DtStatistics {
    pub template_name: Option<String>,
    pub total_submitted: Option<u32>,
    pub total_not_submitted: Option<u32>,
    pub submitted_users: Vec<String>,
}

/// Statistics with absent counts as 0 and an absent template name as empty.
pub fn statistics_from_dt(s: DtStatistics) -> (r: ReportStatistics)
    ensures
        r.template_name@ == or_empty(s.template_name),
        r.total_submitted == match s.total_submitted {
            Some(n) => n,
            None => 0u32,
        },
        r.total_not_submitted == match s.total_not_submitted {
            Some(n) => n,
            None => 0u32,
        },
        r.submitted_users == s.submitted_users,
{
    let total_submitted = match s.total_submitted {
        Some(n) => n,
        None => 0,
    };
    let total_not_submitted = match s.total_not_submitted {
        Some(n) => n,
        None => 0,
    };
    ReportStatistics {
        template_name: crate::text::unwrap_or_empty(s.template_name),
        total_submitted,
        total_not_submitted,
        submitted_users: s.submitted_users,
    }
}

} // verus!
