//! DingTalk workflow approvals: statuses, instance readings and requests.

use crate::dingtalk::client::DingTalkClient;
use crate::http::{HttpRequest, Method};
use crate::json::{jv_members, put, str_arr, Json, JsonV};
use crate::model::{
    ApprovalAction, ApprovalActionRequest, ApprovalInstance, ApprovalStatus, CreateApprovalRequest,
    ImError, ListApprovalRequest, Page,
};
use crate::text::{or_empty, parse_i64_spec, str_eq};
use crate::time::{millis_representable, rfc3339_instant};
use vstd::prelude::*;

verus! {

/// The status of a DingTalk approval text: completed or approved, refused or
/// rejected, terminated or cancelled, deleted; anything else is pending.
pub open spec fn status_of(s: Seq<char>) -> ApprovalStatus {
    if s == "COMPLETED"@ || s == "APPROVED"@ {
        ApprovalStatus::Approved
    } else if s == "REFUSED"@ || s == "REJECTED"@ {
        ApprovalStatus::Rejected
    } else if s == "TERMINATED"@ || s == "CANCELLED"@ {
        ApprovalStatus::Cancelled
    } else if s == "DELETED"@ {
        ApprovalStatus::Deleted
    } else {
        ApprovalStatus::Pending
    }
}

/// How DingTalk's instance statuses read: "COMPLETED" or "APPROVED" as approved,
/// "REFUSED" or "REJECTED" as rejected, "TERMINATED" or "CANCELLED" as cancelled,
/// "DELETED" as deleted, each status from those texts alone; anything else, a
/// running instance among them, is pending. So a refused instance never reads as
/// approved.
pub proof fn law_approval_status_texts(s: Seq<char>)
    ensures
        (status_of(s) == ApprovalStatus::Approved) <==> (s == "COMPLETED"@ || s == "APPROVED"@),
        (status_of(s) == ApprovalStatus::Rejected) <==> (s == "REFUSED"@ || s == "REJECTED"@),
        (status_of(s) == ApprovalStatus::Cancelled) <==> (s == "TERMINATED"@ || s == "CANCELLED"@),
        (status_of(s) == ApprovalStatus::Deleted) <==> s == "DELETED"@,
        (status_of(s) == ApprovalStatus::Pending) <==> !(s == "COMPLETED"@ || s == "APPROVED"@ || s
            == "REFUSED"@ || s == "REJECTED"@ || s == "TERMINATED"@ || s == "CANCELLED"@ || s
            == "DELETED"@),
{
    reveal_strlit("COMPLETED");
    reveal_strlit("APPROVED");
    reveal_strlit("REFUSED");
    reveal_strlit("REJECTED");
    reveal_strlit("TERMINATED");
    reveal_strlit("CANCELLED");
    reveal_strlit("DELETED");
    assert("COMPLETED"@[1] != "CANCELLED"@[1]);
    assert("APPROVED"@[0] != "REJECTED"@[0]);
    assert("REFUSED"@[0] != "DELETED"@[0]);
    assert("COMPLETED"@.len() == 9 && "APPROVED"@.len() == 8 && "REFUSED"@.len() == 7);
    assert("REJECTED"@.len() == 8 && "TERMINATED"@.len() == 10 && "CANCELLED"@.len() == 9);
    assert("DELETED"@.len() == 7);
}

pub fn parse_status(s: &str) -> (r: ApprovalStatus)
    ensures
        r == status_of(s@),
{
    if str_eq(s, "COMPLETED") || str_eq(s, "APPROVED") {
        ApprovalStatus::Approved
    } else if str_eq(s, "REFUSED") || str_eq(s, "REJECTED") {
        ApprovalStatus::Rejected
    } else if str_eq(s, "TERMINATED") || str_eq(s, "CANCELLED") {
        ApprovalStatus::Cancelled
    } else if str_eq(s, "DELETED") {
        ApprovalStatus::Deleted
    } else {
        ApprovalStatus::Pending
    }
}

/// The instant of a DingTalk time text: RFC 3339 where it reads so, else decimal
/// milliseconds that chrono can represent.
pub open spec fn dt_time(s: Seq<char>) -> Option<i64> {
    match rfc3339_instant(s) {
        Some(ms) => Some(ms),
        None => match parse_i64_spec(s) {
            Some(ms) => if millis_representable(ms) {
                Some(ms)
            } else {
                None
            },
            None => None,
        },
    }
}

pub fn parse_dt_time(s: &str) -> (r: Option<i64>)
    ensures
        r == dt_time(s@),
{
    match crate::time::parse_rfc3339(s) {
        Some(ms) => Some(ms),
        None => match crate::text::parse_i64(s) {
            Some(ms) => crate::time::from_millis(ms),
            None => None,
        },
    }
}

pub open spec fn opt_dt_time(s: Option<String>) -> Option<i64> {
    match s {
        Some(t) => dt_time(t@),
        None => None,
    }
}

fn parse_opt_dt_time(s: &Option<String>) -> (r: Option<i64>)
    ensures
        r == opt_dt_time(*s),
{
    match s {
        Some(t) => parse_dt_time(t.as_str()),
        None => None,
    }
}

/// An approval instance as DingTalk gives it.
pub struct DtApprovalInstance {
    pub instance_id: Option<String>,
    pub process_code: Option<String>,
    pub title: Option<String>,
    pub status: Option<String>,
    pub originator_user_id: Option<String>,
    pub form_component_values: Option<Json>,
    pub create_time: Option<String>,
    pub finish_time: Option<String>,
}

pub open spec fn is_instance_of(r: ApprovalInstance, a: DtApprovalInstance) -> bool {
    &&& r.id@ == or_empty(a.instance_id)
    &&& r.process_code@ == or_empty(a.process_code)
    &&& r.title@ == or_empty(a.title)
    &&& r.status == match a.status {
        Some(s) => status_of(s@),
        None => ApprovalStatus::Pending,
    }
    &&& r.initiator_id@ == or_empty(a.originator_user_id)
    &&& r.form_data@ == match a.form_component_values {
        Some(f) => f@,
        None => JsonV::Null,
    }
    &&& r.created_at == opt_dt_time(a.create_time)
    &&& r.finished_at == opt_dt_time(a.finish_time)
}

pub fn instance_from_dt(a: DtApprovalInstance) -> (r: ApprovalInstance)
    ensures
        is_instance_of(r, a),
{
    let status = match &a.status {
        Some(s) => parse_status(s.as_str()),
        None => ApprovalStatus::Pending,
    };
    let created = parse_opt_dt_time(&a.create_time);
    let finished = parse_opt_dt_time(&a.finish_time);
    ApprovalInstance {
        id: crate::text::unwrap_or_empty(a.instance_id),
        process_code: crate::text::unwrap_or_empty(a.process_code),
        title: crate::text::unwrap_or_empty(a.title),
        status,
        initiator_id: crate::text::unwrap_or_empty(a.originator_user_id),
        form_data: match a.form_component_values {
            Some(f) => f,
            None => Json::Null,
        },
        created_at: created,
        finished_at: finished,
    }
}

/// The body that starts an approval.
pub open spec fn create_body_v(req: CreateApprovalRequest) -> JsonV {
    JsonV::Obj(
        seq![
            ("processCode"@, JsonV::Str(req.process_code@)),
            ("originatorUserId"@, JsonV::Str(req.initiator_id@)),
            ("formComponentValues"@, req.form_data@),
            ("approvers"@, JsonV::Arr(str_arr(req.approvers@))),
            ("ccList"@, JsonV::Arr(str_arr(req.cc_users@))),
        ],
    )
}

/// The request that starts an approval; what follows it is a lookup of the instance
/// the reply names.
pub fn create_approval_request(client: &DingTalkClient, req: CreateApprovalRequest) -> (r: Result<
    HttpRequest,
    ImError,
>)
    ensures
        r is Ok <==> client.access_token is Some,
        r matches Ok(q) ==> q.method == Method::Post && q.url@ == client.base_url@
            + "/v1.0/workflow/processInstances"@ && Some(q.headers@[0].1) == client.access_token
            && (q.body matches Some(b) && b@ == create_body_v(req)),
{
    broadcast use crate::json::group_json;

    let ghost g = req;
    let mut m: Vec<(String, Json)> = Vec::new();
    put(&mut m, "processCode", Json::Str(req.process_code));
    put(&mut m, "originatorUserId", Json::Str(req.initiator_id));
    put(&mut m, "formComponentValues", req.form_data);
    put(&mut m, "approvers", crate::json::jstrs(&req.approvers));
    put(&mut m, "ccList", crate::json::jstrs(&req.cc_users));
    assert(jv_members(m@) =~= create_body_v(g)->Obj_0);
    client.post("/v1.0/workflow/processInstances", Json::Obj(m))
}

/// The path of one instance.
pub fn instance_path(instance_id: &str) -> (r: String)
    ensures
        r@ == "/v1.0/workflow/processInstances/"@ + instance_id@,
{
    crate::text::concat2("/v1.0/workflow/processInstances/", instance_id)
}

/// The body of a query: each filter given, in DingTalk's names.
pub open spec fn list_body_v(req: ListApprovalRequest) -> JsonV {
    JsonV::Obj(
        (match req.process_code {
            Some(c) => seq![("processCode"@, JsonV::Str(c@))],
            None => Seq::empty(),
        }) + (match req.start_time {
            Some(t) => seq![("startTime"@, JsonV::Int(t))],
            None => Seq::empty(),
        }) + (match req.end_time {
            Some(t) => seq![("endTime"@, JsonV::Int(t))],
            None => Seq::empty(),
        }) + (match req.cursor {
            Some(c) => seq![("nextCursor"@, JsonV::Str(c@))],
            None => Seq::empty(),
        }) + (match req.limit {
            Some(l) => seq![("maxResults"@, JsonV::Int(l as i64))],
            None => Seq::empty(),
        }),
    )
}

pub fn list_approvals_request(client: &DingTalkClient, req: &ListApprovalRequest) -> (r: Result<
    HttpRequest,
    ImError,
>)
    ensures
        r is Ok <==> client.access_token is Some,
        r matches Ok(q) ==> q.method == Method::Post && q.url@ == client.base_url@
            + "/v1.0/workflow/processInstances/query"@ && (q.body matches Some(b) && b@
            == list_body_v(*req)),
{
    broadcast use crate::json::group_json;

    let mut m: Vec<(String, Json)> = Vec::new();
    match &req.process_code {
        Some(c) => put(&mut m, "processCode", Json::Str(c.clone())),
        None => {},
    }
    match req.start_time {
        Some(t) => put(&mut m, "startTime", Json::Int(t)),
        None => {},
    }
    match req.end_time {
        Some(t) => put(&mut m, "endTime", Json::Int(t)),
        None => {},
    }
    match &req.cursor {
        Some(c) => put(&mut m, "nextCursor", Json::Str(c.clone())),
        None => {},
    }
    match req.limit {
        Some(l) => put(&mut m, "maxResults", Json::Int(l as i64)),
        None => {},
    }
    assert(jv_members(m@) =~= list_body_v(*req)->Obj_0);
    client.post("/v1.0/workflow/processInstances/query", Json::Obj(m))
}

/// A page of instances from the reply's list, `hasMore` (false where absent) and
/// cursor.
pub fn approvals_page(list: Vec<DtApprovalInstance>, has_more: Option<bool>, next_cursor: Option<String>) -> (r:
    Page<ApprovalInstance>)
    ensures
        r.items@.len() == list@.len(),
        forall|i: int| 0 <= i < list@.len() ==> is_instance_of(#[trigger] r.items@[i], list@[i]),
        r.has_more == (has_more == Some(true)),
        r.next_cursor == next_cursor,
{
    let mut out: Vec<ApprovalInstance> = Vec::new();
    let ghost all = list@;
    for a in it: list.into_iter()
        invariant
            it.seq() == all,
            out@.len() == it.index(),
            forall|k: int| 0 <= k < out@.len() ==> is_instance_of(#[trigger] out@[k], all[k]),
    {
        out.push(instance_from_dt(a));
    }
    let more = match has_more {
        Some(b) => b,
        None => false,
    };
    Page { items: out, has_more: more, next_cursor }
}

pub open spec fn action_word(a: ApprovalAction) -> Seq<char> {
    match a {
        ApprovalAction::Approve => "approve"@,
        ApprovalAction::Reject => "reject"@,
    }
}

/// A decision goes where it says: an approval to the "approve" path and a rejection
/// to the "reject" path, never the other.
pub proof fn law_action_words(a: ApprovalAction)
    ensures
        (action_word(a) == "approve"@) <==> a == ApprovalAction::Approve,
        (action_word(a) == "reject"@) <==> a == ApprovalAction::Reject,
{
    reveal_strlit("approve");
    reveal_strlit("reject");
    assert("approve"@.len() == 7 && "reject"@.len() == 6);
}

/// The decision request: to the instance's approve or reject path, with the comment
/// where given.
pub fn action_approval_request(client: &DingTalkClient, req: &ApprovalActionRequest) -> (r: Result<
    HttpRequest,
    ImError,
>)
    ensures
        r is Ok <==> client.access_token is Some,
        r matches Ok(q) ==> q.method == Method::Post && q.url@ == client.base_url@
            + "/v1.0/workflow/processInstances/"@ + req.instance_id@ + "/"@ + action_word(req.action)
            && (q.body matches Some(b) && b@ == JsonV::Obj(
            match req.comment {
                Some(c) => seq![("comment"@, JsonV::Str(c@))],
                None => Seq::empty(),
            },
        )),
{
    broadcast use crate::json::group_json;

    let mut p = instance_path(req.instance_id.as_str());
    crate::text::push_str(&mut p, "/");
    match req.action {
        ApprovalAction::Approve => crate::text::push_str(&mut p, "approve"),
        ApprovalAction::Reject => crate::text::push_str(&mut p, "reject"),
    }
    let mut m: Vec<(String, Json)> = Vec::new();
    match &req.comment {
        Some(c) => put(&mut m, "comment", Json::Str(c.clone())),
        None => {},
    }
    assert(jv_members(m@) =~= match req.comment {
        Some(c) => seq![("comment"@, JsonV::Str(c@))],
        None => Seq::<(Seq<char>, JsonV)>::empty(),
    });
    client.post(p.as_str(), Json::Obj(m))
}

} // verus!
