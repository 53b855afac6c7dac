//! Lark approvals: statuses, instance readings and requests.

use crate::http::{HttpRequest, Method};
use crate::json::{jv_members, jv_seq, put, Json, JsonV};
use crate::lark::client::{authed_result, LarkClient};
use crate::model::{
    ApprovalAction, ApprovalActionRequest, ApprovalInstance, ApprovalStatus, CreateApprovalRequest,
    ImError, ListApprovalRequest, Page,
};
use crate::text::{dec_nat, or_empty, parse_i64_spec, str_eq};
use crate::time::millis_representable;
use vstd::prelude::*;

verus! {

/// The status of a Lark approval text: approved, rejected, canceled (either
/// spelling), deleted; anything else is pending.
pub open spec fn status_of(s: Seq<char>) -> ApprovalStatus {
    if s == "PENDING"@ {
        ApprovalStatus::Pending
    } else if s == "APPROVED"@ {
        ApprovalStatus::Approved
    } else if s == "REJECTED"@ {
        ApprovalStatus::Rejected
    } else if s == "CANCELED"@ || s == "CANCELLED"@ {
        ApprovalStatus::Cancelled
    } else if s == "DELETED"@ {
        ApprovalStatus::Deleted
    } else {
        ApprovalStatus::Pending
    }
}

pub fn parse_status(s: &str) -> (r: ApprovalStatus)
    ensures
        r == status_of(s@),
{
    if str_eq(s, "PENDING") {
        ApprovalStatus::Pending
    } else if str_eq(s, "APPROVED") {
        ApprovalStatus::Approved
    } else if str_eq(s, "REJECTED") {
        ApprovalStatus::Rejected
    } else if str_eq(s, "CANCELED") || str_eq(s, "CANCELLED") {
        ApprovalStatus::Cancelled
    } else if str_eq(s, "DELETED") {
        ApprovalStatus::Deleted
    } else {
        ApprovalStatus::Pending
    }
}

/// How Lark's instance statuses read: "APPROVED" as approved, "REJECTED" as rejected,
/// "CANCELED" or "CANCELLED" as cancelled, "DELETED" as deleted, and each of these
/// statuses from those texts alone; "PENDING", and any text Lark does not name,
/// reads as pending. So a rejected instance never reads as approved.
pub proof fn law_approval_status_texts(s: Seq<char>)
    ensures
        status_of("PENDING"@) == ApprovalStatus::Pending,
        (status_of(s) == ApprovalStatus::Approved) <==> s == "APPROVED"@,
        (status_of(s) == ApprovalStatus::Rejected) <==> s == "REJECTED"@,
        (status_of(s) == ApprovalStatus::Cancelled) <==> (s == "CANCELED"@ || s == "CANCELLED"@),
        (status_of(s) == ApprovalStatus::Deleted) <==> s == "DELETED"@,
        (status_of(s) == ApprovalStatus::Pending) <==> !(s == "APPROVED"@ || s == "REJECTED"@
            || s == "CANCELED"@ || s == "CANCELLED"@ || s == "DELETED"@),
{
    reveal_strlit("PENDING");
    reveal_strlit("APPROVED");
    reveal_strlit("REJECTED");
    reveal_strlit("CANCELED");
    reveal_strlit("CANCELLED");
    reveal_strlit("DELETED");
    assert("PENDING"@[0] != "DELETED"@[0]);
    assert("APPROVED"@[0] != "REJECTED"@[0]);
    assert("APPROVED"@[0] != "CANCELED"@[0]);
    assert("REJECTED"@[0] != "CANCELED"@[0]);
}

/// The instant of decimal milliseconds that chrono can represent.
pub open spec fn ms_text(s: Option<String>) -> Option<i64> {
    match s {
        Some(t) => match parse_i64_spec(t@) {
            Some(ms) => if millis_representable(ms) {
                Some(ms)
            } else {
                None
            },
            None => None,
        },
        None => None,
    }
}

pub fn ts_opt(s: &Option<String>) -> (r: Option<i64>)
    ensures
        r == ms_text(*s),
{
    match s {
        Some(t) => match crate::text::parse_i64(t.as_str()) {
            Some(ms) => crate::time::from_millis(ms),
            None => None,
        },
        None => None,
    }
}

/// Approvers as Lark takes them: each an AND approver by open id.
pub open spec fn approvers_v(s: Seq<String>) -> Seq<JsonV>
    decreases s.len(),
{
    if s.len() == 0 {
        Seq::empty()
    } else {
        approvers_v(s.drop_last()).push(
            JsonV::Obj(seq![("type"@, JsonV::Str("AND"@)), ("open_id"@, JsonV::Str(s.last()@))]),
        )
    }
}

/// Copied users as Lark takes them: each by open id.
pub open spec fn cc_v(s: Seq<String>) -> Seq<JsonV>
    decreases s.len(),
{
    if s.len() == 0 {
        Seq::empty()
    } else {
        cc_v(s.drop_last()).push(JsonV::Obj(seq![("open_id"@, JsonV::Str(s.last()@))]))
    }
}

fn approvers_json(ids: &Vec<String>, and: bool) -> (r: Json)
    ensures
        and ==> r@ == JsonV::Arr(approvers_v(ids@)),
        !and ==> r@ == JsonV::Arr(cc_v(ids@)),
{
    broadcast use crate::json::group_json;

    let mut out: Vec<Json> = Vec::new();
    let mut i: usize = 0;
    while i < ids.len()
        invariant
            i <= ids@.len(),
            and ==> jv_seq(out@) == approvers_v(ids@.subrange(0, i as int)),
            !and ==> jv_seq(out@) == cc_v(ids@.subrange(0, i as int)),
        decreases ids@.len() - i,
    {
        let item = if and {
            crate::json::obj2("type", crate::json::jstr("AND"), "open_id", Json::Str(ids[i].clone()))
        } else {
            crate::json::obj1("open_id", Json::Str(ids[i].clone()))
        };
        let ghost before = out@;
        let ghost ig = item;
        out.push(item);
        proof {
            crate::json::lemma_jv_seq_push(before, ig);
            assert(ids@.subrange(0, i + 1).drop_last() =~= ids@.subrange(0, i as int));
        }
        i = i + 1;
    }
    assert(ids@.subrange(0, ids@.len() as int) =~= ids@);
    Json::Arr(out)
}

/// The body that starts an approval: the form goes as JSON text.
pub open spec fn create_body_v(req: CreateApprovalRequest) -> JsonV {
    JsonV::Obj(
        seq![
            ("approval_code"@, JsonV::Str(req.process_code@)),
            ("open_id"@, JsonV::Str(req.initiator_id@)),
            ("form"@, JsonV::Embedded(Box::new(req.form_data@))),
            ("approvers"@, JsonV::Arr(approvers_v(req.approvers@))),
            ("cc_list"@, JsonV::Arr(cc_v(req.cc_users@))),
        ],
    )
}

/// The request that starts an approval.
pub fn create_approval_request(client: &LarkClient, req: &CreateApprovalRequest) -> (r: Result<
    HttpRequest,
    ImError,
>)
    ensures
        authed_result(*client, r, Method::Post, "/open-apis/approval/v4/instances"@, Some(create_body_v(*req))),
{
    broadcast use crate::json::group_json;

    let mut m: Vec<(String, Json)> = Vec::new();
    put(&mut m, "approval_code", Json::Str(req.process_code.clone()));
    put(&mut m, "open_id", Json::Str(req.initiator_id.clone()));
    let inner = crate::json::json_clone(&req.form_data);
    let ghost iv = inner@;
    let form = Json::Embedded(Box::new(inner));
    assert(form@ == JsonV::Embedded(Box::new(iv)));
    put(&mut m, "form", form);
    put(&mut m, "approvers", approvers_json(&req.approvers, true));
    put(&mut m, "cc_list", approvers_json(&req.cc_users, false));
    assert(jv_members(m@) =~= create_body_v(*req)->Obj_0);
    client.post("/open-apis/approval/v4/instances", Json::Obj(m))
}

/// The instance started: the code the reply gives (empty where none), pending, with
/// the request's process, initiator and form, created at `now`.
pub fn created_instance(
    process_code: String,
    initiator_id: String,
    form_data: Json,
    instance_code: Option<String>,
    now: i64,
) -> (r: ApprovalInstance)
    ensures
        r.id@ == or_empty(instance_code),
        r.process_code == process_code,
        r.title@ == Seq::<char>::empty(),
        r.status == ApprovalStatus::Pending,
        r.initiator_id == initiator_id,
        r.form_data == form_data,
        r.created_at == Some(now),
        r.finished_at is None,
{
    ApprovalInstance {
        id: crate::text::unwrap_or_empty(instance_code),
        process_code,
        title: String::new(),
        status: ApprovalStatus::Pending,
        initiator_id,
        form_data,
        created_at: Some(now),
        finished_at: None,
    }
}

/// The listing path: the process (empty where none), the page size (20 by default)
/// and the cursor where given.
pub open spec fn list_path_v(req: ListApprovalRequest) -> Seq<char> {
    "/open-apis/approval/v4/instances?approval_code="@ + or_empty(req.process_code) + "&page_size="@
        + dec_nat(
        match req.limit {
            Some(l) => l as nat,
            None => 20,
        },
    ) + match req.cursor {
        Some(c) => "&page_token="@ + c@,
        None => Seq::empty(),
    }
}

pub fn list_approvals_path(req: &ListApprovalRequest) -> (r: String)
    ensures
        r@ == list_path_v(*req),
{
    let mut p = crate::text::lit("/open-apis/approval/v4/instances?approval_code=");
    let code = crate::text::unwrap_or_empty(req.process_code.clone());
    crate::text::push_str(&mut p, code.as_str());
    crate::text::push_str(&mut p, "&page_size=");
    let limit: u32 = match req.limit {
        Some(l) => l,
        None => 20,
    };
    let n = crate::text::fmt_u64(limit as u64);
    crate::text::push_str(&mut p, n.as_str());
    match &req.cursor {
        Some(c) => {
            crate::text::push_str(&mut p, "&page_token=");
            crate::text::push_str(&mut p, c.as_str());
        },
        None => {},
    }
    p
}

/// A page of the listing: Lark gives only instance codes, so each instance is a
/// pending stub of the process asked for.
pub fn approvals_page(
    process_code: &str,
    codes: Vec<String>,
    has_more: Option<bool>,
    page_token: Option<String>,
) -> (r: Page<ApprovalInstance>)
    ensures
        r.items@.len() == codes@.len(),
        forall|i: int|
            0 <= i < codes@.len() ==> (#[trigger] r.items@[i]).id == codes@[i] && r.items@[i].process_code@
                == process_code@ && r.items@[i].title@ == Seq::<char>::empty() && r.items@[i].status
                == ApprovalStatus::Pending && r.items@[i].initiator_id@ == Seq::<char>::empty()
                && r.items@[i].form_data@ == JsonV::Null && r.items@[i].created_at is None
                && r.items@[i].finished_at is None,
        r.has_more == (has_more == Some(true)),
        r.next_cursor == page_token,
{
    let mut out: Vec<ApprovalInstance> = Vec::new();
    let ghost all = codes@;
    for code in it: codes.into_iter()
        invariant
            it.seq() == all,
            out@.len() == it.index(),
            forall|k: int|
                0 <= k < out@.len() ==> (#[trigger] out@[k]).id == all[k] && out@[k].process_code@
                    == process_code@ && out@[k].title@ == Seq::<char>::empty() && out@[k].status
                    == ApprovalStatus::Pending && out@[k].initiator_id@ == Seq::<char>::empty()
                    && out@[k].form_data@ == JsonV::Null && out@[k].created_at is None
                    && out@[k].finished_at is None,
    {
        out.push(
            ApprovalInstance {
                id: code,
                process_code: process_code.to_string(),
                title: String::new(),
                status: ApprovalStatus::Pending,
                initiator_id: String::new(),
                form_data: Json::Null,
                created_at: None,
                finished_at: None,
            },
        );
    }
    let more = match has_more {
        Some(b) => b,
        None => false,
    };
    Page { items: out, has_more: more, next_cursor: page_token }
}

/// An instance as Lark gives it.
pub struct InstanceData {
    pub approval_code: Option<String>,
    pub approval_name: Option<String>,
    pub instance_code: Option<String>,
    pub status: Option<String>,
    pub user_id: Option<String>,
    pub open_id: Option<String>,
    /// The form, as JSON text.
    pub form: Option<String>,
    /// Decimal milliseconds.
    pub start_time: Option<String>,
    pub end_time: Option<String>,
}

/// What a Lark instance says of an instance looked up by `instance_id`: its own code
/// (else the id looked up), the initiator's open id (else user id), the form read
/// from its JSON text.
pub open spec fn is_instance_of(r: ApprovalInstance, d: InstanceData, instance_id: Seq<char>) -> bool {
    &&& r.id@ == match d.instance_code {
        Some(c) => c@,
        None => instance_id,
    }
    &&& r.process_code@ == or_empty(d.approval_code)
    &&& r.title@ == or_empty(d.approval_name)
    &&& r.status == match d.status {
        Some(s) => status_of(s@),
        None => ApprovalStatus::Pending,
    }
    &&& r.initiator_id@ == match d.open_id {
        Some(o) => o@,
        None => or_empty(d.user_id),
    }
    &&& r.form_data@ == match d.form {
        Some(f) => JsonV::Unparsed(f@),
        None => JsonV::Null,
    }
    &&& r.created_at == ms_text(d.start_time)
    &&& r.finished_at == ms_text(d.end_time)
}

pub fn instance_from_lark(d: InstanceData, instance_id: &str) -> (r: ApprovalInstance)
    ensures
        is_instance_of(r, d, instance_id@),
{
    let status = match &d.status {
        Some(s) => parse_status(s.as_str()),
        None => ApprovalStatus::Pending,
    };
    let created = ts_opt(&d.start_time);
    let finished = ts_opt(&d.end_time);
    let initiator = match d.open_id {
        Some(o) => o,
        None => crate::text::unwrap_or_empty(d.user_id),
    };
    ApprovalInstance {
        id: crate::text::unwrap_or_text(d.instance_code, instance_id),
        process_code: crate::text::unwrap_or_empty(d.approval_code),
        title: crate::text::unwrap_or_empty(d.approval_name),
        status,
        initiator_id: initiator,
        form_data: match d.form {
            Some(f) => Json::Unparsed(f),
            None => Json::Null,
        },
        created_at: created,
        finished_at: finished,
    }
}

/// The path of one approval instance.
pub fn instance_path(instance_id: &str) -> (r: String)
    ensures
        r@ == "/open-apis/approval/v4/instances/"@ + instance_id@,
{
    crate::text::concat2("/open-apis/approval/v4/instances/", instance_id)
}

/// The reading of a lookup's data: an instance, or "not found" for the id.
pub fn get_approval_outcome(instance_id: &str, data: Option<InstanceData>) -> (r: Result<
    ApprovalInstance,
    ImError,
>)
    ensures
        data matches Some(d) ==> (r matches Ok(i) && is_instance_of(i, d, instance_id@)),
        data is None ==> (r matches Err(ImError::NotFound { resource: res }) && res@ == instance_id@),
{
    match data {
        Some(d) => Ok(instance_from_lark(d, instance_id)),
        None => Err(ImError::NotFound { resource: instance_id.to_string() }),
    }
}

pub open spec fn action_word(a: ApprovalAction) -> Seq<char> {
    match a {
        ApprovalAction::Approve => "approve"@,
        ApprovalAction::Reject => "reject"@,
    }
}

/// A decision goes where it says: an approval to the "approve" path and a rejection
/// to the "reject" path, never the other.
pub proof fn law_action_words(a: ApprovalAction)
    ensures
        (action_word(a) == "approve"@) <==> a == ApprovalAction::Approve,
        (action_word(a) == "reject"@) <==> a == ApprovalAction::Reject,
{
    reveal_strlit("approve");
    reveal_strlit("reject");
    assert("approve"@.len() == 7 && "reject"@.len() == 6);
}

/// The decision request: to the instance's approve or reject path, with the comment
/// (empty where none) and empty approval code and user.
pub fn action_approval_request(client: &LarkClient, req: &ApprovalActionRequest) -> (r: Result<
    HttpRequest,
    ImError,
>)
    ensures
        authed_result(
            *client,
            r,
            Method::Post,
            "/open-apis/approval/v4/instances/"@ + req.instance_id@ + "/"@ + action_word(req.action),
            Some(
                JsonV::Obj(
                    seq![
                        ("approval_code"@, JsonV::Str(Seq::empty())),
                        ("instance_code"@, JsonV::Str(req.instance_id@)),
                        ("user_id"@, JsonV::Str(Seq::empty())),
                        ("comment"@, JsonV::Str(or_empty(req.comment))),
                    ],
                ),
            ),
        ),
{
    broadcast use crate::json::group_json;

    let mut p = crate::text::lit("/open-apis/approval/v4/instances/");
    crate::text::push_str(&mut p, req.instance_id.as_str());
    crate::text::push_str(&mut p, "/");
    match req.action {
        ApprovalAction::Approve => crate::text::push_str(&mut p, "approve"),
        ApprovalAction::Reject => crate::text::push_str(&mut p, "reject"),
    }
    let mut m: Vec<(String, Json)> = Vec::new();
    put(&mut m, "approval_code", Json::Str(String::new()));
    put(&mut m, "instance_code", Json::Str(req.instance_id.clone()));
    put(&mut m, "user_id", Json::Str(String::new()));
    put(&mut m, "comment", Json::Str(crate::text::unwrap_or_empty(req.comment.clone())));
    assert(jv_members(m@) =~= seq![
        ("approval_code"@, JsonV::Str(Seq::empty())),
        ("instance_code"@, JsonV::Str(req.instance_id@)),
        ("user_id"@, JsonV::Str(Seq::empty())),
        ("comment"@, JsonV::Str(or_empty(req.comment))),
    ]);
    client.post(p.as_str(), Json::Obj(m))
}

} // verus!
