//! DingTalk event callbacks: registration, listing, deletion and the known types.

use crate::dingtalk::client::DingTalkClient;
use crate::http::{HttpRequest, Method};
use crate::json::{jv_members, put, str_arr, Json, JsonV};
use crate::model::{EventSubscription, EventSubscriptionStatus, ImError, RegisterCallbackRequest};
use crate::text::{opt_view, or_empty, str_eq};
use vstd::prelude::*;

verus! {

/// A subscription as DingTalk gives it.
pub struct DtSubscription {
    pub subscription_id: Option<String>,
    pub callback_url: Option<String>,
    pub event_types: Vec<String>,
    pub status: Option<String>,
}

/// The status of a DingTalk subscription text: active or failed (either case),
/// anything else inactive.
pub open spec fn status_of(s: Option<String>) -> EventSubscriptionStatus {
    match opt_view(s) {
        Some(t) => if t == "active"@ || t == "ACTIVE"@ {
            EventSubscriptionStatus::Active
        } else if t == "failed"@ || t == "FAILED"@ {
            EventSubscriptionStatus::Failed
        } else {
            EventSubscriptionStatus::Inactive
        },
        None => EventSubscriptionStatus::Inactive,
    }
}

/// How DingTalk's subscription statuses read: "active"/"ACTIVE" as active,
/// "failed"/"FAILED" as failed, each from those texts alone; any other status, or
/// none, is inactive.
pub proof fn law_subscription_status_texts(s: Option<String>)
    ensures
        (status_of(s) == EventSubscriptionStatus::Active) <==> (opt_view(s) == Some("active"@) || opt_view(s)
            == Some("ACTIVE"@)),
        (status_of(s) == EventSubscriptionStatus::Failed) <==> (opt_view(s) == Some("failed"@) || opt_view(s)
            == Some("FAILED"@)),
        (status_of(s) == EventSubscriptionStatus::Inactive) <==> !(opt_view(s) == Some("active"@)
            || opt_view(s) == Some("ACTIVE"@) || opt_view(s) == Some("failed"@) || opt_view(s)
            == Some("FAILED"@)),
{
    reveal_strlit("active");
    reveal_strlit("ACTIVE");
    reveal_strlit("failed");
    reveal_strlit("FAILED");
    assert("active"@[0] != "ACTIVE"@[0] && "active"@[0] != "failed"@[0] && "active"@[0] != "FAILED"@[0]);
    assert("ACTIVE"@[0] != "failed"@[0] && "ACTIVE"@[0] != "FAILED"@[0] && "failed"@[0] != "FAILED"@[0]);
}

pub open spec fn is_subscription_of(r: EventSubscription, s: DtSubscription) -> bool {
    r.id@ == or_empty(s.subscription_id) && r.callback_url == s.callback_url && r.event_types
        == s.event_types && r.status == status_of(s.status)
}

pub fn subscription_from_dt(s: DtSubscription) -> (r: EventSubscription)
    ensures
        is_subscription_of(r, s),
{
    let status = match &s.status {
        Some(t) => if str_eq(t.as_str(), "active") || str_eq(t.as_str(), "ACTIVE") {
            EventSubscriptionStatus::Active
        } else if str_eq(t.as_str(), "failed") || str_eq(t.as_str(), "FAILED") {
            EventSubscriptionStatus::Failed
        } else {
            EventSubscriptionStatus::Inactive
        },
        None => EventSubscriptionStatus::Inactive,
    };
    EventSubscription {
        id: crate::text::unwrap_or_empty(s.subscription_id),
        callback_url: s.callback_url,
        event_types: s.event_types,
        status,
    }
}

pub fn subscriptions_from_dt(items: Vec<DtSubscription>) -> (r: Vec<EventSubscription>)
    ensures
        r@.len() == items@.len(),
        forall|i: int| 0 <= i < items@.len() ==> is_subscription_of(#[trigger] r@[i], items@[i]),
{
    let mut out: Vec<EventSubscription> = Vec::new();
    let ghost all = items@;
    for s in it: items.into_iter()
        invariant
            it.seq() == all,
            out@.len() == it.index(),
            forall|k: int| 0 <= k < out@.len() ==> is_subscription_of(#[trigger] out@[k], all[k]),
    {
        out.push(subscription_from_dt(s));
    }
    out
}

/// The body of a registration: the URL and types, then the token and key where given.
pub open spec fn register_body_v(req: RegisterCallbackRequest) -> JsonV {
    JsonV::Obj(
        seq![("callbackUrl"@, JsonV::Str(req.callback_url@)), ("eventTypes"@, JsonV::Arr(str_arr(req.event_types@)))]
            + (match req.token {
            Some(t) => seq![("token"@, JsonV::Str(t@))],
            None => Seq::empty(),
        }) + (match req.aes_key {
            Some(k) => seq![("aesKey"@, JsonV::Str(k@))],
            None => Seq::empty(),
        }),
    )
}

pub fn register_callback_request(client: &DingTalkClient, req: &RegisterCallbackRequest) -> (r: Result<
    HttpRequest,
    ImError,
>)
    ensures
        r is Ok <==> client.access_token is Some,
        r matches Ok(q) ==> q.method == Method::Post && q.url@ == client.base_url@
            + "/v1.0/events/callbacks/register"@ && (q.body matches Some(b) && b@ == register_body_v(*req)),
{
    broadcast use crate::json::group_json;

    let mut m: Vec<(String, Json)> = Vec::new();
    put(&mut m, "callbackUrl", Json::Str(req.callback_url.clone()));
    put(&mut m, "eventTypes", crate::json::jstrs(&req.event_types));
    match &req.token {
        Some(t) => put(&mut m, "token", Json::Str(t.clone())),
        None => {},
    }
    match &req.aes_key {
        Some(k) => put(&mut m, "aesKey", Json::Str(k.clone())),
        None => {},
    }
    assert(jv_members(m@) =~= register_body_v(*req)->Obj_0);
    client.post("/v1.0/events/callbacks/register", Json::Obj(m))
}

/// The deletion of a subscription.
pub fn delete_subscription_request(client: &DingTalkClient, subscription_id: &str) -> (r: Result<
    HttpRequest,
    ImError,
>)
    ensures
        r is Ok <==> client.access_token is Some,
        r matches Ok(q) ==> q.method == Method::Delete && q.url@ == client.base_url@
            + "/v1.0/events/callbacks/"@ + subscription_id@,
        client.access_token is None ==> (r matches Err(ImError::Auth { message: m }) && m@
            == "no access token"@),
{
    let p = crate::text::concat2("/v1.0/events/callbacks/", subscription_id);
    client.delete(p.as_str())
}

/// The event types DingTalk delivers.
pub open spec fn event_types_v() -> Seq<Seq<char>> {
    seq![
        "user_add_org"@,
        "user_modify_org"@,
        "user_leave_org"@,
        "user_active_org"@,
        "org_dept_create"@,
        "org_dept_modify"@,
        "org_dept_remove"@,
        "chat_add_member"@,
        "chat_remove_member"@,
        "chat_update_owner"@,
        "chat_update_title"@,
        "chat_disband"@,
        "bpms_task_change"@,
        "bpms_instance_change"@,
        "attendance_check_record"@,
        "attendance_schedule_change"@,
    ]
}

/// The event types DingTalk delivers, in a fixed order.
pub fn list_event_types() -> (r: Vec<String>)
    ensures
        r@.map_values(|s: String| s@) == event_types_v(),
{
    let mut v: Vec<String> = Vec::new();
    v.push("user_add_org".to_string());
    v.push("user_modify_org".to_string());
    v.push("user_leave_org".to_string());
    v.push("user_active_org".to_string());
    v.push("org_dept_create".to_string());
    v.push("org_dept_modify".to_string());
    v.push("org_dept_remove".to_string());
    v.push("chat_add_member".to_string());
    v.push("chat_remove_member".to_string());
    v.push("chat_update_owner".to_string());
    v.push("chat_update_title".to_string());
    v.push("chat_disband".to_string());
    v.push("bpms_task_change".to_string());
    v.push("bpms_instance_change".to_string());
    v.push("attendance_check_record".to_string());
    v.push("attendance_schedule_change".to_string());
    assert(v@.map_values(|s: String| s@) =~= event_types_v());
    v
}

/// DingTalk events cannot be polled.
pub fn poll_events_unsupported() -> (e: ImError)
    ensures
        e matches ImError::NotSupported { feature: f, platform: p } && f@ == "poll_events"@ && p@
            == "dingtalk"@,
{
    crate::http::not_supported("poll_events", "dingtalk")
}

} // verus!
