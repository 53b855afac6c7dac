//! WeCom event callbacks: registering (create, or update where one exists), listing
//! and deleting the callback, and the event types one can subscribe to.

use crate::http::{code_of, HttpRequest, Method};
use crate::json::{jv_members, put, str_arr, Json, JsonV};
use crate::model::{EventSubscription, EventSubscriptionStatus, ImError, RegisterCallbackRequest};
use crate::text::{or_empty, or_text};
use crate::wecom::client::{token_result, WeComClient, WeComEnvelope};
use vstd::prelude::*;

verus! {

/// The code WeCom answers a creation with where a callback already exists.
pub const CALLBACK_EXISTS: i64 = 301002;

/// The code WeCom answers a lookup with where no callback is configured.
pub const NO_CALLBACK: i64 = 301003;

/// The body of a registration: the URL, the token and key (empty where not given)
/// and the event types.
pub open spec fn callback_body_v(req: RegisterCallbackRequest) -> JsonV {
    JsonV::Obj(
        seq![
            ("url"@, JsonV::Str(req.callback_url@)),
            ("token"@, JsonV::Str(or_empty(req.token))),
            ("encodingaeskey"@, JsonV::Str(or_empty(req.aes_key))),
            ("event"@, JsonV::Arr(str_arr(req.event_types@))),
        ],
    )
}

fn callback_body(req: &RegisterCallbackRequest) -> (r: Json)
    ensures
        r@ == callback_body_v(*req),
{
    broadcast use crate::json::group_json;

    let mut m: Vec<(String, Json)> = Vec::new();
    put(&mut m, "url", Json::Str(req.callback_url.clone()));
    put(&mut m, "token", Json::Str(crate::text::unwrap_or_empty(req.token.clone())));
    put(&mut m, "encodingaeskey", Json::Str(crate::text::unwrap_or_empty(req.aes_key.clone())));
    put(&mut m, "event", crate::json::jstrs(&req.event_types));
    assert(jv_members(m@) =~= callback_body_v(*req)->Obj_0);
    Json::Obj(m)
}

/// The first step of a registration: creating the callback.
pub fn register_create_request(client: &WeComClient, req: &RegisterCallbackRequest) -> (r: Result<
    HttpRequest,
    ImError,
>)
    ensures
        token_result(*client, r, Method::Post, "/cgi-bin/callback/create"@, Some(callback_body_v(*req))),
{
    client.post("/cgi-bin/callback/create", callback_body(req))
}

/// The update that replaces an existing callback with the same registration.
pub fn register_update_request(client: &WeComClient, req: &RegisterCallbackRequest) -> (r: Result<
    HttpRequest,
    ImError,
>)
    ensures
        token_result(*client, r, Method::Post, "/cgi-bin/callback/update"@, Some(callback_body_v(*req))),
{
    client.post("/cgi-bin/callback/update", callback_body(req))
}

/// What follows the creation's reply.
#[derive(PartialEq, Eq, Structural, Clone, Copy)]
pub enum CallbackStep {
    /// The callback is registered.
    Done,
    /// A callback exists already: update it.
    Update,
}

/// The decision after the creation's reply: a callback that exists already is
/// updated; any other nonzero code fails; otherwise the registration is done.
pub fn register_after_create(text: String, parsed: Result<WeComEnvelope, String>) -> (r: Result<
    CallbackStep,
    ImError,
>)
    ensures
        parsed is Err ==> r == Err::<CallbackStep, ImError>(ImError::Serialization(parsed->Err_0)),
        parsed matches Ok(env) ==> (code_of(env.errcode) == CALLBACK_EXISTS ==> r == Ok::<
            CallbackStep,
            ImError,
        >(CallbackStep::Update)),
        parsed matches Ok(env) ==> (code_of(env.errcode) == 0 ==> r == Ok::<CallbackStep, ImError>(
            CallbackStep::Done,
        )),
        parsed matches Ok(env) ==> (code_of(env.errcode) != 0 && code_of(env.errcode)
            != CALLBACK_EXISTS ==> (r matches Err(ImError::Platform { code: c, message: m }) && c
            == code_of(env.errcode) && m@ == or_text(env.errmsg, text@))),
{
    let env = match parsed {
        Ok(e) => e,
        Err(e) => {
            return Err(ImError::Serialization(e));
        },
    };
    let code = match env.errcode {
        Some(c) => c,
        None => 0,
    };
    if code == CALLBACK_EXISTS {
        Ok(CallbackStep::Update)
    } else {
        crate::http::check_code(Some(code), env.errmsg, text)?;
        Ok(CallbackStep::Done)
    }
}

/// The one subscription WeCom keeps, as registered.
pub fn registered_subscription(req: RegisterCallbackRequest) -> (r: EventSubscription)
    ensures
        r.id@ == "wecom-callback"@,
        r.callback_url == Some(req.callback_url),
        r.event_types == req.event_types,
        r.status == EventSubscriptionStatus::Active,
{
    EventSubscription {
        id: "wecom-callback".to_string(),
        callback_url: Some(req.callback_url),
        event_types: req.event_types,
        status: EventSubscriptionStatus::Active,
    }
}

/// The callback as WeCom's lookup gives it.
pub struct GetCallbackResp {
    pub errcode: Option<i64>,
    pub errmsg: Option<String>,
    pub url: Option<String>,
    pub event: Vec<String>,
}

/// The reading of the callback lookup: no subscription where none is configured,
/// else the one subscription with its URL and events.
pub fn list_subscriptions_reply(text: String, parsed: Result<GetCallbackResp, String>) -> (r: Result<
    Vec<EventSubscription>,
    ImError,
>)
    ensures
        parsed is Err ==> r == Err::<Vec<EventSubscription>, ImError>(
            ImError::Serialization(parsed->Err_0),
        ),
        parsed matches Ok(d) ==> (code_of(d.errcode) == NO_CALLBACK ==> (r matches Ok(v)
            && v@.len() == 0)),
        parsed matches Ok(d) ==> (code_of(d.errcode) != 0 && code_of(d.errcode) != NO_CALLBACK
            ==> (r matches Err(ImError::Platform { code: c, message: m }) && c == code_of(d.errcode)
            && m@ == or_text(d.errmsg, text@))),
        parsed matches Ok(d) ==> (code_of(d.errcode) == 0 ==> (r matches Ok(v) && v@.len() == 1
            && v@[0].id@ == "wecom-callback"@ && v@[0].callback_url == d.url && v@[0].event_types
            == d.event && v@[0].status == EventSubscriptionStatus::Active)),
{
    let d = match parsed {
        Ok(d) => d,
        Err(e) => {
            return Err(ImError::Serialization(e));
        },
    };
    let code = match d.errcode {
        Some(c) => c,
        None => 0,
    };
    if code == NO_CALLBACK {
        return Ok(Vec::new());
    }
    crate::http::check_code(Some(code), d.errmsg, text)?;
    let mut v: Vec<EventSubscription> = Vec::new();
    v.push(
        EventSubscription {
            id: "wecom-callback".to_string(),
            callback_url: d.url,
            event_types: d.event,
            status: EventSubscriptionStatus::Active,
        },
    );
    Ok(v)
}

/// The event types WeCom delivers to a callback.
pub open spec fn event_types_v() -> Seq<Seq<char>> {
    seq![
        "change_contact"@,
        "change_external_contact"@,
        "change_external_chat"@,
        "msg_audit_notify"@,
        "subscribe"@,
        "unsubscribe"@,
        "enter_agent"@,
        "location"@,
        "batch_job_result"@,
        "click"@,
        "view"@,
        "scancode_push"@,
        "scancode_waitmsg"@,
        "pic_sysphoto"@,
        "pic_photo_or_album"@,
        "pic_weixin"@,
        "location_select"@,
        "open_approval_change"@,
        "share_agent_change"@,
        "template_card_event"@,
        "sys_approval_change"@,
        "living_status_change"@,
        "msgaudit_notify"@,
    ]
}

/// The event types WeCom delivers to a callback, in a fixed order.
pub fn list_event_types() -> (r: Vec<String>)
    ensures
        r@.map_values(|s: String| s@) == event_types_v(),
{
    let mut v: Vec<String> = Vec::new();
    v.push("change_contact".to_string());
    v.push("change_external_contact".to_string());
    v.push("change_external_chat".to_string());
    v.push("msg_audit_notify".to_string());
    v.push("subscribe".to_string());
    v.push("unsubscribe".to_string());
    v.push("enter_agent".to_string());
    v.push("location".to_string());
    v.push("batch_job_result".to_string());
    v.push("click".to_string());
    v.push("view".to_string());
    v.push("scancode_push".to_string());
    v.push("scancode_waitmsg".to_string());
    v.push("pic_sysphoto".to_string());
    v.push("pic_photo_or_album".to_string());
    v.push("pic_weixin".to_string());
    v.push("location_select".to_string());
    v.push("open_approval_change".to_string());
    v.push("share_agent_change".to_string());
    v.push("template_card_event".to_string());
    v.push("sys_approval_change".to_string());
    v.push("living_status_change".to_string());
    v.push("msgaudit_notify".to_string());
    assert(v@.map_values(|s: String| s@) =~= event_types_v());
    v
}

/// WeCom delivers events to callbacks only; they cannot be polled.
pub fn poll_events_unsupported() -> (e: ImError)
    ensures
        e matches ImError::NotSupported { feature: f, platform: p } && f@
            == "poll_events (WeCom uses callback-based event delivery)"@ && p@ == "wecom"@,
{
    crate::http::not_supported("poll_events (WeCom uses callback-based event delivery)", "wecom")
}

} // verus!
