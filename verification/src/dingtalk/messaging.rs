//! DingTalk robot messages: sending, recalling and listing.

use crate::dingtalk::client::DingTalkClient;
use crate::http::{is_success, HttpRequest, Method};
use crate::json::{jv_members, put, str_arr, Json, JsonV};
use crate::model::{
    ChatTarget, ImError, Message, MessageContent, Page, RecallMessageRequest, SendMessageRequest,
    SendMessageResponse,
};
use crate::text::{opt_view, or_empty, or_text};
use vstd::prelude::*;

verus! {

/// The path of a robot's one-to-one and group send.
pub open spec fn send_path() -> Seq<char> {
    "/v1.0/robot/oToMessages/batchSend"@
}

/// The path of a robot's recall.
pub open spec fn recall_path() -> Seq<char> {
    "/v1.0/robot/otoMessages/batchRecall"@
}

/// The message template and its parameters for `content`, where DingTalk robots can
/// send it: text, markdown (titled "通知" where it has no title) and images (by URL,
/// or by media key where there is none).
pub open spec fn msg_template(content: MessageContent) -> Option<(Seq<char>, JsonV)> {
    match content {
        MessageContent::Text(t) => Some(("sampleText"@, JsonV::Obj(seq![("content"@, JsonV::Str(t.text@))]))),
        MessageContent::Markdown(md) => Some(
            (
                "sampleMarkdown"@,
                JsonV::Obj(seq![("title"@, JsonV::Str(or_text(md.title, "通知"@))), ("text"@, JsonV::Str(md.text@))]),
            ),
        ),
        MessageContent::Image(img) => Some(
            ("sampleImageMsg"@, JsonV::Obj(seq![("photoURL"@, JsonV::Str(or_text(img.url, img.media_key@)))])),
        ),
        _ => None,
    }
}

pub open spec fn template_key(content: MessageContent) -> Seq<char> {
    match msg_template(content) {
        Some(t) => t.0,
        None => Seq::empty(),
    }
}

pub open spec fn template_param(content: MessageContent) -> JsonV {
    match msg_template(content) {
        Some(t) => t.1,
        None => JsonV::Null,
    }
}

/// The body of a robot send: the robot, the recipient (a group's conversation or a
/// list of one user), the template and its parameters as JSON text.
pub open spec fn send_body_v(robot: Seq<char>, target: ChatTarget, key: Seq<char>, param: JsonV) -> JsonV {
    let recipient = match target {
        ChatTarget::Group(id) => ("openConversationId"@, JsonV::Str(id@)),
        ChatTarget::User(id) => ("userIds"@, JsonV::Arr(seq![JsonV::Str(id@)])),
    };
    JsonV::Obj(
        seq![
            ("robotCode"@, JsonV::Str(robot)),
            recipient,
            ("msgKey"@, JsonV::Str(key)),
            ("msgParam"@, JsonV::Embedded(Box::new(param))),
        ],
    )
}

/// Whom a robot message goes to: a group by its conversation id, a user as the one
/// entry of `userIds`; beside the robot, the template's key and its parameters as
/// embedded JSON text.
pub proof fn law_send_recipient(robot: Seq<char>, target: ChatTarget, key: Seq<char>, param: JsonV)
    ensures
        send_body_v(robot, target, key, param)->Obj_0.len() == 4,
        send_body_v(robot, target, key, param)->Obj_0[0] == ("robotCode"@, JsonV::Str(robot)),
        send_body_v(robot, target, key, param)->Obj_0[1] == (match target {
            ChatTarget::Group(id) => ("openConversationId"@, JsonV::Str(id@)),
            ChatTarget::User(id) => ("userIds"@, JsonV::Arr(seq![JsonV::Str(id@)])),
        }),
        send_body_v(robot, target, key, param)->Obj_0[2] == ("msgKey"@, JsonV::Str(key)),
        send_body_v(robot, target, key, param)->Obj_0[3] == ("msgParam"@, JsonV::Embedded(Box::new(param))),
{
}

/// The robot template of each kind of content: text as "sampleText" with its text as
/// `content`, markdown as "sampleMarkdown" with its title (or "通知") and text, an
/// image as "sampleImageMsg" with its URL (or media key) as `photoURL`; nothing else
/// can be sent by a robot.
pub proof fn law_templates(c: MessageContent)
    ensures
        c matches MessageContent::Text(t) ==> msg_template(c) == Some(
            ("sampleText"@, JsonV::Obj(seq![("content"@, JsonV::Str(t.text@))])),
        ),
        c matches MessageContent::Markdown(m) ==> msg_template(c) == Some(
            (
                "sampleMarkdown"@,
                JsonV::Obj(seq![("title"@, JsonV::Str(or_text(m.title, "通知"@))), ("text"@, JsonV::Str(m.text@))]),
            ),
        ),
        c matches MessageContent::Image(i) ==> msg_template(c) == Some(
            ("sampleImageMsg"@, JsonV::Obj(seq![("photoURL"@, JsonV::Str(or_text(i.url, i.media_key@)))])),
        ),
        !(c is Text || c is Markdown || c is Image) ==> msg_template(c) is None,
{
}

fn template(content: &MessageContent) -> (r: Option<(&'static str, Json)>)
    ensures
        msg_template(*content) matches Some(t) ==> (r matches Some(p) && p.0@ == t.0 && p.1@ == t.1),
        msg_template(*content) is None ==> r is None,
{
    match content {
        MessageContent::Text(t) => Some(("sampleText", crate::json::obj1("content", Json::Str(t.text.clone())))),
        MessageContent::Markdown(md) => {
            let title = crate::text::unwrap_or_text(md.title.clone(), "通知");
            Some(
                (
                    "sampleMarkdown",
                    crate::json::obj2("title", Json::Str(title), "text", Json::Str(md.text.clone())),
                ),
            )
        },
        MessageContent::Image(img) => {
            let url = crate::text::unwrap_or_text(img.url.clone(), img.media_key.as_str());
            Some(("sampleImageMsg", crate::json::obj1("photoURL", Json::Str(url))))
        },
        _ => None,
    }
}

/// The send request of a robot message. It needs a robot (`bot_id`), content that
/// a robot can send, and a token, and fails for the first of these that is missing.
pub fn send_message_request(client: &DingTalkClient, req: &SendMessageRequest) -> (r: Result<
    HttpRequest,
    ImError,
>)
    ensures
        req.bot_id is None ==> (r matches Err(ImError::InvalidParam { message: m }) && m@
            == "bot_id (robot_code) is required for DingTalk"@),
        req.bot_id is Some && msg_template(req.content) is None ==> (r matches Err(
            ImError::NotSupported { platform: p, .. },
        ) && p@ == "dingtalk"@),
        req.bot_id is Some && msg_template(req.content) is Some && client.access_token is None
            ==> (r matches Err(ImError::Auth { .. })),
        r is Ok <==> req.bot_id is Some && msg_template(req.content) is Some
            && client.access_token is Some,
        r matches Ok(q) ==> (q.method == Method::Post && q.url@ == client.base_url@ + send_path()
            && q.headers@[0].0@ == crate::dingtalk::client::token_header() && Some(q.headers@[0].1)
            == client.access_token && q.headers@.len() == 1 && (q.body matches Some(b) && b@ == send_body_v(
            or_empty(req.bot_id),
            req.target,
            template_key(req.content),
            template_param(req.content),
        ))),
{
    broadcast use crate::json::group_json;

    let bot = match &req.bot_id {
        Some(b) => b,
        None => {
            return Err(
                ImError::InvalidParam {
                    message: "bot_id (robot_code) is required for DingTalk".to_string(),
                },
            );
        },
    };
    let (key, param) = match template(&req.content) {
        Some(t) => t,
        None => {
            return Err(
                ImError::NotSupported {
                    feature: crate::model::kind_text("message type ", &req.content),
                    platform: "dingtalk".to_string(),
                },
            );
        },
    };
    let ghost pv = param@;
    let mut m: Vec<(String, Json)> = Vec::new();
    put(&mut m, "robotCode", Json::Str(bot.clone()));
    match &req.target {
        ChatTarget::Group(id) => put(&mut m, "openConversationId", Json::Str(id.clone())),
        ChatTarget::User(id) => {
            let mut ids: Vec<String> = Vec::new();
            ids.push(id.clone());
            let arr = crate::json::jstrs(&ids);
            proof {
                reveal_with_fuel(str_arr, 2);
                assert(str_arr(ids@) =~= seq![JsonV::Str(id@)]);
            }
            put(&mut m, "userIds", arr);
        },
    }
    put(&mut m, "msgKey", Json::Str(key.to_string()));
    let embedded = Json::Embedded(Box::new(param));
    assert(embedded@ == JsonV::Embedded(Box::new(pv)));
    put(&mut m, "msgParam", embedded);
    let body = Json::Obj(m);
    assert(body@ == send_body_v(bot@, req.target, key@, pv)) by {
        assert(jv_members(m@) =~= send_body_v(bot@, req.target, key@, pv)->Obj_0);
    }
    client.post("/v1.0/robot/oToMessages/batchSend", body)
}

/// The reading of a send's reply, given the `processQueryKey` read from it: the key
/// is the message's id (empty where there is none).
pub fn send_message_outcome(status: u16, text: String, process_query_key: Option<String>) -> (r:
    Result<SendMessageResponse, ImError>)
    ensures
        !is_success(status) ==> r == Err::<SendMessageResponse, ImError>(
            ImError::Platform { code: status as i64, message: text },
        ),
        is_success(status) ==> (r matches Ok(resp) && resp.message_id@ == or_empty(
            process_query_key,
        ) && resp.extra@ == JsonV::Obj(
            seq![("processQueryKey"@, crate::json::opt_str_v(process_query_key))],
        )),
{
    crate::http::check_status(status, text)?;
    let id = crate::text::unwrap_or_empty(process_query_key.clone());
    let extra = crate::json::obj1("processQueryKey", crate::json::jopt(process_query_key));
    Ok(SendMessageResponse { message_id: id, extra })
}

/// Reads a send's reply; the `processQueryKey` is read from its JSON text.
pub fn send_message_reply(status: u16, text: String) -> (r: Result<SendMessageResponse, ImError>)
    ensures
        !is_success(status) ==> r == Err::<SendMessageResponse, ImError>(
            ImError::Platform { code: status as i64, message: text },
        ),
        is_success(status) ==> (r matches Ok(resp) && resp.message_id@ == match crate::json::text_str_member(text@, "processQueryKey"@) {
            Some(k) => k,
            None => Seq::<char>::empty(),
        }),
{
    let key = crate::json::str_member_of(text.as_str(), "processQueryKey");
    send_message_outcome(status, text, key)
}

/// The body of a recall: the robot, the one message, and its conversation where
/// it is known.
pub open spec fn recall_body_v(robot: Seq<char>, message_id: Seq<char>, chat_id: Option<String>) -> JsonV {
    JsonV::Obj(
        seq![
            ("robotCode"@, JsonV::Str(robot)),
            ("processQueryKeys"@, JsonV::Arr(seq![JsonV::Str(message_id)])),
        ] + match chat_id {
            Some(c) => seq![("openConversationId"@, JsonV::Str(c@))],
            None => Seq::empty(),
        },
    )
}

/// The recall request of a robot message: it needs a robot (`bot_id`) and a token.
pub fn recall_message_request(client: &DingTalkClient, req: &RecallMessageRequest) -> (r: Result<
    HttpRequest,
    ImError,
>)
    ensures
        req.bot_id is None ==> (r matches Err(ImError::InvalidParam { message: m }) && m@
            == "bot_id (robot_code) is required for DingTalk recall"@),
        r is Ok <==> req.bot_id is Some && client.access_token is Some,
        r matches Ok(q) ==> (q.method == Method::Post && q.url@ == client.base_url@
            + recall_path() && (q.body matches Some(b) && b@ == recall_body_v(or_empty(req.bot_id), req.message_id@, req.chat_id))),
{
    broadcast use crate::json::group_json;

    let bot = match &req.bot_id {
        Some(b) => b,
        None => {
            return Err(
                ImError::InvalidParam {
                    message: "bot_id (robot_code) is required for DingTalk recall".to_string(),
                },
            );
        },
    };
    let mut m: Vec<(String, Json)> = Vec::new();
    put(&mut m, "robotCode", Json::Str(bot.clone()));
    let mut keys: Vec<String> = Vec::new();
    keys.push(req.message_id.clone());
    let arr = crate::json::jstrs(&keys);
    proof {
        reveal_with_fuel(str_arr, 2);
        assert(str_arr(keys@) =~= seq![JsonV::Str(req.message_id@)]);
    }
    put(&mut m, "processQueryKeys", arr);
    match &req.chat_id {
        Some(c) => put(&mut m, "openConversationId", Json::Str(c.clone())),
        None => {},
    }
    assert(jv_members(m@) =~= recall_body_v(bot@, req.message_id@, req.chat_id)->Obj_0);
    client.post("/v1.0/robot/otoMessages/batchRecall", Json::Obj(m))
}

/// DingTalk has no REST listing of robot messages (they arrive by callback): the
/// listing is always one empty, final page.
pub fn list_messages_page() -> (r: Page<Message>)
    ensures
        r.items@.len() == 0,
        !r.has_more,
        r.next_cursor is None,
{
    Page { items: Vec::new(), has_more: false, next_cursor: None }
}

} // verus!
