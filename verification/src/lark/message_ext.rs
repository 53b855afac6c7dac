//! Lark message extras: replies, forwards, reactions, read receipts, batch reads.

use crate::http::{code_of, HttpRequest, Method};
use crate::json::{Json, JsonV};
use crate::lark::client::{authed_result, LarkClient};
use crate::lark::messaging::{
    check_envelope, is_message_of, lark_content_v, send_path_v, target_id, LarkEnvelope, LarkMessage,
};
use crate::model::{ChatTarget, ImError, Message, MessageContent};
use crate::text::{or_empty, or_text, parse_i64_spec};
use vstd::prelude::*;

verus! {

/// A reply to a message.
pub struct ReplyMessageRequest {
    pub reply_to_message_id: String,
    pub content: MessageContent,
}

/// A forward of a message.
pub struct ForwardMessageRequest {
    pub message_id: String,
    pub target: ChatTarget,
}

/// A reaction on a message (the time in milliseconds, where known).
pub struct MessageReaction {
    pub reaction_id: String,
    pub message_id: String,
    pub emoji_type: String,
    pub user_id: String,
    pub timestamp: Option<i64>,
}

/// One reader of a message.
pub struct ReadUser {
    pub user_id: String,
    pub read_at: Option<i64>,
}

/// Who has read a message.
pub struct MessageReadStatus {
    pub message_id: String,
    pub read_users: Vec<ReadUser>,
    pub total_count: u32,
    pub read_count: u32,
}

/// The reply request: the content as Lark writes it, to the message's reply path.
pub fn reply_message_request(client: &LarkClient, req: ReplyMessageRequest) -> (r: Result<
    HttpRequest,
    ImError,
>)
    ensures
        lark_content_v(req.content) is None ==> (r matches Err(ImError::NotSupported { .. })),
        lark_content_v(req.content) matches Some(p) ==> authed_result(
            *client,
            r,
            Method::Post,
            "/open-apis/im/v1/messages/"@ + req.reply_to_message_id@ + "/reply"@,
            Some(
                JsonV::Obj(
                    seq![("msg_type"@, JsonV::Str(p.0)), ("content"@, JsonV::Embedded(Box::new(p.1)))],
                ),
            ),
        ),
{
    let (ty, doc) = crate::lark::messaging::build_content(req.content)?;
    let ghost dv = doc@;
    let emb = Json::Embedded(Box::new(doc));
    assert(emb@ == JsonV::Embedded(Box::new(dv)));
    let body = crate::json::obj2("msg_type", Json::Str(ty), "content", emb);
    let mut p = crate::text::lit("/open-apis/im/v1/messages/");
    crate::text::push_str(&mut p, req.reply_to_message_id.as_str());
    crate::text::push_str(&mut p, "/reply");
    client.post(p.as_str(), body)
}

/// The forward request: the recipient's id, to the message's forward path with the
/// kind of recipient.
pub fn forward_message_request(client: &LarkClient, req: &ForwardMessageRequest) -> (r: Result<
    HttpRequest,
    ImError,
>)
    ensures
        authed_result(
            *client,
            r,
            Method::Post,
            "/open-apis/im/v1/messages/"@ + req.message_id@ + "/forward?receive_id_type="@ + match req.target {
                ChatTarget::User(_) => "open_id"@,
                ChatTarget::Group(_) => "chat_id"@,
            },
            Some(JsonV::Obj(seq![("receive_id"@, JsonV::Str(target_id(req.target)))])),
        ),
{
    let (id, kind) = match &req.target {
        ChatTarget::User(id) => (id.clone(), "open_id"),
        ChatTarget::Group(id) => (id.clone(), "chat_id"),
    };
    let mut p = crate::text::lit("/open-apis/im/v1/messages/");
    crate::text::push_str(&mut p, req.message_id.as_str());
    crate::text::push_str(&mut p, "/forward?receive_id_type=");
    crate::text::push_str(&mut p, kind);
    client.post(p.as_str(), crate::json::obj1("receive_id", Json::Str(id)))
}

/// The reaction request: the emoji, to the message's reactions.
pub fn add_reaction_request(client: &LarkClient, message_id: &str, emoji_type: &str) -> (r: Result<
    HttpRequest,
    ImError,
>)
    ensures
        authed_result(
            *client,
            r,
            Method::Post,
            "/open-apis/im/v1/messages/"@ + message_id@ + "/reactions"@,
            Some(JsonV::Obj(seq![("reaction_type"@, JsonV::Obj(seq![("emoji_type"@, JsonV::Str(emoji_type@))]))])),
        ),
{
    let mut p = crate::text::lit("/open-apis/im/v1/messages/");
    crate::text::push_str(&mut p, message_id);
    crate::text::push_str(&mut p, "/reactions");
    let body = crate::json::obj1("reaction_type", crate::json::obj1("emoji_type", crate::json::jstr(emoji_type)));
    client.post(p.as_str(), body)
}

/// The path of a message's reactions.
pub fn reactions_path(message_id: &str) -> (r: String)
    ensures
        r@ == "/open-apis/im/v1/messages/"@ + message_id@ + "/reactions"@,
{
    let mut p = crate::text::lit("/open-apis/im/v1/messages/");
    crate::text::push_str(&mut p, message_id);
    crate::text::push_str(&mut p, "/reactions");
    p
}

/// The path of one reaction of a message.
pub fn reaction_path(message_id: &str, reaction_id: &str) -> (r: String)
    ensures
        r@ == "/open-apis/im/v1/messages/"@ + message_id@ + "/reactions"@ + "/"@ + reaction_id@,
{
    let mut p = reactions_path(message_id);
    crate::text::push_str(&mut p, "/");
    crate::text::push_str(&mut p, reaction_id);
    p
}

/// The path of the users who read a message, by open id.
pub fn read_users_path(message_id: &str) -> (r: String)
    ensures
        r@ == "/open-apis/im/v1/messages/"@ + message_id@ + "/read_users?user_id_type=open_id"@,
{
    let mut p = crate::text::lit("/open-apis/im/v1/messages/");
    crate::text::push_str(&mut p, message_id);
    crate::text::push_str(&mut p, "/read_users?user_id_type=open_id");
    p
}

/// A reaction as Lark gives it.
pub struct LarkReaction {
    pub reaction_id: Option<String>,
    pub emoji_type: Option<String>,
    pub operator_id: Option<String>,
    /// Decimal milliseconds.
    pub action_time: Option<String>,
}

pub open spec fn opt_number(s: Option<String>) -> Option<i64> {
    match s {
        Some(t) => parse_i64_spec(t@),
        None => None,
    }
}

fn parse_opt_number(s: &Option<String>) -> (r: Option<i64>)
    ensures
        r == opt_number(*s),
{
    match s {
        Some(t) => crate::text::parse_i64(t.as_str()),
        None => None,
    }
}

/// The reaction added: the id and operator the reply gives (empty where none), the
/// message and emoji asked for.
pub fn added_reaction(message_id: String, emoji_type: String, data: Option<LarkReaction>) -> (r:
    MessageReaction)
    ensures
        r.message_id == message_id,
        r.emoji_type == emoji_type,
        match data {
            Some(d) => r.reaction_id@ == or_empty(d.reaction_id) && r.user_id@ == or_empty(
                d.operator_id,
            ) && r.timestamp == opt_number(d.action_time),
            None => r.reaction_id@ == Seq::<char>::empty() && r.user_id@ == Seq::<char>::empty()
                && r.timestamp is None,
        },
{
    match data {
        Some(d) => {
            let ts = parse_opt_number(&d.action_time);
            MessageReaction {
                reaction_id: crate::text::unwrap_or_empty(d.reaction_id),
                message_id,
                emoji_type,
                user_id: crate::text::unwrap_or_empty(d.operator_id),
                timestamp: ts,
            }
        },
        None => MessageReaction {
            reaction_id: String::new(),
            message_id,
            emoji_type,
            user_id: String::new(),
            timestamp: None,
        },
    }
}

pub open spec fn is_reaction_of(r: MessageReaction, message_id: Seq<char>, d: LarkReaction) -> bool {
    r.reaction_id@ == or_empty(d.reaction_id) && r.message_id@ == message_id && r.emoji_type@
        == or_empty(d.emoji_type) && r.user_id@ == or_empty(d.operator_id) && r.timestamp
        == opt_number(d.action_time)
}

/// The reactions of a message from the reply's items, in order.
pub fn reactions_from_lark(message_id: &str, items: Vec<LarkReaction>) -> (r: Vec<MessageReaction>)
    ensures
        r@.len() == items@.len(),
        forall|i: int| 0 <= i < items@.len() ==> is_reaction_of(#[trigger] r@[i], message_id@, items@[i]),
{
    let mut out: Vec<MessageReaction> = Vec::new();
    let ghost all = items@;
    for d in it: items.into_iter()
        invariant
            it.seq() == all,
            out@.len() == it.index(),
            forall|k: int| 0 <= k < out@.len() ==> is_reaction_of(#[trigger] out@[k], message_id@, all[k]),
    {
        let ts = parse_opt_number(&d.action_time);
        out.push(
            MessageReaction {
                reaction_id: crate::text::unwrap_or_empty(d.reaction_id),
                message_id: message_id.to_string(),
                emoji_type: crate::text::unwrap_or_empty(d.emoji_type),
                user_id: crate::text::unwrap_or_empty(d.operator_id),
                timestamp: ts,
            },
        );
    }
    out
}

/// A reader as Lark gives it.
pub struct LarkReadItem {
    pub user_id: Option<String>,
    /// Decimal milliseconds.
    pub timestamp: Option<String>,
}

/// The read status of a message from the reply's readers: every reader counts, the
/// total is unknown (0).
pub fn read_status_from_lark(message_id: &str, items: Vec<LarkReadItem>) -> (r: MessageReadStatus)
    requires
        items@.len() <= u32::MAX,
    ensures
        r.message_id@ == message_id@,
        r.read_count == items@.len(),
        r.total_count == 0,
        r.read_users@.len() == items@.len(),
        forall|i: int|
            0 <= i < items@.len() ==> (#[trigger] r.read_users@[i]).user_id@ == or_empty(items@[i].user_id)
                && r.read_users@[i].read_at == opt_number(items@[i].timestamp),
{
    let n = items.len() as u32;
    let mut users: Vec<ReadUser> = Vec::new();
    let ghost all = items@;
    for d in it: items.into_iter()
        invariant
            it.seq() == all,
            users@.len() == it.index(),
            forall|k: int|
                0 <= k < users@.len() ==> (#[trigger] users@[k]).user_id@ == or_empty(all[k].user_id)
                    && users@[k].read_at == opt_number(all[k].timestamp),
    {
        let at = parse_opt_number(&d.timestamp);
        users.push(ReadUser { user_id: crate::text::unwrap_or_empty(d.user_id), read_at: at });
    }
    MessageReadStatus { message_id: message_id.to_string(), read_users: users, total_count: 0, read_count: n }
}

/// The query of a batch read: `message_ids=<id>` for each id, joined by `&`.
pub open spec fn mget_query(ids: Seq<String>) -> Seq<char>
    decreases ids.len(),
{
    if ids.len() == 0 {
        Seq::empty()
    } else if ids.len() == 1 {
        "message_ids="@ + ids[0]@
    } else {
        mget_query(ids.drop_last()) + "&message_ids="@ + ids.last()@
    }
}

pub fn mget_path(ids: &Vec<String>) -> (r: String)
    ensures
        r@ == "/open-apis/im/v1/messages/mget?"@ + mget_query(ids@),
{
    let mut p = crate::text::lit("/open-apis/im/v1/messages/mget?");
    let mut i: usize = 0;
    while i < ids.len()
        invariant
            i <= ids@.len(),
            p@ == "/open-apis/im/v1/messages/mget?"@ + mget_query(ids@.subrange(0, i as int)),
        decreases ids@.len() - i,
    {
        proof {
            assert(ids@.subrange(0, i + 1).drop_last() =~= ids@.subrange(0, i as int));
            assert(ids@.subrange(0, i + 1).last() == ids@[i as int]);
        }
        if i > 0 {
            crate::text::push_str(&mut p, "&message_ids=");
        } else {
            crate::text::push_str(&mut p, "message_ids=");
        }
        crate::text::push_str(&mut p, ids[i].as_str());
        proof {
            if i == 0 {
                assert(ids@.subrange(0, 1)[0] == ids@[0]);
            }
        }
        i = i + 1;
        assert(p@ =~= "/open-apis/im/v1/messages/mget?"@ + mget_query(ids@.subrange(0, i as int)));
    }
    assert(ids@.subrange(0, ids@.len() as int) =~= ids@);
    p
}

/// The items of a batch read that read as messages, in order.
pub open spec fn somes(s: Seq<Option<LarkMessage>>) -> Seq<LarkMessage>
    decreases s.len(),
{
    if s.len() == 0 {
        Seq::empty()
    } else {
        match s.last() {
            Some(m) => somes(s.drop_last()).push(m),
            None => somes(s.drop_last()),
        }
    }
}

/// The messages of a batch read: those items that read as messages, in order.
pub fn batch_messages(items: Vec<Option<LarkMessage>>) -> (r: Vec<Message>)
    ensures
        r@.len() == somes(items@).len(),
        forall|i: int| 0 <= i < r@.len() ==> is_message_of(#[trigger] r@[i], somes(items@)[i]),
{
    let mut out: Vec<Message> = Vec::new();
    let ghost all = items@;
    for x in it: items.into_iter()
        invariant
            it.seq() == all,
            it.index() <= all.len(),
            out@.len() == somes(all.take(it.index() as int)).len(),
            forall|k: int|
                0 <= k < out@.len() ==> is_message_of(
                    #[trigger] out@[k],
                    somes(all.take(it.index() as int))[k],
                ),
    {
        let ghost i = it.index();
        proof {
            assert(all.take(i + 1).drop_last() =~= all.take(i as int));
        }
        match x {
            Some(m) => {
                out.push(crate::lark::messaging::message_from_lark(m));
            },
            None => {},
        }
    }
    assert(all.take(all.len() as int) =~= all);
    out
}

} // verus!
