//! WeCom conversations: the chats with activity in a time range.

use crate::http::{code_of, HttpRequest, Method};
use crate::json::{jv_members, put, Json, JsonV};
use crate::model::{Conversation, ConversationType, ImError, ListConversationsRequest, Page};
use crate::text::{or_empty, or_text};
use crate::time::naive_utc_instant;
use crate::wecom::calendar::second_text;
use crate::wecom::client::{token_result, WeComClient};
use vstd::prelude::*;

verus! {

/// A bound of the range as WeCom takes it: the time as text, or empty where absent.
pub open spec fn bound_text(t: Option<i64>) -> Seq<char> {
    match t {
        Some(ms) => second_text(ms),
        None => Seq::empty(),
    }
}

fn bound(t: Option<i64>) -> (r: String)
    ensures
        r@ == bound_text(t),
{
    match t {
        Some(ms) => crate::time::fmt_utc(ms, "%Y-%m-%d %H:%M:%S"),
        None => String::new(),
    }
}

/// The body of a chat listing: the range bounds and the cursor, each empty where
/// absent.
pub open spec fn list_body_v(req: ListConversationsRequest) -> JsonV {
    JsonV::Obj(
        seq![
            ("begin_time"@, JsonV::Str(bound_text(req.start_time))),
            ("end_time"@, JsonV::Str(bound_text(req.end_time))),
            ("cursor"@, JsonV::Str(or_empty(req.cursor))),
        ],
    )
}

pub fn list_conversations_request(client: &WeComClient, req: &ListConversationsRequest) -> (r: Result<
    HttpRequest,
    ImError,
>)
    ensures
        token_result(*client, r, Method::Post, "/cgi-bin/message/get_chat_list"@, Some(list_body_v(*req))),
{
    broadcast use crate::json::group_json;

    let mut m: Vec<(String, Json)> = Vec::new();
    put(&mut m, "begin_time", Json::Str(bound(req.start_time)));
    put(&mut m, "end_time", Json::Str(bound(req.end_time)));
    put(&mut m, "cursor", Json::Str(crate::text::unwrap_or_empty(req.cursor.clone())));
    assert(jv_members(m@) =~= list_body_v(*req)->Obj_0);
    client.post("/cgi-bin/message/get_chat_list", Json::Obj(m))
}

/// A chat as WeCom gives it; its last message time is `%Y-%m-%d %H:%M:%S`, UTC.
pub struct WcChat {
    pub chat_id: Option<String>,
    pub chat_name: Option<String>,
    pub last_msg_time: Option<String>,
    pub msg_count: Option<u32>,
}

/// A chat listing's reply as WeCom gives it.
pub struct ChatListResp {
    pub errcode: Option<i64>,
    pub errmsg: Option<String>,
    pub chats: Vec<WcChat>,
    pub has_more: Option<bool>,
    pub next_cursor: Option<String>,
}

/// A WeCom chat is a group conversation; its last message time is read where it
/// reads.
pub open spec fn is_conversation_of(r: Conversation, c: WcChat) -> bool {
    &&& r.chat_id@ == or_empty(c.chat_id)
    &&& r.name@ == or_empty(c.chat_name)
    &&& r.chat_type == ConversationType::Group
    &&& r.last_message_time == match c.last_msg_time {
        Some(t) => naive_utc_instant(t@, "%Y-%m-%d %H:%M:%S"@),
        None => None,
    }
    &&& r.message_count == match c.msg_count {
        Some(n) => Some(n as u64),
        None => None,
    }
    &&& r.unread_count is None
    &&& r.extra@ == JsonV::Null
}

pub fn conversation_from_wc(c: WcChat) -> (r: Conversation)
    ensures
        is_conversation_of(r, c),
{
    let last = match &c.last_msg_time {
        Some(t) => crate::time::parse_naive_utc(t.as_str(), "%Y-%m-%d %H:%M:%S"),
        None => None,
    };
    let count = match c.msg_count {
        Some(n) => Some(n as u64),
        None => None,
    };
    Conversation {
        chat_id: crate::text::unwrap_or_empty(c.chat_id),
        name: crate::text::unwrap_or_empty(c.chat_name),
        chat_type: ConversationType::Group,
        last_message_time: last,
        message_count: count,
        unread_count: None,
        extra: Json::Null,
    }
}

/// The reading of a chat listing's reply: a reply that is not the expected JSON is a
/// serialization error; a nonzero `errcode` is a platform error with that code and
/// `errmsg` (or the text); otherwise the page of its chats.
pub fn conversations_reply(text: String, parsed: Result<ChatListResp, String>) -> (r: Result<
    Page<Conversation>,
    ImError,
>)
    ensures
        parsed is Err ==> r == Err::<Page<Conversation>, ImError>(
            ImError::Serialization(parsed->Err_0),
        ),
        parsed matches Ok(d) ==> (r is Ok <==> code_of(d.errcode) == 0),
        parsed matches Ok(d) ==> (r matches Err(e) ==> (e matches ImError::Platform {
            code: c,
            message: m,
        } && c == code_of(d.errcode) && m@ == or_text(d.errmsg, text@))),
        parsed matches Ok(d) ==> (r matches Ok(p) ==> p.items@.len() == d.chats@.len() && (forall|
            i: int,
        | 0 <= i < d.chats@.len() ==> is_conversation_of(#[trigger] p.items@[i], d.chats@[i]))
            && p.has_more == (d.has_more == Some(true)) && p.next_cursor == d.next_cursor),
{
    let d = match parsed {
        Ok(d) => d,
        Err(e) => {
            return Err(ImError::Serialization(e));
        },
    };
    crate::http::check_code(d.errcode, d.errmsg, text)?;
    let mut out: Vec<Conversation> = Vec::new();
    let ghost all = d.chats@;
    for c in it: d.chats.into_iter()
        invariant
            it.seq() == all,
            out@.len() == it.index(),
            forall|k: int| 0 <= k < out@.len() ==> is_conversation_of(#[trigger] out@[k], all[k]),
    {
        out.push(conversation_from_wc(c));
    }
    let more = match d.has_more {
        Some(b) => b,
        None => false,
    };
    Ok(Page { items: out, has_more: more, next_cursor: d.next_cursor })
}

} // verus!
