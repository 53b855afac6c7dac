//! WeCom application messages: sending text, reading archived messages.

use crate::http::{HttpRequest, Method};
use crate::json::{jv_members, put, Json, JsonV};
use crate::model::{
    AudioContent, ChatTarget, FileContent, ImError, ImageContent, ListMessagesRequest, Message,
    MessageContent, MessageSender, Page, SendMessageRequest, SendMessageResponse, TextContent,
    VideoContent,
};
use crate::text::{or_empty, or_text};
use crate::time::{naive_utc_instant, utc_text};
use crate::wecom::client::{reply_ok, token_result, WeComClient, WeComEnvelope};
use vstd::prelude::*;

verus! {

/// The text a WeCom message carries: that of text, or of markdown sent as text.
pub open spec fn sendable_text(content: MessageContent) -> Option<Seq<char>> {
    match content {
        MessageContent::Text(t) => Some(t.text@),
        MessageContent::Markdown(md) => Some(md.text@),
        _ => None,
    }
}

/// WeCom's chat type of a recipient: 1 for a user, 2 for a group.
pub open spec fn chat_type(target: ChatTarget) -> i64 {
    match target {
        ChatTarget::User(_) => 1,
        ChatTarget::Group(_) => 2,
    }
}

pub open spec fn chat_id(target: ChatTarget) -> Seq<char> {
    match target {
        ChatTarget::User(id) => id@,
        ChatTarget::Group(id) => id@,
    }
}

/// The body of a send: the chat and the text.
pub open spec fn send_body_v(target: ChatTarget, text: Seq<char>) -> JsonV {
    JsonV::Obj(
        seq![
            ("chat_type"@, JsonV::Int(chat_type(target))),
            ("chatid"@, JsonV::Str(chat_id(target))),
            ("msgtype"@, JsonV::Str("text"@)),
            ("text"@, JsonV::Obj(seq![("content"@, JsonV::Str(text))])),
        ],
    )
}

/// Whom a message goes to: one to a user is sent as a one-to-one chat (chat type 1)
/// and one to a group as a group chat (chat type 2), addressed by the recipient's
/// id, with the text as a text message.
pub proof fn law_send_recipient(target: ChatTarget, text: Seq<char>)
    ensures
        send_body_v(target, text) is Obj,
        send_body_v(target, text)->Obj_0.len() == 4,
        send_body_v(target, text)->Obj_0[0] == ("chat_type"@, JsonV::Int(if target is User { 1 } else { 2 })),
        send_body_v(target, text)->Obj_0[1] == ("chatid"@, JsonV::Str(match target {
            ChatTarget::User(id) => id@,
            ChatTarget::Group(id) => id@,
        })),
        send_body_v(target, text)->Obj_0[3] == ("text"@, JsonV::Obj(seq![("content"@, JsonV::Str(text))])),
{
}

/// The send request of a message; only text (and markdown, as text) can be sent,
/// and other content is refused before anything else.
pub fn send_message_request(client: &WeComClient, req: &SendMessageRequest) -> (r: Result<
    HttpRequest,
    ImError,
>)
    ensures
        sendable_text(req.content) is None ==> (r matches Err(
            ImError::NotSupported { feature: f, platform: p },
        ) && f@ == "only text messages can be sent via WeCom bot API"@ && p@ == "wecom"@),
        sendable_text(req.content) matches Some(t) ==> token_result(
            *client,
            r,
            Method::Post,
            "/cgi-bin/message/send"@,
            Some(send_body_v(req.target, t)),
        ),
{
    broadcast use crate::json::group_json;

    let text = match &req.content {
        MessageContent::Text(t) => t.text.clone(),
        MessageContent::Markdown(md) => md.text.clone(),
        _ => {
            return Err(
                crate::http::not_supported("only text messages can be sent via WeCom bot API", "wecom"),
            );
        },
    };
    let ghost tv = text@;
    let (kind, id): (i64, String) = match &req.target {
        ChatTarget::User(id) => (1, id.clone()),
        ChatTarget::Group(id) => (2, id.clone()),
    };
    let mut m: Vec<(String, Json)> = Vec::new();
    put(&mut m, "chat_type", Json::Int(kind));
    put(&mut m, "chatid", Json::Str(id));
    put(&mut m, "msgtype", crate::json::jstr("text"));
    put(&mut m, "text", crate::json::obj1("content", Json::Str(text)));
    assert(jv_members(m@) =~= send_body_v(req.target, tv)->Obj_0);
    client.post("/cgi-bin/message/send", Json::Obj(m))
}

/// The reading of a send's reply: WeCom gives no message id.
pub fn send_message_reply(status: u16, text: String, parsed: Result<WeComEnvelope, String>) -> (r:
    Result<SendMessageResponse, ImError>)
    ensures
        reply_ok(
            status,
            text@,
            parsed,
            match r {
                Ok(_) => Ok(()),
                Err(e) => Err(e),
            },
        ),
        r matches Ok(resp) ==> resp.message_id@ == Seq::<char>::empty() && resp.extra@ == JsonV::Null,
{
    match crate::wecom::client::check_reply(status, &text, parsed) {
        Ok(()) => Ok(SendMessageResponse { message_id: String::new(), extra: Json::Null }),
        Err(e) => Err(e),
    }
}

/// Media of an archived message as WeCom gives it.
pub struct MediaBody {
    pub media_id: Option<String>,
    pub name: Option<String>,
}

/// An archived message as WeCom gives it.
pub struct RawMessage {
    pub userid: String,
    /// `%Y-%m-%d %H:%M:%S`, UTC.
    pub send_time: String,
    pub msgtype: String,
    pub text: Option<String>,
    pub image: Option<MediaBody>,
    pub file: Option<MediaBody>,
    pub voice: Option<MediaBody>,
    pub video: Option<MediaBody>,
}

pub open spec fn media_id(b: Option<MediaBody>) -> Seq<char> {
    match b {
        Some(m) => or_empty(m.media_id),
        None => Seq::empty(),
    }
}

pub open spec fn media_name(b: Option<MediaBody>) -> Option<String> {
    match b {
        Some(m) => m.name,
        None => None,
    }
}

/// The content of an archived message, by its type; unknown types keep no data.
pub open spec fn is_content_of(c: MessageContent, m: RawMessage) -> bool {
    if m.msgtype@ == "text"@ {
        c matches MessageContent::Text(t) && t.text@ == or_empty(m.text) && t.mentions@.len() == 0
    } else if m.msgtype@ == "image"@ {
        c matches MessageContent::Image(i) && i.media_key@ == media_id(m.image) && i.name
            == media_name(m.image) && i.url is None
    } else if m.msgtype@ == "file"@ {
        c matches MessageContent::File(f) && f.media_key@ == media_id(m.file) && f.name
            == media_name(m.file) && f.size is None && f.mime_type is None
    } else if m.msgtype@ == "voice"@ {
        c matches MessageContent::Audio(a) && a.media_key@ == media_id(m.voice) && a.duration_ms
            is None
    } else if m.msgtype@ == "video"@ {
        c matches MessageContent::Video(v) && v.media_key@ == media_id(m.video) && v.name
            == media_name(m.video) && v.cover_key is None
    } else {
        c matches MessageContent::Unknown { msg_type: t, raw: j } && t@ == m.msgtype@ && j@
            == JsonV::Null
    }
}

/// How WeCom's archived message types read: "text" as text, "image" as an image,
/// "file" as a file, "voice" as audio, "video" as video, each kind from that type
/// alone; any other type is unknown content that keeps its type.
pub proof fn law_message_types(c: MessageContent, m: RawMessage)
    requires
        is_content_of(c, m),
    ensures
        c is Text <==> m.msgtype@ == "text"@,
        c is Image <==> m.msgtype@ == "image"@,
        c is File <==> m.msgtype@ == "file"@,
        c is Audio <==> m.msgtype@ == "voice"@,
        c is Video <==> m.msgtype@ == "video"@,
        c is Unknown <==> !(m.msgtype@ == "text"@ || m.msgtype@ == "image"@ || m.msgtype@ == "file"@
            || m.msgtype@ == "voice"@ || m.msgtype@ == "video"@),
        c matches MessageContent::Unknown { msg_type: t, .. } ==> t@ == m.msgtype@,
        !(c is Markdown || c is Card),
{
    reveal_strlit("text");
    reveal_strlit("image");
    reveal_strlit("file");
    reveal_strlit("voice");
    reveal_strlit("video");
    assert("text"@.len() == 4 && "file"@.len() == 4 && "image"@.len() == 5 && "voice"@.len() == 5);
    assert("video"@.len() == 5);
    assert("text"@[0] != "file"@[0] && "image"@[0] != "voice"@[0] && "image"@[0] != "video"@[0]);
    assert("voice"@[1] != "video"@[1]);
}

/// What an archived message says of a message: WeCom gives no id or chat; the time
/// reads as 0 where it is not a time.
pub open spec fn is_message_of(r: Message, m: RawMessage) -> bool {
    &&& r.id@ == Seq::<char>::empty()
    &&& r.chat_id@ == Seq::<char>::empty()
    &&& r.sender.id == m.userid
    &&& r.sender.name is None
    &&& !r.sender.is_bot
    &&& is_content_of(r.content, m)
    &&& r.timestamp == match naive_utc_instant(m.send_time@, "%Y-%m-%d %H:%M:%S"@) {
        Some(ms) => ms,
        None => 0,
    }
    &&& r.extra@ == JsonV::Null
}

fn media_parts(b: Option<MediaBody>) -> (r: (String, Option<String>))
    ensures
        r.0@ == media_id(b),
        r.1 == media_name(b),
{
    match b {
        Some(m) => (crate::text::unwrap_or_empty(m.media_id), m.name),
        None => (String::new(), None),
    }
}

pub fn message_from_raw(m: RawMessage) -> (r: Message)
    ensures
        is_message_of(r, m),
{
    let ghost g = m;
    let ts = match crate::time::parse_naive_utc(m.send_time.as_str(), "%Y-%m-%d %H:%M:%S") {
        Some(ms) => ms,
        None => 0,
    };
    let content = if crate::text::str_eq(m.msgtype.as_str(), "text") {
        MessageContent::Text(TextContent { text: crate::text::unwrap_or_empty(m.text), mentions: Vec::new() })
    } else if crate::text::str_eq(m.msgtype.as_str(), "image") {
        let (k, n) = media_parts(m.image);
        MessageContent::Image(ImageContent { media_key: k, name: n, url: None })
    } else if crate::text::str_eq(m.msgtype.as_str(), "file") {
        let (k, n) = media_parts(m.file);
        MessageContent::File(FileContent { media_key: k, name: n, size: None, mime_type: None })
    } else if crate::text::str_eq(m.msgtype.as_str(), "voice") {
        let (k, _n) = media_parts(m.voice);
        MessageContent::Audio(AudioContent { media_key: k, duration_ms: None })
    } else if crate::text::str_eq(m.msgtype.as_str(), "video") {
        let (k, n) = media_parts(m.video);
        MessageContent::Video(VideoContent { media_key: k, name: n, cover_key: None })
    } else {
        MessageContent::Unknown { msg_type: m.msgtype.clone(), raw: Json::Null }
    };
    Message {
        id: String::new(),
        chat_id: String::new(),
        sender: MessageSender { id: m.userid, name: None, is_bot: false },
        content,
        timestamp: ts,
        extra: Json::Null,
    }
}

/// A time as WeCom's archive takes it, or empty.
pub open spec fn opt_second_text(t: Option<i64>) -> Seq<char> {
    match t {
        Some(ms) => utc_text(ms, "%Y-%m-%d %H:%M:%S"@),
        None => Seq::empty(),
    }
}

/// The body of an archive query: a group chat, the time bounds (empty where not
/// given) and the cursor (empty where not given).
pub open spec fn list_body_v(req: ListMessagesRequest) -> JsonV {
    JsonV::Obj(
        seq![
            ("chat_type"@, JsonV::Int(2)),
            ("chatid"@, JsonV::Str(req.chat_id@)),
            ("begin_time"@, JsonV::Str(opt_second_text(req.start_time))),
            ("end_time"@, JsonV::Str(opt_second_text(req.end_time))),
            ("cursor"@, JsonV::Str(or_empty(req.cursor))),
        ],
    )
}

fn opt_second(t: Option<i64>) -> (r: String)
    ensures
        r@ == opt_second_text(t),
{
    match t {
        Some(ms) => crate::time::fmt_utc(ms, "%Y-%m-%d %H:%M:%S"),
        None => String::new(),
    }
}

pub fn list_messages_request(client: &WeComClient, req: &ListMessagesRequest) -> (r: Result<
    HttpRequest,
    ImError,
>)
    ensures
        token_result(*client, r, Method::Post, "/cgi-bin/message/get_message"@, Some(list_body_v(*req))),
{
    broadcast use crate::json::group_json;

    let mut m: Vec<(String, Json)> = Vec::new();
    put(&mut m, "chat_type", Json::Int(2));
    put(&mut m, "chatid", Json::Str(req.chat_id.clone()));
    put(&mut m, "begin_time", Json::Str(opt_second(req.start_time)));
    put(&mut m, "end_time", Json::Str(opt_second(req.end_time)));
    put(&mut m, "cursor", Json::Str(crate::text::unwrap_or_empty(req.cursor.clone())));
    assert(jv_members(m@) =~= list_body_v(*req)->Obj_0);
    client.post("/cgi-bin/message/get_message", Json::Obj(m))
}

/// The page of an archive query: more exactly where there is a next cursor.
pub fn list_messages_page(messages: Vec<RawMessage>, next_cursor: Option<String>) -> (r: Page<Message>)
    ensures
        r.items@.len() == messages@.len(),
        forall|i: int| 0 <= i < messages@.len() ==> is_message_of(#[trigger] r.items@[i], messages@[i]),
        r.has_more == next_cursor is Some,
        r.next_cursor == next_cursor,
{
    let mut out: Vec<Message> = Vec::new();
    let ghost all = messages@;
    for m in it: messages.into_iter()
        invariant
            it.seq() == all,
            out@.len() == it.index(),
            forall|k: int| 0 <= k < out@.len() ==> is_message_of(#[trigger] out@[k], all[k]),
    {
        out.push(message_from_raw(m));
    }
    Page { has_more: next_cursor.is_some(), items: out, next_cursor }
}

/// WeCom cannot recall application messages.
pub fn recall_unsupported() -> (e: ImError)
    ensures
        e matches ImError::NotSupported { feature: f, platform: p } && f@ == "message recall"@ && p@
            == "wecom"@,
{
    crate::http::not_supported("message recall", "wecom")
}

} // verus!
