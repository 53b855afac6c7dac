//! Lark messages: content as Lark writes it, sending, listing and recalling.

use crate::http::{code_of, HttpRequest, Method};
use crate::json::{jv_members, put, text_str_member, Json, JsonV};
use crate::lark::client::{authed_result, LarkClient};
use crate::model::{
    AudioContent, ChatTarget, FileContent, ImError, ImageContent, ListMessagesRequest,
    MarkdownContent, Message, MessageContent, MessageSender, Page, SendMessageRequest,
    SendMessageResponse, TextContent, VideoContent,
};
use crate::text::{dec_int, opt_view, or_empty, or_text, parse_i64_spec};
use vstd::prelude::*;

verus! {

/// The code and message of a Lark reply envelope.
pub struct LarkEnvelope {
    pub code: Option<i64>,
    pub msg: Option<String>,
}

/// Fails where the envelope's code is present and not 0, with that code and the
/// envelope's message (or the reply's text where it has none).
pub fn check_envelope(env: &LarkEnvelope, text: &String) -> (r: Result<(), ImError>)
    ensures
        r is Ok <==> code_of(env.code) == 0,
        r matches Err(e) ==> (e matches ImError::Platform { code: c, message: m } && c == code_of(
            env.code,
        ) && m@ == or_text(env.msg, text@)),
{
    crate::http::check_code(env.code, env.msg.clone(), text.clone())
}

/// The reading of an enveloped reply: a reply that is not the expected JSON is a
/// serialization error; a nonzero code is a platform error; otherwise the data.
pub fn open_envelope<T>(text: String, parsed: Result<(LarkEnvelope, T), String>) -> (r: Result<T, ImError>)
    ensures
        parsed is Err ==> r == Err::<T, ImError>(ImError::Serialization(parsed->Err_0)),
        parsed matches Ok(p) ==> (r is Ok <==> code_of(p.0.code) == 0),
        parsed matches Ok(p) ==> (r matches Err(e) ==> (e matches ImError::Platform {
            code: c,
            message: m,
        } && c == code_of(p.0.code) && m@ == or_text(p.0.msg, text@))),
        parsed matches Ok(p) ==> (r matches Ok(d) ==> d == p.1),
{
    match parsed {
        Ok((env, data)) => {
            check_envelope(&env, &text)?;
            Ok(data)
        },
        Err(e) => Err(ImError::Serialization(e)),
    }
}

/// The reading of a reply whose data the caller does not need: a reply that is not
/// the expected JSON is a serialization error, else the envelope decides.
pub fn ack_reply(text: String, parsed: Result<LarkEnvelope, String>) -> (r: Result<(), ImError>)
    ensures
        parsed is Err ==> r == Err::<(), ImError>(ImError::Serialization(parsed->Err_0)),
        parsed matches Ok(env) ==> (r is Ok <==> code_of(env.code) == 0),
        parsed matches Ok(env) ==> (r matches Err(e) ==> (e matches ImError::Platform {
            code: c,
            message: m,
        } && c == code_of(env.code) && m@ == or_text(env.msg, text@))),
{
    match parsed {
        Ok(env) => check_envelope(&env, &text),
        Err(e) => Err(ImError::Serialization(e)),
    }
}

/// The characters of `o` where present, else `d`.
pub open spec fn or_seq(o: Option<Seq<char>>, d: Seq<char>) -> Seq<char> {
    match o {
        Some(s) => s,
        None => d,
    }
}

/// The string members of a message's JSON content that the library reads.
pub struct ContentMembers {
    pub text: Option<String>,
    pub title: Option<String>,
    pub content: Option<String>,
    pub image_key: Option<String>,
    pub file_key: Option<String>,
    pub file_name: Option<String>,
}

/// The members named in [`ContentMembers`], as read from the content text `raw`.
pub open spec fn members_of(f: ContentMembers, raw: Seq<char>) -> bool {
    &&& opt_view(f.text) == text_str_member(raw, "text"@)
    &&& opt_view(f.title) == text_str_member(raw, "title"@)
    &&& opt_view(f.content) == text_str_member(raw, "content"@)
    &&& opt_view(f.image_key) == text_str_member(raw, "image_key"@)
    &&& opt_view(f.file_key) == text_str_member(raw, "file_key"@)
    &&& opt_view(f.file_name) == text_str_member(raw, "file_name"@)
}

/// What a Lark message of type `ty` with the JSON content text `raw` holds, given the
/// members read from it: text falls back to the raw text; markdown and posts take
/// their text from `text`, else `content`, else the raw text; media keys fall back
/// to empty; cards and unknown types keep the whole document.
pub open spec fn is_content_of(c: MessageContent, ty: Seq<char>, raw: Seq<char>, f: ContentMembers) -> bool {
    if ty == "text"@ {
        c matches MessageContent::Text(t) && t.text@ == or_text(f.text, raw) && t.mentions@.len()
            == 0
    } else if ty == "post"@ || ty == "markdown"@ {
        c matches MessageContent::Markdown(md) && md.title == f.title && md.text@ == or_text(
            f.text,
            or_text(f.content, raw),
        )
    } else if ty == "image"@ {
        c matches MessageContent::Image(img) && img.media_key@ == or_empty(f.image_key)
            && img.name is None && img.url is None
    } else if ty == "file"@ {
        c matches MessageContent::File(file) && file.media_key@ == or_empty(f.file_key)
            && file.name == f.file_name && file.size is None && file.mime_type is None
    } else if ty == "audio"@ {
        c matches MessageContent::Audio(a) && a.media_key@ == or_empty(f.file_key)
            && a.duration_ms is None
    } else if ty == "media"@ {
        c matches MessageContent::Video(v) && v.media_key@ == or_empty(f.file_key) && v.name is None
            && v.cover_key == f.image_key
    } else if ty == "interactive"@ {
        c matches MessageContent::Card(j) && j@ == JsonV::Unparsed(raw)
    } else {
        c matches MessageContent::Unknown { msg_type: t, raw: j } && t@ == ty && j@
            == JsonV::Unparsed(raw)
    }
}

/// How Lark's message types read: "text" as text, "post" or "markdown" as markdown,
/// "image" as an image, "file" as a file, "audio" as audio, "media" as video and
/// "interactive" as a card, each kind from those types alone; any other type is
/// unknown content that keeps its type and text.
pub proof fn law_message_types(c: MessageContent, ty: Seq<char>, raw: Seq<char>, f: ContentMembers)
    requires
        is_content_of(c, ty, raw, f),
    ensures
        c is Text <==> ty == "text"@,
        c is Markdown <==> (ty == "post"@ || ty == "markdown"@),
        c is Image <==> ty == "image"@,
        c is File <==> ty == "file"@,
        c is Audio <==> ty == "audio"@,
        c is Video <==> ty == "media"@,
        c is Card <==> ty == "interactive"@,
        c is Unknown <==> !(ty == "text"@ || ty == "post"@ || ty == "markdown"@ || ty == "image"@ || ty
            == "file"@ || ty == "audio"@ || ty == "media"@ || ty == "interactive"@),
        c matches MessageContent::Unknown { msg_type: t, raw: j } ==> t@ == ty && j@ == JsonV::Unparsed(raw),
{
    reveal_strlit("text");
    reveal_strlit("post");
    reveal_strlit("markdown");
    reveal_strlit("image");
    reveal_strlit("file");
    reveal_strlit("audio");
    reveal_strlit("media");
    reveal_strlit("interactive");
    assert("text"@.len() == 4 && "post"@.len() == 4 && "file"@.len() == 4 && "markdown"@.len() == 8);
    assert("image"@.len() == 5 && "audio"@.len() == 5 && "media"@.len() == 5 && "interactive"@.len() == 11);
    assert("text"@[0] != "post"@[0] && "text"@[0] != "file"@[0] && "post"@[0] != "file"@[0]);
    assert("image"@[0] != "audio"@[0] && "image"@[0] != "media"@[0] && "audio"@[0] != "media"@[0]);
}

/// The content of a Lark message of type `ty` from its raw content text and the
/// members read from it.
pub fn content_from_members(ty: &str, raw: &str, f: ContentMembers) -> (r: MessageContent)
    ensures
        is_content_of(r, ty@, raw@, f),
{
    let ghost g = f;
    if crate::text::str_eq(ty, "text") {
        MessageContent::Text(
            TextContent { text: crate::text::unwrap_or_text(f.text, raw), mentions: Vec::new() },
        )
    } else if crate::text::str_eq(ty, "post") || crate::text::str_eq(ty, "markdown") {
        let text = match f.text {
            Some(t) => t,
            None => crate::text::unwrap_or_text(f.content, raw),
        };
        MessageContent::Markdown(MarkdownContent { title: f.title, text })
    } else if crate::text::str_eq(ty, "image") {
        MessageContent::Image(
            ImageContent { media_key: crate::text::unwrap_or_empty(f.image_key), name: None, url: None },
        )
    } else if crate::text::str_eq(ty, "file") {
        MessageContent::File(
            FileContent {
                media_key: crate::text::unwrap_or_empty(f.file_key),
                name: f.file_name,
                size: None,
                mime_type: None,
            },
        )
    } else if crate::text::str_eq(ty, "audio") {
        MessageContent::Audio(
            AudioContent { media_key: crate::text::unwrap_or_empty(f.file_key), duration_ms: None },
        )
    } else if crate::text::str_eq(ty, "media") {
        MessageContent::Video(
            VideoContent {
                media_key: crate::text::unwrap_or_empty(f.file_key),
                name: None,
                cover_key: f.image_key,
            },
        )
    } else if crate::text::str_eq(ty, "interactive") {
        MessageContent::Card(Json::Unparsed(raw.to_string()))
    } else {
        MessageContent::Unknown { msg_type: ty.to_string(), raw: Json::Unparsed(raw.to_string()) }
    }
}

/// Reads the members of the content text `raw`.
pub fn read_members(raw: &str) -> (f: ContentMembers)
    ensures
        members_of(f, raw@),
{
    ContentMembers {
        text: crate::json::str_member_of(raw, "text"),
        title: crate::json::str_member_of(raw, "title"),
        content: crate::json::str_member_of(raw, "content"),
        image_key: crate::json::str_member_of(raw, "image_key"),
        file_key: crate::json::str_member_of(raw, "file_key"),
        file_name: crate::json::str_member_of(raw, "file_name"),
    }
}

/// The content of a Lark message of type `msg_type` whose JSON content text is `raw`.
pub fn parse_lark_content(msg_type: &str, raw: &str) -> (r: MessageContent)
    ensures
        exists|f: ContentMembers| members_of(f, raw@) && is_content_of(r, msg_type@, raw@, f),
{
    let f = read_members(raw);
    let ghost g = f;
    let r = content_from_members(msg_type, raw, f);
    assert(members_of(g, raw@) && is_content_of(r, msg_type@, raw@, g));
    r
}

/// A message as Lark's reply gives it.
pub struct LarkMessage {
    pub message_id: Option<String>,
    pub chat_id: Option<String>,
    pub msg_type: Option<String>,
    /// The JSON text of the message's body content.
    pub body_content: Option<String>,
    pub sender_id: Option<String>,
    pub sender_type: Option<String>,
    /// Decimal milliseconds.
    pub create_time: Option<String>,
}

/// What a Lark message says of a message: its type defaults to text and its content
/// to empty; the timestamp is the decimal creation time (0 where there is none or it
/// is not a number); the sender is a bot exactly where its type is `app`.
pub open spec fn is_message_of(r: Message, m: LarkMessage) -> bool {
    &&& r.id@ == or_empty(m.message_id)
    &&& r.chat_id@ == or_empty(m.chat_id)
    &&& r.sender.id@ == or_empty(m.sender_id)
    &&& r.sender.name is None
    &&& r.sender.is_bot == (opt_view(m.sender_type) == Some("app"@))
    &&& exists|f: ContentMembers|
        members_of(f, or_empty(m.body_content)) && is_content_of(
            r.content,
            or_text(m.msg_type, "text"@),
            or_empty(m.body_content),
            f,
        )
    &&& r.timestamp == match parse_i64_spec(or_text(m.create_time, "0"@)) {
        Some(v) => v,
        None => 0,
    }
    &&& r.extra@ == JsonV::Null
}

/// The message of a Lark message.
pub fn message_from_lark(m: LarkMessage) -> (r: Message)
    ensures
        is_message_of(r, m),
{
    let ghost g = m;
    let ty = crate::text::unwrap_or_text(m.msg_type, "text");
    let raw = crate::text::unwrap_or_empty(m.body_content);
    let content = parse_lark_content(ty.as_str(), raw.as_str());
    let time = crate::text::unwrap_or_text(m.create_time, "0");
    let ts = match crate::text::parse_i64(time.as_str()) {
        Some(v) => v,
        None => 0,
    };
    let is_bot = match &m.sender_type {
        Some(t) => crate::text::str_eq(t.as_str(), "app"),
        None => false,
    };
    Message {
        id: crate::text::unwrap_or_empty(m.message_id),
        chat_id: crate::text::unwrap_or_empty(m.chat_id),
        sender: MessageSender {
            id: crate::text::unwrap_or_empty(m.sender_id),
            name: None,
            is_bot,
        },
        content,
        timestamp: ts,
        extra: Json::Null,
    }
}

/// The Lark message type and JSON content document for `content`: markdown is sent
/// as a Chinese-locale post with one text run; a video's cover goes along where it
/// has one; unknown content cannot be sent.
pub open spec fn lark_content_v(content: MessageContent) -> Option<(Seq<char>, JsonV)> {
    match content {
        MessageContent::Text(t) => Some(("text"@, JsonV::Obj(seq![("text"@, JsonV::Str(t.text@))]))),
        MessageContent::Markdown(md) => Some(
            (
                "post"@,
                JsonV::Obj(
                    seq![
                        (
                            "zh_cn"@,
                            JsonV::Obj(
                                seq![
                                    ("title"@, JsonV::Str(or_empty(md.title))),
                                    (
                                        "content"@,
                                        JsonV::Arr(
                                            seq![
                                                JsonV::Arr(
                                                    seq![
                                                        JsonV::Obj(
                                                            seq![
                                                                ("tag"@, JsonV::Str("text"@)),
                                                                ("text"@, JsonV::Str(md.text@)),
                                                            ],
                                                        ),
                                                    ],
                                                ),
                                            ],
                                        ),
                                    ),
                                ],
                            ),
                        ),
                    ],
                ),
            ),
        ),
        MessageContent::Image(i) => Some(
            ("image"@, JsonV::Obj(seq![("image_key"@, JsonV::Str(i.media_key@))])),
        ),
        MessageContent::File(f) => Some(("file"@, JsonV::Obj(seq![("file_key"@, JsonV::Str(f.media_key@))]))),
        MessageContent::Audio(a) => Some(("audio"@, JsonV::Obj(seq![("file_key"@, JsonV::Str(a.media_key@))]))),
        MessageContent::Video(v) => Some(
            (
                "media"@,
                JsonV::Obj(
                    seq![("file_key"@, JsonV::Str(v.media_key@))] + match v.cover_key {
                        Some(k) => seq![("image_key"@, JsonV::Str(k@))],
                        None => Seq::empty(),
                    },
                ),
            ),
        ),
        MessageContent::Card(j) => Some(("interactive"@, j@)),
        MessageContent::Unknown { .. } => None,
    }
}

fn one_elem(j: Json) -> (r: Json)
    ensures
        r@ == JsonV::Arr(seq![j@]),
{
    broadcast use crate::json::group_json;

    let ghost jj = j;
    let mut v: Vec<Json> = Vec::new();
    v.push(j);
    assert(crate::json::jv_seq(v@) =~= seq![jj@]) by {
        crate::json::lemma_jv_seq_push(Seq::empty(), jj);
        assert(v@ =~= Seq::<Json>::empty().push(jj));
    }
    Json::Arr(v)
}

/// The Lark message type and JSON content document for `content`.
pub fn build_content(content: MessageContent) -> (r: Result<(String, Json), ImError>)
    ensures
        lark_content_v(content) matches Some(p) ==> (r matches Ok(q) && q.0@ == p.0 && q.1@ == p.1),
        lark_content_v(content) is None ==> (r matches Err(
            ImError::NotSupported { feature: f, platform: pl },
        ) && f@ == "unknown message type"@ && pl@ == "lark"@),
{
    broadcast use crate::json::group_json;

    match content {
        MessageContent::Text(t) => Ok(("text".to_string(), crate::json::obj1("text", Json::Str(t.text)))),
        MessageContent::Markdown(md) => {
            let title = crate::text::unwrap_or_empty(md.title);
            let run = crate::json::obj2("tag", crate::json::jstr("text"), "text", Json::Str(md.text));
            let line = one_elem(run);
            let lines = one_elem(line);
            let inner = crate::json::obj2("title", Json::Str(title), "content", lines);
            Ok(("post".to_string(), crate::json::obj1("zh_cn", inner)))
        },
        MessageContent::Image(i) => Ok(
            ("image".to_string(), crate::json::obj1("image_key", Json::Str(i.media_key))),
        ),
        MessageContent::File(f) => Ok(("file".to_string(), crate::json::obj1("file_key", Json::Str(f.media_key)))),
        MessageContent::Audio(a) => Ok(
            ("audio".to_string(), crate::json::obj1("file_key", Json::Str(a.media_key))),
        ),
        MessageContent::Video(v) => {
            let ghost vv = v;
            let mut m: Vec<(String, Json)> = Vec::new();
            put(&mut m, "file_key", Json::Str(v.media_key));
            match v.cover_key {
                Some(k) => put(&mut m, "image_key", Json::Str(k)),
                None => {},
            }
            assert(jv_members(m@) =~= seq![("file_key"@, JsonV::Str(vv.media_key@))] + match vv.cover_key {
                Some(k) => seq![("image_key"@, JsonV::Str(k@))],
                None => Seq::empty(),
            });
            Ok(("media".to_string(), Json::Obj(m)))
        },
        MessageContent::Card(j) => Ok(("interactive".to_string(), j)),
        MessageContent::Unknown { .. } => Err(
            ImError::NotSupported {
                feature: "unknown message type".to_string(),
                platform: "lark".to_string(),
            },
        ),
    }
}

/// The string value of the last member named `key` of the object `doc`; nothing
/// where there is no such member, where it is not a string, or where `doc` is not
/// an object.
pub open spec fn doc_str_member(doc: JsonV, key: Seq<char>) -> Option<Seq<char>> {
    match doc {
        JsonV::Obj(ms) => members_str(ms, key),
        _ => None,
    }
}

pub open spec fn members_str(ms: Seq<(Seq<char>, JsonV)>, key: Seq<char>) -> Option<Seq<char>>
    decreases ms.len(),
{
    if ms.len() == 0 {
        None
    } else if ms.last().0 == key {
        match ms.last().1 {
            JsonV::Str(v) => Some(v),
            _ => None,
        }
    } else {
        members_str(ms.drop_last(), key)
    }
}

/// Content that Lark's message format carries whole: text without mentions, and
/// media with only their keys (and a video's cover).
pub open spec fn carried_whole(c: MessageContent) -> bool {
    match c {
        MessageContent::Text(t) => t.mentions@.len() == 0,
        MessageContent::Image(i) => i.name is None && i.url is None,
        MessageContent::File(f) => f.name is None && f.size is None && f.mime_type is None,
        MessageContent::Audio(a) => a.duration_ms is None,
        MessageContent::Video(v) => v.name is None,
        _ => false,
    }
}

/// `a` and `b` hold the same content, string by string.
pub open spec fn same_content(a: MessageContent, b: MessageContent) -> bool {
    match a {
        MessageContent::Text(x) => b matches MessageContent::Text(y) && x.text@ == y.text@
            && x.mentions@.len() == 0 && y.mentions@.len() == 0,
        MessageContent::Image(x) => b matches MessageContent::Image(y) && x.media_key@ == y.media_key@
            && x.name is None && y.name is None && x.url is None && y.url is None,
        MessageContent::File(x) => b matches MessageContent::File(y) && x.media_key@ == y.media_key@
            && x.name is None && y.name is None && x.size == y.size && x.mime_type is None
            && y.mime_type is None,
        MessageContent::Audio(x) => b matches MessageContent::Audio(y) && x.media_key@ == y.media_key@
            && x.duration_ms == y.duration_ms,
        MessageContent::Video(x) => b matches MessageContent::Video(y) && x.media_key@ == y.media_key@
            && x.name is None && y.name is None && opt_view(x.cover_key) == opt_view(y.cover_key),
        _ => false,
    }
}

/// What is sent is read back: where `build_content` gives the type `ty` and the
/// document `doc` for content that the format carries whole, and the content text
/// `raw` that arrives reads, member by member, as that document's string members,
/// the content that `parse_lark_content` reads from `ty` and `raw` is the content
/// that was sent. A card is read back as the text it arrived as.
pub proof fn law_content_read_back(
    c: MessageContent,
    ty: Seq<char>,
    doc: JsonV,
    raw: Seq<char>,
    f: ContentMembers,
    r: MessageContent,
)
    requires
        carried_whole(c) || c is Card,
        lark_content_v(c) == Some((ty, doc)),
        text_str_member(raw, "text"@) == doc_str_member(doc, "text"@),
        text_str_member(raw, "title"@) == doc_str_member(doc, "title"@),
        text_str_member(raw, "content"@) == doc_str_member(doc, "content"@),
        text_str_member(raw, "image_key"@) == doc_str_member(doc, "image_key"@),
        text_str_member(raw, "file_key"@) == doc_str_member(doc, "file_key"@),
        text_str_member(raw, "file_name"@) == doc_str_member(doc, "file_name"@),
        members_of(f, raw),
        is_content_of(r, ty, raw, f),
    ensures
        carried_whole(c) ==> same_content(r, c),
        c is Card ==> (r matches MessageContent::Card(j) && j@ == JsonV::Unparsed(raw)),
{
    reveal_strlit("text");
    reveal_strlit("title");
    reveal_strlit("content");
    reveal_strlit("image_key");
    reveal_strlit("file_key");
    reveal_strlit("file_name");
    reveal_strlit("post");
    reveal_strlit("markdown");
    reveal_strlit("image");
    reveal_strlit("file");
    reveal_strlit("audio");
    reveal_strlit("media");
    reveal_strlit("interactive");
    match c {
        MessageContent::Text(t) => {
            let ms = seq![("text"@, JsonV::Str(t.text@))];
            assert(ms.drop_last().len() == 0);
            assert(members_str(ms, "text"@) == Some(t.text@));
            assert(ty == "text"@ && doc == JsonV::Obj(ms));
            assert(opt_view(f.text) == Some(t.text@));
            assert(or_text(f.text, raw) == t.text@);
            assert(same_content(r, c));
        },
        MessageContent::Image(i) => {
            let ms = seq![("image_key"@, JsonV::Str(i.media_key@))];
            assert(ms.drop_last().len() == 0);
            assert(members_str(ms, "image_key"@) == Some(i.media_key@));
            assert(ty == "image"@ && doc == JsonV::Obj(ms));
            assert("image"@.len() != "text"@.len());
            assert("image"@.len() != "markdown"@.len());
            assert(opt_view(f.image_key) == Some(i.media_key@));
            assert(same_content(r, c));
        },
        MessageContent::File(x) => {
            let ms = seq![("file_key"@, JsonV::Str(x.media_key@))];
            assert(ms.drop_last().len() == 0);
            assert(members_str(ms, "file_key"@) == Some(x.media_key@));
            assert("file_key"@[5] != "file_name"@[5]);
            assert("file"@[0] != "text"@[0] && "file"@[0] != "post"@[0]);
            assert("file"@.len() != "markdown"@.len() && "file"@.len() != "image"@.len());
            assert(members_str(ms.drop_last(), "file_name"@) is None);
            assert(members_str(ms, "file_name"@) is None);
            assert(same_content(r, c));
        },
        MessageContent::Audio(a) => {
            let ms = seq![("file_key"@, JsonV::Str(a.media_key@))];
            assert(ms.drop_last().len() == 0);
            assert(members_str(ms, "file_key"@) == Some(a.media_key@));
            assert("audio"@[0] != "image"@[0]);
            assert("audio"@.len() != "text"@.len() && "audio"@.len() != "markdown"@.len());
            assert(same_content(r, c));
        },
        MessageContent::Video(v) => {
            let ms = seq![("file_key"@, JsonV::Str(v.media_key@))] + match v.cover_key {
                Some(k) => seq![("image_key"@, JsonV::Str(k@))],
                None => Seq::empty(),
            };
            assert("media"@[0] != "image"@[0] && "media"@[0] != "audio"@[0]);
            assert("media"@.len() != "text"@.len() && "media"@.len() != "markdown"@.len());
            match v.cover_key {
                Some(k) => {
                    assert(ms.drop_last() =~= seq![("file_key"@, JsonV::Str(v.media_key@))]);
                    assert(ms.drop_last().drop_last().len() == 0);
                    assert("image_key"@[0] != "file_key"@[0]);
                    assert(members_str(ms.drop_last(), "file_key"@) == Some(v.media_key@));
                    assert(members_str(ms, "image_key"@) == Some(k@));
                    assert(members_str(ms, "file_key"@) == Some(v.media_key@));
                },
                None => {
                    assert(ms =~= seq![("file_key"@, JsonV::Str(v.media_key@))]);
                    assert(ms.drop_last().len() == 0);
                    assert("image_key"@[0] != "file_key"@[0]);
                    assert(members_str(ms.drop_last(), "image_key"@) is None);
                    assert(members_str(ms, "image_key"@) is None);
                    assert(members_str(ms, "file_key"@) == Some(v.media_key@));
                },
            }
        },
        MessageContent::Card(j) => {
            assert(ty == "interactive"@);
            assert(ty != "text"@ && ty != "post"@ && ty != "markdown"@ && ty != "image"@);
            assert(ty != "file"@ && ty != "audio"@ && ty != "media"@);
        },
        _ => {},
    }
}

/// Whom a Lark message goes to: a user is addressed by open id and a group by chat
/// id, with the recipient's id as `receive_id` and the content type and document
/// that were given.
pub proof fn law_send_recipient(target: ChatTarget, ty: Seq<char>, doc: JsonV)
    ensures
        send_path_v(target) == "/open-apis/im/v1/messages?receive_id_type="@ + (if target is User {
            "open_id"@
        } else {
            "chat_id"@
        }),
        send_body_v(target, ty, doc)->Obj_0.len() == 3,
        send_body_v(target, ty, doc)->Obj_0[0] == ("receive_id"@, JsonV::Str(match target {
            ChatTarget::User(id) => id@,
            ChatTarget::Group(id) => id@,
        })),
        send_body_v(target, ty, doc)->Obj_0[1] == ("msg_type"@, JsonV::Str(ty)),
        send_body_v(target, ty, doc)->Obj_0[2] == ("content"@, JsonV::Embedded(Box::new(doc))),
{
}

/// The Lark message type of each kind of content: text as "text", markdown as a
/// "post", images as "image", files as "file", audio as "audio", video as "media" and
/// cards as "interactive"; unknown content is not sent.
pub proof fn law_content_types(c: MessageContent)
    ensures
        c is Text ==> (lark_content_v(c) matches Some(p) && p.0 == "text"@),
        c is Markdown ==> (lark_content_v(c) matches Some(p) && p.0 == "post"@),
        c is Image ==> (lark_content_v(c) matches Some(p) && p.0 == "image"@),
        c is File ==> (lark_content_v(c) matches Some(p) && p.0 == "file"@),
        c is Audio ==> (lark_content_v(c) matches Some(p) && p.0 == "audio"@),
        c is Video ==> (lark_content_v(c) matches Some(p) && p.0 == "media"@),
        c is Card ==> (lark_content_v(c) matches Some(p) && p.0 == "interactive"@),
        c is Unknown ==> lark_content_v(c) is None,
        c matches MessageContent::Card(j) ==> (lark_content_v(c) matches Some(p) && p.1 == j@),
        c matches MessageContent::Text(t) ==> (lark_content_v(c) matches Some(p) && p.1 is Obj && p.1->Obj_0
            == seq![("text"@, JsonV::Str(t.text@))]),
        c matches MessageContent::Image(i) ==> (lark_content_v(c) matches Some(p) && p.1 is Obj
            && p.1->Obj_0 == seq![("image_key"@, JsonV::Str(i.media_key@))]),
        c matches MessageContent::File(f) ==> (lark_content_v(c) matches Some(p) && p.1 is Obj
            && p.1->Obj_0 == seq![("file_key"@, JsonV::Str(f.media_key@))]),
        c matches MessageContent::Audio(a) ==> (lark_content_v(c) matches Some(p) && p.1 is Obj
            && p.1->Obj_0 == seq![("file_key"@, JsonV::Str(a.media_key@))]),
{
}

/// The path of a send, by the kind of recipient: a user's open id or a chat id.
pub open spec fn send_path_v(target: ChatTarget) -> Seq<char> {
    "/open-apis/im/v1/messages?receive_id_type="@ + match target {
        ChatTarget::User(_) => "open_id"@,
        ChatTarget::Group(_) => "chat_id"@,
    }
}

pub open spec fn target_id(target: ChatTarget) -> Seq<char> {
    match target {
        ChatTarget::User(id) => id@,
        ChatTarget::Group(id) => id@,
    }
}

/// The body of a send: the recipient, the type and the content as JSON text.
pub open spec fn send_body_v(target: ChatTarget, ty: Seq<char>, doc: JsonV) -> JsonV {
    JsonV::Obj(
        seq![
            ("receive_id"@, JsonV::Str(target_id(target))),
            ("msg_type"@, JsonV::Str(ty)),
            ("content"@, JsonV::Embedded(Box::new(doc))),
        ],
    )
}

/// The send request of a message: content that Lark cannot take is refused before
/// anything else; then the client needs a token.
pub fn send_message_request(client: &LarkClient, req: SendMessageRequest) -> (r: Result<
    HttpRequest,
    ImError,
>)
    ensures
        lark_content_v(req.content) is None ==> (r matches Err(ImError::NotSupported { .. })),
        lark_content_v(req.content) matches Some(p) ==> authed_result(
            *client,
            r,
            Method::Post,
            send_path_v(req.target),
            Some(send_body_v(req.target, p.0, p.1)),
        ),
{
    let ghost target = req.target;
    let (ty, doc) = build_content(req.content)?;
    let ghost dv = doc@;
    let mut path = crate::text::lit("/open-apis/im/v1/messages?receive_id_type=");
    let id = match req.target {
        ChatTarget::User(id) => {
            crate::text::push_str(&mut path, "open_id");
            id
        },
        ChatTarget::Group(id) => {
            crate::text::push_str(&mut path, "chat_id");
            id
        },
    };
    let mut m: Vec<(String, Json)> = Vec::new();
    put(&mut m, "receive_id", Json::Str(id));
    put(&mut m, "msg_type", Json::Str(ty));
    let emb = Json::Embedded(Box::new(doc));
    assert(emb@ == JsonV::Embedded(Box::new(dv)));
    put(&mut m, "content", emb);
    proof {
        broadcast use crate::json::group_json;

        assert(jv_members(m@) =~= send_body_v(target, ty@, dv)->Obj_0);
    }
    client.post(path.as_str(), Json::Obj(m))
}

/// The reading of a send's reply: the envelope decides; the message id is the one
/// in the reply's data (empty where there is none).
pub fn send_message_reply(text: String, parsed: Result<(LarkEnvelope, Option<String>), String>) -> (r:
    Result<SendMessageResponse, ImError>)
    ensures
        parsed is Err ==> r == Err::<SendMessageResponse, ImError>(
            ImError::Serialization(parsed->Err_0),
        ),
        parsed matches Ok(p) ==> (r is Ok <==> code_of(p.0.code) == 0),
        parsed matches Ok(p) ==> (r matches Err(e) ==> (e matches ImError::Platform {
            code: c,
            message: m,
        } && c == code_of(p.0.code) && m@ == or_text(p.0.msg, text@))),
        parsed matches Ok(p) ==> (r matches Ok(resp) ==> resp.message_id@ == or_empty(p.1)
            && resp.extra@ == JsonV::Null),
{
    let (env, id) = match parsed {
        Ok(p) => p,
        Err(e) => {
            return Err(ImError::Serialization(e));
        },
    };
    check_envelope(&env, &text)?;
    Ok(SendMessageResponse { message_id: crate::text::unwrap_or_empty(id), extra: Json::Null })
}

/// Seconds (rounded down) of an instant in milliseconds.
pub fn millis_to_secs(ms: i64) -> (r: i64)
    ensures
        r == ms / 1000,
{
    if ms >= 0 {
        let u: u64 = ms as u64;
        let q: u64 = u / 1000;
        assert(q as int == ms / 1000);
        q as i64
    } else {
        let p: u64 = (0i128 - ms as i128) as u64;
        let q: u64 = (p + 999) / 1000;
        assert(-(q as int) == ms / 1000) by (nonlinear_arith)
            requires
                ms < 0,
                p == -ms,
                q == (p + 999) / 1000,
        ;
        0i64 - q as i64
    }
}

/// The listing path of a chat's messages: the chat, then each bound given (in whole
/// seconds), the cursor and the page size.
pub open spec fn list_path_v(req: ListMessagesRequest) -> Seq<char> {
    "/open-apis/im/v1/messages?container_id_type=chat&container_id="@ + req.chat_id@ + (
    match req.start_time {
        Some(t) => "&start_time="@ + dec_int(t / 1000),
        None => Seq::empty(),
    }) + (match req.end_time {
        Some(t) => "&end_time="@ + dec_int(t / 1000),
        None => Seq::empty(),
    }) + (match req.cursor {
        Some(c) => "&page_token="@ + c@,
        None => Seq::empty(),
    }) + (match req.limit {
        Some(l) => "&page_size="@ + crate::text::dec_nat(l as nat),
        None => Seq::empty(),
    })
}

pub fn list_messages_path(req: &ListMessagesRequest) -> (r: String)
    ensures
        r@ == list_path_v(*req),
{
    let mut p = crate::text::lit("/open-apis/im/v1/messages?container_id_type=chat&container_id=");
    crate::text::push_str(&mut p, req.chat_id.as_str());
    let ghost p0 = p@;
    match req.start_time {
        Some(t) => {
            crate::text::push_str(&mut p, "&start_time=");
            let n = crate::text::fmt_i64(millis_to_secs(t));
            crate::text::push_str(&mut p, n.as_str());
        },
        None => {},
    }
    let ghost p1 = p@;
    match req.end_time {
        Some(t) => {
            crate::text::push_str(&mut p, "&end_time=");
            let n = crate::text::fmt_i64(millis_to_secs(t));
            crate::text::push_str(&mut p, n.as_str());
        },
        None => {},
    }
    let ghost p2 = p@;
    match &req.cursor {
        Some(c) => {
            crate::text::push_str(&mut p, "&page_token=");
            crate::text::push_str(&mut p, c.as_str());
        },
        None => {},
    }
    let ghost p3 = p@;
    match req.limit {
        Some(l) => {
            crate::text::push_str(&mut p, "&page_size=");
            let n = crate::text::fmt_u64(l as u64);
            crate::text::push_str(&mut p, n.as_str());
        },
        None => {},
    }
    assert(p@ =~= list_path_v(*req));
    p
}

/// A page of messages from the reply's items, `has_more` (false where absent) and
/// page token.
pub fn messages_page(items: Vec<LarkMessage>, has_more: Option<bool>, page_token: Option<String>) -> (r:
    Page<Message>)
    ensures
        r.items@.len() == items@.len(),
        forall|i: int| 0 <= i < items@.len() ==> is_message_of(#[trigger] r.items@[i], items@[i]),
        r.has_more == (has_more == Some(true)),
        r.next_cursor == page_token,
{
    let mut out: Vec<Message> = Vec::new();
    let ghost all = items@;
    for m in it: items.into_iter()
        invariant
            it.seq() == all,
            out@.len() == it.index(),
            forall|k: int| 0 <= k < out@.len() ==> is_message_of(#[trigger] out@[k], all[k]),
    {
        out.push(message_from_lark(m));
    }
    let more = match has_more {
        Some(b) => b,
        None => false,
    };
    Page { items: out, has_more: more, next_cursor: page_token }
}

/// The path of one message.
pub fn message_path(message_id: &str) -> (r: String)
    ensures
        r@ == "/open-apis/im/v1/messages/"@ + message_id@,
{
    crate::text::concat2("/open-apis/im/v1/messages/", message_id)
}

} // verus!
