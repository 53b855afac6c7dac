//! DingTalk custom-robot webhooks: signed URLs, message bodies and replies.

use crate::crypto::{base64_standard, base64_std, form_urlencode, form_urlencode_str, hmac_sha256, hmac_sha256_tag};
use crate::http::{is_success, HttpRequest, Method};
use crate::json::{jstr, jstrs, obj1, obj2, str_arr, Json, JsonV};
use crate::model::{ImError, MessageContent, WebhookMessageRequest, WebhookMessageResponse};
use crate::render::{content_debug, content_debug_text};
use crate::text::{dec_int, or_empty};
use vstd::prelude::*;
use vstd::utf8::encode_utf8;

verus! {

/// The text that is signed for a request at `timestamp`: the timestamp, a newline,
/// then the secret.
pub open spec fn string_to_sign(timestamp: i64, secret: Seq<char>) -> Seq<char> {
    dec_int(timestamp as int) + seq!['\n'] + secret
}

/// The `sign` parameter: the Base64 of the HMAC-SHA256 of the signed text under
/// the secret, form-urlencoded.
pub open spec fn signature(timestamp: i64, secret: Seq<char>) -> Seq<char> {
    form_urlencode(
        encode_utf8(
            base64_std(
                hmac_sha256_tag(encode_utf8(secret), encode_utf8(string_to_sign(timestamp, secret))),
            ),
        ),
    )
}

/// `url` with the timestamp and signature appended: after `&` where the URL already
/// has a query, else after `?`; the timestamp parameter itself starts with `&`.
pub open spec fn signed_url(url: Seq<char>, secret: Seq<char>, timestamp: i64) -> Seq<char> {
    url + (if url.contains('?') {
        "&"@
    } else {
        "?"@
    }) + "&timestamp="@ + dec_int(timestamp as int) + "&sign="@ + signature(timestamp, secret)
}

/// Signs `webhook_url` with `secret` for the instant `timestamp` (milliseconds).
pub fn sign_url_at(webhook_url: &str, secret: &str, timestamp: i64) -> (r: Result<
    String,
    ImError,
>)
    ensures
        r matches Ok(u) && u@ == signed_url(webhook_url@, secret@, timestamp),
{
    let mut to_sign = crate::text::fmt_i64(timestamp);
    crate::text::push_char(&mut to_sign, '\n');
    crate::text::push_str(&mut to_sign, secret);
    assert(to_sign@ == string_to_sign(timestamp, secret@));
    let tag = match hmac_sha256(secret.as_bytes(), to_sign.as_str().as_bytes()) {
        Some(t) => t,
        None => {
            return Err(ImError::Internal("hmac error".to_string()));
        },
    };
    let sign = base64_standard(tag.as_slice());
    let encoded = form_urlencode_str(sign.as_str());
    let mut url = crate::text::lit(webhook_url);
    if crate::text::has_char(webhook_url, '?') {
        crate::text::push_str(&mut url, "&");
    } else {
        crate::text::push_str(&mut url, "?");
    }
    crate::text::push_str(&mut url, "&timestamp=");
    let ts = crate::text::fmt_i64(timestamp);
    crate::text::push_str(&mut url, ts.as_str());
    crate::text::push_str(&mut url, "&sign=");
    crate::text::push_str(&mut url, encoded.as_str());
    Ok(url)
}

/// Signs `webhook_url` with `secret` at the current instant.
pub fn sign_url(webhook_url: &str, secret: &str) -> (r: Result<String, ImError>)
    ensures
        r matches Ok(u) ==> exists|ts: i64| u@ == signed_url(webhook_url@, secret@, ts),
        r matches Err(e) ==> e matches ImError::Internal(m) && m@ == crate::time::clock_error_text(),
{
    let now = match crate::time::now_millis() {
        Some(t) => t,
        None => {
            return Err(crate::time::clock_error());
        },
    };
    let r = sign_url_at(webhook_url, secret, now);
    assert(r matches Ok(u) && u@ == signed_url(webhook_url@, secret@, now));
    r
}

/// The `{"msgtype": .., <msgtype>: ..}` frame of a robot message.
pub open spec fn frame_v(msgtype: Seq<char>, inner: JsonV) -> JsonV {
    JsonV::Obj(seq![("msgtype"@, JsonV::Str(msgtype)), (msgtype, inner)])
}

/// The robot message for `content`; content that is neither text nor markdown is
/// sent as text, written as `fallback`.
pub open spec fn content_frame_v(content: MessageContent, fallback: Seq<char>) -> JsonV {
    match content {
        MessageContent::Text(t) => frame_v("text"@, JsonV::Obj(seq![("content"@, JsonV::Str(t.text@))])),
        MessageContent::Markdown(md) => frame_v(
            "markdown"@,
            JsonV::Obj(seq![("title"@, JsonV::Str(or_empty(md.title))), ("text"@, JsonV::Str(md.text@))]),
        ),
        _ => frame_v("text"@, JsonV::Obj(seq![("content"@, JsonV::Str(fallback))])),
    }
}

/// The whole robot message: the content frame, then an `at` member where someone
/// is mentioned or everyone is.
pub open spec fn webhook_body_v(
    content: MessageContent,
    fallback: Seq<char>,
    at_user_ids: Seq<String>,
    at_all: bool,
) -> JsonV {
    let frame = content_frame_v(content, fallback);
    if at_user_ids.len() > 0 || at_all {
        match frame {
            JsonV::Obj(m) => JsonV::Obj(
                m.push(
                    (
                        "at"@,
                        JsonV::Obj(seq![("atUserIds"@, JsonV::Arr(str_arr(at_user_ids))), ("isAtAll"@, JsonV::Bool(at_all))]),
                    ),
                ),
            ),
            _ => frame,
        }
    } else {
        frame
    }
}

/// What a DingTalk robot sends: text as a "text" message with its text as content,
/// markdown as a "markdown" message with its title (or nothing) and text, any other
/// content as a "text" message whose content is the fallback; and an "at" member,
/// last, with the users and the all-flag, exactly where someone is mentioned.
pub proof fn law_webhook_frame(c: MessageContent, fallback: Seq<char>, ids: Seq<String>, at_all: bool)
    ensures
        webhook_body_v(c, fallback, ids, at_all) is Obj,
        webhook_body_v(c, fallback, ids, at_all)->Obj_0[0] == ("msgtype"@, JsonV::Str(
            if c is Markdown {
                "markdown"@
            } else {
                "text"@
            },
        )),
        webhook_body_v(c, fallback, ids, at_all)->Obj_0[1] == (match c {
            MessageContent::Text(t) => ("text"@, JsonV::Obj(seq![("content"@, JsonV::Str(t.text@))])),
            MessageContent::Markdown(m) => (
                "markdown"@,
                JsonV::Obj(seq![("title"@, JsonV::Str(or_empty(m.title))), ("text"@, JsonV::Str(m.text@))]),
            ),
            _ => ("text"@, JsonV::Obj(seq![("content"@, JsonV::Str(fallback))])),
        }),
        webhook_body_v(c, fallback, ids, at_all)->Obj_0.len() == (if ids.len() > 0 || at_all {
            3int
        } else {
            2int
        }),
        (ids.len() > 0 || at_all) ==> webhook_body_v(c, fallback, ids, at_all)->Obj_0[2] == (
            "at"@,
            JsonV::Obj(seq![("atUserIds"@, JsonV::Arr(str_arr(ids))), ("isAtAll"@, JsonV::Bool(at_all))]),
        ),
{
}

fn frame(msgtype: &str, inner: Json) -> (r: Json)
    ensures
        r@ == frame_v(msgtype@, inner@),
{
    obj2("msgtype", jstr(msgtype), msgtype, inner)
}

/// The robot message for `content`, with `fallback` as the text of other content.
pub fn build_body_with(
    content: &MessageContent,
    fallback: String,
    at_user_ids: &Vec<String>,
    at_all: bool,
) -> (r: Json)
    ensures
        r@ == webhook_body_v(*content, fallback@, at_user_ids@, at_all),
{
    broadcast use crate::json::group_json;

    let body = match content {
        MessageContent::Text(t) => frame("text", obj1("content", Json::Str(t.text.clone()))),
        MessageContent::Markdown(md) => {
            let title = crate::text::unwrap_or_empty(md.title.clone());
            frame("markdown", obj2("title", Json::Str(title), "text", Json::Str(md.text.clone())))
        },
        _ => frame("text", obj1("content", Json::Str(fallback))),
    };
    if at_user_ids.len() > 0 || at_all {
        let at = obj2("atUserIds", jstrs(at_user_ids), "isAtAll", Json::Bool(at_all));
        match body {
            Json::Obj(mut m) => {
                let ghost before = m@;
                let ghost atv = at;
                m.push(("at".to_string(), at));
                proof {
                    crate::json::lemma_jv_members_push(before, m@.last());
                    assert(m@ == before.push(m@.last()));
                }
                Json::Obj(m)
            },
            other => other,
        }
    } else {
        body
    }
}

/// The robot message for `content`; content other than text and markdown is sent
/// as its debug rendering.
pub fn build_body(content: &MessageContent, at_user_ids: &Vec<String>, at_all: bool) -> (r: Json)
    ensures
        r@ == webhook_body_v(*content, content_debug(*content), at_user_ids@, at_all),
{
    let fallback = match content {
        MessageContent::Text(_) => String::new(),
        MessageContent::Markdown(_) => String::new(),
        _ => content_debug_text(content),
    };
    let r = build_body_with(content, fallback, at_user_ids, at_all);
    assert(r@ == webhook_body_v(*content, fallback@, at_user_ids@, at_all));
    assert(content_frame_v(*content, fallback@) == content_frame_v(*content, content_debug(*content)));
    r
}

/// The POST of a robot message: to the signed URL where there is a secret, else to
/// the URL as given. Signing reads the clock, and fails only where it reads before
/// the Unix epoch.
pub fn send_webhook_request(req: &WebhookMessageRequest) -> (r: Result<HttpRequest, ImError>)
    ensures
        req.secret is None ==> r is Ok,
        r matches Err(e) ==> e matches ImError::Internal(m) && m@ == crate::time::clock_error_text(),
        r matches Ok(q) ==> q.method == Method::Post && q.headers@.len() == 0,
        r matches Ok(q) ==> (match req.secret {
            Some(s) => exists|ts: i64| q.url@ == signed_url(req.webhook_url@, s@, ts),
            None => q.url == req.webhook_url,
        }),
        r matches Ok(q) ==> (q.body matches Some(b) && b@ == webhook_body_v(
            req.content,
            content_debug(req.content),
            req.at_user_ids@,
            req.at_all,
        )),
{
    let url = match &req.secret {
        Some(secret) => sign_url(req.webhook_url.as_str(), secret.as_str())?,
        None => req.webhook_url.clone(),
    };
    let body = build_body(&req.content, &req.at_user_ids, req.at_all);
    Ok(HttpRequest { method: Method::Post, url, headers: Vec::new(), body: Some(body), form: None })
}

/// The reading of a robot's reply from its status, its `errcode` (0 where absent),
/// its `errmsg` and its text.
pub fn webhook_outcome(status: u16, errcode: Option<i64>, errmsg: Option<String>, text: String) -> (r:
    WebhookMessageResponse)
    ensures
        r.success == (is_success(status) && crate::http::code_of(errcode) == 0),
        r.success ==> r.error_code is None && r.error_message is None,
        !r.success ==> r.error_code == Some(crate::http::code_of(errcode)) && r.error_message
            == errmsg,
        r.extra@ == JsonV::Unparsed(text@),
{
    let code = match errcode {
        Some(c) => c,
        None => 0,
    };
    if !(200 <= status && status <= 299) || code != 0 {
        WebhookMessageResponse {
            success: false,
            error_code: Some(code),
            error_message: errmsg,
            extra: Json::Unparsed(text),
        }
    } else {
        WebhookMessageResponse {
            success: true,
            error_code: None,
            error_message: None,
            extra: Json::Unparsed(text),
        }
    }
}

/// Reads a robot's reply: `errcode` and `errmsg` are read from the JSON text.
pub fn webhook_reply(status: u16, text: String) -> (r: WebhookMessageResponse)
    ensures
        ({
            let code = crate::json::text_i64_member(text@, "errcode"@);
            &&& r.success == (is_success(status) && crate::http::code_of(code) == 0)
            &&& r.success ==> r.error_code is None && r.error_message is None
            &&& !r.success ==> r.error_code == Some(crate::http::code_of(code))
                && crate::text::opt_view(r.error_message) == crate::json::text_str_member(
                text@,
                "errmsg"@,
            )
            &&& r.extra@ == JsonV::Unparsed(text@)
        }),
{
    let code = crate::json::i64_member_of(text.as_str(), "errcode");
    let msg = crate::json::str_member_of(text.as_str(), "errmsg");
    webhook_outcome(status, code, msg, text)
}

} // verus!
