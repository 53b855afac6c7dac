//! WeCom group-robot webhooks: image keys, message bodies and replies.

use crate::http::{HttpRequest, Method};
use crate::json::{json_text_error, str_arr, text_i64_member, text_str_member, Json, JsonV};
use crate::model::{ImError, MessageContent, WebhookMessageRequest, WebhookMessageResponse};
use crate::text::last_index_of;
use crate::wecom::client::WeComClient;
use vstd::prelude::*;

verus! {

/// An ASCII hexadecimal digit.
pub open spec fn is_hex(c: char) -> bool {
    ('0' <= c <= '9') || ('a' <= c <= 'f') || ('A' <= c <= 'F')
}

/// An MD5 digest as text: 32 hexadecimal digits.
pub open spec fn is_md5_text(s: Seq<char>) -> bool {
    s.len() == 32 && forall|i: int| 0 <= i < s.len() ==> is_hex(#[trigger] s[i])
}

/// The Base64 data and MD5 digest of an image key `<base64>:<md5>`: the key splits at
/// its last `:` where what follows is a digest; otherwise the whole key is the data
/// and the digest is empty.
pub open spec fn image_key_parts(key: Seq<char>) -> (Seq<char>, Seq<char>) {
    match last_index_of(key, ':') {
        Some(i) => {
            let md5 = key.subrange(i + 1, key.len() as int);
            if is_md5_text(md5) {
                (key.subrange(0, i), md5)
            } else {
                (key, Seq::empty())
            }
        },
        None => (key, Seq::empty()),
    }
}

fn all_hex(s: &str) -> (r: bool)
    ensures
        r == (forall|i: int| 0 <= i < s@.len() ==> is_hex(#[trigger] s@[i])),
{
    let n = s.unicode_len();
    let mut i: usize = 0;
    while i < n
        invariant
            n == s@.len(),
            i <= n,
            forall|k: int| 0 <= k < i ==> is_hex(#[trigger] s@[k]),
        decreases n - i,
    {
        let c = s.get_char(i);
        if !(('0' <= c && c <= '9') || ('a' <= c && c <= 'f') || ('A' <= c && c <= 'F')) {
            assert(!is_hex(s@[i as int]));
            return false;
        }
        i = i + 1;
    }
    true
}

/// Splits an image key into its Base64 data and MD5 digest.
pub fn parse_image_key(key: &str) -> (r: (String, String))
    ensures
        (r.0@, r.1@) == image_key_parts(key@),
{
    proof {
        crate::text::lemma_last_index_of(key@, ':');
    }
    match crate::text::rfind_char(key, ':') {
        Some(pos) => {
            let n = key.unicode_len();
            let md5 = key.substring_char(pos + 1, n);
            if md5.unicode_len() == 32 && all_hex(md5) {
                let b64 = key.substring_char(0, pos);
                (b64.to_string(), md5.to_string())
            } else {
                (key.to_string(), String::new())
            }
        },
        None => (key.to_string(), String::new()),
    }
}

/// Joining data and a digest with `:` and splitting the key again gives back both.
pub proof fn law_image_key_roundtrip(b64: Seq<char>, md5: Seq<char>)
    requires
        is_md5_text(md5),
    ensures
        image_key_parts(b64 + seq![':'] + md5) == (b64, md5),
{
    let key = b64 + seq![':'] + md5;
    let n = b64.len();
    crate::text::lemma_last_index_of(key, ':');
    assert(key[n as int] == ':');
    assert forall|k: int| n < k < key.len() implies key[k] != ':' by {
        assert(key[k] == md5[k - n - 1]);
        assert(is_hex(md5[k - n - 1]));
    }
    assert(last_index_of(key, ':') == Some(n as int));
    assert(key.subrange(n as int + 1, key.len() as int) =~= md5);
    assert(key.subrange(0, n as int) =~= b64);
}

/// The users a text message mentions: those asked for, then `@all` where everyone
/// is mentioned and `@all` is not among them yet.
pub open spec fn mention_list(ids: Seq<String>, at_all: bool) -> Seq<JsonV> {
    if at_all && !ids.map_values(|s: String| s@).contains("@all"@) {
        str_arr(ids).push(JsonV::Str("@all"@))
    } else {
        str_arr(ids)
    }
}

/// The robot message for content that a WeCom robot can send: text with its mentions
/// (the mobile list is `@all` where everyone is mentioned), markdown, and images by
/// their Base64 data and digest.
pub open spec fn webhook_body_v(content: MessageContent, ids: Seq<String>, at_all: bool) -> Option<JsonV> {
    match content {
        MessageContent::Text(t) => Some(
            JsonV::Obj(
                seq![
                    ("msgtype"@, JsonV::Str("text"@)),
                    (
                        "text"@,
                        JsonV::Obj(
                            seq![
                                ("content"@, JsonV::Str(t.text@)),
                                ("mentioned_list"@, JsonV::Arr(mention_list(ids, at_all))),
                                (
                                    "mentioned_mobile_list"@,
                                    JsonV::Arr(
                                        if at_all {
                                            seq![JsonV::Str("@all"@)]
                                        } else {
                                            Seq::empty()
                                        },
                                    ),
                                ),
                            ],
                        ),
                    ),
                ],
            ),
        ),
        MessageContent::Markdown(md) => Some(
            JsonV::Obj(
                seq![
                    ("msgtype"@, JsonV::Str("markdown"@)),
                    ("markdown"@, JsonV::Obj(seq![("content"@, JsonV::Str(md.text@))])),
                ],
            ),
        ),
        MessageContent::Image(img) => Some(
            JsonV::Obj(
                seq![
                    ("msgtype"@, JsonV::Str("image"@)),
                    (
                        "image"@,
                        JsonV::Obj(
                            seq![
                                ("base64"@, JsonV::Str(image_key_parts(img.media_key@).0)),
                                ("md5"@, JsonV::Str(image_key_parts(img.media_key@).1)),
                            ],
                        ),
                    ),
                ],
            ),
        ),
        _ => None,
    }
}

/// What a WeCom robot sends for each kind of content: text as a "text" message with
/// the text as its content, markdown as a "markdown" message with its text, an image
/// as an "image" message with the key's base64 and MD5 parts; nothing else.
pub proof fn law_webhook_kinds(c: MessageContent, ids: Seq<String>, at_all: bool)
    ensures
        c matches MessageContent::Text(t) ==> (webhook_body_v(c, ids, at_all) matches Some(b) && b is Obj
            && b->Obj_0[0] == ("msgtype"@, JsonV::Str("text"@)) && b->Obj_0[1].0 == "text"@
            && b->Obj_0[1].1 is Obj && b->Obj_0[1].1->Obj_0[0] == ("content"@, JsonV::Str(t.text@))),
        c matches MessageContent::Markdown(m) ==> webhook_body_v(c, ids, at_all) == Some(
            JsonV::Obj(
                seq![
                    ("msgtype"@, JsonV::Str("markdown"@)),
                    ("markdown"@, JsonV::Obj(seq![("content"@, JsonV::Str(m.text@))])),
                ],
            ),
        ),
        c matches MessageContent::Image(i) ==> webhook_body_v(c, ids, at_all) == Some(
            JsonV::Obj(
                seq![
                    ("msgtype"@, JsonV::Str("image"@)),
                    (
                        "image"@,
                        JsonV::Obj(
                            seq![
                                ("base64"@, JsonV::Str(image_key_parts(i.media_key@).0)),
                                ("md5"@, JsonV::Str(image_key_parts(i.media_key@).1)),
                            ],
                        ),
                    ),
                ],
            ),
        ),
        (webhook_body_v(c, ids, at_all) is Some) <==> (c is Text || c is Markdown || c is Image),
{
}

/// Whether `ids` holds `@all`.
fn mentions_all(ids: &Vec<String>) -> (r: bool)
    ensures
        r == ids@.map_values(|s: String| s@).contains("@all"@),
{
    let mut i: usize = 0;
    while i < ids.len()
        invariant
            i <= ids@.len(),
            forall|k: int| 0 <= k < i ==> ids@[k]@ != "@all"@,
        decreases ids@.len() - i,
    {
        if crate::text::str_eq(ids[i].as_str(), "@all") {
            assert(ids@.map_values(|s: String| s@)[i as int] == "@all"@);
            return true;
        }
        i = i + 1;
    }
    proof {
        let vs = ids@.map_values(|s: String| s@);
        if vs.contains("@all"@) {
            let k = choose|k: int| 0 <= k < vs.len() && #[trigger] vs[k] == "@all"@;
            assert(ids@[k]@ == "@all"@);
        }
    }
    false
}

fn mention_json(ids: &Vec<String>, at_all: bool) -> (r: Json)
    ensures
        r@ == JsonV::Arr(mention_list(ids@, at_all)),
{
    broadcast use crate::json::group_json;

    let base = crate::json::jstrs(ids);
    if at_all && !mentions_all(ids) {
        match base {
            Json::Arr(mut v) => {
                let ghost before = v@;
                let item = crate::json::jstr("@all");
                let ghost ig = item;
                v.push(item);
                proof {
                    crate::json::lemma_jv_seq_push(before, ig);
                }
                Json::Arr(v)
            },
            other => other,
        }
    } else {
        base
    }
}

/// The robot message for the request's content; other content cannot be sent.
pub fn build_webhook_body(req: &WebhookMessageRequest) -> (r: Result<Json, ImError>)
    ensures
        webhook_body_v(req.content, req.at_user_ids@, req.at_all) matches Some(b) ==> (r matches Ok(
            j,
        ) && j@ == b),
        webhook_body_v(req.content, req.at_user_ids@, req.at_all) is None ==> (r matches Err(
            ImError::NotSupported { platform: p, .. },
        ) && p@ == "wecom"@),
{
    broadcast use crate::json::group_json;

    match &req.content {
        MessageContent::Text(t) => {
            let mentioned = mention_json(&req.at_user_ids, req.at_all);
            let mut mobiles: Vec<Json> = Vec::new();
            if req.at_all {
                mobiles.push(crate::json::jstr("@all"));
                proof {
                    assert(crate::json::jv_seq(mobiles@) =~= seq![JsonV::Str("@all"@)]) by {
                        crate::json::lemma_jv_seq_push(Seq::empty(), mobiles@[0]);
                        assert(mobiles@ =~= Seq::<Json>::empty().push(mobiles@[0]));
                    }
                }
            }
            let mut inner: Vec<(String, Json)> = Vec::new();
            crate::json::put(&mut inner, "content", Json::Str(t.text.clone()));
            crate::json::put(&mut inner, "mentioned_list", mentioned);
            crate::json::put(&mut inner, "mentioned_mobile_list", Json::Arr(mobiles));
            let ghost want = webhook_body_v(req.content, req.at_user_ids@, req.at_all)->Some_0;
            assert(crate::json::jv_members(inner@) =~= want->Obj_0[1].1->Obj_0);
            Ok(crate::json::obj2("msgtype", crate::json::jstr("text"), "text", Json::Obj(inner)))
        },
        MessageContent::Markdown(md) => Ok(
            crate::json::obj2(
                "msgtype",
                crate::json::jstr("markdown"),
                "markdown",
                crate::json::obj1("content", Json::Str(md.text.clone())),
            ),
        ),
        MessageContent::Image(img) => {
            let (b64, md5) = parse_image_key(img.media_key.as_str());
            Ok(
                crate::json::obj2(
                    "msgtype",
                    crate::json::jstr("image"),
                    "image",
                    crate::json::obj2("base64", Json::Str(b64), "md5", Json::Str(md5)),
                ),
            )
        },
        _ => Err(
            ImError::NotSupported {
                feature: crate::model::kind_text("webhook message type: ", &req.content),
                platform: "wecom".to_string(),
            },
        ),
    }
}

/// Where everyone is mentioned, `@all` is on the mention list, and exactly once more
/// than the user ids hold it.
pub proof fn law_at_all_mentioned(ids: Seq<String>)
    ensures
        mention_list(ids, true).contains(JsonV::Str("@all"@)),
        !ids.map_values(|s: String| s@).contains("@all"@) ==> mention_list(ids, true).len()
            == ids.len() + 1,
        ids.map_values(|s: String| s@).contains("@all"@) ==> mention_list(ids, true).len()
            == ids.len(),
        mention_list(ids, false) == str_arr(ids),
{
    crate::json::lemma_str_arr(ids);
    let vs = ids.map_values(|s: String| s@);
    if vs.contains("@all"@) {
        let k = choose|k: int| 0 <= k < vs.len() && #[trigger] vs[k] == "@all"@;
        assert(mention_list(ids, true)[k] == JsonV::Str("@all"@));
    } else {
        let m = mention_list(ids, true);
        assert(m[ids.len() as int] == JsonV::Str("@all"@));
    }
}

/// The POST of a robot message to the robot's URL.
pub fn send_webhook_request(client: &WeComClient, req: &WebhookMessageRequest) -> (r: Result<
    HttpRequest,
    ImError,
>)
    ensures
        webhook_body_v(req.content, req.at_user_ids@, req.at_all) matches Some(b) ==> (r matches Ok(
            q,
        ) && q.method == Method::Post && q.url@ == req.webhook_url@ && q.headers@.len() == 0 && (
        q.body matches Some(x) && x@ == b)),
        webhook_body_v(req.content, req.at_user_ids@, req.at_all) is None ==> (r matches Err(
            ImError::NotSupported { .. },
        )),
{
    let body = build_webhook_body(req)?;
    let q = client.post_no_auth(req.webhook_url.as_str(), body);
    Ok(q)
}

/// The reading of a robot's reply given its `errcode` and `errmsg`: a missing code
/// counts as a failure (-1), a missing message as empty.
pub fn webhook_outcome(errcode: Option<i64>, errmsg: Option<String>, text: String) -> (r:
    WebhookMessageResponse)
    ensures
        ({
            let code = match errcode {
                Some(c) => c,
                None => -1i64,
            };
            &&& r.success == (code == 0)
            &&& r.success ==> r.error_code is None && r.error_message is None
            &&& !r.success ==> r.error_code == Some(code) && (r.error_message matches Some(m)
                && m@ == crate::text::or_empty(errmsg))
            &&& r.extra@ == JsonV::Unparsed(text@)
        }),
{
    let code = match errcode {
        Some(c) => c,
        None => -1,
    };
    if code != 0 {
        WebhookMessageResponse {
            success: false,
            error_code: Some(code),
            error_message: Some(crate::text::unwrap_or_empty(errmsg)),
            extra: Json::Unparsed(text),
        }
    } else {
        WebhookMessageResponse {
            success: true,
            error_code: None,
            error_message: None,
            extra: Json::Unparsed(text),
        }
    }
}

/// Reads a robot's reply: a reply that is not JSON is a serialization error.
pub fn webhook_reply(text: String) -> (r: Result<WebhookMessageResponse, ImError>)
    ensures
        json_text_error(text@) matches Some(e) ==> (r matches Err(ImError::Serialization(m)) && m@
            == e),
        json_text_error(text@) is None ==> (r matches Ok(resp) && {
            let code = match text_i64_member(text@, "errcode"@) {
                Some(c) => c,
                None => -1i64,
            };
            &&& resp.success == (code == 0)
            &&& !resp.success ==> resp.error_code == Some(code) && (resp.error_message matches Some(
                m,
            ) && m@ == match text_str_member(text@, "errmsg"@) {
                Some(s) => s,
                None => Seq::<char>::empty(),
            })
            &&& resp.extra@ == JsonV::Unparsed(text@)
        }),
{
    match crate::json::json_check(text.as_str()) {
        Err(e) => Err(ImError::Serialization(e)),
        Ok(_) => {
            let code = crate::json::i64_member_of(text.as_str(), "errcode");
            let msg = crate::json::str_member_of(text.as_str(), "errmsg");
            Ok(webhook_outcome(code, msg, text))
        },
    }
}

} // verus!
