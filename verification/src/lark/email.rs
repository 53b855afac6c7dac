//! Lark mail: sending (a draft, then its send), listing and reading messages.

use crate::http::{code_of, HttpRequest, Method};
use crate::json::{jv_members, jv_seq, opt_str_v, put, Json, JsonV};
use crate::lark::client::{authed_result, LarkClient};
use crate::lark::messaging::{check_envelope, LarkEnvelope};
use crate::model::{Email, EmailAddress, EmailBody, ImError, Mailbox, Page, SendEmailRequest};
use crate::text::{dec_nat, opt_view, or_empty, or_text, parse_i64_spec};
use crate::time::secs_representable;
use vstd::prelude::*;

verus! {

/// A listing of the current user's messages.
pub struct ListEmailsRequest {
    pub cursor: Option<String>,
    pub limit: Option<u32>,
}

/// The path of the current user's messages.
pub open spec fn messages_path() -> Seq<char> {
    "/open-apis/mail/v1/user_mailboxes/me/messages"@
}

/// An address as Lark takes it.
pub open spec fn address_v(a: EmailAddress) -> JsonV {
    JsonV::Obj(seq![("mail_address"@, JsonV::Str(a.address@)), ("name"@, opt_str_v(a.name))])
}

pub open spec fn addresses_v(s: Seq<EmailAddress>) -> Seq<JsonV>
    decreases s.len(),
{
    if s.len() == 0 {
        Seq::empty()
    } else {
        addresses_v(s.drop_last()).push(address_v(s.last()))
    }
}

fn address_json(a: &EmailAddress) -> (r: Json)
    ensures
        r@ == address_v(*a),
{
    crate::json::obj2(
        "mail_address",
        Json::Str(a.address.clone()),
        "name",
        crate::json::jopt(a.name.clone()),
    )
}

fn addresses_json(v: &Vec<EmailAddress>) -> (r: Json)
    ensures
        r@ == JsonV::Arr(addresses_v(v@)),
{
    broadcast use crate::json::group_json;

    let mut out: Vec<Json> = Vec::new();
    let mut i: usize = 0;
    while i < v.len()
        invariant
            i <= v@.len(),
            jv_seq(out@) == addresses_v(v@.subrange(0, i as int)),
        decreases v@.len() - i,
    {
        let a = address_json(&v[i]);
        let ghost before = out@;
        let ghost ag = a;
        out.push(a);
        proof {
            crate::json::lemma_jv_seq_push(before, ag);
            assert(out@ == before.push(ag));
            assert(v@.subrange(0, i + 1).drop_last() =~= v@.subrange(0, i as int));
            assert(v@.subrange(0, i + 1).last() == v@[i as int]);
        }
        i = i + 1;
    }
    assert(v@.subrange(0, v@.len() as int) =~= v@);
    Json::Arr(out)
}

/// The draft of a message: subject, recipients and body as given.
pub open spec fn draft_body_v(req: SendEmailRequest) -> JsonV {
    JsonV::Obj(
        seq![
            ("subject"@, JsonV::Str(req.subject@)),
            ("to"@, JsonV::Arr(addresses_v(req.to@))),
            ("cc"@, JsonV::Arr(addresses_v(req.cc@))),
            ("bcc"@, JsonV::Arr(addresses_v(req.bcc@))),
            (
                "body"@,
                JsonV::Obj(
                    seq![
                        ("content_type"@, JsonV::Str(req.body.content_type@)),
                        ("content"@, JsonV::Str(req.body.content@)),
                    ],
                ),
            ),
        ],
    )
}

/// The first step of a send: creating the draft.
pub fn send_email_draft_request(client: &LarkClient, req: &SendEmailRequest) -> (r: Result<
    HttpRequest,
    ImError,
>)
    ensures
        authed_result(*client, r, Method::Post, messages_path(), Some(draft_body_v(*req))),
{
    broadcast use crate::json::group_json;

    let mut m: Vec<(String, Json)> = Vec::new();
    put(&mut m, "subject", Json::Str(req.subject.clone()));
    put(&mut m, "to", addresses_json(&req.to));
    put(&mut m, "cc", addresses_json(&req.cc));
    put(&mut m, "bcc", addresses_json(&req.bcc));
    let body = crate::json::obj2(
        "content_type",
        Json::Str(req.body.content_type.clone()),
        "content",
        Json::Str(req.body.content.clone()),
    );
    put(&mut m, "body", body);
    assert(jv_members(m@) =~= draft_body_v(*req)->Obj_0);
    client.post("/open-apis/mail/v1/user_mailboxes/me/messages", Json::Obj(m))
}

/// The reading of the draft's reply: the id of the draft (empty where the reply
/// gives none).
pub fn send_email_draft_reply(text: String, parsed: Result<(LarkEnvelope, Option<String>), String>) -> (r:
    Result<String, ImError>)
    ensures
        parsed is Err ==> r == Err::<String, ImError>(ImError::Serialization(parsed->Err_0)),
        parsed matches Ok(p) ==> (r is Ok <==> code_of(p.0.code) == 0),
        parsed matches Ok(p) ==> (r matches Err(e) ==> (e matches ImError::Platform {
            code: c,
            message: m,
        } && c == code_of(p.0.code) && m@ == or_text(p.0.msg, text@))),
        parsed matches Ok(p) ==> (r matches Ok(id) ==> id@ == or_empty(p.1)),
{
    let (env, id) = match parsed {
        Ok(p) => p,
        Err(e) => {
            return Err(ImError::Serialization(e));
        },
    };
    check_envelope(&env, &text)?;
    Ok(crate::text::unwrap_or_empty(id))
}

/// The path that sends the draft `id`.
pub open spec fn send_path_v(id: Seq<char>) -> Seq<char> {
    messages_path() + "/"@ + id + "/send"@
}

/// The second step of a send: sending the draft `message_id`, with an empty body.
pub fn send_email_send_request(client: &LarkClient, message_id: &str) -> (r: Result<
    HttpRequest,
    ImError,
>)
    ensures
        authed_result(*client, r, Method::Post, send_path_v(message_id@), Some(JsonV::Obj(Seq::empty()))),
{
    broadcast use crate::json::group_json;

    let mut path = crate::text::lit("/open-apis/mail/v1/user_mailboxes/me/messages");
    crate::text::push_str(&mut path, "/");
    crate::text::push_str(&mut path, message_id);
    crate::text::push_str(&mut path, "/send");
    let m: Vec<(String, Json)> = Vec::new();
    client.post(path.as_str(), Json::Obj(m))
}

/// The reading of the send's reply at the instant `now`: the message as it was asked
/// for, with the draft's id, read, dated now, and no sender known.
pub fn send_email_finish(
    req: SendEmailRequest,
    message_id: String,
    text: String,
    parsed: Result<LarkEnvelope, String>,
    now: i64,
) -> (r: Result<Email, ImError>)
    ensures
        parsed is Err ==> r == Err::<Email, ImError>(ImError::Serialization(parsed->Err_0)),
        parsed matches Ok(env) ==> (r is Ok <==> code_of(env.code) == 0),
        parsed matches Ok(env) ==> (r matches Err(e) ==> (e matches ImError::Platform {
            code: c,
            message: m,
        } && c == code_of(env.code) && m@ == or_text(env.msg, text@))),
        r matches Ok(e) ==> e.id == message_id && e.subject == req.subject && e.from.address@
            == Seq::<char>::empty() && e.from.name is None && e.to == req.to && e.cc == req.cc
            && e.bcc == req.bcc && e.body == req.body && e.is_read == Some(true) && e.date == Some(
            now,
        ) && e.attachments@.len() == 0,
{
    let env = match parsed {
        Ok(env) => env,
        Err(e) => {
            return Err(ImError::Serialization(e));
        },
    };
    check_envelope(&env, &text)?;
    Ok(
        Email {
            id: message_id,
            subject: req.subject,
            from: EmailAddress { address: String::new(), name: None },
            to: req.to,
            cc: req.cc,
            bcc: req.bcc,
            body: req.body,
            is_read: Some(true),
            date: Some(now),
            attachments: Vec::new(),
        },
    )
}

/// An address as Lark gives it.
pub struct LarkEmailAddr {
    pub mail_address: Option<String>,
    pub name: Option<String>,
}

/// A body as Lark gives it.
pub struct LarkEmailBody {
    pub content_type: Option<String>,
    pub content: Option<String>,
}

/// A message as Lark gives it.
pub struct LarkEmail {
    pub message_id: Option<String>,
    pub subject: Option<String>,
    pub from: Option<LarkEmailAddr>,
    pub to: Vec<LarkEmailAddr>,
    pub cc: Vec<LarkEmailAddr>,
    pub bcc: Vec<LarkEmailAddr>,
    pub body: Option<LarkEmailBody>,
    pub is_read: Option<bool>,
    /// Decimal seconds since the epoch.
    pub date: Option<String>,
}

pub open spec fn is_address_of(r: EmailAddress, a: LarkEmailAddr) -> bool {
    r.address@ == or_empty(a.mail_address) && r.name == a.name
}

pub open spec fn are_addresses_of(r: Seq<EmailAddress>, a: Seq<LarkEmailAddr>) -> bool {
    r.len() == a.len() && forall|i: int| 0 <= i < a.len() ==> is_address_of(#[trigger] r[i], a[i])
}

/// The instant of a decimal seconds text, in milliseconds, where it is a number and
/// chrono can represent it.
pub open spec fn secs_text_instant(s: Seq<char>) -> Option<i64> {
    match parse_i64_spec(s) {
        Some(secs) => if secs_representable(secs) {
            Some((secs * 1000) as i64)
        } else {
            None
        },
        None => None,
    }
}

/// What a Lark message says of a message: a missing sender is an empty address; a
/// missing body is empty plain text, a body without a type is HTML.
pub open spec fn is_email_of(r: Email, e: LarkEmail) -> bool {
    &&& r.id@ == or_empty(e.message_id)
    &&& r.subject@ == or_empty(e.subject)
    &&& match e.from {
        Some(a) => is_address_of(r.from, a),
        None => r.from.address@ == Seq::<char>::empty() && r.from.name is None,
    }
    &&& are_addresses_of(r.to@, e.to@)
    &&& are_addresses_of(r.cc@, e.cc@)
    &&& are_addresses_of(r.bcc@, e.bcc@)
    &&& match e.body {
        Some(b) => r.body.content_type@ == or_text(b.content_type, "text/html"@)
            && r.body.content@ == or_empty(b.content),
        None => r.body.content_type@ == "text/plain"@ && r.body.content@ == Seq::<char>::empty(),
    }
    &&& r.is_read == e.is_read
    &&& r.attachments@.len() == 0
    &&& r.date == match e.date {
        Some(d) => secs_text_instant(d@),
        None => None,
    }
}

fn address_from_lark(a: LarkEmailAddr) -> (r: EmailAddress)
    ensures
        is_address_of(r, a),
{
    EmailAddress { address: crate::text::unwrap_or_empty(a.mail_address), name: a.name }
}

fn addresses_from_lark(v: Vec<LarkEmailAddr>) -> (r: Vec<EmailAddress>)
    ensures
        are_addresses_of(r@, v@),
{
    let mut out: Vec<EmailAddress> = Vec::new();
    let ghost all = v@;
    for a in it: v.into_iter()
        invariant
            it.seq() == all,
            out@.len() == it.index(),
            forall|k: int| 0 <= k < out@.len() ==> is_address_of(#[trigger] out@[k], all[k]),
    {
        out.push(address_from_lark(a));
    }
    out
}

/// The instant of a decimal seconds text.
pub fn parse_secs_text(s: &str) -> (r: Option<i64>)
    ensures
        r == secs_text_instant(s@),
{
    match crate::text::parse_i64(s) {
        Some(secs) => crate::time::from_secs(secs),
        None => None,
    }
}

/// The message of a Lark message.
pub fn email_from_lark(e: LarkEmail) -> (r: Email)
    ensures
        is_email_of(r, e),
{
    let from = match e.from {
        Some(a) => address_from_lark(a),
        None => EmailAddress { address: String::new(), name: None },
    };
    let body = match e.body {
        Some(b) => EmailBody {
            content_type: crate::text::unwrap_or_text(b.content_type, "text/html"),
            content: crate::text::unwrap_or_empty(b.content),
        },
        None => EmailBody { content_type: "text/plain".to_string(), content: String::new() },
    };
    let date = match &e.date {
        Some(d) => parse_secs_text(d.as_str()),
        None => None,
    };
    Email {
        id: crate::text::unwrap_or_empty(e.message_id),
        subject: crate::text::unwrap_or_empty(e.subject),
        from,
        to: addresses_from_lark(e.to),
        cc: addresses_from_lark(e.cc),
        bcc: addresses_from_lark(e.bcc),
        body,
        is_read: e.is_read,
        date,
        attachments: Vec::new(),
    }
}

/// The listing path: the page size (20 by default), then the cursor where given.
pub open spec fn list_emails_path_v(req: ListEmailsRequest) -> Seq<char> {
    messages_path() + "?page_size="@ + dec_nat(
        match req.limit {
            Some(l) => l as nat,
            None => 20,
        },
    ) + match req.cursor {
        Some(c) => "&page_token="@ + c@,
        None => Seq::empty(),
    }
}

pub fn list_emails_path(req: &ListEmailsRequest) -> (r: String)
    ensures
        r@ == list_emails_path_v(*req),
{
    let mut p = crate::text::lit("/open-apis/mail/v1/user_mailboxes/me/messages");
    crate::text::push_str(&mut p, "?page_size=");
    let limit: u32 = match req.limit {
        Some(l) => l,
        None => 20,
    };
    let n = crate::text::fmt_u64(limit as u64);
    crate::text::push_str(&mut p, n.as_str());
    match &req.cursor {
        Some(c) => {
            crate::text::push_str(&mut p, "&page_token=");
            crate::text::push_str(&mut p, c.as_str());
        },
        None => {},
    }
    p
}

/// A page of messages from the reply's items, `has_more` (false where absent) and
/// page token.
pub fn list_emails_page(items: Vec<LarkEmail>, has_more: Option<bool>, page_token: Option<String>) -> (r:
    Page<Email>)
    ensures
        r.items@.len() == items@.len(),
        forall|i: int| 0 <= i < items@.len() ==> is_email_of(#[trigger] r.items@[i], items@[i]),
        r.has_more == (has_more == Some(true)),
        r.next_cursor == page_token,
{
    let mut out: Vec<Email> = Vec::new();
    let ghost all = items@;
    for e in it: items.into_iter()
        invariant
            it.seq() == all,
            out@.len() == it.index(),
            forall|k: int| 0 <= k < out@.len() ==> is_email_of(#[trigger] out@[k], all[k]),
    {
        out.push(email_from_lark(e));
    }
    let more = match has_more {
        Some(b) => b,
        None => false,
    };
    Page { items: out, has_more: more, next_cursor: page_token }
}

/// The path of one message.
pub open spec fn message_path_v(id: Seq<char>) -> Seq<char> {
    messages_path() + "/"@ + id
}

pub fn message_path(id: &str) -> (r: String)
    ensures
        r@ == message_path_v(id@),
{
    let mut p = crate::text::lit("/open-apis/mail/v1/user_mailboxes/me/messages");
    crate::text::push_str(&mut p, "/");
    crate::text::push_str(&mut p, id);
    p
}

/// The reading of one message's reply: a reply without the message is "not found"
/// for `email_id`.
pub fn get_email_reply(
    email_id: &str,
    text: String,
    parsed: Result<(LarkEnvelope, Option<LarkEmail>), String>,
) -> (r: Result<Email, ImError>)
    ensures
        parsed is Err ==> r == Err::<Email, ImError>(ImError::Serialization(parsed->Err_0)),
        parsed matches Ok(p) ==> (r is Ok <==> code_of(p.0.code) == 0 && p.1 is Some),
        parsed matches Ok(p) ==> (code_of(p.0.code) != 0 ==> (r matches Err(ImError::Platform {
            code: c,
            message: m,
        }) && c == code_of(p.0.code) && m@ == or_text(p.0.msg, text@))),
        parsed matches Ok(p) ==> (code_of(p.0.code) == 0 && p.1 is None ==> (r matches Err(
            ImError::NotFound { resource: res },
        ) && res@ == email_id@)),
        parsed matches Ok(p) ==> (r matches Ok(e) ==> is_email_of(e, p.1->Some_0)),
{
    let (env, msg) = match parsed {
        Ok(p) => p,
        Err(e) => {
            return Err(ImError::Serialization(e));
        },
    };
    check_envelope(&env, &text)?;
    match msg {
        Some(m) => Ok(email_from_lark(m)),
        None => Err(ImError::NotFound { resource: email_id.to_string() }),
    }
}

/// A folder as Lark gives it.
pub struct LarkFolder {
    pub folder_id: Option<String>,
    pub name: Option<String>,
    pub total_count: Option<u32>,
    pub unread_count: Option<u32>,
}

pub open spec fn is_mailbox_of(r: Mailbox, f: LarkFolder) -> bool {
    r.id@ == or_empty(f.folder_id) && r.name@ == or_empty(f.name) && r.total_count
        == f.total_count && r.unread_count == f.unread_count
}

/// The mailboxes of the reply's folders, in order.
pub fn mailboxes_from_lark(items: Vec<LarkFolder>) -> (r: Vec<Mailbox>)
    ensures
        r@.len() == items@.len(),
        forall|i: int| 0 <= i < items@.len() ==> is_mailbox_of(#[trigger] r@[i], items@[i]),
{
    let mut out: Vec<Mailbox> = Vec::new();
    let ghost all = items@;
    for f in it: items.into_iter()
        invariant
            it.seq() == all,
            out@.len() == it.index(),
            forall|k: int| 0 <= k < out@.len() ==> is_mailbox_of(#[trigger] out@[k], all[k]),
    {
        out.push(
            Mailbox {
                id: crate::text::unwrap_or_empty(f.folder_id),
                name: crate::text::unwrap_or_empty(f.name),
                total_count: f.total_count,
                unread_count: f.unread_count,
            },
        );
    }
    out
}

/// Marks the message `email_id` as read.
pub fn mark_as_read_request(client: &LarkClient, email_id: &str) -> (r: Result<HttpRequest, ImError>)
    ensures
        authed_result(
            *client,
            r,
            Method::Patch,
            message_path_v(email_id@),
            Some(JsonV::Obj(seq![("is_read"@, JsonV::Bool(true))])),
        ),
{
    let path = message_path(email_id);
    client.patch(path.as_str(), crate::json::obj1("is_read", Json::Bool(true)))
}

} // verus!
