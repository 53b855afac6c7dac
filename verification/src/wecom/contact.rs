//! WeCom contacts: the visible users; lookups WeCom does not offer.

use crate::http::{HttpRequest, Method};
use crate::json::{Json, JsonV};
use crate::model::{ImError, Page, User};
use crate::text::or_empty;
use crate::wecom::client::{env_part, reply_ok, token_result, unit_part, WeComClient, WeComEnvelope};
use vstd::prelude::*;

verus! {

/// A user as WeCom's contact list gives it.
pub struct WcUser {
    pub userid: Option<String>,
    pub name: Option<String>,
    pub alias: Option<String>,
}

/// A listed user: the alias, where there is one, as `{"alias": ..}` in the extra data.
pub open spec fn is_user_of(r: User, u: WcUser) -> bool {
    &&& r.id@ == or_empty(u.userid)
    &&& r.name@ == or_empty(u.name)
    &&& r.email is None
    &&& r.phone is None
    &&& r.avatar is None
    &&& r.departments@.len() == 0
    &&& r.extra@ == match u.alias {
        Some(a) => JsonV::Obj(seq![("alias"@, JsonV::Str(a@))]),
        None => JsonV::Null,
    }
}

pub fn user_from_wc(u: WcUser) -> (r: User)
    ensures
        is_user_of(r, u),
{
    let extra = match u.alias {
        Some(a) => crate::json::obj1("alias", Json::Str(a)),
        None => Json::Null,
    };
    User {
        id: crate::text::unwrap_or_empty(u.userid),
        name: crate::text::unwrap_or_empty(u.name),
        email: None,
        phone: None,
        avatar: None,
        departments: Vec::new(),
        extra,
    }
}

/// WeCom has no lookup of the calling user.
pub fn get_self_unsupported() -> (e: ImError)
    ensures
        e matches ImError::NotSupported { feature: f, platform: p } && f@
            == "get_self (use contact list instead)"@ && p@ == "wecom"@,
{
    crate::http::not_supported("get_self (use contact list instead)", "wecom")
}

/// WeCom has no lookup of several users at once.
pub fn get_users_unsupported() -> (e: ImError)
    ensures
        e matches ImError::NotSupported { feature: f, platform: p } && f@ == "batch get_users"@ && p@
            == "wecom"@,
{
    crate::http::not_supported("batch get_users", "wecom")
}

/// A user search lists every visible user: the keyword is not sent, and the body is
/// empty.
pub fn search_users_request(client: &WeComClient) -> (r: Result<HttpRequest, ImError>)
    ensures
        token_result(*client, r, Method::Post, "/cgi-bin/user/list"@, Some(JsonV::Obj(Seq::empty()))),
{
    broadcast use crate::json::group_json;

    let m: Vec<(String, Json)> = Vec::new();
    client.post("/cgi-bin/user/list", Json::Obj(m))
}

/// The reading of the user list's reply: one final page of every listed user.
pub fn users_reply(status: u16, text: String, parsed: Result<(WeComEnvelope, Vec<WcUser>), String>) -> (r:
    Result<Page<User>, ImError>)
    ensures
        reply_ok(status, text@, env_part(parsed), unit_part(r)),
        r matches Ok(p) ==> (parsed matches Ok(d) && p.items@.len() == d.1@.len() && (forall|i: int|
            0 <= i < d.1@.len() ==> is_user_of(#[trigger] p.items@[i], d.1@[i])) && !p.has_more
            && p.next_cursor is None),
{
    let users = crate::wecom::client::check_reply_with(status, &text, parsed)?;
    let mut out: Vec<User> = Vec::new();
    let ghost all = users@;
    for u in it: users.into_iter()
        invariant
            it.seq() == all,
            out@.len() == it.index(),
            forall|k: int| 0 <= k < out@.len() ==> is_user_of(#[trigger] out@[k], all[k]),
    {
        out.push(user_from_wc(u));
    }
    Ok(Page { items: out, has_more: false, next_cursor: None })
}

} // verus!
