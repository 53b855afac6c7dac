//! Lark contacts and conversations: users, the current user, searches and chats.

use crate::http::{HttpRequest, Method};
use crate::json::{Json, JsonV};
use crate::lark::client::{authed_result, LarkClient};
use crate::model::{
    Conversation, ConversationType, Department, ImError, ListConversationsRequest, Page,
    SearchUserRequest, User,
};
use crate::text::{opt_num_param, opt_param, opt_view, or_empty};
use vstd::prelude::*;

verus! {

/// The listing path of the user's chats.
pub open spec fn chats_path_v(req: ListConversationsRequest) -> Seq<char> {
    "/open-apis/im/v1/chats?user_id_type=open_id"@ + opt_param("&page_token="@, req.cursor)
        + opt_num_param("&page_size="@, req.limit)
}

pub fn chats_path(req: &ListConversationsRequest) -> (r: String)
    ensures
        r@ == chats_path_v(*req),
{
    let mut p = crate::text::lit("/open-apis/im/v1/chats?user_id_type=open_id");
    crate::text::push_opt(&mut p, "&page_token=", &req.cursor);
    crate::text::push_opt_num(&mut p, "&page_size=", req.limit);
    p
}

/// A chat as Lark gives it.
pub struct LarkChat {
    pub chat_id: Option<String>,
    pub name: Option<String>,
    pub chat_type: Option<String>,
}

/// The kind of a Lark chat: `p2p` is direct, `group` a group, anything else unknown.
pub open spec fn chat_kind(t: Option<String>) -> ConversationType {
    match opt_view(t) {
        Some(s) => if s == "p2p"@ {
            ConversationType::Direct
        } else if s == "group"@ {
            ConversationType::Group
        } else {
            ConversationType::Unknown
        },
        None => ConversationType::Unknown,
    }
}

/// How Lark's chat modes read: "p2p" as a direct chat and "group" as a group, each
/// from that text alone; any other mode, or none, is unknown.
pub proof fn law_chat_kind_texts(t: Option<String>)
    ensures
        (chat_kind(t) == ConversationType::Direct) <==> opt_view(t) == Some("p2p"@),
        (chat_kind(t) == ConversationType::Group) <==> opt_view(t) == Some("group"@),
        (chat_kind(t) == ConversationType::Unknown) <==> !(opt_view(t) == Some("p2p"@) || opt_view(t)
            == Some("group"@)),
{
    reveal_strlit("p2p");
    reveal_strlit("group");
    assert("p2p"@.len() == 3 && "group"@.len() == 5);
}

pub open spec fn is_conversation_of(r: Conversation, c: LarkChat) -> bool {
    r.chat_id@ == or_empty(c.chat_id) && r.name@ == or_empty(c.name) && r.chat_type == chat_kind(
        c.chat_type,
    ) && r.last_message_time is None && r.message_count is None && r.unread_count is None
        && r.extra@ == JsonV::Null
}

/// A page of conversations from the reply's chats.
pub fn conversations_page(items: Vec<LarkChat>, has_more: Option<bool>, page_token: Option<String>) -> (r:
    Page<Conversation>)
    ensures
        r.items@.len() == items@.len(),
        forall|i: int| 0 <= i < items@.len() ==> is_conversation_of(#[trigger] r.items@[i], items@[i]),
        r.has_more == (has_more == Some(true)),
        r.next_cursor == page_token,
{
    let mut out: Vec<Conversation> = Vec::new();
    let ghost all = items@;
    for c in it: items.into_iter()
        invariant
            it.seq() == all,
            out@.len() == it.index(),
            forall|k: int| 0 <= k < out@.len() ==> is_conversation_of(#[trigger] out@[k], all[k]),
    {
        let kind = match &c.chat_type {
            Some(t) => if crate::text::str_eq(t.as_str(), "p2p") {
                ConversationType::Direct
            } else if crate::text::str_eq(t.as_str(), "group") {
                ConversationType::Group
            } else {
                ConversationType::Unknown
            },
            None => ConversationType::Unknown,
        };
        out.push(
            Conversation {
                chat_id: crate::text::unwrap_or_empty(c.chat_id),
                name: crate::text::unwrap_or_empty(c.name),
                chat_type: kind,
                last_message_time: None,
                message_count: None,
                unread_count: None,
                extra: Json::Null,
            },
        );
    }
    let more = match has_more {
        Some(b) => b,
        None => false,
    };
    Page { items: out, has_more: more, next_cursor: page_token }
}

/// The current user as Lark's user info gives it.
pub struct UserInfoData {
    pub user_id: Option<String>,
    pub name: Option<String>,
    pub email: Option<String>,
    pub mobile: Option<String>,
    pub avatar_url: Option<String>,
}

/// The current user: a reply without data is an internal error "empty user data".
pub fn self_from_info(data: Option<UserInfoData>) -> (r: Result<User, ImError>)
    ensures
        data is None ==> (r matches Err(ImError::Internal(m)) && m@ == "empty user data"@),
        data matches Some(u) ==> (r matches Ok(x) && x.id@ == or_empty(u.user_id) && x.name@
            == or_empty(u.name) && x.email == u.email && x.phone == u.mobile && x.avatar
            == u.avatar_url && x.departments@.len() == 0 && x.extra@ == JsonV::Null),
{
    match data {
        Some(u) => Ok(
            User {
                id: crate::text::unwrap_or_empty(u.user_id),
                name: crate::text::unwrap_or_empty(u.name),
                email: u.email,
                phone: u.mobile,
                avatar: u.avatar_url,
                departments: Vec::new(),
                extra: Json::Null,
            },
        ),
        None => Err(ImError::Internal("empty user data".to_string())),
    }
}

/// A user as Lark gives it.
pub struct LarkUser {
    pub user_id: Option<String>,
    pub open_id: Option<String>,
    pub name: Option<String>,
    pub email: Option<String>,
    pub mobile: Option<String>,
    pub avatar_72: Option<String>,
    pub department_ids: Vec<String>,
}

/// What a Lark user says of a user: its open id (else user id), its departments by
/// id only.
pub open spec fn is_user_of(r: User, u: LarkUser) -> bool {
    &&& r.id@ == match u.open_id {
        Some(o) => o@,
        None => or_empty(u.user_id),
    }
    &&& r.name@ == or_empty(u.name)
    &&& r.email == u.email
    &&& r.phone == u.mobile
    &&& r.avatar == u.avatar_72
    &&& r.departments@.len() == u.department_ids@.len()
    &&& forall|i: int|
        0 <= i < u.department_ids@.len() ==> (#[trigger] r.departments@[i]).id == u.department_ids@[i]
            && r.departments@[i].name@ == Seq::<char>::empty() && r.departments@[i].parent_id is None
    &&& r.extra@ == JsonV::Null
}

pub fn user_from_lark(u: LarkUser) -> (r: User)
    ensures
        is_user_of(r, u),
{
    let id = match u.open_id {
        Some(o) => o,
        None => crate::text::unwrap_or_empty(u.user_id),
    };
    let mut departments: Vec<Department> = Vec::new();
    let ghost all = u.department_ids@;
    for d in it: u.department_ids.into_iter()
        invariant
            it.seq() == all,
            departments@.len() == it.index(),
            forall|k: int|
                0 <= k < departments@.len() ==> (#[trigger] departments@[k]).id == all[k]
                    && departments@[k].name@ == Seq::<char>::empty() && departments@[k].parent_id is None,
    {
        departments.push(Department { id: d, name: String::new(), parent_id: None });
    }
    User {
        id,
        name: crate::text::unwrap_or_empty(u.name),
        email: u.email,
        phone: u.mobile,
        avatar: u.avatar_72,
        departments,
        extra: Json::Null,
    }
}

pub fn users_from_lark(items: Vec<LarkUser>) -> (r: Vec<User>)
    ensures
        r@.len() == items@.len(),
        forall|i: int| 0 <= i < items@.len() ==> is_user_of(#[trigger] r@[i], items@[i]),
{
    let mut out: Vec<User> = Vec::new();
    let ghost all = items@;
    for u in it: items.into_iter()
        invariant
            it.seq() == all,
            out@.len() == it.index(),
            forall|k: int| 0 <= k < out@.len() ==> is_user_of(#[trigger] out@[k], all[k]),
    {
        out.push(user_from_lark(u));
    }
    out
}

/// The body of a user search: the keyword, the page size (20 by default) and the
/// cursor (empty by default).
pub open spec fn search_body_v(req: SearchUserRequest) -> JsonV {
    JsonV::Obj(
        seq![
            ("query"@, JsonV::Str(req.keyword@)),
            ("page_size"@, JsonV::Int(crate::text::count_or(req.limit, 20))),
            ("page_token"@, JsonV::Str(or_empty(req.cursor))),
        ],
    )
}

pub fn search_users_request(client: &LarkClient, req: &SearchUserRequest) -> (r: Result<
    HttpRequest,
    ImError,
>)
    ensures
        authed_result(*client, r, Method::Post, "/open-apis/search/v1/user"@, Some(search_body_v(*req))),
{
    broadcast use crate::json::group_json;

    let limit: u32 = match req.limit {
        Some(l) => l,
        None => 20,
    };
    let mut m: Vec<(String, Json)> = Vec::new();
    crate::json::put(&mut m, "query", Json::Str(req.keyword.clone()));
    crate::json::put(&mut m, "page_size", Json::Int(limit as i64));
    crate::json::put(&mut m, "page_token", Json::Str(crate::text::unwrap_or_empty(req.cursor.clone())));
    assert(crate::json::jv_members(m@) =~= search_body_v(*req)->Obj_0);
    client.post("/open-apis/search/v1/user", Json::Obj(m))
}

/// The path that looks a user up by open id.
pub fn user_path(id: &str) -> (r: String)
    ensures
        r@ == "/open-apis/contact/v3/users/"@ + id@ + "?user_id_type=open_id"@,
{
    let mut p = crate::text::lit("/open-apis/contact/v3/users/");
    crate::text::push_str(&mut p, id);
    crate::text::push_str(&mut p, "?user_id_type=open_id");
    p
}

} // verus!
