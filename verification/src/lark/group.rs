//! Lark group chats: creation, search, lookup and members.

use crate::http::{HttpRequest, Method};
use crate::json::{jv_members, opt_str_v, put, str_arr, Json, JsonV};
use crate::lark::client::{authed_result, LarkClient};
use crate::model::{
    CreateGroupRequest, GroupChat, GroupMember, ImError, MemberRole, ModifyMembersRequest, Page,
    SearchGroupRequest,
};
use crate::text::{count_or, opt_param, or_empty};
use vstd::prelude::*;

verus! {

/// The body of a new group: its name, description and members.
pub open spec fn create_body_v(req: CreateGroupRequest) -> JsonV {
    JsonV::Obj(
        seq![
            ("name"@, JsonV::Str(req.name@)),
            ("description"@, opt_str_v(req.description)),
            ("user_id_list"@, JsonV::Arr(str_arr(req.member_ids@))),
        ],
    )
}

pub fn create_group_request(client: &LarkClient, req: &CreateGroupRequest) -> (r: Result<
    HttpRequest,
    ImError,
>)
    ensures
        authed_result(*client, r, Method::Post, "/open-apis/im/v1/chats?user_id_type=open_id"@, Some(create_body_v(*req))),
{
    broadcast use crate::json::group_json;

    let mut m: Vec<(String, Json)> = Vec::new();
    put(&mut m, "name", Json::Str(req.name.clone()));
    put(&mut m, "description", crate::json::jopt(req.description.clone()));
    put(&mut m, "user_id_list", crate::json::jstrs(&req.member_ids));
    assert(jv_members(m@) =~= create_body_v(*req)->Obj_0);
    client.post("/open-apis/im/v1/chats?user_id_type=open_id", Json::Obj(m))
}

/// The group created: the id the reply gives (empty where none), as asked for, with
/// as many members as were asked for.
pub fn created_group(req: CreateGroupRequest, chat_id: Option<String>) -> (r: GroupChat)
    ensures
        r.id@ == or_empty(chat_id),
        r.name == req.name,
        r.owner_id is None,
        r.member_count == Some(req.member_ids@.len() as u32),
        r.description == req.description,
        r.extra@ == JsonV::Null,
{
    let n = req.member_ids.len() as u32;
    GroupChat {
        id: crate::text::unwrap_or_empty(chat_id),
        name: req.name,
        owner_id: None,
        member_count: Some(n),
        description: req.description,
        extra: Json::Null,
    }
}

/// The body of a group search: the keyword, the page size (20 by default) and the
/// cursor (empty by default).
pub open spec fn search_body_v(req: SearchGroupRequest) -> JsonV {
    JsonV::Obj(
        seq![
            ("query"@, JsonV::Str(req.keyword@)),
            ("page_size"@, JsonV::Int(count_or(req.limit, 20))),
            ("page_token"@, JsonV::Str(or_empty(req.cursor))),
        ],
    )
}

pub fn search_groups_request(client: &LarkClient, req: &SearchGroupRequest) -> (r: Result<
    HttpRequest,
    ImError,
>)
    ensures
        authed_result(
            *client,
            r,
            Method::Post,
            "/open-apis/im/v2/chats/search?user_id_type=open_id"@,
            Some(search_body_v(*req)),
        ),
{
    broadcast use crate::json::group_json;

    let limit: u32 = match req.limit {
        Some(l) => l,
        None => 20,
    };
    let mut m: Vec<(String, Json)> = Vec::new();
    put(&mut m, "query", Json::Str(req.keyword.clone()));
    put(&mut m, "page_size", Json::Int(limit as i64));
    put(&mut m, "page_token", Json::Str(crate::text::unwrap_or_empty(req.cursor.clone())));
    assert(jv_members(m@) =~= search_body_v(*req)->Obj_0);
    client.post("/open-apis/im/v2/chats/search?user_id_type=open_id", Json::Obj(m))
}

/// A chat as Lark gives it.
pub struct LarkChat {
    pub chat_id: Option<String>,
    pub name: Option<String>,
    pub owner_id: Option<String>,
    pub description: Option<String>,
    pub member_count: Option<u32>,
}

pub open spec fn is_group_of(r: GroupChat, c: LarkChat) -> bool {
    r.id@ == or_empty(c.chat_id) && r.name@ == or_empty(c.name) && r.owner_id == c.owner_id
        && r.member_count == c.member_count && r.description == c.description && r.extra@
        == JsonV::Null
}

pub fn group_from_lark(c: LarkChat) -> (r: GroupChat)
    ensures
        is_group_of(r, c),
{
    GroupChat {
        id: crate::text::unwrap_or_empty(c.chat_id),
        name: crate::text::unwrap_or_empty(c.name),
        owner_id: c.owner_id,
        member_count: c.member_count,
        description: c.description,
        extra: Json::Null,
    }
}

/// A page of groups from the reply's items.
pub fn groups_page(items: Vec<LarkChat>, has_more: Option<bool>, page_token: Option<String>) -> (r: Page<
    GroupChat,
>)
    ensures
        r.items@.len() == items@.len(),
        forall|i: int| 0 <= i < items@.len() ==> is_group_of(#[trigger] r.items@[i], items@[i]),
        r.has_more == (has_more == Some(true)),
        r.next_cursor == page_token,
{
    let mut out: Vec<GroupChat> = Vec::new();
    let ghost all = items@;
    for c in it: items.into_iter()
        invariant
            it.seq() == all,
            out@.len() == it.index(),
            forall|k: int| 0 <= k < out@.len() ==> is_group_of(#[trigger] out@[k], all[k]),
    {
        out.push(group_from_lark(c));
    }
    let more = match has_more {
        Some(b) => b,
        None => false,
    };
    Page { items: out, has_more: more, next_cursor: page_token }
}

/// The path of one group.
pub fn group_path(chat_id: &str) -> (r: String)
    ensures
        r@ == "/open-apis/im/v1/chats/"@ + chat_id@ + "?user_id_type=open_id"@,
{
    let mut p = crate::text::lit("/open-apis/im/v1/chats/");
    crate::text::push_str(&mut p, chat_id);
    crate::text::push_str(&mut p, "?user_id_type=open_id");
    p
}

/// The path of a group's members, with the cursor where given.
pub fn members_path(chat_id: &str, cursor: &Option<String>) -> (r: String)
    ensures
        r@ == "/open-apis/im/v1/chats/"@ + chat_id@ + "/members?member_id_type=open_id"@ + opt_param(
            "&page_token="@,
            *cursor,
        ),
{
    let mut p = crate::text::lit("/open-apis/im/v1/chats/");
    crate::text::push_str(&mut p, chat_id);
    crate::text::push_str(&mut p, "/members?member_id_type=open_id");
    crate::text::push_opt(&mut p, "&page_token=", cursor);
    p
}

/// A member as Lark gives it.
pub struct LarkMember {
    pub member_id: Option<String>,
    pub name: Option<String>,
}

/// A page of members from the reply's items; Lark gives no roles, so each is a member.
pub fn members_page(items: Vec<LarkMember>, has_more: Option<bool>, page_token: Option<String>) -> (r:
    Page<GroupMember>)
    ensures
        r.items@.len() == items@.len(),
        forall|i: int|
            0 <= i < items@.len() ==> (#[trigger] r.items@[i]).user_id@ == or_empty(items@[i].member_id)
                && r.items@[i].name == items@[i].name && r.items@[i].role == MemberRole::Member,
        r.has_more == (has_more == Some(true)),
        r.next_cursor == page_token,
{
    let mut out: Vec<GroupMember> = Vec::new();
    let ghost all = items@;
    for m in it: items.into_iter()
        invariant
            it.seq() == all,
            out@.len() == it.index(),
            forall|k: int|
                0 <= k < out@.len() ==> (#[trigger] out@[k]).user_id@ == or_empty(all[k].member_id)
                    && out@[k].name == all[k].name && out@[k].role == MemberRole::Member,
    {
        out.push(
            GroupMember { user_id: crate::text::unwrap_or_empty(m.member_id), name: m.name, role: MemberRole::Member },
        );
    }
    let more = match has_more {
        Some(b) => b,
        None => false,
    };
    Page { items: out, has_more: more, next_cursor: page_token }
}

/// The request that adds members to a group.
pub fn add_members_request(client: &LarkClient, req: &ModifyMembersRequest) -> (r: Result<
    HttpRequest,
    ImError,
>)
    ensures
        authed_result(
            *client,
            r,
            Method::Post,
            "/open-apis/im/v1/chats/"@ + req.chat_id@ + "/members?member_id_type=open_id"@,
            Some(JsonV::Obj(seq![("id_list"@, JsonV::Arr(str_arr(req.user_ids@)))])),
        ),
{
    let p = members_path(req.chat_id.as_str(), &None);
    client.post(p.as_str(), crate::json::obj1("id_list", crate::json::jstrs(&req.user_ids)))
}

/// The request that removes members from a group: a DELETE of the members path, which
/// carries no body.
pub fn remove_members_request(client: &LarkClient, req: &ModifyMembersRequest) -> (r: Result<
    HttpRequest,
    ImError,
>)
    ensures
        authed_result(
            *client,
            r,
            Method::Delete,
            "/open-apis/im/v1/chats/"@ + req.chat_id@ + "/members?member_id_type=open_id"@,
            None,
        ),
{
    let p = members_path(req.chat_id.as_str(), &None);
    client.delete(p.as_str())
}

} // verus!
