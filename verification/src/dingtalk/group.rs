//! DingTalk interconnection groups: creation, search, lookup and members.

use crate::dingtalk::client::DingTalkClient;
use crate::http::{HttpRequest, Method};
use crate::json::{str_arr, Json, JsonV};
use crate::model::{CreateGroupRequest, GroupChat, GroupMember, ImError, MemberRole, ModifyMembersRequest, Page};
use crate::text::or_empty;
use vstd::prelude::*;

verus! {

/// A group as DingTalk gives it.
pub struct DtGroup {
    pub open_conversation_id: Option<String>,
    pub name: Option<String>,
    pub owner_user_id: Option<String>,
    pub member_count: Option<u32>,
}

pub open spec fn is_group_of(r: GroupChat, g: DtGroup) -> bool {
    r.id@ == or_empty(g.open_conversation_id) && r.name@ == or_empty(g.name) && r.owner_id
        == g.owner_user_id && r.member_count == g.member_count && r.description is None && r.extra@
        == JsonV::Null
}

pub fn group_from_dt(g: DtGroup) -> (r: GroupChat)
    ensures
        is_group_of(r, g),
{
    GroupChat {
        id: crate::text::unwrap_or_empty(g.open_conversation_id),
        name: crate::text::unwrap_or_empty(g.name),
        owner_id: g.owner_user_id,
        member_count: g.member_count,
        description: None,
        extra: Json::Null,
    }
}

/// Whether `r` is an authenticated POST of `c` to `path` with `body`.
pub open spec fn is_post(c: DingTalkClient, r: Result<HttpRequest, ImError>, path: Seq<char>, body: JsonV) -> bool {
    &&& (r is Ok <==> c.access_token is Some)
    &&& (r matches Ok(q) ==> q.method == Method::Post && q.url@ == c.base_url@ + path && (q.body matches Some(
        b,
    ) && b@ == body))
}

/// The request that creates a group of the given members.
pub fn create_group_request(client: &DingTalkClient, req: &CreateGroupRequest) -> (r: Result<
    HttpRequest,
    ImError,
>)
    ensures
        is_post(
            *client,
            r,
            "/v1.0/im/interconnections/groups"@,
            JsonV::Obj(seq![("name"@, JsonV::Str(req.name@)), ("userIds"@, JsonV::Arr(str_arr(req.member_ids@)))]),
        ),
{
    let body = crate::json::obj2("name", Json::Str(req.name.clone()), "userIds", crate::json::jstrs(&req.member_ids));
    client.post("/v1.0/im/interconnections/groups", body)
}

/// The request that searches groups by keyword, from the cursor (empty by default).
pub fn search_groups_request(client: &DingTalkClient, keyword: &str, cursor: &Option<String>) -> (r: Result<
    HttpRequest,
    ImError,
>)
    ensures
        is_post(
            *client,
            r,
            "/v1.0/im/interconnections/groups/search"@,
            JsonV::Obj(seq![("query"@, JsonV::Str(keyword@)), ("cursor"@, JsonV::Str(or_empty(*cursor)))]),
        ),
{
    let body = crate::json::obj2(
        "query",
        crate::json::jstr(keyword),
        "cursor",
        Json::Str(crate::text::unwrap_or_empty(cursor.clone())),
    );
    client.post("/v1.0/im/interconnections/groups/search", body)
}

/// A page of groups: more exactly where there is a next cursor.
pub fn groups_page(records: Vec<DtGroup>, next_cursor: Option<String>) -> (r: Page<GroupChat>)
    ensures
        r.items@.len() == records@.len(),
        forall|i: int| 0 <= i < records@.len() ==> is_group_of(#[trigger] r.items@[i], records@[i]),
        r.has_more == next_cursor is Some,
        r.next_cursor == next_cursor,
{
    let mut out: Vec<GroupChat> = Vec::new();
    let ghost all = records@;
    for g in it: records.into_iter()
        invariant
            it.seq() == all,
            out@.len() == it.index(),
            forall|k: int| 0 <= k < out@.len() ==> is_group_of(#[trigger] out@[k], all[k]),
    {
        out.push(group_from_dt(g));
    }
    Page { has_more: next_cursor.is_some(), items: out, next_cursor }
}

/// The path of one group.
pub fn group_path(chat_id: &str) -> (r: String)
    ensures
        r@ == "/v1.0/im/interconnections/groups/"@ + chat_id@,
{
    crate::text::concat2("/v1.0/im/interconnections/groups/", chat_id)
}

/// The request of a group's members, from the cursor (empty by default).
pub fn members_request(client: &DingTalkClient, chat_id: &str, cursor: &Option<String>) -> (r: Result<
    HttpRequest,
    ImError,
>)
    ensures
        is_post(
            *client,
            r,
            "/v1.0/im/interconnections/groups/members"@,
            JsonV::Obj(
                seq![("openConversationId"@, JsonV::Str(chat_id@)), ("cursor"@, JsonV::Str(or_empty(*cursor)))],
            ),
        ),
{
    let body = crate::json::obj2(
        "openConversationId",
        crate::json::jstr(chat_id),
        "cursor",
        Json::Str(crate::text::unwrap_or_empty(cursor.clone())),
    );
    client.post("/v1.0/im/interconnections/groups/members", body)
}

/// The member ids that are strings, in order.
pub open spec fn string_ids(s: Seq<Option<String>>) -> Seq<String>
    decreases s.len(),
{
    if s.len() == 0 {
        Seq::empty()
    } else {
        match s.last() {
            Some(id) => string_ids(s.drop_last()).push(id),
            None => string_ids(s.drop_last()),
        }
    }
}

/// A page of members from the reply's member ids (those that are strings; DingTalk
/// gives no names or roles): more exactly where there is a next cursor.
pub fn members_page(member_ids: Vec<Option<String>>, next_cursor: Option<String>) -> (r: Page<GroupMember>)
    ensures
        r.items@.len() == string_ids(member_ids@).len(),
        forall|i: int|
            0 <= i < r.items@.len() ==> (#[trigger] r.items@[i]).user_id == string_ids(member_ids@)[i]
                && r.items@[i].name is None && r.items@[i].role == MemberRole::Member,
        r.has_more == next_cursor is Some,
        r.next_cursor == next_cursor,
{
    let mut out: Vec<GroupMember> = Vec::new();
    let ghost all = member_ids@;
    for x in it: member_ids.into_iter()
        invariant
            it.seq() == all,
            it.index() <= all.len(),
            out@.len() == string_ids(all.take(it.index() as int)).len(),
            forall|k: int|
                0 <= k < out@.len() ==> (#[trigger] out@[k]).user_id == string_ids(all.take(it.index() as int))[k]
                    && out@[k].name is None && out@[k].role == MemberRole::Member,
    {
        let ghost i = it.index();
        proof {
            assert(all.take(i + 1).drop_last() =~= all.take(i as int));
        }
        match x {
            Some(id) => out.push(GroupMember { user_id: id, name: None, role: MemberRole::Member }),
            None => {},
        }
    }
    assert(all.take(all.len() as int) =~= all);
    Page { has_more: next_cursor.is_some(), items: out, next_cursor }
}

/// The request that adds (or removes) members.
pub fn modify_members_request(client: &DingTalkClient, req: &ModifyMembersRequest, add: bool) -> (r: Result<
    HttpRequest,
    ImError,
>)
    ensures
        is_post(
            *client,
            r,
            if add {
                "/v1.0/im/interconnections/groups/members/add"@
            } else {
                "/v1.0/im/interconnections/groups/members/remove"@
            },
            JsonV::Obj(
                seq![("openConversationId"@, JsonV::Str(req.chat_id@)), ("userIds"@, JsonV::Arr(str_arr(req.user_ids@)))],
            ),
        ),
{
    let body = crate::json::obj2(
        "openConversationId",
        Json::Str(req.chat_id.clone()),
        "userIds",
        crate::json::jstrs(&req.user_ids),
    );
    if add {
        client.post("/v1.0/im/interconnections/groups/members/add", body)
    } else {
        client.post("/v1.0/im/interconnections/groups/members/remove", body)
    }
}

} // verus!
