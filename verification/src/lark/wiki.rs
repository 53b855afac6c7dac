//! Lark wikis: spaces, nodes, node creation and moves, and search.

use crate::http::{HttpRequest, Method};
use crate::json::{jv_members, put, Json, JsonV};
use crate::lark::client::{authed_result, LarkClient};
use crate::lark::task::{secs_text, ts_opt};
use crate::model::{ImError, Page};
use crate::text::{count_or, dec_nat, opt_param, or_empty, or_text, parse_u32_spec};
use vstd::prelude::*;

verus! {

/// A wiki space.
pub struct WikiSpace {
    pub id: String,
    pub name: String,
    pub description: Option<String>,
    pub visibility: Option<String>,
}

/// A wiki node (times in milliseconds since the epoch).
pub struct WikiNode {
    pub id: String,
    pub parent_id: Option<String>,
    pub title: String,
    pub node_type: String,
    pub has_child: bool,
    pub url: Option<String>,
    pub creator: Option<String>,
    pub created_at: Option<i64>,
    pub updated_at: Option<i64>,
}

pub struct ListWikiSpacesRequest {
    pub cursor: Option<String>,
    pub limit: Option<u32>,
}

pub struct ListWikiNodesRequest {
    pub space_id: String,
    pub parent_node_id: Option<String>,
    pub cursor: Option<String>,
    pub limit: Option<u32>,
}

pub struct CreateWikiNodeRequest {
    pub space_id: String,
    pub parent_node_id: Option<String>,
    pub title: String,
    pub node_type: String,
}

pub struct MoveWikiNodeRequest {
    pub space_id: String,
    pub node_id: String,
    pub target_parent_id: Option<String>,
}

pub struct SearchWikiRequest {
    pub query: String,
    pub cursor: Option<String>,
    pub limit: Option<u32>,
}

pub open spec fn size_or_20(l: Option<u32>) -> nat {
    match l {
        Some(v) => v as nat,
        None => 20,
    }
}

/// The listing path of spaces: the page size (20 by default), then the cursor.
pub open spec fn spaces_path_v(req: ListWikiSpacesRequest) -> Seq<char> {
    "/open-apis/wiki/v2/spaces?page_size="@ + dec_nat(size_or_20(req.limit)) + opt_param("&page_token="@, req.cursor)
}

pub fn spaces_path(req: &ListWikiSpacesRequest) -> (r: String)
    ensures
        r@ == spaces_path_v(*req),
{
    let mut p = crate::text::lit("/open-apis/wiki/v2/spaces?page_size=");
    let limit: u32 = match req.limit {
        Some(l) => l,
        None => 20,
    };
    let n = crate::text::fmt_u64(limit as u64);
    crate::text::push_str(&mut p, n.as_str());
    crate::text::push_opt(&mut p, "&page_token=", &req.cursor);
    p
}

/// A space as Lark gives it.
pub struct LarkSpace {
    pub space_id: Option<String>,
    pub name: Option<String>,
    pub description: Option<String>,
    pub visibility: Option<String>,
}

pub open spec fn is_space_of(r: WikiSpace, s: LarkSpace) -> bool {
    r.id@ == or_empty(s.space_id) && r.name@ == or_empty(s.name) && r.description == s.description
        && r.visibility == s.visibility
}

pub fn space_from_lark(s: LarkSpace) -> (r: WikiSpace)
    ensures
        is_space_of(r, s),
{
    WikiSpace {
        id: crate::text::unwrap_or_empty(s.space_id),
        name: crate::text::unwrap_or_empty(s.name),
        description: s.description,
        visibility: s.visibility,
    }
}

pub fn spaces_page(items: Vec<LarkSpace>, has_more: Option<bool>, page_token: Option<String>) -> (r: Page<
    WikiSpace,
>)
    ensures
        r.items@.len() == items@.len(),
        forall|i: int| 0 <= i < items@.len() ==> is_space_of(#[trigger] r.items@[i], items@[i]),
        r.has_more == (has_more == Some(true)),
        r.next_cursor == page_token,
{
    let mut out: Vec<WikiSpace> = Vec::new();
    let ghost all = items@;
    for s in it: items.into_iter()
        invariant
            it.seq() == all,
            out@.len() == it.index(),
            forall|k: int| 0 <= k < out@.len() ==> is_space_of(#[trigger] out@[k], all[k]),
    {
        out.push(space_from_lark(s));
    }
    let more = match has_more {
        Some(b) => b,
        None => false,
    };
    Page { items: out, has_more: more, next_cursor: page_token }
}

/// A node as Lark gives it; times are decimal seconds.
pub struct LarkNode {
    pub node_token: Option<String>,
    pub parent_node_token: Option<String>,
    pub title: Option<String>,
    pub obj_type: Option<String>,
    pub has_child: Option<bool>,
    pub url: Option<String>,
    pub creator: Option<String>,
    pub create_time: Option<String>,
    pub edit_time: Option<String>,
}

/// What a Lark node says of a node: a node without a type is a `doc`.
pub open spec fn is_node_of(r: WikiNode, n: LarkNode) -> bool {
    &&& r.id@ == or_empty(n.node_token)
    &&& r.parent_id == n.parent_node_token
    &&& r.title@ == or_empty(n.title)
    &&& r.node_type@ == or_text(n.obj_type, "doc"@)
    &&& r.has_child == (n.has_child == Some(true))
    &&& r.url == n.url
    &&& r.creator == n.creator
    &&& r.created_at == secs_text(n.create_time)
    &&& r.updated_at == secs_text(n.edit_time)
}

pub fn node_from_lark(n: LarkNode) -> (r: WikiNode)
    ensures
        is_node_of(r, n),
{
    let created = ts_opt(&n.create_time);
    let updated = ts_opt(&n.edit_time);
    WikiNode {
        id: crate::text::unwrap_or_empty(n.node_token),
        parent_id: n.parent_node_token,
        title: crate::text::unwrap_or_empty(n.title),
        node_type: crate::text::unwrap_or_text(n.obj_type, "doc"),
        has_child: match n.has_child {
            Some(b) => b,
            None => false,
        },
        url: n.url,
        creator: n.creator,
        created_at: created,
        updated_at: updated,
    }
}

pub fn nodes_page(items: Vec<LarkNode>, has_more: Option<bool>, page_token: Option<String>) -> (r: Page<
    WikiNode,
>)
    ensures
        r.items@.len() == items@.len(),
        forall|i: int| 0 <= i < items@.len() ==> is_node_of(#[trigger] r.items@[i], items@[i]),
        r.has_more == (has_more == Some(true)),
        r.next_cursor == page_token,
{
    let mut out: Vec<WikiNode> = Vec::new();
    let ghost all = items@;
    for n in it: items.into_iter()
        invariant
            it.seq() == all,
            out@.len() == it.index(),
            forall|k: int| 0 <= k < out@.len() ==> is_node_of(#[trigger] out@[k], all[k]),
    {
        out.push(node_from_lark(n));
    }
    let more = match has_more {
        Some(b) => b,
        None => false,
    };
    Page { items: out, has_more: more, next_cursor: page_token }
}

/// The path of a space.
pub fn space_path(space_id: &str) -> (r: String)
    ensures
        r@ == "/open-apis/wiki/v2/spaces/"@ + space_id@,
{
    crate::text::concat2("/open-apis/wiki/v2/spaces/", space_id)
}

/// The listing path of a space's nodes: the page size (20 by default), then the
/// cursor and the parent node, where given.
pub open spec fn nodes_path_v(req: ListWikiNodesRequest) -> Seq<char> {
    "/open-apis/wiki/v2/spaces/"@ + req.space_id@ + "/nodes?page_size="@ + dec_nat(size_or_20(req.limit))
        + opt_param("&page_token="@, req.cursor) + opt_param("&parent_node_token="@, req.parent_node_id)
}

pub fn nodes_path(req: &ListWikiNodesRequest) -> (r: String)
    ensures
        r@ == nodes_path_v(*req),
{
    let mut p = space_path(req.space_id.as_str());
    crate::text::push_str(&mut p, "/nodes?page_size=");
    let limit: u32 = match req.limit {
        Some(l) => l,
        None => 20,
    };
    let n = crate::text::fmt_u64(limit as u64);
    crate::text::push_str(&mut p, n.as_str());
    crate::text::push_opt(&mut p, "&page_token=", &req.cursor);
    crate::text::push_opt(&mut p, "&parent_node_token=", &req.parent_node_id);
    p
}

/// The path of one node.
pub fn node_path(space_id: &str, node_id: &str) -> (r: String)
    ensures
        r@ == "/open-apis/wiki/v2/spaces/"@ + space_id@ + "/nodes/"@ + node_id@,
{
    let mut p = space_path(space_id);
    crate::text::push_str(&mut p, "/nodes/");
    crate::text::push_str(&mut p, node_id);
    p
}

/// The body of a new node: its type, title and parent (empty where none).
pub open spec fn create_body_v(req: CreateWikiNodeRequest) -> JsonV {
    JsonV::Obj(
        seq![
            ("obj_type"@, JsonV::Str(req.node_type@)),
            ("title"@, JsonV::Str(req.title@)),
            ("parent_node_token"@, JsonV::Str(or_empty(req.parent_node_id))),
        ],
    )
}

pub fn create_node_request(client: &LarkClient, req: &CreateWikiNodeRequest) -> (r: Result<
    HttpRequest,
    ImError,
>)
    ensures
        authed_result(
            *client,
            r,
            Method::Post,
            "/open-apis/wiki/v2/spaces/"@ + req.space_id@ + "/nodes"@,
            Some(create_body_v(*req)),
        ),
{
    broadcast use crate::json::group_json;

    let mut m: Vec<(String, Json)> = Vec::new();
    put(&mut m, "obj_type", Json::Str(req.node_type.clone()));
    put(&mut m, "title", Json::Str(req.title.clone()));
    put(&mut m, "parent_node_token", Json::Str(crate::text::unwrap_or_empty(req.parent_node_id.clone())));
    assert(jv_members(m@) =~= create_body_v(*req)->Obj_0);
    let mut p = space_path(req.space_id.as_str());
    crate::text::push_str(&mut p, "/nodes");
    client.post(p.as_str(), Json::Obj(m))
}

/// The request that moves a node under a new parent (the root where none).
pub fn move_node_request(client: &LarkClient, req: &MoveWikiNodeRequest) -> (r: Result<
    HttpRequest,
    ImError,
>)
    ensures
        authed_result(
            *client,
            r,
            Method::Post,
            "/open-apis/wiki/v2/spaces/"@ + req.space_id@ + "/nodes/"@ + req.node_id@ + "/move"@,
            Some(JsonV::Obj(seq![("target_parent_token"@, JsonV::Str(or_empty(req.target_parent_id)))])),
        ),
{
    let mut p = node_path(req.space_id.as_str(), req.node_id.as_str());
    crate::text::push_str(&mut p, "/move");
    let body = crate::json::obj1(
        "target_parent_token",
        Json::Str(crate::text::unwrap_or_empty(req.target_parent_id.clone())),
    );
    client.post(p.as_str(), body)
}

/// The body of a wiki search: the query, the count (20 by default) and the offset
/// read from the cursor (0 where none or not a number).
pub open spec fn search_body_v(req: SearchWikiRequest) -> JsonV {
    JsonV::Obj(
        seq![
            ("search_key"@, JsonV::Str(req.query@)),
            ("count"@, JsonV::Int(count_or(req.limit, 20))),
            (
                "offset"@,
                JsonV::Int(
                    match req.cursor {
                        Some(c) => match parse_u32_spec(c@) {
                            Some(v) => v as i64,
                            None => 0,
                        },
                        None => 0,
                    },
                ),
            ),
        ],
    )
}

pub fn search_request(client: &LarkClient, req: &SearchWikiRequest) -> (r: Result<HttpRequest, ImError>)
    ensures
        authed_result(
            *client,
            r,
            Method::Post,
            "/open-apis/suite/docs-api/search/object"@,
            Some(search_body_v(*req)),
        ),
{
    broadcast use crate::json::group_json;

    let count: u32 = match req.limit {
        Some(l) => l,
        None => 20,
    };
    let offset: u32 = match &req.cursor {
        Some(c) => match crate::text::parse_u32(c.as_str()) {
            Some(v) => v,
            None => 0,
        },
        None => 0,
    };
    let mut m: Vec<(String, Json)> = Vec::new();
    put(&mut m, "search_key", Json::Str(req.query.clone()));
    put(&mut m, "count", Json::Int(count as i64));
    put(&mut m, "offset", Json::Int(offset as i64));
    assert(jv_members(m@) =~= search_body_v(*req)->Obj_0);
    client.post("/open-apis/suite/docs-api/search/object", Json::Obj(m))
}

/// A search hit as Lark gives it; times are decimal seconds.
pub struct WikiSearchItem {
    pub docs_token: Option<String>,
    pub title: Option<String>,
    pub docs_type: Option<String>,
    pub url: Option<String>,
    pub owner_id: Option<String>,
    pub create_time: Option<String>,
    pub edit_time: Option<String>,
}

pub open spec fn is_hit_of(r: WikiNode, i: WikiSearchItem) -> bool {
    &&& r.id@ == or_empty(i.docs_token)
    &&& r.parent_id is None
    &&& r.title@ == or_empty(i.title)
    &&& r.node_type@ == or_text(i.docs_type, "doc"@)
    &&& !r.has_child
    &&& r.url == i.url
    &&& r.creator == i.owner_id
    &&& r.created_at == secs_text(i.create_time)
    &&& r.updated_at == secs_text(i.edit_time)
}

/// A page of search hits: the next cursor is the count the reply gives, as text.
pub fn search_page(items: Vec<WikiSearchItem>, has_more: Option<bool>, count: Option<u32>) -> (r: Page<
    WikiNode,
>)
    ensures
        r.items@.len() == items@.len(),
        forall|i: int| 0 <= i < items@.len() ==> is_hit_of(#[trigger] r.items@[i], items@[i]),
        r.has_more == (has_more == Some(true)),
        match count {
            Some(c) => r.next_cursor matches Some(s) && s@ == dec_nat(c as nat),
            None => r.next_cursor is None,
        },
{
    let mut out: Vec<WikiNode> = Vec::new();
    let ghost all = items@;
    for x in it: items.into_iter()
        invariant
            it.seq() == all,
            out@.len() == it.index(),
            forall|k: int| 0 <= k < out@.len() ==> is_hit_of(#[trigger] out@[k], all[k]),
    {
        let created = ts_opt(&x.create_time);
        let updated = ts_opt(&x.edit_time);
        out.push(
            WikiNode {
                id: crate::text::unwrap_or_empty(x.docs_token),
                parent_id: None,
                title: crate::text::unwrap_or_empty(x.title),
                node_type: crate::text::unwrap_or_text(x.docs_type, "doc"),
                has_child: false,
                url: x.url,
                creator: x.owner_id,
                created_at: created,
                updated_at: updated,
            },
        );
    }
    let more = match has_more {
        Some(b) => b,
        None => false,
    };
    let next = match count {
        Some(c) => Some(crate::text::fmt_u64(c as u64)),
        None => None,
    };
    Page { items: out, has_more: more, next_cursor: next }
}

} // verus!
