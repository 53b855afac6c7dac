//! WeCom to-dos: status codes, to-do readings, and the two-step listing.

use crate::http::{is_success, HttpRequest, Method};
use crate::json::{jv_members, put, str_arr, Json, JsonV};
use crate::model::{
    CreateTaskRequest, ImError, ListTasksRequest, Page, Task, TaskPriority, TaskStatus,
    UpdateTaskRequest,
};
use crate::text::{or_empty, or_text};
use crate::time::{naive_utc_instant, utc_text};
use crate::wecom::client::{token_result, WeComClient};
use vstd::prelude::*;

verus! {

/// WeCom's status number of a to-do: 0 done, 2 deleted, 1 otherwise.
pub open spec fn status_code(s: TaskStatus) -> i32 {
    match s {
        TaskStatus::Done => 0,
        TaskStatus::Deleted => 2,
        _ => 1,
    }
}

/// The status of a WeCom number: 0 done, 2 deleted, anything else pending.
pub open spec fn status_of_code(v: i32) -> TaskStatus {
    if v == 0 {
        TaskStatus::Done
    } else if v == 2 {
        TaskStatus::Deleted
    } else {
        TaskStatus::Pending
    }
}

/// WeCom's to-do statuses both ways: done is 0, deleted 2 and every other status 1;
/// 0 reads as done, 2 as deleted and any other number as pending.
pub proof fn law_status_codes(s: TaskStatus, v: i32)
    ensures
        (status_code(s) == 0) <==> s == TaskStatus::Done,
        (status_code(s) == 2) <==> s == TaskStatus::Deleted,
        (status_code(s) == 1) <==> !(s == TaskStatus::Done || s == TaskStatus::Deleted),
        (status_of_code(v) == TaskStatus::Done) <==> v == 0,
        (status_of_code(v) == TaskStatus::Deleted) <==> v == 2,
        (status_of_code(v) == TaskStatus::Pending) <==> !(v == 0 || v == 2),
{
}

pub fn status_to_wc(s: TaskStatus) -> (r: i32)
    ensures
        r == status_code(s),
{
    match s {
        TaskStatus::Done => 0,
        TaskStatus::Deleted => 2,
        _ => 1,
    }
}

pub fn wc_to_status(v: i32) -> (r: TaskStatus)
    ensures
        r == status_of_code(v),
{
    if v == 0 {
        TaskStatus::Done
    } else if v == 2 {
        TaskStatus::Deleted
    } else {
        TaskStatus::Pending
    }
}

/// A status written as WeCom's number reads back as itself, except "in progress",
/// which WeCom does not have and which reads back as pending; each of WeCom's three
/// numbers reads back as itself.
pub proof fn law_status_roundtrip(s: TaskStatus, v: i32)
    ensures
        s != TaskStatus::InProgress ==> status_of_code(status_code(s)) == s,
        status_of_code(status_code(TaskStatus::InProgress)) == TaskStatus::Pending,
        (v == 0 || v == 1 || v == 2) ==> status_code(status_of_code(v)) == v,
{
}

/// The format of WeCom's to-do times.
pub open spec fn todo_time_format() -> Seq<char> {
    "%Y-%m-%d %H:%M:%S"@
}

pub open spec fn opt_time(s: Option<String>) -> Option<i64> {
    match s {
        Some(t) => naive_utc_instant(t@, todo_time_format()),
        None => None,
    }
}

fn parse_time(s: &Option<String>) -> (r: Option<i64>)
    ensures
        r == opt_time(*s),
{
    match s {
        Some(t) => crate::time::parse_naive_utc(t.as_str(), "%Y-%m-%d %H:%M:%S"),
        None => None,
    }
}

/// A to-do's details as WeCom gives them.
pub struct WcTodoDetail {
    pub todo_id: Option<String>,
    pub content: Option<String>,
    pub todo_status: Option<i32>,
    pub creator_id: Option<String>,
    pub remind_time: Option<String>,
    pub create_time: Option<String>,
    pub update_time: Option<String>,
}

/// What a WeCom to-do says of a task: its content is the title; its status defaults
/// to 1 (pending); its reminder is the due time.
pub open spec fn is_task_of(r: Task, t: WcTodoDetail) -> bool {
    &&& r.id@ == or_empty(t.todo_id)
    &&& r.title@ == or_empty(t.content)
    &&& r.description is None
    &&& r.status == status_of_code(
        match t.todo_status {
            Some(v) => v,
            None => 1,
        },
    )
    &&& r.priority == TaskPriority::Normal
    &&& r.due_time == opt_time(t.remind_time)
    &&& r.assignees@.len() == 0
    &&& r.creator_id == t.creator_id
    &&& r.created_at == opt_time(t.create_time)
    &&& r.updated_at == opt_time(t.update_time)
    &&& r.extra@ == JsonV::Null
}

pub fn task_from_wc(t: WcTodoDetail) -> (r: Task)
    ensures
        is_task_of(r, t),
{
    let status = wc_to_status(
        match t.todo_status {
            Some(v) => v,
            None => 1,
        },
    );
    let due = parse_time(&t.remind_time);
    let created = parse_time(&t.create_time);
    let updated = parse_time(&t.update_time);
    Task {
        id: crate::text::unwrap_or_empty(t.todo_id),
        title: crate::text::unwrap_or_empty(t.content),
        description: None,
        status,
        priority: TaskPriority::Normal,
        due_time: due,
        assignees: Vec::new(),
        creator_id: t.creator_id,
        created_at: created,
        updated_at: updated,
        extra: Json::Null,
    }
}

pub fn tasks_from_wc(items: Vec<WcTodoDetail>) -> (r: Vec<Task>)
    ensures
        r@.len() == items@.len(),
        forall|i: int| 0 <= i < items@.len() ==> is_task_of(#[trigger] r@[i], items@[i]),
{
    let mut out: Vec<Task> = Vec::new();
    let ghost all = items@;
    for t in it: items.into_iter()
        invariant
            it.seq() == all,
            out@.len() == it.index(),
            forall|k: int| 0 <= k < out@.len() ==> is_task_of(#[trigger] out@[k], all[k]),
    {
        out.push(task_from_wc(t));
    }
    out
}

/// A time as WeCom's to-dos take it, or `null`.
pub open spec fn opt_time_v(t: Option<i64>) -> JsonV {
    match t {
        Some(ms) => JsonV::Str(utc_text(ms, todo_time_format())),
        None => JsonV::Null,
    }
}

fn time_json(ms: i64) -> (r: Json)
    ensures
        r@ == JsonV::Str(utc_text(ms, todo_time_format())),
{
    Json::Str(crate::time::fmt_utc(ms, "%Y-%m-%d %H:%M:%S"))
}

/// The request that creates a to-do: its title as content, its due time as reminder.
pub fn create_task_request(client: &WeComClient, req: &CreateTaskRequest) -> (r: Result<
    HttpRequest,
    ImError,
>)
    ensures
        token_result(
            *client,
            r,
            Method::Post,
            "/cgi-bin/oa/todo/create"@,
            Some(
                JsonV::Obj(
                    seq![("content"@, JsonV::Str(req.title@)), ("remind_time"@, opt_time_v(req.due_time))],
                ),
            ),
        ),
{
    let remind = match req.due_time {
        Some(ms) => time_json(ms),
        None => Json::Null,
    };
    client.post(
        "/cgi-bin/oa/todo/create",
        crate::json::obj2("content", Json::Str(req.title.clone()), "remind_time", remind),
    )
}

/// The task created from `req` with the id WeCom gave (empty where none), created at
/// `now`.
pub fn created_task(req: CreateTaskRequest, todo_id: Option<String>, now: i64) -> (r: Task)
    ensures
        r.id@ == or_empty(todo_id),
        r.title == req.title,
        r.description == req.description,
        r.status == TaskStatus::Pending,
        r.priority == req.priority,
        r.due_time == req.due_time,
        r.assignees == req.assignee_ids,
        r.creator_id is None,
        r.created_at == Some(now),
        r.updated_at is None,
        r.extra@ == JsonV::Null,
{
    Task {
        id: crate::text::unwrap_or_empty(todo_id),
        title: req.title,
        description: req.description,
        status: TaskStatus::Pending,
        priority: req.priority,
        due_time: req.due_time,
        assignees: req.assignee_ids,
        creator_id: None,
        created_at: Some(now),
        updated_at: None,
        extra: Json::Null,
    }
}

/// The body of the first listing step: the page size (20 by default) and the cursor
/// (empty by default).
pub fn list_tasks_request(client: &WeComClient, req: &ListTasksRequest) -> (r: Result<
    HttpRequest,
    ImError,
>)
    ensures
        token_result(
            *client,
            r,
            Method::Post,
            "/cgi-bin/oa/todo/get_list"@,
            Some(
                JsonV::Obj(
                    seq![
                        ("limit"@, JsonV::Int(crate::text::count_or(req.limit, 20))),
                        ("cursor"@, JsonV::Str(or_empty(req.cursor))),
                    ],
                ),
            ),
        ),
{
    let limit: u32 = match req.limit {
        Some(l) => l,
        None => 20,
    };
    let cursor = crate::text::unwrap_or_empty(req.cursor.clone());
    let body = crate::json::obj2("limit", Json::Int(limit as i64), "cursor", Json::Str(cursor));
    client.post("/cgi-bin/oa/todo/get_list", body)
}

/// The ids of the listed to-dos that have one, in order.
pub open spec fn index_ids(ids: Seq<Option<String>>) -> Seq<String>
    decreases ids.len(),
{
    if ids.len() == 0 {
        Seq::empty()
    } else {
        match ids.last() {
            Some(id) => index_ids(ids.drop_last()).push(id),
            None => index_ids(ids.drop_last()),
        }
    }
}

/// What follows the listing's first reply.
pub enum ListTasksStep {
    /// No to-do was listed: the page is empty and final.
    Empty,
    /// Fetch the details of these to-dos.
    Details { ids: Vec<String> },
}

/// The decision after the listing's first reply, given the listed to-dos' ids.
pub fn list_tasks_after_index(index_ids_in: Vec<Option<String>>) -> (r: ListTasksStep)
    ensures
        index_ids(index_ids_in@).len() == 0 ==> r is Empty,
        index_ids(index_ids_in@).len() > 0 ==> (r matches ListTasksStep::Details { ids } && ids@
            == index_ids(index_ids_in@)),
{
    let mut ids: Vec<String> = Vec::new();
    let ghost all = index_ids_in@;
    for x in it: index_ids_in.into_iter()
        invariant
            it.seq() == all,
            it.index() <= all.len(),
            ids@ == index_ids(all.take(it.index() as int)),
    {
        let ghost i = it.index();
        proof {
            assert(all.take(i + 1).drop_last() =~= all.take(i as int));
        }
        match x {
            Some(id) => ids.push(id),
            None => {},
        }
    }
    assert(all.take(all.len() as int) =~= all);
    if ids.len() == 0 {
        ListTasksStep::Empty
    } else {
        ListTasksStep::Details { ids }
    }
}

/// The details request of some to-dos.
pub fn details_request(client: &WeComClient, ids: &Vec<String>) -> (r: Result<HttpRequest, ImError>)
    ensures
        token_result(
            *client,
            r,
            Method::Post,
            "/cgi-bin/oa/todo/get_detail"@,
            Some(JsonV::Obj(seq![("todo_id_list"@, JsonV::Arr(str_arr(ids@)))])),
        ),
{
    client.post("/cgi-bin/oa/todo/get_detail", crate::json::obj1("todo_id_list", crate::json::jstrs(ids)))
}

/// The page of the listing: the details' tasks, with the first reply's `has_more`
/// and cursor.
pub fn list_tasks_page(details: Vec<WcTodoDetail>, has_more: bool, next_cursor: Option<String>) -> (r:
    Page<Task>)
    ensures
        r.items@.len() == details@.len(),
        forall|i: int| 0 <= i < details@.len() ==> is_task_of(#[trigger] r.items@[i], details@[i]),
        r.has_more == has_more,
        r.next_cursor == next_cursor,
{
    Page { items: tasks_from_wc(details), has_more, next_cursor }
}

/// The task of a details reply for one to-do: its first detail, else "not found".
pub fn get_task_reply(task_id: &str, details: Vec<WcTodoDetail>) -> (r: Result<Task, ImError>)
    ensures
        details@.len() > 0 ==> (r matches Ok(t) && is_task_of(t, details@[0])),
        details@.len() == 0 ==> (r matches Err(ImError::NotFound { resource: res }) && res@
            == "todo "@ + task_id@),
{
    let mut d = details;
    if d.len() == 0 {
        return Err(ImError::NotFound { resource: crate::text::concat2("todo ", task_id) });
    }
    let first = d.remove(0);
    Ok(task_from_wc(first))
}

/// The body of an update: the to-do, then only what the request changes.
pub open spec fn update_body_v(req: UpdateTaskRequest) -> JsonV {
    JsonV::Obj(
        seq![("todo_id"@, JsonV::Str(req.task_id@))] + (match req.title {
            Some(t) => seq![("content"@, JsonV::Str(t@))],
            None => Seq::empty(),
        }) + (match req.status {
            Some(s) => seq![("todo_status"@, JsonV::Int(status_code(s) as i64))],
            None => Seq::empty(),
        }) + (match req.due_time {
            Some(d) => seq![("remind_time"@, JsonV::Str(utc_text(d, todo_time_format())))],
            None => Seq::empty(),
        }),
    )
}

pub fn update_task_request(client: &WeComClient, req: &UpdateTaskRequest) -> (r: Result<
    HttpRequest,
    ImError,
>)
    ensures
        token_result(*client, r, Method::Post, "/cgi-bin/oa/todo/update"@, Some(update_body_v(*req))),
{
    broadcast use crate::json::group_json;

    let mut m: Vec<(String, Json)> = Vec::new();
    put(&mut m, "todo_id", Json::Str(req.task_id.clone()));
    match &req.title {
        Some(t) => put(&mut m, "content", Json::Str(t.clone())),
        None => {},
    }
    match req.status {
        Some(s) => put(&mut m, "todo_status", Json::Int(status_to_wc(s) as i64)),
        None => {},
    }
    match req.due_time {
        Some(d) => put(&mut m, "remind_time", time_json(d)),
        None => {},
    }
    assert(jv_members(m@) =~= update_body_v(*req)->Obj_0);
    client.post("/cgi-bin/oa/todo/update", Json::Obj(m))
}

/// The request that deletes a to-do.
pub fn delete_task_request(client: &WeComClient, task_id: &str) -> (r: Result<HttpRequest, ImError>)
    ensures
        token_result(
            *client,
            r,
            Method::Post,
            "/cgi-bin/oa/todo/delete"@,
            Some(JsonV::Obj(seq![("todo_id"@, JsonV::Str(task_id@))])),
        ),
{
    client.post("/cgi-bin/oa/todo/delete", crate::json::obj1("todo_id", crate::json::jstr(task_id)))
}


} // verus!
