//! DingTalk to-do tasks: priorities, task readings and request bodies.

use crate::http::is_success;
use crate::json::{jv_members, opt_str_v, put, str_arr, Json, JsonV};
use crate::model::{
    CreateTaskRequest, ImError, ListTasksRequest, Page, Task, TaskPriority, TaskStatus,
    UpdateTaskRequest,
};
use crate::text::{dec_nat, or_empty};
use crate::time::{rfc3339_instant, rfc3339_text};
use vstd::prelude::*;

verus! {

/// DingTalk's number for a priority.
pub open spec fn priority_code(p: TaskPriority) -> u32 {
    match p {
        TaskPriority::Low => 10,
        TaskPriority::Normal => 20,
        TaskPriority::High => 30,
        TaskPriority::Urgent => 40,
    }
}

/// The priority of a DingTalk number: 10, 30 and 40 are low, high and urgent; every
/// other number is normal.
pub open spec fn priority_of_code(v: u32) -> TaskPriority {
    if v == 10 {
        TaskPriority::Low
    } else if v == 30 {
        TaskPriority::High
    } else if v == 40 {
        TaskPriority::Urgent
    } else {
        TaskPriority::Normal
    }
}

/// DingTalk's priority numbers both ways: low 10, normal 20, high 30, urgent 40;
/// 10, 30 and 40 read as low, high and urgent, and every other number as normal.
pub proof fn law_priority_codes(p: TaskPriority, v: u32)
    ensures
        (priority_code(p) == 10) <==> p == TaskPriority::Low,
        (priority_code(p) == 20) <==> p == TaskPriority::Normal,
        (priority_code(p) == 30) <==> p == TaskPriority::High,
        (priority_code(p) == 40) <==> p == TaskPriority::Urgent,
        (priority_of_code(v) == TaskPriority::Low) <==> v == 10,
        (priority_of_code(v) == TaskPriority::High) <==> v == 30,
        (priority_of_code(v) == TaskPriority::Urgent) <==> v == 40,
        (priority_of_code(v) == TaskPriority::Normal) <==> !(v == 10 || v == 30 || v == 40),
{
}

pub fn priority_to_dt(p: TaskPriority) -> (r: u32)
    ensures
        r == priority_code(p),
{
    match p {
        TaskPriority::Low => 10,
        TaskPriority::Normal => 20,
        TaskPriority::High => 30,
        TaskPriority::Urgent => 40,
    }
}

pub fn dt_to_priority(v: u32) -> (r: TaskPriority)
    ensures
        r == priority_of_code(v),
{
    if v == 10 {
        TaskPriority::Low
    } else if v == 30 {
        TaskPriority::High
    } else if v == 40 {
        TaskPriority::Urgent
    } else {
        TaskPriority::Normal
    }
}

/// A priority written as DingTalk's number reads back as the same priority, and each
/// of DingTalk's four numbers reads back as itself.
pub proof fn law_priority_roundtrip(p: TaskPriority, v: u32)
    ensures
        priority_of_code(priority_code(p)) == p,
        (v == 10 || v == 20 || v == 30 || v == 40) ==> priority_code(priority_of_code(v)) == v,
{
}

/// A to-do card as DingTalk's reply gives it.
pub struct DtTask {
    pub todo_task_id: Option<String>,
    pub subject: Option<String>,
    pub priority: Option<u32>,
    pub done: Option<bool>,
    /// RFC 3339 text.
    pub due_time: Option<String>,
    pub executor_ids: Vec<String>,
}

/// The instant of an optional RFC 3339 text, where it reads as one.
pub open spec fn opt_instant(s: Option<String>) -> Option<i64> {
    match s {
        Some(t) => rfc3339_instant(t@),
        None => None,
    }
}

/// What a DingTalk to-do card says of a task.
pub open spec fn is_task_of(r: Task, t: DtTask) -> bool {
    &&& r.id@ == or_empty(t.todo_task_id)
    &&& r.title@ == or_empty(t.subject)
    &&& r.description is None
    &&& r.status == (if t.done == Some(true) {
        TaskStatus::Done
    } else {
        TaskStatus::Pending
    })
    &&& r.priority == priority_of_code(
        match t.priority {
            Some(v) => v,
            None => 20,
        },
    )
    &&& r.due_time == opt_instant(t.due_time)
    &&& r.assignees@ == t.executor_ids@
    &&& r.creator_id is None && r.created_at is None && r.updated_at is None
    &&& r.extra@ == JsonV::Null
}

pub fn parse_opt_rfc3339(s: &Option<String>) -> (r: Option<i64>)
    ensures
        r == opt_instant(*s),
{
    match s {
        Some(t) => crate::time::parse_rfc3339(t.as_str()),
        None => None,
    }
}

/// The task of a DingTalk to-do card.
pub fn task_from_dt(t: DtTask) -> (r: Task)
    ensures
        is_task_of(r, t),
{
    let due = parse_opt_rfc3339(&t.due_time);
    let status = match t.done {
        Some(true) => TaskStatus::Done,
        _ => TaskStatus::Pending,
    };
    let code = match t.priority {
        Some(v) => v,
        None => 20,
    };
    Task {
        id: crate::text::unwrap_or_empty(t.todo_task_id),
        title: crate::text::unwrap_or_empty(t.subject),
        description: None,
        status,
        priority: dt_to_priority(code),
        due_time: due,
        assignees: t.executor_ids,
        creator_id: None,
        created_at: None,
        updated_at: None,
        extra: Json::Null,
    }
}

/// An optional instant as RFC 3339 text, or `null`.
pub open spec fn opt_rfc3339_v(t: Option<i64>) -> JsonV {
    match t {
        Some(ms) => JsonV::Str(rfc3339_text(ms)),
        None => JsonV::Null,
    }
}

fn opt_rfc3339(t: Option<i64>) -> (r: Json)
    ensures
        r@ == opt_rfc3339_v(t),
{
    match t {
        Some(ms) => Json::Str(crate::time::fmt_rfc3339(ms)),
        None => Json::Null,
    }
}

/// The body that creates a to-do.
pub open spec fn create_task_body_v(req: CreateTaskRequest) -> JsonV {
    JsonV::Obj(
        seq![
            ("subject"@, JsonV::Str(req.title@)),
            ("priority"@, JsonV::Int(priority_code(req.priority) as i64)),
            ("executorIds"@, JsonV::Arr(str_arr(req.assignee_ids@))),
            ("dueTime"@, opt_rfc3339_v(req.due_time)),
            ("description"@, opt_str_v(req.description)),
        ],
    )
}

pub fn create_task_body(req: &CreateTaskRequest) -> (r: Json)
    ensures
        r@ == create_task_body_v(*req),
{
    broadcast use crate::json::group_json;

    let mut m: Vec<(String, Json)> = Vec::new();
    put(&mut m, "subject", Json::Str(req.title.clone()));
    put(&mut m, "priority", Json::Int(priority_to_dt(req.priority) as i64));
    put(&mut m, "executorIds", crate::json::jstrs(&req.assignee_ids));
    put(&mut m, "dueTime", opt_rfc3339(req.due_time));
    put(&mut m, "description", crate::json::jopt(req.description.clone()));
    assert(jv_members(m@) =~= create_task_body_v(*req)->Obj_0);
    Json::Obj(m)
}

/// The path of the current user's to-dos.
pub open spec fn tasks_path() -> Seq<char> {
    "/v1.0/todo/users/me/tasks"@
}

/// The path of one to-do.
pub open spec fn task_path_v(task_id: Seq<char>) -> Seq<char> {
    tasks_path() + "/"@ + task_id
}

pub fn task_path(task_id: &str) -> (r: String)
    ensures
        r@ == task_path_v(task_id@),
{
    let mut p = crate::text::lit("/v1.0/todo/users/me/tasks");
    crate::text::push_str(&mut p, "/");
    crate::text::push_str(&mut p, task_id);
    p
}

/// The listing path: done to-dos where the request asks for done ones, else open
/// ones; the cursor (empty where there is none) and the page size (20 by default).
pub open spec fn list_tasks_path_v(req: ListTasksRequest) -> Seq<char> {
    tasks_path() + "?isDone="@ + (if req.status == Some(TaskStatus::Done) {
        "true"@
    } else {
        "false"@
    }) + "&nextToken="@ + or_empty(req.cursor) + "&maxResults="@ + dec_nat(
        match req.limit {
            Some(l) => l as nat,
            None => 20,
        },
    )
}

pub fn list_tasks_path(req: &ListTasksRequest) -> (r: String)
    ensures
        r@ == list_tasks_path_v(*req),
{
    let mut p = crate::text::lit("/v1.0/todo/users/me/tasks");
    crate::text::push_str(&mut p, "?isDone=");
    let done = match req.status {
        Some(TaskStatus::Done) => true,
        _ => false,
    };
    if done {
        crate::text::push_str(&mut p, "true");
    } else {
        crate::text::push_str(&mut p, "false");
    }
    crate::text::push_str(&mut p, "&nextToken=");
    let cursor = crate::text::unwrap_or_empty(req.cursor.clone());
    crate::text::push_str(&mut p, cursor.as_str());
    crate::text::push_str(&mut p, "&maxResults=");
    let limit: u32 = match req.limit {
        Some(l) => l,
        None => 20,
    };
    let n = crate::text::fmt_u64(limit as u64);
    crate::text::push_str(&mut p, n.as_str());
    p
}

/// A page of tasks from the reply's cards and its `nextToken`: there is more exactly
/// where there is a next token.
pub fn list_tasks_page(cards: Vec<DtTask>, next_token: Option<String>) -> (r: Page<Task>)
    ensures
        r.items@.len() == cards@.len(),
        forall|i: int| 0 <= i < cards@.len() ==> is_task_of(#[trigger] r.items@[i], cards@[i]),
        r.has_more == next_token is Some,
        r.next_cursor == next_token,
{
    let mut items: Vec<Task> = Vec::new();
    let ghost all = cards@;
    for card in it: cards.into_iter()
        invariant
            it.seq() == all,
            items@.len() == it.index(),
            forall|k: int| 0 <= k < items@.len() ==> is_task_of(#[trigger] items@[k], all[k]),
    {
        let t = task_from_dt(card);
        items.push(t);
    }
    Page { has_more: next_token.is_some(), items, next_cursor: next_token }
}

/// The body that updates a to-do: only what the request changes, the status as
/// whether it is done.
pub open spec fn update_task_body_v(req: UpdateTaskRequest) -> JsonV {
    JsonV::Obj(
        (match req.title {
            Some(t) => seq![("subject"@, JsonV::Str(t@))],
            None => Seq::empty(),
        }) + (match req.priority {
            Some(p) => seq![("priority"@, JsonV::Int(priority_code(p) as i64))],
            None => Seq::empty(),
        }) + (match req.status {
            Some(s) => seq![("done"@, JsonV::Bool(s == TaskStatus::Done))],
            None => Seq::empty(),
        }) + (match req.due_time {
            Some(d) => seq![("dueTime"@, JsonV::Str(rfc3339_text(d)))],
            None => Seq::empty(),
        }),
    )
}

pub fn update_task_body(req: &UpdateTaskRequest) -> (r: Json)
    ensures
        r@ == update_task_body_v(*req),
{
    broadcast use crate::json::group_json;

    let mut m: Vec<(String, Json)> = Vec::new();
    let ghost m0 = jv_members(m@);
    match &req.title {
        Some(t) => put(&mut m, "subject", Json::Str(t.clone())),
        None => {},
    }
    let ghost m1 = jv_members(m@);
    match req.priority {
        Some(p) => put(&mut m, "priority", Json::Int(priority_to_dt(p) as i64)),
        None => {},
    }
    let ghost m2 = jv_members(m@);
    match req.status {
        Some(s) => {
            let done = match s {
                TaskStatus::Done => true,
                _ => false,
            };
            put(&mut m, "done", Json::Bool(done))
        },
        None => {},
    }
    let ghost m3 = jv_members(m@);
    match req.due_time {
        Some(d) => put(&mut m, "dueTime", Json::Str(crate::time::fmt_rfc3339(d))),
        None => {},
    }
    assert(jv_members(m@) =~= update_task_body_v(*req)->Obj_0);
    Json::Obj(m)
}


} // verus!
