//! Lark tasks (v2): task readings and request bodies.

use crate::http::{HttpRequest, Method};
use crate::json::{jv_members, jv_seq, opt_str_v, put, Json, JsonV};
use crate::lark::client::{authed_result, LarkClient};
use crate::model::{CreateTaskRequest, ImError, ListTasksRequest, Page, Task, TaskPriority, TaskStatus, UpdateTaskRequest};
use crate::text::{dec_int, dec_nat, or_empty, parse_i64_spec};
use crate::time::secs_representable;
use vstd::prelude::*;

verus! {

/// The instant of decimal seconds that chrono can represent, in milliseconds.
pub open spec fn secs_text(s: Option<String>) -> Option<i64> {
    match s {
        Some(t) => match parse_i64_spec(t@) {
            Some(v) => if secs_representable(v) {
                Some((v * 1000) as i64)
            } else {
                None
            },
            None => None,
        },
        None => None,
    }
}

pub fn ts_opt(s: &Option<String>) -> (r: Option<i64>)
    ensures
        r == secs_text(*s),
{
    match s {
        Some(t) => match crate::text::parse_i64(t.as_str()) {
            Some(v) => crate::time::from_secs(v),
            None => None,
        },
        None => None,
    }
}

/// A task as Lark gives it.
pub struct LarkTask {
    pub id: Option<String>,
    pub summary: Option<String>,
    pub description: Option<String>,
    pub completed_at: Option<String>,
    /// The due time, decimal seconds.
    pub due_timestamp: Option<String>,
    /// The ids of the members, where they have one.
    pub member_ids: Vec<Option<String>>,
    pub creator_id: Option<String>,
    pub created_at: Option<String>,
    pub updated_at: Option<String>,
}

/// The members that have an id, in order.
pub open spec fn ids_of(s: Seq<Option<String>>) -> Seq<String>
    decreases s.len(),
{
    if s.len() == 0 {
        Seq::empty()
    } else {
        match s.last() {
            Some(id) => ids_of(s.drop_last()).push(id),
            None => ids_of(s.drop_last()),
        }
    }
}

/// What a Lark task says of a task: done exactly where it has a completion time; the
/// assignees are its members with an id.
pub open spec fn is_task_of(r: Task, t: LarkTask) -> bool {
    &&& r.id@ == or_empty(t.id)
    &&& r.title@ == or_empty(t.summary)
    &&& r.description == t.description
    &&& r.status == if t.completed_at is Some {
        TaskStatus::Done
    } else {
        TaskStatus::Pending
    }
    &&& r.priority == TaskPriority::Normal
    &&& r.due_time == secs_text(t.due_timestamp)
    &&& r.assignees@ == ids_of(t.member_ids@)
    &&& r.creator_id == t.creator_id
    &&& r.created_at == secs_text(t.created_at)
    &&& r.updated_at == secs_text(t.updated_at)
    &&& r.extra@ == JsonV::Null
}

fn some_ids(v: Vec<Option<String>>) -> (r: Vec<String>)
    ensures
        r@ == ids_of(v@),
{
    let mut out: Vec<String> = Vec::new();
    let ghost all = v@;
    for x in it: v.into_iter()
        invariant
            it.seq() == all,
            it.index() <= all.len(),
            out@ == ids_of(all.take(it.index() as int)),
    {
        let ghost i = it.index();
        proof {
            assert(all.take(i + 1).drop_last() =~= all.take(i as int));
        }
        match x {
            Some(id) => out.push(id),
            None => {},
        }
    }
    assert(all.take(all.len() as int) =~= all);
    out
}

pub fn task_from_lark(t: LarkTask) -> (r: Task)
    ensures
        is_task_of(r, t),
{
    let due = ts_opt(&t.due_timestamp);
    let created = ts_opt(&t.created_at);
    let updated = ts_opt(&t.updated_at);
    let status = if t.completed_at.is_some() {
        TaskStatus::Done
    } else {
        TaskStatus::Pending
    };
    Task {
        id: crate::text::unwrap_or_empty(t.id),
        title: crate::text::unwrap_or_empty(t.summary),
        description: t.description,
        status,
        priority: TaskPriority::Normal,
        due_time: due,
        assignees: some_ids(t.member_ids),
        creator_id: t.creator_id,
        created_at: created,
        updated_at: updated,
        extra: Json::Null,
    }
}

/// The reading of a reply that carries one task: a reply without it fails with
/// `missing`.
pub fn task_outcome(task: Option<LarkTask>, missing: ImError) -> (r: Result<Task, ImError>)
    ensures
        task matches Some(t) ==> (r matches Ok(x) && is_task_of(x, t)),
        task is None ==> r == Err::<Task, ImError>(missing),
{
    match task {
        Some(t) => Ok(task_from_lark(t)),
        None => Err(missing),
    }
}

/// A due time as Lark takes it: `{"timestamp": <decimal seconds>}`.
pub open spec fn due_v(ms: i64) -> JsonV {
    JsonV::Obj(seq![("timestamp"@, JsonV::Str(dec_int(ms / 1000)))])
}

/// A due time written to Lark as a task's `due` reads back, from the text that body
/// carries, as the same instant rounded down to the second, wherever chrono can
/// represent that second.
pub proof fn law_due_time_roundtrip(due: i64, t: String)
    requires
        due_v(due) == JsonV::Obj(seq![("timestamp"@, JsonV::Str(t@))]),
    ensures
        secs_text(Some(t)) == (if secs_representable((due / 1000) as i64) {
            Some(((due / 1000) * 1000) as i64)
        } else {
            None
        }),
{
    let a = seq![("timestamp"@, JsonV::Str(dec_int(due / 1000)))];
    let b = seq![("timestamp"@, JsonV::Str(t@))];
    assert(a[0] == b[0]);
    assert(t@ == dec_int(due / 1000));
    let secs = (due / 1000) as i64;
    crate::text::law_decimal_roundtrip(secs);
}

fn due_json(ms: i64) -> (r: Json)
    ensures
        r@ == due_v(ms),
{
    let secs = crate::lark::messaging::millis_to_secs(ms);
    crate::json::obj1("timestamp", Json::Str(crate::text::fmt_i64(secs)))
}

/// Members as Lark takes them: each an assignee.
pub open spec fn members_v(s: Seq<String>) -> Seq<JsonV>
    decreases s.len(),
{
    if s.len() == 0 {
        Seq::empty()
    } else {
        members_v(s.drop_last()).push(
            JsonV::Obj(seq![("id"@, JsonV::Str(s.last()@)), ("role"@, JsonV::Str("assignee"@))]),
        )
    }
}

/// Each assignee is sent, in order, as `{"id": <id>, "role": "assignee"}`.
pub proof fn law_members_items(s: Seq<String>)
    ensures
        members_v(s) == s.map_values(|x: String| JsonV::Obj(seq![("id"@, JsonV::Str(x@)), ("role"@, JsonV::Str("assignee"@))])),
    decreases s.len(),
{
    if s.len() > 0 {
        law_members_items(s.drop_last());
        assert(s.map_values(|x: String| JsonV::Obj(seq![("id"@, JsonV::Str(x@)), ("role"@, JsonV::Str("assignee"@))])) =~= s.drop_last().map_values(|x: String| JsonV::Obj(seq![("id"@, JsonV::Str(x@)), ("role"@, JsonV::Str("assignee"@))])).push(
            JsonV::Obj(seq![("id"@, JsonV::Str(s.last()@)), ("role"@, JsonV::Str("assignee"@))]),
        ));
    }
}

/// The body that creates a task.
pub open spec fn create_body_v(req: CreateTaskRequest) -> JsonV {
    JsonV::Obj(
        seq![
            ("summary"@, JsonV::Str(req.title@)),
            ("description"@, opt_str_v(req.description)),
            (
                "due"@,
                match req.due_time {
                    Some(d) => due_v(d),
                    None => JsonV::Null,
                },
            ),
            ("members"@, JsonV::Arr(members_v(req.assignee_ids@))),
        ],
    )
}

pub fn create_task_request(client: &LarkClient, req: &CreateTaskRequest) -> (r: Result<
    HttpRequest,
    ImError,
>)
    ensures
        authed_result(*client, r, Method::Post, "/open-apis/task/v2/tasks"@, Some(create_body_v(*req))),
{
    broadcast use crate::json::group_json;

    let mut members: Vec<Json> = Vec::new();
    let mut i: usize = 0;
    while i < req.assignee_ids.len()
        invariant
            i <= req.assignee_ids@.len(),
            jv_seq(members@) == members_v(req.assignee_ids@.subrange(0, i as int)),
        decreases req.assignee_ids@.len() - i,
    {
        let item = crate::json::obj2(
            "id",
            Json::Str(req.assignee_ids[i].clone()),
            "role",
            crate::json::jstr("assignee"),
        );
        let ghost before = members@;
        let ghost ig = item;
        members.push(item);
        proof {
            crate::json::lemma_jv_seq_push(before, ig);
            assert(req.assignee_ids@.subrange(0, i + 1).drop_last() =~= req.assignee_ids@.subrange(0, i as int));
        }
        i = i + 1;
    }
    assert(req.assignee_ids@.subrange(0, req.assignee_ids@.len() as int) =~= req.assignee_ids@);
    let mut m: Vec<(String, Json)> = Vec::new();
    put(&mut m, "summary", Json::Str(req.title.clone()));
    put(&mut m, "description", crate::json::jopt(req.description.clone()));
    let due = match req.due_time {
        Some(d) => due_json(d),
        None => Json::Null,
    };
    put(&mut m, "due", due);
    put(&mut m, "members", Json::Arr(members));
    assert(jv_members(m@) =~= create_body_v(*req)->Obj_0);
    client.post("/open-apis/task/v2/tasks", Json::Obj(m))
}

/// The listing path: the cursor and page size, each where given, after `?`.
pub open spec fn list_path_v(req: ListTasksRequest) -> Seq<char> {
    "/open-apis/task/v2/tasks"@ + match (req.cursor, req.limit) {
        (Some(c), Some(l)) => "?page_token="@ + c@ + "&page_size="@ + dec_nat(l as nat),
        (Some(c), None) => "?page_token="@ + c@,
        (None, Some(l)) => "?page_size="@ + dec_nat(l as nat),
        (None, None) => Seq::empty(),
    }
}

pub fn list_tasks_path(req: &ListTasksRequest) -> (r: String)
    ensures
        r@ == list_path_v(*req),
{
    let mut p = crate::text::lit("/open-apis/task/v2/tasks");
    match (&req.cursor, req.limit) {
        (Some(c), Some(l)) => {
            crate::text::push_str(&mut p, "?page_token=");
            crate::text::push_str(&mut p, c.as_str());
            crate::text::push_str(&mut p, "&page_size=");
            let n = crate::text::fmt_u64(l as u64);
            crate::text::push_str(&mut p, n.as_str());
        },
        (Some(c), None) => {
            crate::text::push_str(&mut p, "?page_token=");
            crate::text::push_str(&mut p, c.as_str());
        },
        (None, Some(l)) => {
            crate::text::push_str(&mut p, "?page_size=");
            let n = crate::text::fmt_u64(l as u64);
            crate::text::push_str(&mut p, n.as_str());
        },
        (None, None) => {},
    }
    p
}

/// A page of tasks from the reply's items, `has_more` (false where absent) and page
/// token.
pub fn tasks_page(items: Vec<LarkTask>, has_more: Option<bool>, page_token: Option<String>) -> (r: Page<Task>)
    ensures
        r.items@.len() == items@.len(),
        forall|i: int| 0 <= i < items@.len() ==> is_task_of(#[trigger] r.items@[i], items@[i]),
        r.has_more == (has_more == Some(true)),
        r.next_cursor == page_token,
{
    let mut out: Vec<Task> = Vec::new();
    let ghost all = items@;
    for t in it: items.into_iter()
        invariant
            it.seq() == all,
            out@.len() == it.index(),
            forall|k: int| 0 <= k < out@.len() ==> is_task_of(#[trigger] out@[k], all[k]),
    {
        out.push(task_from_lark(t));
    }
    let more = match has_more {
        Some(b) => b,
        None => false,
    };
    Page { items: out, has_more: more, next_cursor: page_token }
}

/// The path of one task.
pub fn task_path(task_id: &str) -> (r: String)
    ensures
        r@ == "/open-apis/task/v2/tasks/"@ + task_id@,
{
    crate::text::concat2("/open-apis/task/v2/tasks/", task_id)
}

/// The body of an update at the instant `now`: only what the request changes; a task
/// marked done is completed now.
pub open spec fn update_body_v(req: UpdateTaskRequest, now: i64) -> JsonV {
    JsonV::Obj(
        (match req.title {
            Some(t) => seq![("summary"@, JsonV::Str(t@))],
            None => Seq::empty(),
        }) + (match req.description {
            Some(d) => seq![("description"@, JsonV::Str(d@))],
            None => Seq::empty(),
        }) + (match req.due_time {
            Some(d) => seq![("due"@, due_v(d))],
            None => Seq::empty(),
        }) + (if req.status == Some(TaskStatus::Done) {
            seq![("completed_at"@, JsonV::Str(dec_int(now / 1000)))]
        } else {
            Seq::empty()
        }),
    )
}

pub fn update_task_request_at(client: &LarkClient, req: &UpdateTaskRequest, now: i64) -> (r: Result<
    HttpRequest,
    ImError,
>)
    ensures
        authed_result(*client, r, Method::Put, "/open-apis/task/v2/tasks/"@ + req.task_id@, Some(update_body_v(*req, now))),
{
    broadcast use crate::json::group_json;

    let mut m: Vec<(String, Json)> = Vec::new();
    match &req.title {
        Some(t) => put(&mut m, "summary", Json::Str(t.clone())),
        None => {},
    }
    match &req.description {
        Some(d) => put(&mut m, "description", Json::Str(d.clone())),
        None => {},
    }
    match req.due_time {
        Some(d) => put(&mut m, "due", due_json(d)),
        None => {},
    }
    let done = match req.status {
        Some(TaskStatus::Done) => true,
        _ => false,
    };
    if done {
        let secs = crate::lark::messaging::millis_to_secs(now);
        put(&mut m, "completed_at", Json::Str(crate::text::fmt_i64(secs)));
    }
    assert(jv_members(m@) =~= update_body_v(*req, now)->Obj_0);
    let p = task_path(req.task_id.as_str());
    client.put(p.as_str(), Json::Obj(m))
}

/// The update request at the current instant.
pub fn update_task_request(client: &LarkClient, req: &UpdateTaskRequest) -> (r: Result<
    HttpRequest,
    ImError,
>)
    ensures
        (r matches Err(e) && e matches ImError::Internal(t) && t@ == crate::time::clock_error_text())
            || exists|now: i64|
            authed_result(
                *client,
                r,
                Method::Put,
                "/open-apis/task/v2/tasks/"@ + req.task_id@,
                Some(#[trigger] update_body_v(*req, now)),
            ),
{
    let now = match crate::time::now_millis() {
        Some(t) => t,
        None => {
            return Err(crate::time::clock_error());
        },
    };
    update_task_request_at(client, req, now)
}

} // verus!
