//! DingTalk contacts and departments: users, departments and their members.

use crate::dingtalk::client::DingTalkClient;
use crate::http::{HttpRequest, Method};
use crate::json::{jv_members, put, str_arr, Json, JsonV};
use crate::model::{
    Department, DepartmentDetail, ImError, ListDepartmentMembersRequest, Page, User,
};
use crate::text::{count_or, dec_int, or_empty, or_text};
use vstd::prelude::*;

verus! {

/// A department of a user as DingTalk gives it.
pub struct DtDept {
    pub dept_id: Option<String>,
    pub dept_name: Option<String>,
}

/// A user as DingTalk gives it.
pub struct DtUser {
    pub user_id: Option<String>,
    pub name: Option<String>,
    pub email: Option<String>,
    pub mobile: Option<String>,
    pub org_auth_email: Option<String>,
    pub depts: Vec<DtDept>,
}

pub open spec fn or_opt(a: Option<String>, b: Option<String>) -> Option<String> {
    match a {
        Some(x) => Some(x),
        None => b,
    }
}

/// What a DingTalk user says of a user: the email, else the organisation's email.
pub open spec fn is_user_of(r: User, u: DtUser) -> bool {
    &&& r.id@ == or_empty(u.user_id)
    &&& r.name@ == or_empty(u.name)
    &&& r.email == or_opt(u.email, u.org_auth_email)
    &&& r.phone == u.mobile
    &&& r.avatar is None
    &&& r.departments@.len() == u.depts@.len()
    &&& forall|i: int|
        0 <= i < u.depts@.len() ==> (#[trigger] r.departments@[i]).id@ == or_empty(u.depts@[i].dept_id)
            && r.departments@[i].name@ == or_empty(u.depts@[i].dept_name) && r.departments@[i].parent_id
            is None
    &&& r.extra@ == JsonV::Null
}

pub fn user_from_dt(u: DtUser) -> (r: User)
    ensures
        is_user_of(r, u),
{
    let email = match u.email {
        Some(e) => Some(e),
        None => u.org_auth_email,
    };
    let mut departments: Vec<Department> = Vec::new();
    let ghost all = u.depts@;
    for d in it: u.depts.into_iter()
        invariant
            it.seq() == all,
            departments@.len() == it.index(),
            forall|k: int|
                0 <= k < departments@.len() ==> (#[trigger] departments@[k]).id@ == or_empty(all[k].dept_id)
                    && departments@[k].name@ == or_empty(all[k].dept_name) && departments@[k].parent_id is None,
    {
        departments.push(
            Department {
                id: crate::text::unwrap_or_empty(d.dept_id),
                name: crate::text::unwrap_or_empty(d.dept_name),
                parent_id: None,
            },
        );
    }
    User {
        id: crate::text::unwrap_or_empty(u.user_id),
        name: crate::text::unwrap_or_empty(u.name),
        email,
        phone: u.mobile,
        avatar: None,
        departments,
        extra: Json::Null,
    }
}

pub fn users_from_dt(items: Vec<DtUser>) -> (r: Vec<User>)
    ensures
        r@.len() == items@.len(),
        forall|i: int| 0 <= i < items@.len() ==> is_user_of(#[trigger] r@[i], items@[i]),
{
    let mut out: Vec<User> = Vec::new();
    let ghost all = items@;
    for u in it: items.into_iter()
        invariant
            it.seq() == all,
            out@.len() == it.index(),
            forall|k: int| 0 <= k < out@.len() ==> is_user_of(#[trigger] out@[k], all[k]),
    {
        out.push(user_from_dt(u));
    }
    out
}

/// The search request: only the keyword is sent; the result is one page.
pub fn search_users_request(client: &DingTalkClient, keyword: &str) -> (r: Result<HttpRequest, ImError>)
    ensures
        r is Ok <==> client.access_token is Some,
        r matches Ok(q) ==> q.method == Method::Post && q.url@ == client.base_url@
            + "/v1.0/contact/users/search"@ && (q.body matches Some(b) && b@ == JsonV::Obj(
            seq![("keyword"@, JsonV::Str(keyword@))],
        )),
{
    client.post("/v1.0/contact/users/search", crate::json::obj1("keyword", crate::json::jstr(keyword)))
}

/// The lookup of users by id.
pub fn get_users_request(client: &DingTalkClient, user_ids: &Vec<String>) -> (r: Result<HttpRequest, ImError>)
    ensures
        r is Ok <==> client.access_token is Some,
        r matches Ok(q) ==> q.method == Method::Post && q.url@ == client.base_url@
            + "/v1.0/contact/users/get"@ && (q.body matches Some(b) && b@ == JsonV::Obj(
            seq![("userIds"@, JsonV::Arr(str_arr(user_ids@)))],
        )),
{
    client.post("/v1.0/contact/users/get", crate::json::obj1("userIds", crate::json::jstrs(user_ids)))
}

/// A department as DingTalk gives it.
pub struct DtDepartment {
    pub dept_id: Option<i64>,
    pub name: Option<String>,
    pub parent_id: Option<i64>,
    pub order: Option<i64>,
    pub member_count: Option<u32>,
    pub has_sub_dept: Option<bool>,
}

/// What a DingTalk department says of a department: ids as decimal text.
pub open spec fn is_department_of(r: DepartmentDetail, d: DtDepartment) -> bool {
    &&& r.id@ == match d.dept_id {
        Some(id) => dec_int(id as int),
        None => Seq::empty(),
    }
    &&& r.name@ == or_empty(d.name)
    &&& match d.parent_id {
        Some(p) => r.parent_id matches Some(x) && x@ == dec_int(p as int),
        None => r.parent_id is None,
    }
    &&& r.order == d.order
    &&& r.member_count == d.member_count
    &&& r.has_children == d.has_sub_dept
}

pub fn department_from_dt(d: DtDepartment) -> (r: DepartmentDetail)
    ensures
        is_department_of(r, d),
{
    DepartmentDetail {
        id: match d.dept_id {
            Some(id) => crate::text::fmt_i64(id),
            None => String::new(),
        },
        name: crate::text::unwrap_or_empty(d.name),
        parent_id: match d.parent_id {
            Some(p) => Some(crate::text::fmt_i64(p)),
            None => None,
        },
        order: d.order,
        member_count: d.member_count,
        has_children: d.has_sub_dept,
    }
}

/// The path of a department's sub-department ids (the root `1` where no parent is
/// given).
pub fn sub_departments_path(parent_id: &Option<String>) -> (r: String)
    ensures
        r@ == "/v1.0/contact/departments/"@ + or_text(*parent_id, "1"@) + "/listSubDepartmentIds"@,
{
    let mut p = crate::text::lit("/v1.0/contact/departments/");
    let parent = crate::text::unwrap_or_text(parent_id.clone(), "1");
    crate::text::push_str(&mut p, parent.as_str());
    crate::text::push_str(&mut p, "/listSubDepartmentIds");
    p
}

/// The path of one department.
pub fn department_path(id: &str) -> (r: String)
    ensures
        r@ == "/v1.0/contact/departments/"@ + id@,
{
    crate::text::concat2("/v1.0/contact/departments/", id)
}

/// What stands for a sub-department whose details could not be read: its id under
/// the parent, nothing else known.
pub open spec fn stub_of(r: DepartmentDetail, id: i64, parent: Seq<char>) -> bool {
    r.id@ == dec_int(id as int) && r.name@ == Seq::<char>::empty() && (r.parent_id matches Some(p)
        && p@ == parent) && r.order is None && r.member_count is None && r.has_children is None
}

/// The listing of sub-departments: each one's details where they could be read, else
/// a stub under the parent (the root `1` where none was given); one page.
pub fn departments_page(
    parent_id: &Option<String>,
    ids: Vec<i64>,
    details: Vec<Option<DtDepartment>>,
) -> (r: Page<DepartmentDetail>)
    requires
        ids@.len() == details@.len(),
    ensures
        r.items@.len() == ids@.len(),
        forall|i: int|
            0 <= i < ids@.len() ==> match details@[i] {
                Some(d) => is_department_of(#[trigger] r.items@[i], d),
                None => stub_of(r.items@[i], ids@[i], or_text(*parent_id, "1"@)),
            },
        !r.has_more,
        r.next_cursor is None,
{
    let parent = crate::text::unwrap_or_text(parent_id.clone(), "1");
    let mut out: Vec<DepartmentDetail> = Vec::new();
    let ghost all = details@;
    let mut rest = details;
    let mut i: usize = 0;
    while i < ids.len()
        invariant
            all.len() == ids@.len(),
            i <= ids@.len(),
            rest@ == all.skip(i as int),
            parent@ == or_text(*parent_id, "1"@),
            out@.len() == i,
            forall|k: int|
                0 <= k < out@.len() ==> match all[k] {
                    Some(x) => is_department_of(#[trigger] out@[k], x),
                    None => stub_of(out@[k], ids@[k], or_text(*parent_id, "1"@)),
                },
        decreases ids@.len() - i,
    {
        let d = rest.remove(0);
        assert(d == all[i as int]);
        assert(rest@ =~= all.skip(i + 1));
        match d {
            Some(x) => out.push(department_from_dt(x)),
            None => out.push(
                DepartmentDetail {
                    id: crate::text::fmt_i64(ids[i]),
                    name: String::new(),
                    parent_id: Some(parent.clone()),
                    order: None,
                    member_count: None,
                    has_children: None,
                },
            ),
        }
        i = i + 1;
    }
    Page { items: out, has_more: false, next_cursor: None }
}

/// The body of a members listing: the department, the cursor (`0` by default) and
/// the size (100 by default).
pub open spec fn members_body_v(req: ListDepartmentMembersRequest) -> JsonV {
    JsonV::Obj(
        seq![
            ("departmentIds"@, JsonV::Arr(seq![JsonV::Str(req.department_id@)])),
            ("cursor"@, JsonV::Str(or_text(req.cursor, "0"@))),
            ("size"@, JsonV::Int(count_or(req.limit, 100))),
        ],
    )
}

pub fn members_request(client: &DingTalkClient, req: &ListDepartmentMembersRequest) -> (r: Result<
    HttpRequest,
    ImError,
>)
    ensures
        r is Ok <==> client.access_token is Some,
        r matches Ok(q) ==> q.method == Method::Post && q.url@ == client.base_url@
            + "/v1.0/contact/users/listByDepartmentIds"@ && (q.body matches Some(b) && b@ == members_body_v(
            *req,
        )),
{
    broadcast use crate::json::group_json;

    let mut ids: Vec<String> = Vec::new();
    ids.push(req.department_id.clone());
    let arr = crate::json::jstrs(&ids);
    proof {
        reveal_with_fuel(str_arr, 2);
        assert(str_arr(ids@) =~= seq![JsonV::Str(req.department_id@)]);
    }
    let size: u32 = match req.limit {
        Some(l) => l,
        None => 100,
    };
    let mut m: Vec<(String, Json)> = Vec::new();
    put(&mut m, "departmentIds", arr);
    put(&mut m, "cursor", Json::Str(crate::text::unwrap_or_text(req.cursor.clone(), "0")));
    put(&mut m, "size", Json::Int(size as i64));
    assert(jv_members(m@) =~= members_body_v(*req)->Obj_0);
    client.post("/v1.0/contact/users/listByDepartmentIds", Json::Obj(m))
}

/// A member of a department as DingTalk gives it.
pub struct DtDeptUser {
    pub user_id: Option<String>,
    pub name: Option<String>,
    pub email: Option<String>,
    pub mobile: Option<String>,
    pub org_auth_email: Option<String>,
}

pub open spec fn is_member_of(r: User, u: DtDeptUser) -> bool {
    r.id@ == or_empty(u.user_id) && r.name@ == or_empty(u.name) && r.email == or_opt(u.email, u.org_auth_email)
        && r.phone == u.mobile && r.avatar is None && r.departments@.len() == 0 && r.extra@ == JsonV::Null
}

/// A page of members from the reply's list.
pub fn members_page(list: Vec<DtDeptUser>, has_more: Option<bool>, next_cursor: Option<String>) -> (r: Page<User>)
    ensures
        r.items@.len() == list@.len(),
        forall|i: int| 0 <= i < list@.len() ==> is_member_of(#[trigger] r.items@[i], list@[i]),
        r.has_more == (has_more == Some(true)),
        r.next_cursor == next_cursor,
{
    let mut out: Vec<User> = Vec::new();
    let ghost all = list@;
    for u in it: list.into_iter()
        invariant
            it.seq() == all,
            out@.len() == it.index(),
            forall|k: int| 0 <= k < out@.len() ==> is_member_of(#[trigger] out@[k], all[k]),
    {
        let email = match u.email {
            Some(e) => Some(e),
            None => u.org_auth_email,
        };
        out.push(
            User {
                id: crate::text::unwrap_or_empty(u.user_id),
                name: crate::text::unwrap_or_empty(u.name),
                email,
                phone: u.mobile,
                avatar: None,
                departments: Vec::new(),
                extra: Json::Null,
            },
        );
    }
    let more = match has_more {
        Some(b) => b,
        None => false,
    };
    Page { items: out, has_more: more, next_cursor }
}

} // verus!
