//! WeCom departments and their members.

use crate::http::{code_of, HttpRequest, Method};
use crate::json::JsonV;
use crate::model::{
    Department, DepartmentDetail, ImError, ListDepartmentMembersRequest, ListDepartmentsRequest, Page,
    User,
};
use crate::text::{dec_int, or_empty, or_text};
use crate::wecom::client::{token_result, WeComClient};
use vstd::prelude::*;

verus! {

/// A department as WeCom gives it.
pub struct WcDepartment {
    pub id: Option<i64>,
    pub name: Option<String>,
    pub parentid: Option<i64>,
    pub order: Option<i64>,
}

/// A number as decimal text.
pub open spec fn num_text(n: Option<i64>) -> Option<Seq<char>> {
    match n {
        Some(v) => Some(dec_int(v as int)),
        None => None,
    }
}

pub open spec fn is_department_of(r: DepartmentDetail, d: WcDepartment) -> bool {
    &&& r.id@ == match d.id {
        Some(v) => dec_int(v as int),
        None => Seq::empty(),
    }
    &&& r.name@ == or_empty(d.name)
    &&& crate::text::opt_view(r.parent_id) == num_text(d.parentid)
    &&& r.order == d.order
    &&& r.member_count is None
    &&& r.has_children is None
}

pub fn department_from_wc(d: WcDepartment) -> (r: DepartmentDetail)
    ensures
        is_department_of(r, d),
{
    let id = match d.id {
        Some(v) => crate::text::fmt_i64(v),
        None => String::new(),
    };
    let parent_id = match d.parentid {
        Some(v) => Some(crate::text::fmt_i64(v)),
        None => None,
    };
    DepartmentDetail {
        id,
        name: crate::text::unwrap_or_empty(d.name),
        parent_id,
        order: d.order,
        member_count: None,
        has_children: None,
    }
}

/// The listing path: the parent department, `0` (the root) where none is given.
pub open spec fn list_path_v(req: ListDepartmentsRequest) -> Seq<char> {
    "/cgi-bin/department/list?id="@ + match req.parent_id {
        Some(p) => p@,
        None => "0"@,
    }
}

pub fn list_departments_request(client: &WeComClient, req: &ListDepartmentsRequest) -> (r: Result<
    HttpRequest,
    ImError,
>)
    ensures
        token_result(*client, r, Method::Get, list_path_v(*req), None),
{
    let mut p = crate::text::lit("/cgi-bin/department/list?id=");
    match &req.parent_id {
        Some(id) => crate::text::push_str(&mut p, id.as_str()),
        None => crate::text::push_str(&mut p, "0"),
    }
    client.get(p.as_str())
}

/// The error-code part of a reply as WeCom gives it.
pub open spec fn errcode_result<T>(text: Seq<char>, errcode: Option<i64>, errmsg: Option<String>, r: Result<T, ImError>) -> bool {
    &&& (code_of(errcode) != 0 ==> (r matches Err(ImError::Platform { code: c, message: m }) && c
        == code_of(errcode) && m@ == or_text(errmsg, text)))
}

/// The reading of a department listing's reply, given as the error code, the message
/// and the departments: one final page of every department.
pub fn departments_reply(
    text: String,
    parsed: Result<(Option<i64>, Option<String>, Vec<WcDepartment>), String>,
) -> (r: Result<Page<DepartmentDetail>, ImError>)
    ensures
        parsed is Err ==> r == Err::<Page<DepartmentDetail>, ImError>(
            ImError::Serialization(parsed->Err_0),
        ),
        parsed matches Ok(d) ==> (r is Ok <==> code_of(d.0) == 0),
        parsed matches Ok(d) ==> errcode_result(text@, d.0, d.1, r),
        parsed matches Ok(d) ==> (r matches Ok(p) ==> p.items@.len() == d.2@.len() && (forall|i: int|
            0 <= i < d.2@.len() ==> is_department_of(#[trigger] p.items@[i], d.2@[i])) && !p.has_more
            && p.next_cursor is None),
{
    let (code, msg, items) = match parsed {
        Ok(d) => d,
        Err(e) => {
            return Err(ImError::Serialization(e));
        },
    };
    crate::http::check_code(code, msg, text)?;
    let mut out: Vec<DepartmentDetail> = Vec::new();
    let ghost all = items@;
    for d in it: items.into_iter()
        invariant
            it.seq() == all,
            out@.len() == it.index(),
            forall|k: int| 0 <= k < out@.len() ==> is_department_of(#[trigger] out@[k], all[k]),
    {
        out.push(department_from_wc(d));
    }
    Ok(Page { items: out, has_more: false, next_cursor: None })
}

pub fn department_request(client: &WeComClient, department_id: &str) -> (r: Result<HttpRequest, ImError>)
    ensures
        token_result(*client, r, Method::Get, "/cgi-bin/department/get?id="@ + department_id@, None),
{
    let p = crate::text::concat2("/cgi-bin/department/get?id=", department_id);
    client.get(p.as_str())
}

/// The reading of a department lookup's reply: the department, or not found
/// ("department <id>") where the reply has none.
pub fn department_reply(
    department_id: &str,
    text: String,
    parsed: Result<(Option<i64>, Option<String>, Option<WcDepartment>), String>,
) -> (r: Result<DepartmentDetail, ImError>)
    ensures
        parsed is Err ==> r == Err::<DepartmentDetail, ImError>(ImError::Serialization(parsed->Err_0)),
        parsed matches Ok(d) ==> errcode_result(text@, d.0, d.1, r),
        parsed matches Ok(d) ==> (code_of(d.0) == 0 && d.2 is None ==> (r matches Err(
            ImError::NotFound { resource: res },
        ) && res@ == "department "@ + department_id@)),
        parsed matches Ok(d) ==> (code_of(d.0) == 0 && d.2 is Some ==> (r matches Ok(x)
            && is_department_of(x, d.2->Some_0))),
{
    let (code, msg, dept) = match parsed {
        Ok(d) => d,
        Err(e) => {
            return Err(ImError::Serialization(e));
        },
    };
    crate::http::check_code(code, msg, text)?;
    match dept {
        Some(d) => Ok(department_from_wc(d)),
        None => Err(
            ImError::NotFound { resource: crate::text::concat2("department ", department_id) },
        ),
    }
}

/// A department member as WeCom gives it.
pub struct WcMember {
    pub userid: Option<String>,
    pub name: Option<String>,
    pub email: Option<String>,
    pub mobile: Option<String>,
    pub avatar: Option<String>,
    pub department: Vec<i64>,
}

/// A member: each department id as a department known only by its id.
pub open spec fn is_member_of(r: User, u: WcMember) -> bool {
    &&& r.id@ == or_empty(u.userid)
    &&& r.name@ == or_empty(u.name)
    &&& r.email == u.email
    &&& r.phone == u.mobile
    &&& r.avatar == u.avatar
    &&& r.departments@.len() == u.department@.len()
    &&& forall|i: int|
        0 <= i < u.department@.len() ==> (#[trigger] r.departments@[i]).id@ == dec_int(
            u.department@[i] as int,
        ) && r.departments@[i].name@ == Seq::<char>::empty() && r.departments@[i].parent_id is None
    &&& r.extra@ == JsonV::Null
}

pub fn member_from_wc(u: WcMember) -> (r: User)
    ensures
        is_member_of(r, u),
{
    let mut depts: Vec<Department> = Vec::new();
    let ghost all = u.department@;
    for d in it: u.department.into_iter()
        invariant
            it.seq() == all,
            depts@.len() == it.index(),
            forall|k: int|
                0 <= k < depts@.len() ==> (#[trigger] depts@[k]).id@ == dec_int(all[k] as int)
                    && depts@[k].name@ == Seq::<char>::empty() && depts@[k].parent_id is None,
    {
        depts.push(Department { id: crate::text::fmt_i64(d), name: String::new(), parent_id: None });
    }
    User {
        id: crate::text::unwrap_or_empty(u.userid),
        name: crate::text::unwrap_or_empty(u.name),
        email: u.email,
        phone: u.mobile,
        avatar: u.avatar,
        departments: depts,
        extra: crate::json::Json::Null,
    }
}

/// The path of a department's direct members.
pub fn members_request(client: &WeComClient, req: &ListDepartmentMembersRequest) -> (r: Result<
    HttpRequest,
    ImError,
>)
    ensures
        token_result(
            *client,
            r,
            Method::Get,
            "/cgi-bin/user/list?department_id="@ + req.department_id@ + "&fetch_child=0"@,
            None,
        ),
{
    let mut p = crate::text::lit("/cgi-bin/user/list?department_id=");
    crate::text::push_str(&mut p, req.department_id.as_str());
    crate::text::push_str(&mut p, "&fetch_child=0");
    client.get(p.as_str())
}

/// The reading of a member listing's reply: one final page of every member.
pub fn members_reply(text: String, parsed: Result<(Option<i64>, Option<String>, Vec<WcMember>), String>) -> (r:
    Result<Page<User>, ImError>)
    ensures
        parsed is Err ==> r == Err::<Page<User>, ImError>(ImError::Serialization(parsed->Err_0)),
        parsed matches Ok(d) ==> (r is Ok <==> code_of(d.0) == 0),
        parsed matches Ok(d) ==> errcode_result(text@, d.0, d.1, r),
        parsed matches Ok(d) ==> (r matches Ok(p) ==> p.items@.len() == d.2@.len() && (forall|i: int|
            0 <= i < d.2@.len() ==> is_member_of(#[trigger] p.items@[i], d.2@[i])) && !p.has_more
            && p.next_cursor is None),
{
    let (code, msg, items) = match parsed {
        Ok(d) => d,
        Err(e) => {
            return Err(ImError::Serialization(e));
        },
    };
    crate::http::check_code(code, msg, text)?;
    let mut out: Vec<User> = Vec::new();
    let ghost all = items@;
    for u in it: items.into_iter()
        invariant
            it.seq() == all,
            out@.len() == it.index(),
            forall|k: int| 0 <= k < out@.len() ==> is_member_of(#[trigger] out@[k], all[k]),
    {
        out.push(member_from_wc(u));
    }
    Ok(Page { items: out, has_more: false, next_cursor: None })
}

} // verus!
