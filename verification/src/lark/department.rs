//! Lark departments: children of a department, a department, its members.

use crate::lark::contact::{is_user_of, user_from_lark, LarkUser};
use crate::model::{DepartmentDetail, ListDepartmentMembersRequest, ListDepartmentsRequest, Page, User};
use crate::text::{dec_nat, opt_param, or_empty, or_text, parse_i64_spec};
use vstd::prelude::*;

verus! {

/// The listing path of a department's children: the root `0` where no parent is
/// given, the page size (50 by default), then the cursor.
pub open spec fn children_path_v(req: ListDepartmentsRequest) -> Seq<char> {
    "/open-apis/contact/v3/departments/"@ + or_text(req.parent_id, "0"@) + "/children?page_size="@
        + dec_nat(
        match req.limit {
            Some(l) => l as nat,
            None => 50,
        },
    ) + opt_param("&page_token="@, req.cursor)
}

pub fn children_path(req: &ListDepartmentsRequest) -> (r: String)
    ensures
        r@ == children_path_v(*req),
{
    let mut p = crate::text::lit("/open-apis/contact/v3/departments/");
    let parent = crate::text::unwrap_or_text(req.parent_id.clone(), "0");
    crate::text::push_str(&mut p, parent.as_str());
    crate::text::push_str(&mut p, "/children?page_size=");
    let limit: u32 = match req.limit {
        Some(l) => l,
        None => 50,
    };
    let n = crate::text::fmt_u64(limit as u64);
    crate::text::push_str(&mut p, n.as_str());
    crate::text::push_opt(&mut p, "&page_token=", &req.cursor);
    p
}

/// A department as Lark gives it.
pub struct LarkDept {
    pub department_id: Option<String>,
    pub open_department_id: Option<String>,
    pub name: Option<String>,
    pub parent_department_id: Option<String>,
    /// A decimal text.
    pub order: Option<String>,
    pub member_count: Option<u32>,
    pub has_child: Option<bool>,
}

/// What a Lark department says of a department: its open id, else its id; its order
/// where the text is a number.
pub open spec fn is_department_of(r: DepartmentDetail, d: LarkDept) -> bool {
    &&& r.id@ == match d.open_department_id {
        Some(o) => o@,
        None => or_empty(d.department_id),
    }
    &&& r.name@ == or_empty(d.name)
    &&& r.parent_id == d.parent_department_id
    &&& r.order == match d.order {
        Some(s) => parse_i64_spec(s@),
        None => None,
    }
    &&& r.member_count == d.member_count
    &&& r.has_children == d.has_child
}

pub fn department_from_lark(d: LarkDept) -> (r: DepartmentDetail)
    ensures
        is_department_of(r, d),
{
    let order = match &d.order {
        Some(s) => crate::text::parse_i64(s.as_str()),
        None => None,
    };
    let id = match d.open_department_id {
        Some(o) => o,
        None => crate::text::unwrap_or_empty(d.department_id),
    };
    DepartmentDetail {
        id,
        name: crate::text::unwrap_or_empty(d.name),
        parent_id: d.parent_department_id,
        order,
        member_count: d.member_count,
        has_children: d.has_child,
    }
}

/// A page of departments from the reply's items.
pub fn departments_page(items: Vec<LarkDept>, has_more: Option<bool>, page_token: Option<String>) -> (r:
    Page<DepartmentDetail>)
    ensures
        r.items@.len() == items@.len(),
        forall|i: int| 0 <= i < items@.len() ==> is_department_of(#[trigger] r.items@[i], items@[i]),
        r.has_more == (has_more == Some(true)),
        r.next_cursor == page_token,
{
    let mut out: Vec<DepartmentDetail> = Vec::new();
    let ghost all = items@;
    for d in it: items.into_iter()
        invariant
            it.seq() == all,
            out@.len() == it.index(),
            forall|k: int| 0 <= k < out@.len() ==> is_department_of(#[trigger] out@[k], all[k]),
    {
        out.push(department_from_lark(d));
    }
    let more = match has_more {
        Some(b) => b,
        None => false,
    };
    Page { items: out, has_more: more, next_cursor: page_token }
}

/// The path of one department.
pub fn department_path(id: &str) -> (r: String)
    ensures
        r@ == "/open-apis/contact/v3/departments/"@ + id@,
{
    crate::text::concat2("/open-apis/contact/v3/departments/", id)
}

/// The listing path of a department's members: the page size (50 by default), then
/// the cursor.
pub open spec fn members_path_v(req: ListDepartmentMembersRequest) -> Seq<char> {
    "/open-apis/contact/v3/users/find_by_department?department_id="@ + req.department_id@
        + "&page_size="@ + dec_nat(
        match req.limit {
            Some(l) => l as nat,
            None => 50,
        },
    ) + opt_param("&page_token="@, req.cursor)
}

pub fn members_path(req: &ListDepartmentMembersRequest) -> (r: String)
    ensures
        r@ == members_path_v(*req),
{
    let mut p = crate::text::lit("/open-apis/contact/v3/users/find_by_department?department_id=");
    crate::text::push_str(&mut p, req.department_id.as_str());
    crate::text::push_str(&mut p, "&page_size=");
    let limit: u32 = match req.limit {
        Some(l) => l,
        None => 50,
    };
    let n = crate::text::fmt_u64(limit as u64);
    crate::text::push_str(&mut p, n.as_str());
    crate::text::push_opt(&mut p, "&page_token=", &req.cursor);
    p
}

/// A page of users from the reply's items.
pub fn users_page(items: Vec<LarkUser>, has_more: Option<bool>, page_token: Option<String>) -> (r: Page<User>)
    ensures
        r.items@.len() == items@.len(),
        forall|i: int| 0 <= i < items@.len() ==> is_user_of(#[trigger] r.items@[i], items@[i]),
        r.has_more == (has_more == Some(true)),
        r.next_cursor == page_token,
{
    let more = match has_more {
        Some(b) => b,
        None => false,
    };
    Page { items: crate::lark::contact::users_from_lark(items), has_more: more, next_cursor: page_token }
}

} // verus!
