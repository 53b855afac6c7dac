//! WeCom group chats: the application API offers none of these operations.

use crate::model::ImError;
use vstd::prelude::*;

verus! {

/// The group operations of the service.
#[derive(Clone, Copy, PartialEq, Eq, Structural)]
pub enum GroupOp {
    Create,
    Search,
    Get,
    GetMembers,
    AddMembers,
    RemoveMembers,
}

/// The feature named in the refusal of each operation.
pub open spec fn group_feature(op: GroupOp) -> Seq<char> {
    match op {
        GroupOp::Create => "create_group"@,
        GroupOp::Search => "search_groups (use list_messages chat_list instead)"@,
        GroupOp::Get => "get_group"@,
        GroupOp::GetMembers => "get_members"@,
        GroupOp::AddMembers => "add_members"@,
        GroupOp::RemoveMembers => "remove_members"@,
    }
}

/// Every group operation is refused as not supported on WeCom.
pub fn group_unsupported(op: GroupOp) -> (e: ImError)
    ensures
        e matches ImError::NotSupported { feature: f, platform: p } && f@ == group_feature(op) && p@
            == "wecom"@,
{
    let feature = match op {
        GroupOp::Create => "create_group",
        GroupOp::Search => "search_groups (use list_messages chat_list instead)",
        GroupOp::Get => "get_group",
        GroupOp::GetMembers => "get_members",
        GroupOp::AddMembers => "add_members",
        GroupOp::RemoveMembers => "remove_members",
    };
    crate::http::not_supported(feature, "wecom")
}

} // verus!
