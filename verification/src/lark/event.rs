//! Lark events: subscriptions live in the developer console; the event types known.

use crate::model::ImError;
use vstd::prelude::*;

verus! {

/// What Lark's event API does not offer, by operation: registering, listing and
/// deleting subscriptions, and polling.
pub open spec fn unsupported_feature(op: Seq<char>) -> Seq<char> {
    if op == "register_callback"@ {
        "register_callback (configure callback URL in Lark developer console)"@
    } else if op == "list_subscriptions"@ {
        "list_subscriptions (manage subscriptions in Lark developer console)"@
    } else if op == "delete_subscription"@ {
        "delete_subscription (manage subscriptions in Lark developer console)"@
    } else {
        "poll_events (use Lark WebSocket client for real-time events)"@
    }
}

pub fn event_unsupported(op: &str) -> (e: ImError)
    ensures
        e matches ImError::NotSupported { feature: f, platform: p } && f@ == unsupported_feature(op@)
            && p@ == "lark"@,
{
    if crate::text::str_eq(op, "register_callback") {
        crate::http::not_supported("register_callback (configure callback URL in Lark developer console)", "lark")
    } else if crate::text::str_eq(op, "list_subscriptions") {
        crate::http::not_supported("list_subscriptions (manage subscriptions in Lark developer console)", "lark")
    } else if crate::text::str_eq(op, "delete_subscription") {
        crate::http::not_supported("delete_subscription (manage subscriptions in Lark developer console)", "lark")
    } else {
        crate::http::not_supported("poll_events (use Lark WebSocket client for real-time events)", "lark")
    }
}

/// The event types Lark delivers.
pub open spec fn event_types_v() -> Seq<Seq<char>> {
    seq![
        "im.message.receive_v1"@,
        "im.message.message_read_v1"@,
        "im.chat.disbanded_v1"@,
        "im.chat.updated_v1"@,
        "im.chat.member.bot.added_v1"@,
        "im.chat.member.bot.deleted_v1"@,
        "im.chat.member.user.added_v1"@,
        "im.chat.member.user.deleted_v1"@,
        "contact.user.created_v3"@,
        "contact.user.deleted_v3"@,
        "contact.user.updated_v3"@,
        "contact.department.created_v3"@,
        "contact.department.deleted_v3"@,
        "contact.department.updated_v3"@,
        "calendar.calendar.acl.created_v4"@,
        "calendar.calendar.event.changed_v4"@,
        "approval.instance.status_updated"@,
        "drive.file.permission_member_added_v1"@,
        "vc.meeting.meeting_started_v1"@,
        "vc.meeting.meeting_ended_v1"@,
    ]
}

/// The event types Lark delivers, in a fixed order.
pub fn list_event_types() -> (r: Vec<String>)
    ensures
        r@.map_values(|s: String| s@) == event_types_v(),
{
    let mut v: Vec<String> = Vec::new();
    v.push("im.message.receive_v1".to_string());
    v.push("im.message.message_read_v1".to_string());
    v.push("im.chat.disbanded_v1".to_string());
    v.push("im.chat.updated_v1".to_string());
    v.push("im.chat.member.bot.added_v1".to_string());
    v.push("im.chat.member.bot.deleted_v1".to_string());
    v.push("im.chat.member.user.added_v1".to_string());
    v.push("im.chat.member.user.deleted_v1".to_string());
    v.push("contact.user.created_v3".to_string());
    v.push("contact.user.deleted_v3".to_string());
    v.push("contact.user.updated_v3".to_string());
    v.push("contact.department.created_v3".to_string());
    v.push("contact.department.deleted_v3".to_string());
    v.push("contact.department.updated_v3".to_string());
    v.push("calendar.calendar.acl.created_v4".to_string());
    v.push("calendar.calendar.event.changed_v4".to_string());
    v.push("approval.instance.status_updated".to_string());
    v.push("drive.file.permission_member_added_v1".to_string());
    v.push("vc.meeting.meeting_started_v1".to_string());
    v.push("vc.meeting.meeting_ended_v1".to_string());
    assert(v@.map_values(|s: String| s@) =~= event_types_v());
    v
}

} // verus!
