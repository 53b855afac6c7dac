//! The platform-neutral data model shared by every provider.

use crate::json::Json;
use vstd::prelude::*;

verus! {

/// The failure of an IM operation.
#[derive(Debug)]
pub enum ImError {
    Auth { message: String },
    NotFound { resource: String },
    RateLimited { retry_after_secs: Option<u64> },
    Platform { code: i64, message: String },
    InvalidParam { message: String },
    NotSupported { feature: String, platform: String },
    Network(String),
    Internal(String),
    /// A reply that could not be read as the expected JSON.
    Serialization(String),
}

#[derive(Debug, Clone, Copy, PartialEq, Eq, Structural)]
pub enum Platform {
    DingTalk,
    WeCom,
    Lark,
}

/// The optional services a provider may offer beside authentication, which every
/// provider offers.
#[derive(Debug, Clone, Copy, PartialEq, Eq, Structural)]
pub enum Service {
    Messaging,
    MessageExt,
    Contact,
    Group,
    ChatList,
    Calendar,
    Task,
    Meeting,
    Media,
    Document,
}

/// The services that a DingTalk or Lark provider offers: messaging, contacts,
/// groups, calendars and tasks.
pub open spec fn core_services(s: Service) -> bool {
    ||| s == Service::Messaging
    ||| s == Service::Contact
    ||| s == Service::Group
    ||| s == Service::Calendar
    ||| s == Service::Task
}

/// Whether `s` is one of [`core_services`].
pub fn offers_core(s: Service) -> (r: bool)
    ensures
        r == core_services(s),
{
    match s {
        Service::Messaging | Service::Contact | Service::Group | Service::Calendar | Service::Task => true,
        _ => false,
    }
}

/// Where a message goes.
#[derive(Debug)]
pub enum ChatTarget {
    User(String),
    Group(String),
}

/// An application's credentials.
#[derive(Debug)]
pub struct Credentials {
    pub client_id: String,
    pub client_secret: String,
}

/// An access token and, where the platform says, when it expires (milliseconds since
/// the epoch) and how to refresh it.
#[derive(Debug)]
pub struct AccessToken {
    pub token: String,
    pub expires_at: Option<i64>,
    pub refresh_token: Option<String>,
}

/// One page of a listing.
#[derive(Debug)]
pub struct Page<T> {
    pub items: Vec<T>,
    pub has_more: bool,
    pub next_cursor: Option<String>,
}

#[derive(Debug)]
pub struct TextContent {
    pub text: String,
    pub mentions: Vec<String>,
}

#[derive(Debug)]
pub struct MarkdownContent {
    pub title: Option<String>,
    pub text: String,
}

#[derive(Debug)]
pub struct ImageContent {
    pub media_key: String,
    pub name: Option<String>,
    pub url: Option<String>,
}

#[derive(Debug)]
pub struct FileContent {
    pub media_key: String,
    pub name: Option<String>,
    pub size: Option<u64>,
    pub mime_type: Option<String>,
}

#[derive(Debug)]
pub struct AudioContent {
    pub media_key: String,
    pub duration_ms: Option<u64>,
}

#[derive(Debug)]
pub struct VideoContent {
    pub media_key: String,
    pub name: Option<String>,
    pub cover_key: Option<String>,
}

/// The body of a message.
#[derive(Debug)]
pub enum MessageContent {
    Text(TextContent),
    Markdown(MarkdownContent),
    Image(ImageContent),
    File(FileContent),
    Audio(AudioContent),
    Video(VideoContent),
    Card(Json),
    Unknown { msg_type: String, raw: Json },
}

/// Calls `format!` on `std::mem::discriminant` of the content, after `prefix`, to name
/// a type of content that cannot be sent. Nothing is claimed of the text.
#[verifier::external_body]
pub fn kind_text(prefix: &str, content: &MessageContent) -> (r: String) {
    format!("{}{:?}", prefix, std::mem::discriminant(content))
}

#[derive(Debug)]
pub struct MessageSender {
    pub id: String,
    pub name: Option<String>,
    pub is_bot: bool,
}

#[derive(Debug)]
pub struct Message {
    pub id: String,
    pub chat_id: String,
    pub sender: MessageSender,
    pub content: MessageContent,
    /// Milliseconds (Lark: as the platform gives it) since the epoch.
    pub timestamp: i64,
    pub extra: Json,
}

#[derive(Debug)]
pub struct SendMessageRequest {
    pub target: ChatTarget,
    pub content: MessageContent,
    pub bot_id: Option<String>,
    pub idempotency_key: Option<String>,
}

#[derive(Debug)]
pub struct SendMessageResponse {
    pub message_id: String,
    pub extra: Json,
}

#[derive(Debug)]
pub struct ListMessagesRequest {
    pub chat_id: String,
    pub start_time: Option<i64>,
    pub end_time: Option<i64>,
    pub cursor: Option<String>,
    pub limit: Option<u32>,
}

#[derive(Debug)]
pub struct RecallMessageRequest {
    pub message_id: String,
    pub bot_id: Option<String>,
    pub chat_id: Option<String>,
}

#[derive(Debug)]
pub struct WebhookMessageRequest {
    pub webhook_url: String,
    pub content: MessageContent,
    pub at_user_ids: Vec<String>,
    pub at_all: bool,
    pub secret: Option<String>,
}

#[derive(Debug)]
pub struct WebhookMessageResponse {
    pub success: bool,
    pub error_code: Option<i64>,
    pub error_message: Option<String>,
    pub extra: Json,
}

#[derive(Debug, Clone, Copy, PartialEq, Eq, Structural)]
pub enum TaskStatus {
    Pending,
    InProgress,
    Done,
    Deleted,
}

#[derive(Debug, Clone, Copy, PartialEq, Eq, Structural)]
pub enum TaskPriority {
    Low,
    Normal,
    High,
    Urgent,
}

#[derive(Debug)]
pub struct Task {
    pub id: String,
    pub title: String,
    pub description: Option<String>,
    pub status: TaskStatus,
    pub priority: TaskPriority,
    pub due_time: Option<i64>,
    pub assignees: Vec<String>,
    pub creator_id: Option<String>,
    pub created_at: Option<i64>,
    pub updated_at: Option<i64>,
    pub extra: Json,
}

#[derive(Debug)]
pub struct CreateTaskRequest {
    pub title: String,
    pub description: Option<String>,
    pub priority: TaskPriority,
    pub due_time: Option<i64>,
    pub assignee_ids: Vec<String>,
}

#[derive(Debug)]
pub struct UpdateTaskRequest {
    pub task_id: String,
    pub title: Option<String>,
    pub description: Option<String>,
    pub status: Option<TaskStatus>,
    pub priority: Option<TaskPriority>,
    pub due_time: Option<i64>,
}

#[derive(Debug)]
pub struct ListTasksRequest {
    pub status: Option<TaskStatus>,
    pub cursor: Option<String>,
    pub limit: Option<u32>,
}

#[derive(Debug, Clone, Copy, PartialEq, Eq, Structural)]
pub enum ApprovalStatus {
    Pending,
    Approved,
    Rejected,
    Cancelled,
    Deleted,
}

#[derive(Debug, Clone, Copy, PartialEq, Eq, Structural)]
pub enum ApprovalAction {
    Approve,
    Reject,
}

#[derive(Debug)]
pub struct ApprovalInstance {
    pub id: String,
    pub process_code: String,
    pub title: String,
    pub status: ApprovalStatus,
    pub initiator_id: String,
    pub form_data: Json,
    pub created_at: Option<i64>,
    pub finished_at: Option<i64>,
}

/// An approval to start.
#[derive(Debug)]
pub struct CreateApprovalRequest {
    pub process_code: String,
    pub initiator_id: String,
    pub form_data: Json,
    pub approvers: Vec<String>,
    pub cc_users: Vec<String>,
}

/// A listing of approvals (times in milliseconds since the epoch).
#[derive(Debug)]
pub struct ListApprovalRequest {
    pub process_code: Option<String>,
    pub start_time: Option<i64>,
    pub end_time: Option<i64>,
    pub cursor: Option<String>,
    pub limit: Option<u32>,
}

/// An approval decision.
#[derive(Debug)]
pub struct ApprovalActionRequest {
    pub instance_id: String,
    pub action: ApprovalAction,
    pub comment: Option<String>,
}

#[derive(Debug, Clone, Copy, PartialEq, Eq, Structural)]
pub enum CheckType {
    CheckIn,
    CheckOut,
}

#[derive(Debug, Clone, Copy, PartialEq, Eq, Structural)]
pub enum AttendanceResult {
    Normal,
    Late,
    EarlyLeave,
    Absent,
    NotSigned,
}

#[derive(Debug)]
pub struct AttendanceRecord {
    pub id: String,
    pub user_id: String,
    pub user_name: Option<String>,
    pub check_type: CheckType,
    pub check_time: Option<i64>,
    pub result: AttendanceResult,
    pub location: Option<String>,
}

/// A listing of attendance: users, a date range (each date as the UTC midnight in
/// milliseconds) and paging.
#[derive(Debug)]
pub struct ListAttendanceRequest {
    pub user_ids: Vec<String>,
    pub start_date: i64,
    pub end_date: i64,
    pub cursor: Option<String>,
    pub limit: Option<u32>,
}

/// A shift: its id, name and punch rules.
#[derive(Debug)]
pub struct AttendanceShift {
    pub id: String,
    pub name: String,
    pub schedule: Json,
}

/// An attendance summary; the overtime hours, a decimal, stay with the caller.
#[derive(Debug)]
pub struct AttendanceSummary {
    pub user_id: String,
    pub work_days: u32,
    pub late_count: u32,
    pub early_leave_count: u32,
    pub absent_count: u32,
}

#[derive(Debug)]
pub struct Department {
    pub id: String,
    pub name: String,
    pub parent_id: Option<String>,
}

#[derive(Debug)]
pub struct User {
    pub id: String,
    pub name: String,
    pub email: Option<String>,
    pub phone: Option<String>,
    pub avatar: Option<String>,
    pub departments: Vec<Department>,
    pub extra: Json,
}

#[derive(Debug)]
pub struct DepartmentDetail {
    pub id: String,
    pub name: String,
    pub parent_id: Option<String>,
    pub order: Option<i64>,
    pub member_count: Option<u32>,
    pub has_children: Option<bool>,
}

#[derive(Debug, Clone, Copy, PartialEq, Eq, Structural)]
pub enum AttendeeStatus {
    Accepted,
    Declined,
    Tentative,
    Unknown,
}

#[derive(Debug)]
pub struct EventAttendee {
    pub user_id: String,
    pub name: Option<String>,
    pub status: AttendeeStatus,
}

#[derive(Debug)]
pub struct CalendarEvent {
    pub id: String,
    pub title: String,
    pub description: Option<String>,
    pub start_time: i64,
    pub end_time: i64,
    pub location: Option<String>,
    pub is_all_day: bool,
    pub attendees: Vec<EventAttendee>,
    pub extra: Json,
}

/// An event to create (times in milliseconds since the epoch).
#[derive(Debug)]
pub struct CreateEventRequest {
    pub title: String,
    pub description: Option<String>,
    pub start_time: i64,
    pub end_time: i64,
    pub location: Option<String>,
    pub is_all_day: bool,
    pub attendee_ids: Vec<String>,
}

/// The changes to an event; only what is given changes.
#[derive(Debug)]
pub struct UpdateEventRequest {
    pub event_id: String,
    pub title: Option<String>,
    pub description: Option<String>,
    pub start_time: Option<i64>,
    pub end_time: Option<i64>,
    pub location: Option<String>,
}

/// A listing of events in a time range.
#[derive(Debug)]
pub struct ListEventsRequest {
    pub start_time: i64,
    pub end_time: i64,
    pub cursor: Option<String>,
    pub limit: Option<u32>,
}

/// A free/busy query for some users in a time range.
#[derive(Debug)]
pub struct FreeBusyRequest {
    pub user_ids: Vec<String>,
    pub start_time: i64,
    pub end_time: i64,
}

#[derive(Debug)]
pub struct BusySlot {
    pub user_id: String,
    pub start_time: i64,
    pub end_time: i64,
    pub subject: Option<String>,
}

#[derive(Debug, Clone, Copy, PartialEq, Eq, Structural)]
pub enum MemberRole {
    Owner,
    Admin,
    Member,
}

#[derive(Debug)]
pub struct GroupChat {
    pub id: String,
    pub name: String,
    pub owner_id: Option<String>,
    pub member_count: Option<u32>,
    pub description: Option<String>,
    pub extra: Json,
}

/// A listing of a department's children (the root, `"0"`, where no parent is given).
#[derive(Debug)]
pub struct ListDepartmentsRequest {
    pub parent_id: Option<String>,
    pub cursor: Option<String>,
    pub limit: Option<u32>,
}

/// A listing of a department's members.
#[derive(Debug)]
pub struct ListDepartmentMembersRequest {
    pub department_id: String,
    pub cursor: Option<String>,
    pub limit: Option<u32>,
}

/// A group to create.
#[derive(Debug)]
pub struct CreateGroupRequest {
    pub name: String,
    pub description: Option<String>,
    pub member_ids: Vec<String>,
}

/// Members to add to or remove from a group.
#[derive(Debug)]
pub struct ModifyMembersRequest {
    pub chat_id: String,
    pub user_ids: Vec<String>,
}

/// A search of groups by keyword.
#[derive(Debug)]
pub struct SearchGroupRequest {
    pub keyword: String,
    pub cursor: Option<String>,
    pub limit: Option<u32>,
}

#[derive(Debug)]
pub struct GroupMember {
    pub user_id: String,
    pub name: Option<String>,
    pub role: MemberRole,
}

#[derive(Debug)]
pub struct MeetingRoom {
    pub id: String,
    pub name: String,
    pub capacity: Option<u32>,
    pub location: Option<String>,
    pub has_video: Option<bool>,
    pub is_available: Option<bool>,
}

#[derive(Debug, Clone, Copy, PartialEq, Eq, Structural)]
pub enum EventSubscriptionStatus {
    Active,
    Inactive,
    Failed,
}

/// A callback registration.
#[derive(Debug)]
pub struct RegisterCallbackRequest {
    pub callback_url: String,
    pub event_types: Vec<String>,
    pub token: Option<String>,
    pub aes_key: Option<String>,
}

#[derive(Debug)]
pub struct EventSubscription {
    pub id: String,
    pub callback_url: Option<String>,
    pub event_types: Vec<String>,
    pub status: EventSubscriptionStatus,
}

#[derive(Debug)]
pub struct DataTable {
    pub id: String,
    pub name: String,
    pub revision: Option<i64>,
}

/// A base (an app of tables).
#[derive(Debug)]
pub struct DataBase {
    pub id: String,
    pub name: String,
    pub url: Option<String>,
    pub tables: Vec<DataTable>,
}

#[derive(Debug)]
pub struct CreateBaseRequest {
    pub name: String,
    pub folder_id: Option<String>,
}

#[derive(Debug)]
pub struct ListBasesRequest {
    pub cursor: Option<String>,
    pub limit: Option<u32>,
}

#[derive(Debug)]
pub struct CreateFieldRequest {
    pub name: String,
    pub field_type: String,
    pub property: Json,
}

#[derive(Debug)]
pub struct CreateTableRequest {
    pub base_id: String,
    pub name: String,
    pub fields: Vec<CreateFieldRequest>,
}

#[derive(Debug)]
pub struct DataRecord {
    pub id: String,
    pub fields: Json,
    pub created_at: Option<i64>,
}

#[derive(Debug)]
pub struct DataField {
    pub id: String,
    pub name: String,
    pub field_type: String,
    pub property: Json,
}

/// A row to write: with an id it is updated, without one it is created.
#[derive(Debug)]
pub struct RecordInput {
    pub id: Option<String>,
    pub fields: Json,
}

#[derive(Debug)]
pub struct WriteRecordsRequest {
    pub base_id: String,
    pub table_id: String,
    pub records: Vec<RecordInput>,
}

#[derive(Debug)]
pub struct ListRecordsRequest {
    pub base_id: String,
    pub table_id: String,
    pub view_id: Option<String>,
    pub filter: Option<String>,
    pub sort: Option<Json>,
    pub field_names: Vec<String>,
    pub cursor: Option<String>,
    pub limit: Option<u32>,
}

#[derive(Debug, Clone, Copy, PartialEq, Eq, Structural)]
pub enum MeetingStatus {
    Pending,
    Ongoing,
    Ended,
    Cancelled,
    Expired,
}

#[derive(Debug, Clone, Copy, PartialEq, Eq, Structural)]
pub enum MeetingType {
    Once,
    Recurring,
    Webinar,
    Other,
}

#[derive(Debug)]
pub struct MeetingAttendee {
    pub user_id: String,
    pub name: Option<String>,
    pub joined: bool,
    pub cumulative_time_secs: Option<u64>,
}

#[derive(Debug)]
pub struct MeetingSettings {
    pub password: Option<String>,
    pub enable_waiting_room: Option<bool>,
    pub allow_enter_before_host: Option<bool>,
    pub mute_on_entry: Option<bool>,
    pub allow_external_user: Option<bool>,
}

#[derive(Debug)]
pub struct Meeting {
    pub id: String,
    pub title: String,
    pub description: Option<String>,
    pub start_time: i64,
    pub duration_secs: u64,
    pub location: Option<String>,
    pub meeting_code: Option<String>,
    pub meeting_link: Option<String>,
    pub status: MeetingStatus,
    pub meeting_type: MeetingType,
    pub creator_id: Option<String>,
    pub attendees: Vec<MeetingAttendee>,
    pub settings: Option<MeetingSettings>,
    pub extra: Json,
}

#[derive(Debug)]
pub struct EmailAddress {
    pub address: String,
    pub name: Option<String>,
}

#[derive(Debug)]
pub struct EmailBody {
    pub content_type: String,
    pub content: String,
}

#[derive(Debug)]
pub struct Email {
    pub id: String,
    pub subject: String,
    pub from: EmailAddress,
    pub to: Vec<EmailAddress>,
    pub cc: Vec<EmailAddress>,
    pub bcc: Vec<EmailAddress>,
    pub body: EmailBody,
    pub is_read: Option<bool>,
    pub date: Option<i64>,
    pub attachments: Vec<EmailAttachment>,
}

/// A file attached to an email.
#[derive(Debug)]
pub struct EmailAttachment {
    pub filename: String,
    pub content_type: Option<String>,
    pub size: Option<u64>,
}

#[derive(Debug, Clone, Copy, PartialEq, Eq, Structural)]
pub enum MediaType {
    Image,
    File,
    Audio,
    Video,
}

/// An uploaded file or image.
#[derive(Debug)]
pub struct MediaInfo {
    pub media_key: String,
    pub name: Option<String>,
    pub size: Option<u64>,
    pub mime_type: Option<String>,
    pub media_type: MediaType,
    pub url: Option<String>,
}

/// A mail folder.
#[derive(Debug)]
pub struct Mailbox {
    pub id: String,
    pub name: String,
    pub total_count: Option<u32>,
    pub unread_count: Option<u32>,
}

#[derive(Debug)]
pub struct SendEmailRequest {
    pub subject: String,
    pub to: Vec<EmailAddress>,
    pub cc: Vec<EmailAddress>,
    pub bcc: Vec<EmailAddress>,
    pub body: EmailBody,
}

#[derive(Debug, Clone, Copy, PartialEq, Eq, Structural)]
pub enum ConversationType {
    Direct,
    Group,
    Unknown,
}

/// A listing of conversations, with activity between two instants (milliseconds
/// since the epoch) where given.
#[derive(Debug)]
pub struct ListConversationsRequest {
    pub start_time: Option<i64>,
    pub end_time: Option<i64>,
    pub cursor: Option<String>,
    pub limit: Option<u32>,
}

/// A conversation the user takes part in.
#[derive(Debug)]
pub struct Conversation {
    pub chat_id: String,
    pub name: String,
    pub chat_type: ConversationType,
    pub last_message_time: Option<i64>,
    pub message_count: Option<u64>,
    pub unread_count: Option<u64>,
    pub extra: Json,
}

/// A search of users by keyword.
#[derive(Debug)]
pub struct SearchUserRequest {
    pub keyword: String,
    pub cursor: Option<String>,
    pub limit: Option<u32>,
}

#[derive(Debug, Clone, Copy, PartialEq, Eq, Structural)]
pub enum DocumentType {
    Document,
    Spreadsheet,
    Smartsheet,
    Wiki,
    Other,
}

/// A document.
#[derive(Debug)]
pub struct Document {
    pub id: String,
    pub title: String,
    pub doc_type: DocumentType,
    pub url: Option<String>,
    pub content: Option<String>,
    pub extra: Json,
}

/// A document to create, with its initial content where given.
#[derive(Debug)]
pub struct CreateDocumentRequest {
    pub title: String,
    pub doc_type: DocumentType,
    pub content: Option<String>,
}

/// New content for a document.
#[derive(Debug)]
pub struct UpdateDocumentRequest {
    pub doc_id: String,
    pub content: String,
}

/// A search of documents by keyword.
#[derive(Debug)]
pub struct SearchDocumentRequest {
    pub keyword: String,
    pub cursor: Option<String>,
    pub limit: Option<u32>,
}

/// A search of meeting rooms: a keyword and a time range (milliseconds since the
/// epoch), each where given, and paging.
#[derive(Debug)]
pub struct SearchRoomRequest {
    pub keyword: Option<String>,
    pub start_time: Option<i64>,
    pub end_time: Option<i64>,
    pub cursor: Option<String>,
    pub limit: Option<u32>,
}

/// A room to add to a calendar event.
#[derive(Debug)]
pub struct BookRoomRequest {
    pub room_id: String,
    pub event_id: String,
}

/// A report template and the fields it asks for.
#[derive(Debug)]
pub struct ReportTemplate {
    pub id: String,
    pub name: String,
    pub fields: Json,
}

/// A submitted report; times are milliseconds since the epoch.
#[derive(Debug)]
pub struct Report {
    pub id: String,
    pub template_name: Option<String>,
    pub creator_id: String,
    pub creator_name: Option<String>,
    pub content: Json,
    pub created_at: Option<i64>,
    pub modified_at: Option<i64>,
}

/// Who has and has not submitted a report.
#[derive(Debug)]
pub struct ReportStatistics {
    pub template_name: String,
    pub total_submitted: u32,
    pub total_not_submitted: u32,
    pub submitted_users: Vec<String>,
}

/// A listing of reports, each filter where given; times are milliseconds since the
/// epoch.
#[derive(Debug)]
pub struct ListReportsRequest {
    pub template_name: Option<String>,
    pub creator_id: Option<String>,
    pub start_time: Option<i64>,
    pub end_time: Option<i64>,
    pub cursor: Option<String>,
    pub limit: Option<u32>,
}

/// A report to submit.
#[derive(Debug)]
pub struct CreateReportRequest {
    pub template_id: String,
    pub content: Json,
    pub to_user_ids: Vec<String>,
}

} // verus!
