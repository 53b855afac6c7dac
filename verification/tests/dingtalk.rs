use tokimo_im::dingtalk::auth::token_reply as dt_token_reply;
use tokimo_im::model::Service;
use tokimo_im::dingtalk::messaging::send_message_request;
use tokimo_im::model::{ChatTarget, SendMessageRequest};
use tokimo_im::dingtalk::calendar::create_event_request;
use tokimo_im::model::CreateEventRequest;
use tokimo_im::model::ImageContent;
use tokimo_im::dingtalk::auth::{token_outcome, DtTokenResponse};
use tokimo_im::dingtalk::client::{DingTalkClient, DingTalkProvider};
use tokimo_im::dingtalk::data_table::{
    create_table_request, list_bases_path, record_from_dt, write_records_request, DtRecord,
};
use tokimo_im::dingtalk::meeting_room::{room_from_dt, search_rooms_request, DtRoom, DtRoomLocation};
use tokimo_im::dingtalk::report::{statistics_from_dt, DtStatistics};
use tokimo_im::dingtalk::task::{create_task_body, dt_to_priority, list_tasks_path, priority_to_dt, task_from_dt, DtTask};
use tokimo_im::render::{content_debug_text, push_json_debug};
use tokimo_im::dingtalk::webhook::{build_body, sign_url_at, webhook_outcome, webhook_reply};
use tokimo_im::http::{check_status, check_status_code0, read_reply, Method};
use tokimo_im::json::Json;
use tokimo_im::model::{
    CreateFieldRequest, CreateTableRequest, CreateTaskRequest, ImError, ListBasesRequest, ListTasksRequest,
    MarkdownContent, MessageContent, Platform, RecordInput, SearchRoomRequest, TaskPriority, TaskStatus,
    TextContent, WriteRecordsRequest,
};

fn dbg<T: std::fmt::Debug>(x: &T) -> String {
    format!("{:?}", x)
}

fn s(x: &str) -> String {
    x.to_string()
}

fn obj(members: Vec<(&str, Json)>) -> Json {
    Json::Obj(members.into_iter().map(|(k, v)| (k.to_string(), v)).collect())
}

fn authed() -> DingTalkClient {
    let mut c = DingTalkClient::new(s("id"), s("secret"));
    c.set_token(s("tok"));
    c
}

#[test]
fn new_client_points_at_dingtalk() {
    let c = DingTalkClient::new(s("id"), s("secret"));
    assert_eq!(c.base_url, "https://api.dingtalk.com");
    assert!(c.access_token.is_none());
    let p = DingTalkProvider::new(s("id"), s("secret"));
    assert!(p.platform() == Platform::DingTalk);
    assert_eq!(p.client().client_id, "id");
}

#[test]
fn get_without_token_is_auth_error() {
    let c = DingTalkClient::new(s("id"), s("secret"));
    match c.get("/v1.0/x") {
        Err(ImError::Auth { message }) => assert_eq!(message, "no access token set; call auth first"),
        _ => panic!("expected an authentication error"),
    }
}

#[test]
fn delete_without_token_has_its_own_message() {
    let c = DingTalkClient::new(s("id"), s("secret"));
    match c.delete("/v1.0/x") {
        Err(ImError::Auth { message }) => assert_eq!(message, "no access token"),
        _ => panic!("expected an authentication error"),
    }
}

#[test]
fn get_with_token_carries_header() {
    let c = authed();
    let q = c.get("/v1.0/x").ok().unwrap();
    assert!(q.method == Method::Get);
    assert_eq!(q.url, "https://api.dingtalk.com/v1.0/x");
    assert_eq!(q.headers, vec![(s("x-acs-dingtalk-access-token"), s("tok"))]);
}

#[test]
fn token_read_after_write() {
    let mut c = DingTalkClient::new(s("id"), s("secret")).with_base_url(s("http://local"));
    c.set_token(s("first"));
    c.set_token(s("second"));
    assert_eq!(c.access_token, Some(s("second")));
    assert_eq!(c.base_url, "http://local");
}

#[test]
fn priority_codes_roundtrip() {
    for p in [TaskPriority::Low, TaskPriority::Normal, TaskPriority::High, TaskPriority::Urgent] {
        assert!(dt_to_priority(priority_to_dt(p)) == p);
    }
    assert_eq!(priority_to_dt(TaskPriority::Low), 10);
    assert_eq!(priority_to_dt(TaskPriority::High), 30);
    assert_eq!(priority_to_dt(TaskPriority::Urgent), 40);
    assert!(dt_to_priority(99) == TaskPriority::Normal);
}

#[test]
fn signed_url_matches_known_signature() {
    let u = sign_url_at("https://oapi.dingtalk.com/robot/send?access_token=abc", "SECabc", 1700000000000)
        .ok()
        .unwrap();
    assert_eq!(
        u,
        "https://oapi.dingtalk.com/robot/send?access_token=abc&&timestamp=1700000000000&sign=jcUpW0QmtKduN03n4JqQ0PBosVjqnM8gU7fIIvsDmCM%3D"
    );
    let v = sign_url_at("https://x/robot", "SECabc", 1700000000000).ok().unwrap();
    assert!(v.starts_with("https://x/robot?&timestamp=1700000000000&sign="));
}

#[test]
fn webhook_body_text_with_mentions() {
    let content = MessageContent::Text(TextContent { text: s("hi"), mentions: vec![] });
    let b = build_body(&content, &vec![s("u1")], false);
    let expected = obj(vec![
        ("msgtype", Json::Str(s("text"))),
        ("text", obj(vec![("content", Json::Str(s("hi")))])),
        (
            "at",
            obj(vec![("atUserIds", Json::Arr(vec![Json::Str(s("u1"))])), ("isAtAll", Json::Bool(false))]),
        ),
    ]);
    assert_eq!(dbg(&b), dbg(&expected));
}

#[test]
fn webhook_body_markdown_without_mentions_has_no_at() {
    let content = MessageContent::Markdown(MarkdownContent { title: None, text: s("**x**") });
    let b = build_body(&content, &vec![], false);
    let expected = obj(vec![
        ("msgtype", Json::Str(s("markdown"))),
        ("markdown", obj(vec![("title", Json::Str(s(""))), ("text", Json::Str(s("**x**")))])),
    ]);
    assert_eq!(dbg(&b), dbg(&expected));
}

#[test]
fn webhook_outcome_reads_error_code() {
    let ok = webhook_outcome(200, Some(0), Some(s("ok")), s("{}"));
    assert!(ok.success);
    let bad = webhook_outcome(200, Some(310000), Some(s("sign not match")), s("{}"));
    assert!(!bad.success);
    assert_eq!(bad.error_code, Some(310000));
    assert_eq!(bad.error_message, Some(s("sign not match")));
    let failed = webhook_outcome(500, None, None, s("boom"));
    assert!(!failed.success);
}

#[test]
fn token_outcome_keeps_token_and_expiry() {
    let mut c = DingTalkClient::new(s("id"), s("secret"));
    let parsed = Ok(DtTokenResponse { access_token: Some(s("T")), refresh_token: Some(s("R")), expire_in: Some(7200) });
    let tok = token_outcome(&mut c, 200, s("{}"), parsed, 1_000, "missing").ok().unwrap();
    assert_eq!(tok.token, "T");
    assert_eq!(tok.refresh_token, Some(s("R")));
    assert_eq!(tok.expires_at, Some(1_000 + 7_200_000));
    assert_eq!(c.access_token, Some(s("T")));
}

#[test]
fn token_outcome_errors() {
    let mut c = DingTalkClient::new(s("id"), s("secret"));
    match token_outcome(&mut c, 401, s("denied"), Err(s("x")), 0, "missing") {
        Err(ImError::Auth { message }) => assert_eq!(message, "denied"),
        _ => panic!("expected auth error"),
    }
    match token_outcome(&mut c, 200, s("??"), Err(s("bad json")), 0, "missing") {
        Err(ImError::Serialization(m)) => assert_eq!(m, "bad json"),
        _ => panic!("expected serialization error"),
    }
    let parsed = Ok(DtTokenResponse { access_token: None, refresh_token: None, expire_in: None });
    match token_outcome(&mut c, 200, s("{}"), parsed, 0, "missing") {
        Err(ImError::Auth { message }) => assert_eq!(message, "missing"),
        _ => panic!("expected auth error"),
    }
    assert!(c.access_token.is_none());
}

#[test]
fn read_reply_and_status_checks() {
    match read_reply::<u8>(404, s("nope"), Ok(1)) {
        Err(ImError::Platform { code, message }) => {
            assert_eq!(code, 404);
            assert_eq!(message, "nope");
        },
        _ => panic!("expected platform error"),
    }
    assert!(matches!(read_reply::<u8>(200, s(""), Ok(7)), Ok(7)));
    assert!(check_status(204, s("")).is_ok());
    match check_status_code0(500, s("err")) {
        Err(ImError::Platform { code, message }) => {
            assert_eq!(code, 0);
            assert_eq!(message, "err");
        },
        _ => panic!("expected platform error"),
    }
}

#[test]
fn task_from_dt_reads_due_time_and_status() {
    let t = task_from_dt(DtTask {
        todo_task_id: Some(s("t1")),
        subject: Some(s("Write")),
        priority: Some(40),
        done: Some(true),
        due_time: Some(s("2024-01-02T03:04:05Z")),
        executor_ids: vec![s("u")],
    });
    assert_eq!(t.id, "t1");
    assert!(t.status == TaskStatus::Done);
    assert!(t.priority == TaskPriority::Urgent);
    assert_eq!(t.due_time, Some(1704164645000));
    let open = task_from_dt(DtTask {
        todo_task_id: None,
        subject: None,
        priority: None,
        done: None,
        due_time: Some(s("not a time")),
        executor_ids: vec![],
    });
    assert!(open.status == TaskStatus::Pending);
    assert!(open.priority == TaskPriority::Normal);
    assert_eq!(open.due_time, None);
}

#[test]
fn task_body_and_listing_path() {
    let b = create_task_body(&CreateTaskRequest {
        title: s("T"),
        description: None,
        priority: TaskPriority::High,
        due_time: None,
        assignee_ids: vec![s("a")],
    });
    let expected = obj(vec![
        ("subject", Json::Str(s("T"))),
        ("priority", Json::Int(30)),
        ("executorIds", Json::Arr(vec![Json::Str(s("a"))])),
        ("dueTime", Json::Null),
        ("description", Json::Null),
    ]);
    assert_eq!(dbg(&b), dbg(&expected));
    let p = list_tasks_path(&ListTasksRequest { status: Some(TaskStatus::Done), cursor: None, limit: None });
    assert_eq!(p, "/v1.0/todo/users/me/tasks?isDone=true&nextToken=&maxResults=20");
}

#[test]
fn bases_listing_path_joins_parameters() {
    assert_eq!(list_bases_path(&ListBasesRequest { cursor: None, limit: None }), "/v1.0/aitable/bases");
    assert_eq!(
        list_bases_path(&ListBasesRequest { cursor: Some(s("c")), limit: Some(5) }),
        "/v1.0/aitable/bases?nextCursor=c&maxResults=5"
    );
    assert_eq!(list_bases_path(&ListBasesRequest { cursor: None, limit: Some(5) }), "/v1.0/aitable/bases?maxResults=5");
}

#[test]
fn write_records_sends_every_row_in_one_request() {
    let req = WriteRecordsRequest {
        base_id: s("b"),
        table_id: s("t"),
        records: vec![
            RecordInput { id: Some(s("r1")), fields: obj(vec![("a", Json::Int(1))]) },
            RecordInput { id: None, fields: obj(vec![("a", Json::Int(2))]) },
        ],
    };
    let q = write_records_request(&authed(), &req).ok().unwrap();
    assert_eq!(q.url, "https://api.dingtalk.com/v1.0/aitable/bases/b/tables/t/records");
    let expected = obj(vec![(
        "records",
        Json::Arr(vec![
            obj(vec![("id", Json::Str(s("r1"))), ("fields", obj(vec![("a", Json::Int(1))]))]),
            obj(vec![("fields", obj(vec![("a", Json::Int(2))]))]),
        ]),
    )]);
    assert_eq!(dbg(&q.body.unwrap()), dbg(&expected));
}

#[test]
fn create_table_body_lists_fields() {
    let req = CreateTableRequest {
        base_id: s("b"),
        name: s("N"),
        fields: vec![CreateFieldRequest { name: s("f"), field_type: s("text"), property: Json::Null }],
    };
    let q = create_table_request(&authed(), &req).ok().unwrap();
    assert_eq!(q.url, "https://api.dingtalk.com/v1.0/aitable/bases/b/tables");
    let expected = obj(vec![
        ("name", Json::Str(s("N"))),
        (
            "fields",
            Json::Arr(vec![obj(vec![
                ("name", Json::Str(s("f"))),
                ("fieldType", Json::Str(s("text"))),
                ("property", Json::Null),
            ])]),
        ),
    ]);
    assert_eq!(dbg(&q.body.unwrap()), dbg(&expected));
}

#[test]
fn record_creation_time_reads_rfc3339_or_millis() {
    let a = record_from_dt(DtRecord { id: Some(s("r")), fields: Json::Null, created_time: Some(s("1700000000000")) });
    assert_eq!(a.created_at, Some(1700000000000));
    let b = record_from_dt(DtRecord { id: None, fields: Json::Null, created_time: Some(s("1970-01-01T00:00:01Z")) });
    assert_eq!(b.created_at, Some(1000));
    assert_eq!(b.id, "");
    let c = record_from_dt(DtRecord { id: None, fields: Json::Null, created_time: Some(s("soon")) });
    assert_eq!(c.created_at, None);
}

#[test]
fn room_location_joins_building_and_floor() {
    let r = room_from_dt(DtRoom {
        room_id: Some(s("r1")),
        title: Some(s("Blue")),
        capacity: Some(8),
        room_location: Some(DtRoomLocation { building_name: Some(s("A")), floor_name: Some(s("3F")) }),
        room_status: Some(0),
    });
    assert_eq!(r.location, Some(s("A 3F")));
    assert_eq!(r.is_available, Some(true));
    let busy = room_from_dt(DtRoom {
        room_id: None,
        title: None,
        capacity: None,
        room_location: Some(DtRoomLocation { building_name: None, floor_name: Some(s("2F")) }),
        room_status: Some(1),
    });
    assert_eq!(busy.location, Some(s("2F")));
    assert_eq!(busy.is_available, Some(false));
}

#[test]
fn room_search_body_has_only_given_fields() {
    let req = SearchRoomRequest { keyword: Some(s("blue")), start_time: None, end_time: None, cursor: None, limit: Some(5) };
    let q = search_rooms_request(&authed(), &req).ok().unwrap();
    let expected = obj(vec![("keyword", Json::Str(s("blue"))), ("maxResults", Json::Int(5))]);
    assert_eq!(dbg(&q.body.unwrap()), dbg(&expected));
}

#[test]
fn statistics_default_to_zero() {
    let st = statistics_from_dt(DtStatistics {
        template_name: None,
        total_submitted: Some(3),
        total_not_submitted: None,
        submitted_users: vec![s("u")],
    });
    assert_eq!(st.template_name, "");
    assert_eq!(st.total_submitted, 3);
    assert_eq!(st.total_not_submitted, 0);
    assert_eq!(st.submitted_users, vec![s("u")]);
}

#[test]
fn webhook_reply_reads_members_from_text() {
    let r = webhook_reply(200, s(r#"{"errcode":310000,"errmsg":"keywords not in content"}"#));
    assert!(!r.success);
    assert_eq!(r.error_code, Some(310000));
    assert_eq!(r.error_message, Some(s("keywords not in content")));
    let ok = webhook_reply(200, s(r#"{"errcode":0,"errmsg":"ok"}"#));
    assert!(ok.success);
    assert_eq!(ok.error_code, None);
}

#[test]
fn send_message_needs_a_robot() {
    let req = SendMessageRequest {
        target: ChatTarget::Group(s("cid")),
        content: MessageContent::Text(TextContent { text: s("hi"), mentions: vec![] }),
        bot_id: None,
        idempotency_key: None,
    };
    match send_message_request(&authed(), &req) {
        Err(ImError::InvalidParam { message }) => assert_eq!(message, "bot_id (robot_code) is required for DingTalk"),
        _ => panic!("expected an invalid parameter"),
    }
}

#[test]
fn event_times_as_rfc3339() {
    let req = CreateEventRequest {
        title: s("T"),
        description: None,
        start_time: 0,
        end_time: 1_500,
        location: None,
        is_all_day: false,
        attendee_ids: vec![],
    };
    let q = create_event_request(&authed(), &req).ok().unwrap();
    let expected = obj(vec![
        ("title", Json::Str(s("T"))),
        ("description", Json::Null),
        ("start", obj(vec![("dateTime", Json::Str(s("1970-01-01T00:00:00+00:00")))])),
        ("end", obj(vec![("dateTime", Json::Str(s("1970-01-01T00:00:01.500+00:00")))])),
        ("location", Json::Null),
    ]);
    assert_eq!(dbg(&q.body.unwrap()), dbg(&expected));
}

#[test]
fn other_content_is_sent_as_its_debug_text() {
    let content = MessageContent::Image(ImageContent { media_key: s("k"), name: None, url: None });
    match build_body(&content, &vec![], false) {
        Json::Obj(m) => {
            assert_eq!(dbg(&m[0].1), dbg(&Json::Str(s("text"))));
            match &m[1].1 {
                Json::Obj(inner) => match &inner[0].1 {
                    Json::Str(t) => assert_eq!(t.as_str(), "Image(ImageContent { media_key: \"k\", name: None, url: None })"),
                    _ => panic!("expected text"),
                },
                _ => panic!("expected object"),
            }
        },
        _ => panic!("expected object"),
    }
}

#[test]
fn debug_rendering_matches_derived_debug() {
    let content = MessageContent::Image(ImageContent { media_key: s("k\"\n\u{1}é\u{ad}\u{301}'"), name: Some(s("n")), url: None });
    assert_eq!(content_debug_text(&content), format!("{:?}", content));
}

#[test]
fn json_debug_rendering_matches_serde_json() {
    let text = "{\"a\": [1, \"x\\\"y\", true, null, -7], \"b\": {}, \"c\": 2.5}";
    let value: serde_json::Value = serde_json::from_str(text).unwrap();
    let doc = Json::Obj(vec![
        (s("a"), Json::Arr(vec![
            Json::Int(1),
            Json::Str(s("x\"y")),
            Json::Bool(true),
            Json::Null,
            Json::Int(-7),
        ])),
        (s("b"), Json::Obj(vec![])),
        (s("c"), Json::Num(s("2.5"))),
    ]);
    let mut out = String::new();
    push_json_debug(&mut out, &doc);
    assert_eq!(out, format!("{:?}", value));
    let card = MessageContent::Card(doc);
    assert_eq!(content_debug_text(&card), format!("Card({:?})", value));
}

#[test]
fn dingtalk_token_reply_checks_the_reply_first() {
    let mut c = DingTalkClient::new(s("id"), s("secret"));
    let parsed = Ok(DtTokenResponse { access_token: None, refresh_token: None, expire_in: Some(i64::MAX) });
    match dt_token_reply(&mut c, 200, s("{}"), parsed, "no access_token in response") {
        Err(ImError::Auth { message }) => assert_eq!(message, "no access_token in response"),
        other => panic!("unexpected {:?}", other),
    }
    match dt_token_reply(&mut c, 200, s("??"), Err(s("bad json")), "missing") {
        Err(ImError::Serialization(m)) => assert_eq!(m, "bad json"),
        other => panic!("unexpected {:?}", other),
    }
    let parsed = Ok(DtTokenResponse { access_token: Some(s("t")), refresh_token: None, expire_in: None });
    let tok = dt_token_reply(&mut c, 200, s("{}"), parsed, "missing").ok().unwrap();
    assert_eq!(tok.token, "t");
    assert!(tok.expires_at.is_none());
}

#[test]
fn dingtalk_provider_offers_the_core_services() {
    let p = DingTalkProvider::new(s("id"), s("secret"));
    assert!(p.offers(Service::Messaging) && p.offers(Service::Contact) && p.offers(Service::Group));
    assert!(!p.offers(Service::Media) && !p.offers(Service::Document));
}

#[test]
fn json_debug_sorts_members_and_reads_text_documents() {
    let value: serde_json::Value = serde_json::from_str("{\"b\": 1, \"a\": {\"z\": null, \"y\": [true]}}").unwrap();
    let doc = Json::Obj(vec![
        (s("b"), Json::Int(0)),
        (s("a"), Json::Obj(vec![(s("z"), Json::Null), (s("y"), Json::Arr(vec![Json::Bool(true)]))])),
        (s("b"), Json::Int(1)),
    ]);
    let mut out = String::new();
    push_json_debug(&mut out, &doc);
    assert_eq!(out, format!("{:?}", value));
    let mut out = String::new();
    push_json_debug(&mut out, &Json::Unparsed(s("{\"q\": \"\\u00ad\", \"p\": 2}")));
    let parsed: serde_json::Value = serde_json::from_str("{\"q\": \"\\u00ad\", \"p\": 2}").unwrap();
    assert_eq!(out, format!("{:?}", parsed));
    let mut out = String::new();
    push_json_debug(&mut out, &Json::Unparsed(s("not json")));
    assert_eq!(out, "Null");
    let inner = Json::Obj(vec![(s("k"), Json::Str(s("v\n"))), (s("a"), Json::Int(-3))]);
    let mut out = String::new();
    push_json_debug(&mut out, &Json::Embedded(Box::new(inner)));
    let as_value = serde_json::Value::String(s("{\"a\":-3,\"k\":\"v\\n\"}"));
    assert_eq!(out, format!("{:?}", as_value));
}
