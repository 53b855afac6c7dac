use tokimo_im::http::{begin_writes, WriteStep};
use tokimo_im::lark::data_table::write_records_step;
use tokimo_im::lark::auth::token_reply as lark_token_reply;
use tokimo_im::model::{AudioContent, FileContent, ImageContent, Service, VideoContent};
use tokimo_im::lark::task::{create_task_request, task_from_lark, LarkTask};
use tokimo_im::model::{CreateTaskRequest, TaskPriority, TaskStatus};
use tokimo_im::text::{fmt_i64, parse_i64};
use tokimo_im::lark::data_table::create_field_reply;
use tokimo_im::http::require;
use tokimo_im::json::Json;
use tokimo_im::lark::auth::{token_outcome, TenantTokenResp};
use tokimo_im::lark::client::{LarkClient, LarkProvider, LarkRegion};
use tokimo_im::lark::data_table::{
    field_type_code, field_type_name, list_records_path, record_from_lark, split_records, table_field_code,
    write_records_requests, LarkRecord,
};
use tokimo_im::lark::messaging::{
    build_content, check_envelope, list_messages_path, millis_to_secs, open_envelope, parse_lark_content,
    LarkEnvelope,
};
use tokimo_im::model::{
    ImError, ListMessagesRequest, ListRecordsRequest, MessageContent, Platform, RecordInput,
    TextContent,
};

fn dbg<T: std::fmt::Debug>(x: &T) -> String {
    format!("{:?}", x)
}

fn s(x: &str) -> String {
    x.to_string()
}

fn obj(members: Vec<(&str, Json)>) -> Json {
    Json::Obj(members.into_iter().map(|(k, v)| (k.to_string(), v)).collect())
}

fn authed() -> LarkClient {
    let mut c = LarkClient::new(s("app"), s("secret"), LarkRegion::Feishu);
    c.set_token(s("tok"), false);
    c
}

#[test]
fn regions_pick_endpoints() {
    assert_eq!(LarkProvider::feishu(s("a"), s("b")).client().base_url, "https://open.feishu.cn");
    assert_eq!(LarkProvider::lark(s("a"), s("b")).client().base_url, "https://open.larksuite.com");
    assert!(LarkProvider::lark(s("a"), s("b")).platform() == Platform::Lark);
}

#[test]
fn authed_request_carries_bearer_token() {
    let q = authed().get("/open-apis/x").ok().unwrap();
    assert_eq!(q.url, "https://open.feishu.cn/open-apis/x");
    assert_eq!(q.headers, vec![(s("Authorization"), s("Bearer tok"))]);
    let bare = LarkClient::new(s("app"), s("secret"), LarkRegion::Lark);
    assert!(matches!(bare.get("/x"), Err(ImError::Auth { .. })));
}

#[test]
fn field_type_names() {
    assert_eq!(field_type_name(1), "text");
    assert_eq!(field_type_name(23), "modified_time");
    assert_eq!(field_type_name(99), "type_99");
    assert_eq!(field_type_name(-3), "type_-3");
}

#[test]
fn field_type_roundtrip() {
    for name in ["text", "number", "select", "multi_select", "date", "checkbox", "person", "phone", "url", "attachment"] {
        assert_eq!(field_type_name(field_type_code(name)), name);
    }
    assert_eq!(field_type_code("rating"), 1);
    assert_eq!(table_field_code("person"), 1);
    assert_eq!(table_field_code("checkbox"), field_type_code("checkbox"));
}

#[test]
fn content_of_each_kind() {
    assert_eq!(dbg(&parse_lark_content("text", r#"{"text":"hi"}"#)), dbg(&MessageContent::Text(TextContent { text: s("hi"), mentions: vec![] })));
    match parse_lark_content("text", "plain") {
        MessageContent::Text(t) => assert_eq!(t.text, "plain"),
        _ => panic!("expected text"),
    }
    match parse_lark_content("image", r#"{"image_key":"img_1"}"#) {
        MessageContent::Image(i) => assert_eq!(i.media_key, "img_1"),
        _ => panic!("expected image"),
    }
    match parse_lark_content("file", r#"{"file_key":"f","file_name":"a.pdf"}"#) {
        MessageContent::File(f) => {
            assert_eq!(f.media_key, "f");
            assert_eq!(f.name, Some(s("a.pdf")));
        },
        _ => panic!("expected file"),
    }
    match parse_lark_content("media", r#"{"file_key":"v","image_key":"c"}"#) {
        MessageContent::Video(v) => {
            assert_eq!(v.media_key, "v");
            assert_eq!(v.cover_key, Some(s("c")));
        },
        _ => panic!("expected video"),
    }
    match parse_lark_content("sticker", r#"{"x":1}"#) {
        MessageContent::Unknown { msg_type, .. } => assert_eq!(msg_type, "sticker"),
        _ => panic!("expected unknown"),
    }
}

#[test]
fn build_content_refuses_unknown() {
    let (ty, body) = build_content(MessageContent::Text(TextContent { text: s("x"), mentions: vec![] })).ok().unwrap();
    assert_eq!(ty, "text");
    assert_eq!(dbg(&body), dbg(&obj(vec![("text", Json::Str(s("x")))])));
    match build_content(MessageContent::Unknown { msg_type: s("x"), raw: Json::Null }) {
        Err(ImError::NotSupported { feature, platform }) => {
            assert_eq!(feature, "unknown message type");
            assert_eq!(platform, "lark");
        },
        _ => panic!("expected not supported"),
    }
}

#[test]
fn seconds_round_down() {
    assert_eq!(millis_to_secs(1999), 1);
    assert_eq!(millis_to_secs(-1), -1);
    assert_eq!(millis_to_secs(-1000), -1);
    assert_eq!(millis_to_secs(-1001), -2);
    let p = list_messages_path(&ListMessagesRequest {
        chat_id: s("oc_1"),
        start_time: Some(1_500),
        end_time: None,
        cursor: None,
        limit: Some(20),
    });
    assert_eq!(p, "/open-apis/im/v1/messages?container_id_type=chat&container_id=oc_1&start_time=1&page_size=20");
}

#[test]
fn write_partition_creates_then_updates() {
    let rows = vec![
        RecordInput { id: None, fields: obj(vec![("n", Json::Int(1))]) },
        RecordInput { id: Some(s("r2")), fields: obj(vec![("n", Json::Int(2))]) },
        RecordInput { id: None, fields: obj(vec![("n", Json::Int(3))]) },
    ];
    let (creates, updates) = split_records(rows);
    assert_eq!(creates.len(), 2);
    assert_eq!(updates.len(), 1);
    assert_eq!(dbg(&updates[0]), dbg(&obj(vec![("record_id", Json::Str(s("r2"))), ("fields", obj(vec![("n", Json::Int(2))]))])));
    let rows = vec![
        RecordInput { id: None, fields: Json::Null },
        RecordInput { id: Some(s("r2")), fields: Json::Null },
    ];
    let qs = write_records_requests(&authed(), "app", "tbl", rows).ok().unwrap();
    assert_eq!(qs.len(), 2);
    assert!(qs[0].url.ends_with("/open-apis/bitable/v1/apps/app/tables/tbl/records/batch_create"));
    assert!(qs[1].url.ends_with("/open-apis/bitable/v1/apps/app/tables/tbl/records/batch_update"));
    let none = write_records_requests(&authed(), "app", "tbl", vec![]).ok().unwrap();
    assert_eq!(none.len(), 0);
}

#[test]
fn records_listing_path_encodes_filter() {
    let p = list_records_path(&ListRecordsRequest {
        base_id: s("app"),
        table_id: s("tbl"),
        view_id: None,
        filter: Some(s("CurrentValue.[Name] = \"a b\"")),
        sort: None,
        field_names: vec![],
        cursor: None,
        limit: None,
    });
    assert_eq!(
        p,
        "/open-apis/bitable/v1/apps/app/tables/tbl/records?page_size=100&filter=CurrentValue.%5BName%5D+%3D+%22a+b%22"
    );
}

#[test]
fn record_creation_time_in_millis() {
    let r = record_from_lark(LarkRecord { record_id: Some(s("r")), fields: None, created_time: Some(1700000000000) });
    assert_eq!(r.created_at, Some(1700000000000));
    assert_eq!(dbg(&r.fields), dbg(&Json::Null));
}

#[test]
fn envelope_codes() {
    assert!(check_envelope(&LarkEnvelope { code: Some(0), msg: None }, &s("{}")).is_ok());
    assert!(check_envelope(&LarkEnvelope { code: None, msg: None }, &s("{}")).is_ok());
    match check_envelope(&LarkEnvelope { code: Some(99991663), msg: None }, &s("raw")) {
        Err(ImError::Platform { code, message }) => {
            assert_eq!(code, 99991663);
            assert_eq!(message, "raw");
        },
        _ => panic!("expected platform error"),
    }
    match open_envelope::<u8>(s("x"), Err(s("eof"))) {
        Err(ImError::Serialization(m)) => assert_eq!(m, "eof"),
        _ => panic!("expected serialization error"),
    }
    assert!(matches!(open_envelope(s("x"), Ok((LarkEnvelope { code: Some(0), msg: None }, 5u8))), Ok(5)));
}

#[test]
fn tenant_token_outcome() {
    let mut c = LarkClient::new(s("a"), s("b"), LarkRegion::Feishu);
    let ok = TenantTokenResp { code: Some(0), msg: None, tenant_access_token: Some(s("t-1")), expire: Some(7200) };
    let tok = token_outcome(&mut c, s("{}"), Ok(ok), 0).ok().unwrap();
    assert_eq!(tok.token, "t-1");
    assert_eq!(tok.expires_at, Some(7_200_000));
    assert_eq!(c.access_token, Some(s("t-1")));
    let bad = TenantTokenResp { code: Some(10003), msg: Some(s("invalid app")), tenant_access_token: None, expire: None };
    match token_outcome(&mut c, s("{}"), Ok(bad), 0) {
        Err(ImError::Auth { message }) => assert_eq!(message, "invalid app"),
        _ => panic!("expected auth error"),
    }
    let empty = TenantTokenResp { code: Some(0), msg: None, tenant_access_token: None, expire: None };
    match token_outcome(&mut c, s("{}"), Ok(empty), 0) {
        Err(ImError::Auth { message }) => assert_eq!(message, "no tenant_access_token in response"),
        _ => panic!("expected auth error"),
    }
}

#[test]
fn field_creation_without_field_is_internal() {
    match create_field_reply(s("{}"), Ok((LarkEnvelope { code: Some(0), msg: None }, None))) {
        Err(ImError::Internal(m)) => assert_eq!(m, "empty field"),
        _ => panic!("expected an internal error"),
    }
}

#[test]
fn required_data() {
    assert!(matches!(require(Some(3u8), ImError::Internal(s("x"))), Ok(3)));
    match require::<u8>(None, ImError::NotFound { resource: s("r") }) {
        Err(ImError::NotFound { resource }) => assert_eq!(resource, "r"),
        _ => panic!("expected not found"),
    }
}

#[test]
fn decimal_roundtrip() {
    for x in [0i64, 7, -42, 1_700_000_000, i64::MIN, i64::MAX] {
        assert_eq!(parse_i64(&fmt_i64(x)), Some(x));
    }
    assert_eq!(parse_i64("+5"), Some(5));
    assert_eq!(parse_i64("5x"), None);
}

#[test]
fn due_time_reads_back_to_the_second() {
    let req = CreateTaskRequest {
        title: s("T"),
        description: None,
        priority: TaskPriority::Normal,
        due_time: Some(1_700_000_000_999),
        assignee_ids: vec![],
    };
    let q = create_task_request(&authed(), &req).ok().unwrap();
    let due_text = match q.body.unwrap() {
        Json::Obj(m) => match &m.iter().find(|(k, _)| k == "due").unwrap().1 {
            Json::Obj(d) => match &d[0].1 {
                Json::Str(t) => t.clone(),
                _ => panic!("expected text"),
            },
            _ => panic!("expected object"),
        },
        _ => panic!("expected object"),
    };
    assert_eq!(due_text, "1700000000");
    let t = task_from_lark(LarkTask {
        id: Some(s("t")),
        summary: None,
        description: None,
        completed_at: None,
        due_timestamp: Some(due_text),
        member_ids: vec![Some(s("a")), None],
        creator_id: None,
        created_at: None,
        updated_at: None,
    });
    assert_eq!(t.due_time, Some(1_700_000_000_000));
    assert!(t.status == TaskStatus::Pending);
    assert_eq!(t.assignees, vec![s("a")]);
}

#[test]
fn missing_token_is_reported_before_the_expiry_range() {
    let mut c = LarkClient::new(s("a"), s("b"), LarkRegion::Feishu);
    let parsed = Ok(TenantTokenResp { code: Some(0), msg: None, tenant_access_token: None, expire: Some(i64::MAX) });
    match lark_token_reply(&mut c, s("{}"), parsed) {
        Err(ImError::Auth { message }) => assert_eq!(message, "no tenant_access_token in response"),
        other => panic!("unexpected {:?}", other),
    }
    let parsed = Ok(TenantTokenResp { code: Some(9), msg: Some(s("bad")), tenant_access_token: Some(s("t")), expire: Some(i64::MAX) });
    match lark_token_reply(&mut c, s("{}"), parsed) {
        Err(ImError::Auth { message }) => assert_eq!(message, "bad"),
        other => panic!("unexpected {:?}", other),
    }
    let parsed = Ok(TenantTokenResp { code: Some(0), msg: None, tenant_access_token: Some(s("t")), expire: Some(i64::MAX) });
    match lark_token_reply(&mut c, s("{}"), parsed) {
        Err(ImError::Internal(m)) => assert_eq!(m, "token expiry out of range"),
        other => panic!("unexpected {:?}", other),
    }
}

fn read_back(c: MessageContent, raw: &str) -> MessageContent {
    let (ty, _) = build_content(c).unwrap();
    parse_lark_content(&ty, raw)
}

#[test]
fn sent_content_is_read_back() {
    let t = read_back(MessageContent::Text(TextContent { text: s("hi \"x\""), mentions: vec![] }), "{\"text\":\"hi \\\"x\\\"\"}");
    assert_eq!(dbg(&t), dbg(&MessageContent::Text(TextContent { text: s("hi \"x\""), mentions: vec![] })));
    let img = MessageContent::Image(ImageContent { media_key: s("img"), name: None, url: None });
    assert_eq!(dbg(&read_back(img, "{\"image_key\":\"img\"}")), dbg(&MessageContent::Image(ImageContent { media_key: s("img"), name: None, url: None })));
    let file = MessageContent::File(FileContent { media_key: s("f"), name: None, size: None, mime_type: None });
    assert_eq!(dbg(&read_back(file, "{\"file_key\":\"f\"}")), dbg(&MessageContent::File(FileContent { media_key: s("f"), name: None, size: None, mime_type: None })));
    let audio = MessageContent::Audio(AudioContent { media_key: s("a"), duration_ms: None });
    assert_eq!(dbg(&read_back(audio, "{\"file_key\":\"a\"}")), dbg(&MessageContent::Audio(AudioContent { media_key: s("a"), duration_ms: None })));
    let video = MessageContent::Video(VideoContent { media_key: s("v"), name: None, cover_key: Some(s("c")) });
    assert_eq!(
        dbg(&read_back(video, "{\"file_key\":\"v\",\"image_key\":\"c\"}")),
        dbg(&MessageContent::Video(VideoContent { media_key: s("v"), name: None, cover_key: Some(s("c")) }))
    );
}

#[test]
fn lark_provider_offers_the_core_services() {
    let p = LarkProvider::feishu(s("a"), s("b"));
    assert!(p.offers(Service::Messaging) && p.offers(Service::Task) && p.offers(Service::Calendar));
    assert!(!p.offers(Service::MessageExt) && !p.offers(Service::Meeting));
}

fn lark_rec(id: &str) -> LarkRecord {
    LarkRecord { record_id: Some(s(id)), fields: None, created_time: None }
}

#[test]
fn write_run_gives_created_then_updated_and_stops_on_failure() {
    let rows = vec![
        RecordInput { id: Some(s("u1")), fields: Json::Null },
        RecordInput { id: None, fields: Json::Null },
    ];
    let qs = write_records_requests(&authed(), "app", "tbl", rows).ok().unwrap();
    let (state, q) = match begin_writes(qs) {
        WriteStep::Send(st, q) => (st, q),
        WriteStep::Done(_) => panic!("expected a request"),
    };
    assert!(q.url.ends_with("/batch_create"));
    let ok = LarkEnvelope { code: Some(0), msg: None };
    let (state, q) = match write_records_step(state, s("{}"), Ok((ok, Some(vec![lark_rec("c1")])))).ok().unwrap() {
        WriteStep::Send(st, q) => (st, q),
        WriteStep::Done(_) => panic!("expected the update"),
    };
    assert!(q.url.ends_with("/batch_update"));
    let ok = LarkEnvelope { code: Some(0), msg: None };
    match write_records_step(state, s("{}"), Ok((ok, Some(vec![lark_rec("u1")])))).ok().unwrap() {
        WriteStep::Done(v) => {
            assert_eq!(v.len(), 2);
            assert_eq!(v[0].id, "c1");
            assert_eq!(v[1].id, "u1");
        },
        WriteStep::Send(..) => panic!("expected the end"),
    }
    let rows = vec![RecordInput { id: Some(s("u1")), fields: Json::Null }, RecordInput { id: None, fields: Json::Null }];
    let qs = write_records_requests(&authed(), "app", "tbl", rows).ok().unwrap();
    let state = match begin_writes(qs) {
        WriteStep::Send(st, _) => st,
        WriteStep::Done(_) => panic!("expected a request"),
    };
    let bad = LarkEnvelope { code: Some(1254001), msg: Some(s("wrong")) };
    match write_records_step(state, s("{}"), Ok((bad, None))) {
        Err(ImError::Platform { code, message }) => {
            assert_eq!(code, 1254001);
            assert_eq!(message, "wrong");
        },
        _ => panic!("expected the failure"),
    }
    assert!(matches!(begin_writes(vec![]), WriteStep::Done(v) if v.is_empty()));
}
