use tokimo_im::http::{begin_writes, WriteStep};
use tokimo_im::wecom::data_table::{write_records_step, WcRecord};
use tokimo_im::time::{from_millis, from_secs};
use tokimo_im::wecom::auth::{token_reply as wc_token_reply, WcTokenResponse};
use tokimo_im::model::Service;
use tokimo_im::wecom::webhook::webhook_reply;
use tokimo_im::model::ListEventsRequest;
use tokimo_im::wecom::calendar::list_events_request;
use tokimo_im::json::Json;
use tokimo_im::model::{
    AttendeeStatus, CreateEventRequest, DocumentType, ImError, ListConversationsRequest, ListDepartmentsRequest,
    MessageContent, Platform, RecordInput, TaskStatus, TextContent, WebhookMessageRequest,
};
use tokimo_im::wecom::calendar::{
    attendee_status, create_event_request, event_from_wc, list_events_after_range, ListEventsStep, WcAttendee,
    WcSchedule,
};
use tokimo_im::wecom::chat_list::{conversations_reply, list_conversations_request, ChatListResp, WcChat};
use tokimo_im::wecom::client::{check_reply, check_reply_with, WeComClient, WeComEnvelope, WeComProvider};
use tokimo_im::wecom::data_table::{into_batches, write_records_requests};
use tokimo_im::wecom::department::{department_reply, list_departments_request, WcDepartment};
use tokimo_im::wecom::document::{doc_type_code, get_document_step, DocStep, GetDocResp};
use tokimo_im::wecom::group::{group_unsupported, GroupOp};
use tokimo_im::wecom::media::{download_reply, WcMedia};
use tokimo_im::wecom::task::{status_to_wc, wc_to_status};
use tokimo_im::wecom::webhook::{build_webhook_body, parse_image_key};

fn dbg<T: std::fmt::Debug>(x: &T) -> String {
    format!("{:?}", x)
}

fn s(x: &str) -> String {
    x.to_string()
}

fn obj(members: Vec<(&str, Json)>) -> Json {
    Json::Obj(members.into_iter().map(|(k, v)| (k.to_string(), v)).collect())
}

fn authed() -> WeComClient {
    let mut c = WeComClient::new(s("corp"), s("secret"));
    c.set_token(s("tok"));
    c
}

#[test]
fn token_goes_into_query() {
    let c = authed();
    assert_eq!(c.get("/cgi-bin/a").ok().unwrap().url, "https://qyapi.weixin.qq.com/cgi-bin/a?access_token=tok");
    assert_eq!(c.get("/cgi-bin/a?x=1").ok().unwrap().url, "https://qyapi.weixin.qq.com/cgi-bin/a?x=1&access_token=tok");
    let p = WeComProvider::new(s("corp"), s("secret"));
    assert!(p.platform() == Platform::WeCom);
    assert!(matches!(p.client().get("/x"), Err(ImError::Auth { .. })));
}

#[test]
fn image_key_splits_at_digest() {
    let md5 = "0123456789abcdef0123456789ABCDEF";
    let key = format!("aGVsbG8=:{}", md5);
    assert_eq!(parse_image_key(&key), (s("aGVsbG8="), s(md5)));
    assert_eq!(parse_image_key("a:b:notadigest"), (s("a:b:notadigest"), s("")));
    assert_eq!(parse_image_key("plain"), (s("plain"), s("")));
}

#[test]
fn webhook_text_mentions_everyone() {
    let req = WebhookMessageRequest {
        webhook_url: s("https://qyapi.weixin.qq.com/cgi-bin/webhook/send?key=k"),
        content: MessageContent::Text(TextContent { text: s("hi"), mentions: vec![] }),
        at_user_ids: vec![s("u1")],
        at_all: true,
        secret: None,
    };
    let b = build_webhook_body(&req).ok().unwrap();
    let expected = obj(vec![
        ("msgtype", Json::Str(s("text"))),
        (
            "text",
            obj(vec![
                ("content", Json::Str(s("hi"))),
                ("mentioned_list", Json::Arr(vec![Json::Str(s("u1")), Json::Str(s("@all"))])),
                ("mentioned_mobile_list", Json::Arr(vec![Json::Str(s("@all"))])),
            ]),
        ),
    ]);
    assert_eq!(dbg(&b), dbg(&expected));
    let twice = WebhookMessageRequest { at_user_ids: vec![s("@all")], ..req };
    match build_webhook_body(&twice).ok().unwrap() {
        Json::Obj(m) => match &m[1].1 {
            Json::Obj(inner) => assert_eq!(dbg(&inner[1].1), dbg(&Json::Arr(vec![Json::Str(s("@all"))]))),
            _ => panic!("expected object"),
        },
        _ => panic!("expected object"),
    }
}

#[test]
fn webhook_refuses_files() {
    let req = WebhookMessageRequest {
        webhook_url: s("u"),
        content: MessageContent::Card(Json::Null),
        at_user_ids: vec![],
        at_all: false,
        secret: None,
    };
    assert!(matches!(build_webhook_body(&req), Err(ImError::NotSupported { .. })));
}

#[test]
fn batches_of_five_hundred() {
    let items: Vec<Json> = (0..1001).map(|i| Json::Int(i)).collect();
    let b = into_batches(items);
    assert_eq!(b.iter().map(|x| x.len()).collect::<Vec<_>>(), vec![500, 500, 1]);
    assert!(into_batches(vec![]).is_empty());
    let rows: Vec<RecordInput> = (0..600)
        .map(|i| RecordInput { id: if i % 2 == 0 { None } else { Some(format!("r{}", i)) }, fields: Json::Null })
        .collect();
    let qs = write_records_requests(&authed(), "doc", "sheet", rows).ok().unwrap();
    assert_eq!(qs.len(), 2);
    assert!(qs[0].url.contains("/cgi-bin/wedoc/smartsheet/add_records"));
    assert!(qs[1].url.contains("/cgi-bin/wedoc/smartsheet/update_records"));
}

#[test]
fn task_status_roundtrip() {
    for st in [TaskStatus::Pending, TaskStatus::Done, TaskStatus::Deleted] {
        assert!(wc_to_status(status_to_wc(st)) == st);
    }
    assert_eq!(status_to_wc(TaskStatus::InProgress), 1);
    assert!(wc_to_status(7) == TaskStatus::Pending);
}

#[test]
fn schedule_reading() {
    let e = event_from_wc(
        WcSchedule {
            schedule_id: Some(s("s1")),
            summary: Some(s("Standup")),
            description: None,
            start_time: Some(1_700_000_000),
            end_time: None,
            location: None,
            is_whole_day: Some(1),
            attendees: vec![WcAttendee { userid: Some(s("u")), response_status: Some(2) }],
        },
        42,
    );
    assert_eq!(e.start_time, 1_700_000_000_000);
    assert_eq!(e.end_time, 42);
    assert!(e.is_all_day);
    assert!(e.attendees[0].status == AttendeeStatus::Declined);
    assert!(attendee_status(3) == AttendeeStatus::Tentative);
    assert!(attendee_status(0) == AttendeeStatus::Unknown);
}

#[test]
fn schedule_creation_sends_seconds() {
    let req = CreateEventRequest {
        title: s("T"),
        description: None,
        start_time: 1_700_000_000_999,
        end_time: -1,
        location: Some(s("R")),
        is_all_day: false,
        attendee_ids: vec![s("a")],
    };
    let q = create_event_request(&authed(), &req).ok().unwrap();
    let expected = obj(vec![(
        "schedule",
        obj(vec![
            ("summary", Json::Str(s("T"))),
            ("description", Json::Null),
            ("start_time", Json::Str(s("1700000000"))),
            ("end_time", Json::Str(s("-1"))),
            ("location", Json::Str(s("R"))),
            ("is_whole_day", Json::Int(0)),
            ("attendees", Json::Arr(vec![obj(vec![("userid", Json::Str(s("a")))])])),
        ]),
    )]);
    assert_eq!(dbg(&q.body.unwrap()), dbg(&expected));
}

#[test]
fn empty_range_needs_no_details() {
    assert!(matches!(list_events_after_range(&authed(), &vec![]), Ok(ListEventsStep::Empty)));
    match list_events_after_range(&authed(), &vec![s("a")]) {
        Ok(ListEventsStep::Details(q)) => assert!(q.url.contains("/cgi-bin/oa/schedule/get?")),
        _ => panic!("expected a details request"),
    }
}

#[test]
fn document_polling_stops_when_done_or_after_ten() {
    let step = get_document_step("d", Some(s("t")), 0, Ok(GetDocResp { task_id: Some(s("t")), task_done: Some(false), content: None }));
    match step {
        Ok(DocStep::Poll { task_id, polls }) => {
            assert_eq!(task_id, "t");
            assert_eq!(polls, 1);
        },
        _ => panic!("expected a poll"),
    }
    match get_document_step("d", Some(s("t")), 10, Ok(GetDocResp { task_id: None, task_done: None, content: Some(s("x")) })) {
        Ok(DocStep::Done(doc)) => {
            assert_eq!(doc.id, "d");
            assert_eq!(doc.content, Some(s("x")));
        },
        _ => panic!("expected the document"),
    }
    assert!(matches!(
        get_document_step("d", None, 0, Ok(GetDocResp { task_id: None, task_done: None, content: None })),
        Ok(DocStep::Done(_))
    ));
    assert!(matches!(get_document_step("d", None, 0, Err(s("bad"))), Err(ImError::Serialization(_))));
    assert_eq!(doc_type_code(DocumentType::Smartsheet), 10);
    assert_eq!(doc_type_code(DocumentType::Wiki), 3);
}

#[test]
fn department_lookup_and_listing() {
    let q = list_departments_request(&authed(), &ListDepartmentsRequest { parent_id: None, cursor: None, limit: None })
        .ok()
        .unwrap();
    assert_eq!(q.url, "https://qyapi.weixin.qq.com/cgi-bin/department/list?id=0&access_token=tok");
    let d = department_reply(
        "5",
        s("{}"),
        Ok((Some(0), None, Some(WcDepartment { id: Some(5), name: Some(s("R&D")), parentid: Some(1), order: None }))),
    )
    .ok()
    .unwrap();
    assert_eq!(d.id, "5");
    assert_eq!(d.parent_id, Some(s("1")));
    match department_reply("9", s("{}"), Ok((None, None, None))) {
        Err(ImError::NotFound { resource }) => assert_eq!(resource, "department 9"),
        _ => panic!("expected not found"),
    }
    match department_reply("9", s("raw"), Ok((Some(60011), None, None))) {
        Err(ImError::Platform { code, message }) => {
            assert_eq!(code, 60011);
            assert_eq!(message, "raw");
        },
        _ => panic!("expected platform error"),
    }
}

#[test]
fn chat_listing() {
    let q = list_conversations_request(
        &authed(),
        &ListConversationsRequest { start_time: None, end_time: None, cursor: None, limit: None },
    )
    .ok()
    .unwrap();
    let expected = obj(vec![
        ("begin_time", Json::Str(s(""))),
        ("end_time", Json::Str(s(""))),
        ("cursor", Json::Str(s(""))),
    ]);
    assert_eq!(dbg(&q.body.unwrap()), dbg(&expected));
    let resp = ChatListResp {
        errcode: Some(0),
        errmsg: None,
        chats: vec![WcChat {
            chat_id: Some(s("c")),
            chat_name: None,
            last_msg_time: Some(s("2024-01-02 03:04:05")),
            msg_count: Some(3),
        }],
        has_more: None,
        next_cursor: Some(s("n")),
    };
    let page = conversations_reply(s("{}"), Ok(resp)).ok().unwrap();
    assert_eq!(page.items[0].last_message_time, Some(1704164645000));
    assert_eq!(page.items[0].message_count, Some(3));
    assert!(!page.has_more);
    assert_eq!(page.next_cursor, Some(s("n")));
}

#[test]
fn media_download_gives_description() {
    let item = WcMedia {
        media_id: Some(s("m")),
        name: None,
        media_type: Some(s("image")),
        local_path: None,
        size: Some(12),
        content_type: None,
    };
    let j = download_reply("m", s("{}"), Ok((None, None, Some(item)))).ok().unwrap();
    let expected = obj(vec![
        ("media_id", Json::Str(s("m"))),
        ("name", Json::Null),
        ("type", Json::Str(s("image"))),
        ("local_path", Json::Null),
        ("size", Json::Num(s("12"))),
        ("content_type", Json::Null),
    ]);
    assert_eq!(dbg(&j), dbg(&expected));
    match download_reply("m", s("{}"), Ok((Some(0), None, None))) {
        Err(ImError::NotFound { resource }) => assert_eq!(resource, "media m"),
        _ => panic!("expected not found"),
    }
}

#[test]
fn group_operations_unsupported() {
    match group_unsupported(GroupOp::Search) {
        ImError::NotSupported { feature, .. } => {
            assert_eq!(feature, "search_groups (use list_messages chat_list instead)")
        },
        _ => panic!("expected not supported"),
    }
    match group_unsupported(GroupOp::AddMembers) {
        ImError::NotSupported { feature, platform } => {
            assert_eq!(feature, "add_members");
            assert_eq!(platform, "wecom");
        },
        _ => panic!("expected not supported"),
    }
}

#[test]
fn reply_checks() {
    match check_reply(502, &s("bad gateway"), Ok(WeComEnvelope { errcode: None, errmsg: None })) {
        Err(ImError::Platform { code, .. }) => assert_eq!(code, 502),
        _ => panic!("expected platform error"),
    }
    match check_reply(200, &s("raw"), Ok(WeComEnvelope { errcode: Some(40014), errmsg: Some(s("invalid token")) })) {
        Err(ImError::Platform { code, message }) => {
            assert_eq!(code, 40014);
            assert_eq!(message, "invalid token");
        },
        _ => panic!("expected platform error"),
    }
    assert!(matches!(check_reply_with(200, &s(""), Ok((WeComEnvelope { errcode: Some(0), errmsg: None }, 9u8))), Ok(9)));
}

#[test]
fn webhook_reply_refuses_bad_json() {
    assert!(matches!(webhook_reply(s("not json")), Err(ImError::Serialization(_))));
    let ok = webhook_reply(s(r#"{"errcode":0,"errmsg":"ok"}"#)).ok().unwrap();
    assert!(ok.success);
    let bad = webhook_reply(s(r#"{"errmsg":"x"}"#)).ok().unwrap();
    assert!(!bad.success);
    assert_eq!(bad.error_code, Some(-1));
}

#[test]
fn unsupported_webhook_content_is_named() {
    let req = WebhookMessageRequest {
        webhook_url: s("u"),
        content: MessageContent::Card(Json::Null),
        at_user_ids: vec![],
        at_all: false,
        secret: None,
    };
    match build_webhook_body(&req) {
        Err(ImError::NotSupported { feature, platform }) => {
            assert!(feature.starts_with("webhook message type: "));
            assert_eq!(platform, "wecom");
        },
        _ => panic!("expected not supported"),
    }
}

#[test]
fn range_listing_formats_times() {
    let q = list_events_request(
        &authed(),
        &ListEventsRequest { start_time: 1704164645000, end_time: 0, cursor: None, limit: None },
    )
    .ok()
    .unwrap();
    let expected = obj(vec![
        ("start_time", Json::Str(s("2024-01-02 03:04:05"))),
        ("end_time", Json::Str(s("1970-01-01 00:00:00"))),
    ]);
    assert_eq!(dbg(&q.body.unwrap()), dbg(&expected));
}

#[test]
fn wecom_token_reply_checks_the_reply_first() {
    let mut c = WeComClient::new(s("corp"), s("secret"));
    let parsed = Ok(WcTokenResponse { errcode: Some(40013), errmsg: Some(s("invalid corpid")), access_token: None, expires_in: Some(i64::MAX) });
    match wc_token_reply(&mut c, s("{}"), parsed) {
        Err(ImError::Auth { message }) => assert_eq!(message, "invalid corpid"),
        other => panic!("unexpected {:?}", other),
    }
    let parsed = Ok(WcTokenResponse { errcode: Some(0), errmsg: None, access_token: None, expires_in: Some(i64::MAX) });
    match wc_token_reply(&mut c, s("{}"), parsed) {
        Err(ImError::Auth { message }) => assert_eq!(message, "no access_token in response"),
        other => panic!("unexpected {:?}", other),
    }
}

#[test]
fn wecom_provider_offers_all_but_message_extensions() {
    let p = WeComProvider::new(s("corp"), s("secret"));
    assert!(p.offers(Service::Messaging) && p.offers(Service::Document) && p.offers(Service::ChatList));
    assert!(!p.offers(Service::MessageExt));
}

#[test]
fn chrono_range_is_the_stated_one() {
    assert_eq!(from_secs(-8334601228800), Some(-8334601228800000));
    assert_eq!(from_secs(-8334601228801), None);
    assert_eq!(from_secs(8210266876799), Some(8210266876799000));
    assert_eq!(from_secs(8210266876800), None);
    assert_eq!(from_millis(-8334601228800000), Some(-8334601228800000));
    assert_eq!(from_millis(-8334601228800001), None);
    assert_eq!(from_millis(8210266876799999), Some(8210266876799999));
    assert_eq!(from_millis(8210266876800000), None);
}

fn wc_rec(id: &str) -> WcRecord {
    WcRecord { record_id: Some(s(id)), values: None, created_time: None }
}

#[test]
fn wecom_write_run_stops_at_the_first_failing_batch() {
    let rows: Vec<RecordInput> = (0..1001).map(|_| RecordInput { id: None, fields: Json::Null }).collect();
    let qs = write_records_requests(&authed(), "doc", "sheet", rows).ok().unwrap();
    assert_eq!(qs.len(), 3);
    let state = match begin_writes(qs) {
        WriteStep::Send(st, _) => st,
        WriteStep::Done(_) => panic!("expected a batch"),
    };
    let ok = WeComEnvelope { errcode: Some(0), errmsg: None };
    let state = match write_records_step(state, s("{}"), Ok((ok, vec![wc_rec("a"), wc_rec("b")])), 0).ok().unwrap() {
        WriteStep::Send(st, _) => st,
        WriteStep::Done(_) => panic!("expected the second batch"),
    };
    assert_eq!(state.done.len(), 2);
    let bad = WeComEnvelope { errcode: Some(2022004), errmsg: Some(s("sheet busy")) };
    match write_records_step(state, s("{}"), Ok((bad, vec![])), 0) {
        Err(ImError::Platform { code, message }) => {
            assert_eq!(code, 2022004);
            assert_eq!(message, "sheet busy");
        },
        _ => panic!("expected the failure"),
    }
    let one = write_records_requests(&authed(), "doc", "sheet", vec![RecordInput { id: Some(s("r")), fields: Json::Null }]).ok().unwrap();
    let state = match begin_writes(one) {
        WriteStep::Send(st, _) => st,
        WriteStep::Done(_) => panic!("expected a batch"),
    };
    let ok = WeComEnvelope { errcode: Some(0), errmsg: None };
    match write_records_step(state, s("{}"), Ok((ok, vec![wc_rec("r")])), 0).ok().unwrap() {
        WriteStep::Done(v) => assert_eq!(v[0].id, "r"),
        WriteStep::Send(..) => panic!("expected the end"),
    }
}
