//! WeCom documents: creation, reading (which WeCom runs as a task that is polled),
//! editing in markdown.

use crate::http::{code_of, HttpRequest, Method};
use crate::json::{jv_members, put, Json, JsonV};
use crate::model::{CreateDocumentRequest, Document, DocumentType, ImError, UpdateDocumentRequest};
use crate::text::{or_empty, or_text};
use crate::wecom::client::{token_result, WeComClient};
use vstd::prelude::*;

verus! {

/// The type number WeCom takes for a document type: 10 for sheets, 3 for the rest.
pub open spec fn doc_type_code_v(t: DocumentType) -> i64 {
    match t {
        DocumentType::Spreadsheet => 10,
        DocumentType::Smartsheet => 10,
        _ => 3,
    }
}

/// WeCom's document kinds: spreadsheets and smart sheets are created as kind 10,
/// every other document as kind 3.
pub proof fn law_doc_type_codes(t: DocumentType)
    ensures
        (doc_type_code_v(t) == 10) <==> (t == DocumentType::Spreadsheet || t == DocumentType::Smartsheet),
        (doc_type_code_v(t) == 3) <==> !(t == DocumentType::Spreadsheet || t == DocumentType::Smartsheet),
{
}

pub fn doc_type_code(t: DocumentType) -> (r: i64)
    ensures
        r == doc_type_code_v(t),
{
    match t {
        DocumentType::Spreadsheet => 10,
        DocumentType::Smartsheet => 10,
        _ => 3,
    }
}

pub open spec fn create_body_v(req: CreateDocumentRequest) -> JsonV {
    JsonV::Obj(
        seq![
            ("doc_type"@, JsonV::Int(doc_type_code_v(req.doc_type))),
            ("doc_name"@, JsonV::Str(req.title@)),
        ],
    )
}

pub fn create_document_request(client: &WeComClient, req: &CreateDocumentRequest) -> (r: Result<
    HttpRequest,
    ImError,
>)
    ensures
        token_result(*client, r, Method::Post, "/cgi-bin/doc/create"@, Some(create_body_v(*req))),
{
    let body = crate::json::obj2(
        "doc_type",
        Json::Int(doc_type_code(req.doc_type)),
        "doc_name",
        Json::Str(req.title.clone()),
    );
    client.post("/cgi-bin/doc/create", body)
}

/// A creation's reply as WeCom gives it.
pub struct CreateDocResp {
    pub errcode: Option<i64>,
    pub errmsg: Option<String>,
    pub url: Option<String>,
    pub docid: Option<String>,
}

/// The reading of a creation's reply: the document as asked for, with the id (empty
/// where none) and URL WeCom gave.
pub fn create_document_reply(req: CreateDocumentRequest, text: String, parsed: Result<CreateDocResp, String>) -> (r:
    Result<Document, ImError>)
    ensures
        parsed is Err ==> r == Err::<Document, ImError>(ImError::Serialization(parsed->Err_0)),
        parsed matches Ok(d) ==> (r is Ok <==> code_of(d.errcode) == 0),
        parsed matches Ok(d) ==> (r matches Err(e) ==> (e matches ImError::Platform {
            code: c,
            message: m,
        } && c == code_of(d.errcode) && m@ == or_text(d.errmsg, text@))),
        parsed matches Ok(d) ==> (r matches Ok(doc) ==> doc.id@ == or_empty(d.docid) && doc.title
            == req.title && doc.doc_type == req.doc_type && doc.url == d.url && doc.content
            == req.content && doc.extra@ == JsonV::Null),
{
    let d = match parsed {
        Ok(d) => d,
        Err(e) => {
            return Err(ImError::Serialization(e));
        },
    };
    crate::http::check_code(d.errcode, d.errmsg, text)?;
    Ok(
        Document {
            id: crate::text::unwrap_or_empty(d.docid),
            title: req.title,
            doc_type: req.doc_type,
            url: d.url,
            content: req.content,
            extra: Json::Null,
        },
    )
}

/// The write of a new document's initial content, where it has any; its outcome does
/// not change the creation's result.
pub fn initial_content(doc: &Document) -> (r: Option<UpdateDocumentRequest>)
    ensures
        doc.content is None ==> r is None,
        doc.content matches Some(c) ==> (r matches Some(u) && u.doc_id == doc.id && u.content == c),
{
    match &doc.content {
        Some(c) => Some(UpdateDocumentRequest { doc_id: doc.id.clone(), content: c.clone() }),
        None => None,
    }
}

/// The body of an edit: the content as markdown (content type 1).
pub open spec fn update_body_v(req: UpdateDocumentRequest) -> JsonV {
    JsonV::Obj(
        seq![
            ("docid"@, JsonV::Str(req.doc_id@)),
            ("content"@, JsonV::Str(req.content@)),
            ("content_type"@, JsonV::Int(1)),
        ],
    )
}

pub fn update_document_request(client: &WeComClient, req: &UpdateDocumentRequest) -> (r: Result<
    HttpRequest,
    ImError,
>)
    ensures
        token_result(*client, r, Method::Post, "/cgi-bin/doc/edit_content"@, Some(update_body_v(*req))),
{
    broadcast use crate::json::group_json;

    let mut m: Vec<(String, Json)> = Vec::new();
    put(&mut m, "docid", Json::Str(req.doc_id.clone()));
    put(&mut m, "content", Json::Str(req.content.clone()));
    put(&mut m, "content_type", Json::Int(1));
    assert(jv_members(m@) =~= update_body_v(*req)->Obj_0);
    client.post("/cgi-bin/doc/edit_content", Json::Obj(m))
}

/// The body of a content request: the document, as markdown (type 2), and the task
/// being polled where there is one.
pub open spec fn content_body_v(doc_id: Seq<char>, task_id: Option<String>) -> JsonV {
    JsonV::Obj(
        seq![("docid"@, JsonV::Str(doc_id)), ("type"@, JsonV::Int(2))] + match task_id {
            Some(t) => seq![("task_id"@, JsonV::Str(t@))],
            None => Seq::empty(),
        },
    )
}

pub fn content_request(client: &WeComClient, doc_id: &str, task_id: Option<String>) -> (r: Result<
    HttpRequest,
    ImError,
>)
    ensures
        token_result(*client, r, Method::Post, "/cgi-bin/doc/get_content"@, Some(content_body_v(doc_id@, task_id))),
{
    broadcast use crate::json::group_json;

    let ghost tg = task_id;
    let mut m: Vec<(String, Json)> = Vec::new();
    put(&mut m, "docid", crate::json::jstr(doc_id));
    put(&mut m, "type", Json::Int(2));
    match task_id {
        Some(t) => put(&mut m, "task_id", Json::Str(t)),
        None => {},
    }
    assert(jv_members(m@) =~= content_body_v(doc_id@, tg)->Obj_0);
    client.post("/cgi-bin/doc/get_content", Json::Obj(m))
}

/// A content reply as WeCom gives it.
pub struct GetDocResp {
    pub task_id: Option<String>,
    pub task_done: Option<bool>,
    pub content: Option<String>,
}

/// The most polls of a content task.
pub const MAX_POLLS: u32 = 10;

/// What follows a content reply.
pub enum DocStep {
    /// The document, read.
    Done(Document),
    /// Poll the task again after a pause of one second; `polls` counts this poll.
    Poll { task_id: String, polls: u32 },
}

/// A document known by its id and content only.
pub open spec fn is_read_doc(d: Document, doc_id: Seq<char>, content: Option<String>) -> bool {
    d.id@ == doc_id && d.title@ == Seq::<char>::empty() && d.doc_type == DocumentType::Document
        && d.url is None && d.content == content && d.extra@ == JsonV::Null
}

/// The decision after a content reply. `first_task` is the task the first reply
/// named, `polls` the polls sent so far. Where there is no task, the task is done, or
/// every poll was sent, the document is read with the reply's content; otherwise the
/// task is polled once more.
pub fn get_document_step(
    doc_id: &str,
    first_task: Option<String>,
    polls: u32,
    parsed: Result<GetDocResp, String>,
) -> (r: Result<DocStep, ImError>)
    requires
        polls <= MAX_POLLS,
    ensures
        parsed is Err ==> r == Err::<DocStep, ImError>(ImError::Serialization(parsed->Err_0)),
        parsed matches Ok(d) ==> ((first_task is None || d.task_done == Some(true) || polls
            == MAX_POLLS) ==> (r matches Ok(DocStep::Done(doc)) && is_read_doc(doc, doc_id@, d.content))),
        parsed matches Ok(d) ==> (!(first_task is None || d.task_done == Some(true) || polls
            == MAX_POLLS) ==> (r matches Ok(DocStep::Poll { task_id: t, polls: n }) && Some(t)
            == first_task && n == polls + 1)),
{
    let d = match parsed {
        Ok(d) => d,
        Err(e) => {
            return Err(ImError::Serialization(e));
        },
    };
    let done = match d.task_done {
        Some(b) => b,
        None => false,
    };
    match first_task {
        Some(t) => {
            if !done && polls < MAX_POLLS {
                return Ok(DocStep::Poll { task_id: t, polls: polls + 1 });
            }
        },
        None => {},
    }
    Ok(
        DocStep::Done(
            Document {
                id: doc_id.to_string(),
                title: String::new(),
                doc_type: DocumentType::Document,
                url: None,
                content: d.content,
                extra: Json::Null,
            },
        ),
    )
}

/// Searching documents is refused as not supported on WeCom.
pub fn search_unsupported() -> (e: ImError)
    ensures
        e matches ImError::NotSupported { feature: f, platform: p } && f@ == "search_documents"@ && p@
            == "wecom"@,
{
    crate::http::not_supported("search_documents", "wecom")
}

} // verus!
