//! Lark documents (docx): creation, reading, appending text, search.

use crate::http::{HttpRequest, Method};
use crate::json::{jv_members, put, Json, JsonV};
use crate::lark::client::{authed_result, LarkClient};
use crate::model::{
    CreateDocumentRequest, Document, DocumentType, ImError, Page, SearchDocumentRequest,
    UpdateDocumentRequest,
};
use crate::text::{count_or, opt_view, or_empty, parse_u32_spec};
use vstd::prelude::*;

verus! {

/// The request that creates a document, in no folder.
pub fn create_document_request(client: &LarkClient, title: &str) -> (r: Result<HttpRequest, ImError>)
    ensures
        authed_result(
            *client,
            r,
            Method::Post,
            "/open-apis/docx/v1/documents"@,
            Some(JsonV::Obj(seq![("title"@, JsonV::Str(title@)), ("folder_token"@, JsonV::Str(Seq::empty()))])),
        ),
{
    let body = crate::json::obj2("title", crate::json::jstr(title), "folder_token", Json::Str(String::new()));
    client.post("/open-apis/docx/v1/documents", body)
}

/// What follows a creation: writing the initial content, where there is any, to the
/// new document. Its failure is ignored.
pub fn initial_content(doc_id: &String, content: &Option<String>) -> (r: Option<UpdateDocumentRequest>)
    ensures
        content is None ==> r is None,
        content matches Some(c) ==> (r matches Some(u) && u.doc_id == doc_id && u.content == c),
{
    match content {
        Some(c) => Some(UpdateDocumentRequest { doc_id: doc_id.clone(), content: c.clone() }),
        None => None,
    }
}

/// The document created: the id the reply gives (empty where none), as asked for.
pub fn created_document(req: CreateDocumentRequest, doc_id: Option<String>) -> (r: Document)
    ensures
        r.id@ == or_empty(doc_id),
        r.title == req.title,
        r.doc_type == req.doc_type,
        r.url is None,
        r.content == req.content,
        r.extra@ == JsonV::Null,
{
    Document {
        id: crate::text::unwrap_or_empty(doc_id),
        title: req.title,
        doc_type: req.doc_type,
        url: None,
        content: req.content,
        extra: Json::Null,
    }
}

/// The path of one document.
pub fn document_path(doc_id: &str) -> (r: String)
    ensures
        r@ == "/open-apis/docx/v1/documents/"@ + doc_id@,
{
    crate::text::concat2("/open-apis/docx/v1/documents/", doc_id)
}

/// The path of a document's raw text.
pub fn raw_content_path(doc_id: &str) -> (r: String)
    ensures
        r@ == "/open-apis/docx/v1/documents/"@ + doc_id@ + "/raw_content"@,
{
    let mut p = document_path(doc_id);
    crate::text::push_str(&mut p, "/raw_content");
    p
}

/// What follows a lookup: the document must exist, else "not found".
pub fn document_found(doc_id: &str, title: Option<Option<String>>) -> (r: Result<Option<String>, ImError>)
    ensures
        title is None ==> (r matches Err(ImError::NotFound { resource: res }) && res@ == doc_id@),
        title matches Some(t) ==> r == Ok::<Option<String>, ImError>(t),
{
    match title {
        Some(t) => Ok(t),
        None => Err(ImError::NotFound { resource: doc_id.to_string() }),
    }
}

/// The document read: its id, title (empty where none) and raw text.
pub fn read_document(doc_id: &str, title: Option<String>, content: Option<String>) -> (r: Document)
    ensures
        r.id@ == doc_id@,
        r.title@ == or_empty(title),
        r.doc_type == DocumentType::Document,
        r.url is None,
        r.content == content,
        r.extra@ == JsonV::Null,
{
    Document {
        id: doc_id.to_string(),
        title: crate::text::unwrap_or_empty(title),
        doc_type: DocumentType::Document,
        url: None,
        content,
        extra: Json::Null,
    }
}

/// The body that appends `content` as a text block at the start of a document.
pub open spec fn update_body_v(content: Seq<char>) -> JsonV {
    JsonV::Obj(
        seq![
            (
                "requests"@,
                JsonV::Arr(
                    seq![
                        JsonV::Obj(
                            seq![
                                (
                                    "create_block"@,
                                    JsonV::Obj(
                                        seq![
                                            (
                                                "block"@,
                                                JsonV::Obj(
                                                    seq![
                                                        ("block_type"@, JsonV::Int(2)),
                                                        (
                                                            "text"@,
                                                            JsonV::Obj(
                                                                seq![
                                                                    (
                                                                        "elements"@,
                                                                        JsonV::Arr(
                                                                            seq![
                                                                                JsonV::Obj(
                                                                                    seq![
                                                                                        (
                                                                                            "text_run"@,
                                                                                            JsonV::Obj(seq![("content"@, JsonV::Str(content))]),
                                                                                        ),
                                                                                    ],
                                                                                ),
                                                                            ],
                                                                        ),
                                                                    ),
                                                                ],
                                                            ),
                                                        ),
                                                    ],
                                                ),
                                            ),
                                            ("index"@, JsonV::Int(0)),
                                        ],
                                    ),
                                ),
                            ],
                        ),
                    ],
                ),
            ),
        ],
    )
}

fn single(j: Json) -> (r: Json)
    ensures
        r@ == JsonV::Arr(seq![j@]),
{
    broadcast use crate::json::group_json;

    let ghost jj = j;
    let mut v: Vec<Json> = Vec::new();
    v.push(j);
    assert(crate::json::jv_seq(v@) =~= seq![jj@]) by {
        crate::json::lemma_jv_seq_push(Seq::empty(), jj);
        assert(v@ =~= Seq::<Json>::empty().push(jj));
    }
    Json::Arr(v)
}

pub fn update_document_request(client: &LarkClient, req: &UpdateDocumentRequest) -> (r: Result<
    HttpRequest,
    ImError,
>)
    ensures
        authed_result(
            *client,
            r,
            Method::Post,
            "/open-apis/docx/v1/documents/"@ + req.doc_id@ + "/blocks/batch_update"@,
            Some(update_body_v(req.content@)),
        ),
{
    let run = crate::json::obj1("text_run", crate::json::obj1("content", Json::Str(req.content.clone())));
    let text = crate::json::obj1("elements", single(run));
    let block = crate::json::obj2("block_type", Json::Int(2), "text", text);
    let create = crate::json::obj2("block", block, "index", Json::Int(0));
    let item = crate::json::obj1("create_block", create);
    let body = crate::json::obj1("requests", single(item));
    let mut p = document_path(req.doc_id.as_str());
    crate::text::push_str(&mut p, "/blocks/batch_update");
    client.post(p.as_str(), body)
}

/// The body of a search: the keyword, the count (20 by default) and the offset read
/// from the cursor (0 where there is none or it is not a number).
pub open spec fn search_body_v(req: SearchDocumentRequest) -> JsonV {
    JsonV::Obj(
        seq![
            ("search_key"@, JsonV::Str(req.keyword@)),
            ("count"@, JsonV::Int(count_or(req.limit, 20))),
            (
                "offset"@,
                JsonV::Int(
                    match req.cursor {
                        Some(c) => match parse_u32_spec(c@) {
                            Some(v) => v as i64,
                            None => 0,
                        },
                        None => 0,
                    },
                ),
            ),
        ],
    )
}

pub fn search_documents_request(client: &LarkClient, req: &SearchDocumentRequest) -> (r: Result<
    HttpRequest,
    ImError,
>)
    ensures
        authed_result(
            *client,
            r,
            Method::Post,
            "/open-apis/suite/docs-api/search/object"@,
            Some(search_body_v(*req)),
        ),
{
    broadcast use crate::json::group_json;

    let count: u32 = match req.limit {
        Some(l) => l,
        None => 20,
    };
    let offset: u32 = match &req.cursor {
        Some(c) => match crate::text::parse_u32(c.as_str()) {
            Some(v) => v,
            None => 0,
        },
        None => 0,
    };
    let mut m: Vec<(String, Json)> = Vec::new();
    put(&mut m, "search_key", Json::Str(req.keyword.clone()));
    put(&mut m, "count", Json::Int(count as i64));
    put(&mut m, "offset", Json::Int(offset as i64));
    assert(jv_members(m@) =~= search_body_v(*req)->Obj_0);
    client.post("/open-apis/suite/docs-api/search/object", Json::Obj(m))
}

/// The type of a search hit: `doc`, `sheet` and `wiki` are known, anything else other.
pub open spec fn doc_kind(t: Option<String>) -> DocumentType {
    match opt_view(t) {
        Some(s) => if s == "doc"@ {
            DocumentType::Document
        } else if s == "sheet"@ {
            DocumentType::Spreadsheet
        } else if s == "wiki"@ {
            DocumentType::Wiki
        } else {
            DocumentType::Other
        },
        None => DocumentType::Other,
    }
}

/// How Lark's document types read: "doc" as a document, "sheet" as a spreadsheet and
/// "wiki" as a wiki, each from that text alone; any other type, or none, is other.
pub proof fn law_doc_kind_texts(t: Option<String>)
    ensures
        (doc_kind(t) == DocumentType::Document) <==> opt_view(t) == Some("doc"@),
        (doc_kind(t) == DocumentType::Spreadsheet) <==> opt_view(t) == Some("sheet"@),
        (doc_kind(t) == DocumentType::Wiki) <==> opt_view(t) == Some("wiki"@),
        (doc_kind(t) == DocumentType::Other) <==> !(opt_view(t) == Some("doc"@) || opt_view(t) == Some(
            "sheet"@,
        ) || opt_view(t) == Some("wiki"@)),
{
    reveal_strlit("doc");
    reveal_strlit("sheet");
    reveal_strlit("wiki");
    assert("doc"@.len() == 3 && "sheet"@.len() == 5 && "wiki"@.len() == 4);
}

/// A search hit as Lark gives it.
pub struct SearchItem {
    pub doc_token: Option<String>,
    pub title: Option<String>,
    pub url: Option<String>,
    pub doc_type: Option<String>,
}

pub open spec fn is_hit_of(r: Document, i: SearchItem) -> bool {
    r.id@ == or_empty(i.doc_token) && r.title@ == or_empty(i.title) && r.doc_type == doc_kind(i.doc_type)
        && r.url == i.url && r.content is None && r.extra@ == JsonV::Null
}

/// A page of search hits.
pub fn search_page(items: Vec<SearchItem>, has_more: Option<bool>, page_token: Option<String>) -> (r: Page<
    Document,
>)
    ensures
        r.items@.len() == items@.len(),
        forall|i: int| 0 <= i < items@.len() ==> is_hit_of(#[trigger] r.items@[i], items@[i]),
        r.has_more == (has_more == Some(true)),
        r.next_cursor == page_token,
{
    let mut out: Vec<Document> = Vec::new();
    let ghost all = items@;
    for it_ in it: items.into_iter()
        invariant
            it.seq() == all,
            out@.len() == it.index(),
            forall|k: int| 0 <= k < out@.len() ==> is_hit_of(#[trigger] out@[k], all[k]),
    {
        let kind = match &it_.doc_type {
            Some(t) => if crate::text::str_eq(t.as_str(), "doc") {
                DocumentType::Document
            } else if crate::text::str_eq(t.as_str(), "sheet") {
                DocumentType::Spreadsheet
            } else if crate::text::str_eq(t.as_str(), "wiki") {
                DocumentType::Wiki
            } else {
                DocumentType::Other
            },
            None => DocumentType::Other,
        };
        out.push(
            Document {
                id: crate::text::unwrap_or_empty(it_.doc_token),
                title: crate::text::unwrap_or_empty(it_.title),
                doc_type: kind,
                url: it_.url,
                content: None,
                extra: Json::Null,
            },
        );
    }
    let more = match has_more {
        Some(b) => b,
        None => false,
    };
    Page { items: out, has_more: more, next_cursor: page_token }
}

} // verus!
