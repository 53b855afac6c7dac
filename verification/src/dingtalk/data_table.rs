//! DingTalk AI tables: bases, tables, fields and records.

use crate::dingtalk::approval::{dt_time, parse_dt_time};
use crate::dingtalk::client::DingTalkClient;
use crate::http::{HttpRequest, Method};
use crate::json::{jv_members, jv_seq, put, str_arr, Json, JsonV};
use crate::model::{
    CreateBaseRequest, CreateFieldRequest, CreateTableRequest, DataBase, DataField, DataRecord,
    DataTable, ImError, ListBasesRequest, ListRecordsRequest, Page, RecordInput,
};
use crate::text::{dec_nat, or_empty};
use vstd::prelude::*;

verus! {

/// A table as DingTalk gives it.
pub struct DtTable {
    pub id: Option<String>,
    pub name: Option<String>,
    pub revision: Option<i64>,
}

/// A base as DingTalk gives it, with its tables.
pub struct DtBase {
    pub id: Option<String>,
    pub name: Option<String>,
    pub url: Option<String>,
    pub tables: Vec<DtTable>,
}

/// A field as DingTalk gives it; a missing property reads as `null`.
pub struct DtField {
    pub id: Option<String>,
    pub name: Option<String>,
    pub field_type: Option<String>,
    pub property: Json,
}

/// A record as DingTalk gives it; missing fields read as `null`.
pub struct DtRecord {
    pub id: Option<String>,
    pub fields: Json,
    pub created_time: Option<String>,
}

pub open spec fn is_table_of(r: DataTable, t: DtTable) -> bool {
    r.id@ == or_empty(t.id) && r.name@ == or_empty(t.name) && r.revision == t.revision
}

pub fn table_from_dt(t: DtTable) -> (r: DataTable)
    ensures
        is_table_of(r, t),
{
    DataTable {
        id: crate::text::unwrap_or_empty(t.id),
        name: crate::text::unwrap_or_empty(t.name),
        revision: t.revision,
    }
}

pub fn tables_from_dt(items: Vec<DtTable>) -> (r: Vec<DataTable>)
    ensures
        r@.len() == items@.len(),
        forall|i: int| 0 <= i < items@.len() ==> is_table_of(#[trigger] r@[i], items@[i]),
{
    let mut out: Vec<DataTable> = Vec::new();
    let ghost all = items@;
    for t in it: items.into_iter()
        invariant
            it.seq() == all,
            out@.len() == it.index(),
            forall|k: int| 0 <= k < out@.len() ==> is_table_of(#[trigger] out@[k], all[k]),
    {
        out.push(table_from_dt(t));
    }
    out
}

pub open spec fn is_base_of(r: DataBase, b: DtBase) -> bool {
    &&& r.id@ == or_empty(b.id)
    &&& r.name@ == or_empty(b.name)
    &&& r.url == b.url
    &&& r.tables@.len() == b.tables@.len()
    &&& forall|i: int| 0 <= i < b.tables@.len() ==> is_table_of(#[trigger] r.tables@[i], b.tables@[i])
}

pub fn base_from_dt(b: DtBase) -> (r: DataBase)
    ensures
        is_base_of(r, b),
{
    DataBase {
        id: crate::text::unwrap_or_empty(b.id),
        name: crate::text::unwrap_or_empty(b.name),
        url: b.url,
        tables: tables_from_dt(b.tables),
    }
}

pub fn bases_from_dt(items: Vec<DtBase>) -> (r: Vec<DataBase>)
    ensures
        r@.len() == items@.len(),
        forall|i: int| 0 <= i < items@.len() ==> is_base_of(#[trigger] r@[i], items@[i]),
{
    let mut out: Vec<DataBase> = Vec::new();
    let ghost all = items@;
    for b in it: items.into_iter()
        invariant
            it.seq() == all,
            out@.len() == it.index(),
            forall|k: int| 0 <= k < out@.len() ==> is_base_of(#[trigger] out@[k], all[k]),
    {
        out.push(base_from_dt(b));
    }
    out
}

pub open spec fn is_field_of(r: DataField, f: DtField) -> bool {
    &&& r.id@ == or_empty(f.id)
    &&& r.name@ == or_empty(f.name)
    &&& r.field_type@ == or_empty(f.field_type)
    &&& r.property@ == f.property@
}

pub fn field_from_dt(f: DtField) -> (r: DataField)
    ensures
        is_field_of(r, f),
{
    DataField {
        id: crate::text::unwrap_or_empty(f.id),
        name: crate::text::unwrap_or_empty(f.name),
        field_type: crate::text::unwrap_or_empty(f.field_type),
        property: f.property,
    }
}

pub fn fields_from_dt(items: Vec<DtField>) -> (r: Vec<DataField>)
    ensures
        r@.len() == items@.len(),
        forall|i: int| 0 <= i < items@.len() ==> is_field_of(#[trigger] r@[i], items@[i]),
{
    let mut out: Vec<DataField> = Vec::new();
    let ghost all = items@;
    for f in it: items.into_iter()
        invariant
            it.seq() == all,
            out@.len() == it.index(),
            forall|k: int| 0 <= k < out@.len() ==> is_field_of(#[trigger] out@[k], all[k]),
    {
        out.push(field_from_dt(f));
    }
    out
}

/// A record's creation time: an RFC 3339 text, else milliseconds since the epoch.
pub open spec fn is_record_of(r: DataRecord, x: DtRecord) -> bool {
    &&& r.id@ == or_empty(x.id)
    &&& r.fields@ == x.fields@
    &&& r.created_at == match x.created_time {
        Some(t) => dt_time(t@),
        None => None,
    }
}

pub fn record_from_dt(x: DtRecord) -> (r: DataRecord)
    ensures
        is_record_of(r, x),
{
    let created_at = match &x.created_time {
        Some(t) => parse_dt_time(t.as_str()),
        None => None,
    };
    DataRecord { id: crate::text::unwrap_or_empty(x.id), fields: x.fields, created_at }
}

pub fn records_from_dt(items: Vec<DtRecord>) -> (r: Vec<DataRecord>)
    ensures
        r@.len() == items@.len(),
        forall|i: int| 0 <= i < items@.len() ==> is_record_of(#[trigger] r@[i], items@[i]),
{
    let mut out: Vec<DataRecord> = Vec::new();
    let ghost all = items@;
    for x in it: items.into_iter()
        invariant
            it.seq() == all,
            out@.len() == it.index(),
            forall|k: int| 0 <= k < out@.len() ==> is_record_of(#[trigger] out@[k], all[k]),
    {
        out.push(record_from_dt(x));
    }
    out
}

/// The path of the bases.
pub open spec fn bases_path() -> Seq<char> {
    "/v1.0/aitable/bases"@
}

/// The path of one base.
pub open spec fn base_path_v(base_id: Seq<char>) -> Seq<char> {
    bases_path() + "/"@ + base_id
}

/// The path of a base's tables.
pub open spec fn tables_path_v(base_id: Seq<char>) -> Seq<char> {
    base_path_v(base_id) + "/tables"@
}

/// The path of one table.
pub open spec fn table_path_v(base_id: Seq<char>, table_id: Seq<char>) -> Seq<char> {
    tables_path_v(base_id) + "/"@ + table_id
}

pub fn base_path(base_id: &str) -> (r: String)
    ensures
        r@ == base_path_v(base_id@),
{
    let mut p = crate::text::lit("/v1.0/aitable/bases");
    crate::text::push_str(&mut p, "/");
    crate::text::push_str(&mut p, base_id);
    p
}

pub fn tables_path(base_id: &str) -> (r: String)
    ensures
        r@ == tables_path_v(base_id@),
{
    let mut p = base_path(base_id);
    crate::text::push_str(&mut p, "/tables");
    p
}

pub fn table_path(base_id: &str, table_id: &str) -> (r: String)
    ensures
        r@ == table_path_v(base_id@, table_id@),
{
    let mut p = tables_path(base_id);
    crate::text::push_str(&mut p, "/");
    crate::text::push_str(&mut p, table_id);
    p
}

/// A request whose URL is the client's base URL and `path`, with the given method
/// and body, carrying the stored token; an authentication error where none is stored.
pub open spec fn dt_authed(
    client: DingTalkClient,
    r: Result<HttpRequest, ImError>,
    method: Method,
    path: Seq<char>,
    body: Option<JsonV>,
) -> bool {
    &&& r is Ok <==> client.access_token is Some
    &&& r matches Ok(q) ==> q.method == method && q.url@ == client.base_url@ + path && q.headers@.len()
        == 1 && Some(q.headers@[0].1) == client.access_token && match body {
        Some(b) => q.body matches Some(qb) && qb@ == b,
        None => q.body is None,
    }
    &&& r is Err ==> r->Err_0 is Auth
}

/// The body of a new base: its name, and its folder where given.
pub open spec fn create_base_body_v(req: CreateBaseRequest) -> JsonV {
    JsonV::Obj(
        seq![("name"@, JsonV::Str(req.name@))] + match req.folder_id {
            Some(f) => seq![("folderId"@, JsonV::Str(f@))],
            None => Seq::empty(),
        },
    )
}

pub fn create_base_request(client: &DingTalkClient, req: &CreateBaseRequest) -> (r: Result<
    HttpRequest,
    ImError,
>)
    ensures
        dt_authed(*client, r, Method::Post, bases_path(), Some(create_base_body_v(*req))),
{
    broadcast use crate::json::group_json;

    let mut m: Vec<(String, Json)> = Vec::new();
    put(&mut m, "name", Json::Str(req.name.clone()));
    match &req.folder_id {
        Some(f) => put(&mut m, "folderId", Json::Str(f.clone())),
        None => {},
    }
    assert(jv_members(m@) =~= create_base_body_v(*req)->Obj_0);
    client.post("/v1.0/aitable/bases", Json::Obj(m))
}

/// The query of a base listing: the cursor, then the page size, each where given,
/// joined by `&`.
pub open spec fn bases_query_v(req: ListBasesRequest) -> Seq<char> {
    match (req.cursor, req.limit) {
        (Some(c), Some(l)) => "nextCursor="@ + c@ + "&maxResults="@ + dec_nat(l as nat),
        (Some(c), None) => "nextCursor="@ + c@,
        (None, Some(l)) => "maxResults="@ + dec_nat(l as nat),
        (None, None) => Seq::empty(),
    }
}

/// The listing path: the bases, with `?` and the query where there is any parameter.
pub open spec fn list_bases_path_v(req: ListBasesRequest) -> Seq<char> {
    if req.cursor is None && req.limit is None {
        bases_path()
    } else {
        bases_path() + "?"@ + bases_query_v(req)
    }
}

pub fn list_bases_path(req: &ListBasesRequest) -> (r: String)
    ensures
        r@ == list_bases_path_v(*req),
{
    let mut p = crate::text::lit("/v1.0/aitable/bases");
    match (&req.cursor, req.limit) {
        (Some(c), Some(l)) => {
            crate::text::push_str(&mut p, "?");
            crate::text::push_str(&mut p, "nextCursor=");
            crate::text::push_str(&mut p, c.as_str());
            crate::text::push_str(&mut p, "&maxResults=");
            let n = crate::text::fmt_u64(l as u64);
            crate::text::push_str(&mut p, n.as_str());
        },
        (Some(c), None) => {
            crate::text::push_str(&mut p, "?");
            crate::text::push_str(&mut p, "nextCursor=");
            crate::text::push_str(&mut p, c.as_str());
        },
        (None, Some(l)) => {
            crate::text::push_str(&mut p, "?");
            crate::text::push_str(&mut p, "maxResults=");
            let n = crate::text::fmt_u64(l as u64);
            crate::text::push_str(&mut p, n.as_str());
        },
        (None, None) => {},
    }
    assert(p@ =~= list_bases_path_v(*req));
    p
}

/// A page of bases from the reply's bases, `hasMore` (false where absent) and cursor.
pub fn bases_page(items: Vec<DtBase>, has_more: Option<bool>, next_cursor: Option<String>) -> (r: Page<
    DataBase,
>)
    ensures
        r.items@.len() == items@.len(),
        forall|i: int| 0 <= i < items@.len() ==> is_base_of(#[trigger] r.items@[i], items@[i]),
        r.has_more == (has_more == Some(true)),
        r.next_cursor == next_cursor,
{
    let more = match has_more {
        Some(b) => b,
        None => false,
    };
    Page { items: bases_from_dt(items), has_more: more, next_cursor }
}

/// The reading of a reply that carries one base (creation and lookup).
pub fn base_reply(status: u16, text: String, parsed: Result<DtBase, String>) -> (r: Result<
    DataBase,
    ImError,
>)
    ensures
        !crate::http::is_success(status) ==> r == Err::<DataBase, ImError>(
            ImError::Platform { code: status as i64, message: text },
        ),
        crate::http::is_success(status) && parsed is Err ==> r == Err::<DataBase, ImError>(
            ImError::Serialization(parsed->Err_0),
        ),
        crate::http::is_success(status) && parsed is Ok ==> (r matches Ok(b) && is_base_of(
            b,
            parsed->Ok_0,
        )),
{
    let b = crate::http::read_reply(status, text, parsed)?;
    Ok(base_from_dt(b))
}


/// A field definition: its name, type and property.
pub open spec fn field_def_v(f: CreateFieldRequest) -> JsonV {
    JsonV::Obj(
        seq![
            ("name"@, JsonV::Str(f.name@)),
            ("fieldType"@, JsonV::Str(f.field_type@)),
            ("property"@, f.property@),
        ],
    )
}

fn field_def(f: &CreateFieldRequest) -> (r: Json)
    ensures
        r@ == field_def_v(*f),
{
    broadcast use crate::json::group_json;

    let mut m: Vec<(String, Json)> = Vec::new();
    put(&mut m, "name", Json::Str(f.name.clone()));
    put(&mut m, "fieldType", Json::Str(f.field_type.clone()));
    put(&mut m, "property", crate::json::json_clone(&f.property));
    assert(jv_members(m@) =~= field_def_v(*f)->Obj_0);
    Json::Obj(m)
}

pub open spec fn field_defs_v(s: Seq<CreateFieldRequest>) -> Seq<JsonV>
    decreases s.len(),
{
    if s.len() == 0 {
        Seq::empty()
    } else {
        field_defs_v(s.drop_last()).push(field_def_v(s.last()))
    }
}

/// The body of a new table: its name and its fields.
pub open spec fn create_table_body_v(req: CreateTableRequest) -> JsonV {
    JsonV::Obj(
        seq![("name"@, JsonV::Str(req.name@)), ("fields"@, JsonV::Arr(field_defs_v(req.fields@)))],
    )
}

pub fn create_table_request(client: &DingTalkClient, req: &CreateTableRequest) -> (r: Result<
    HttpRequest,
    ImError,
>)
    ensures
        dt_authed(*client, r, Method::Post, tables_path_v(req.base_id@), Some(create_table_body_v(*req))),
{
    broadcast use crate::json::group_json;

    let mut fields: Vec<Json> = Vec::new();
    let mut i: usize = 0;
    while i < req.fields.len()
        invariant
            i <= req.fields@.len(),
            jv_seq(fields@) == field_defs_v(req.fields@.subrange(0, i as int)),
        decreases req.fields@.len() - i,
    {
        let item = field_def(&req.fields[i]);
        let ghost before = fields@;
        let ghost ig = item;
        fields.push(item);
        proof {
            crate::json::lemma_jv_seq_push(before, ig);
            assert(req.fields@.subrange(0, i + 1).drop_last() =~= req.fields@.subrange(0, i as int));
        }
        i = i + 1;
    }
    assert(req.fields@.subrange(0, req.fields@.len() as int) =~= req.fields@);
    let body = crate::json::obj2("name", Json::Str(req.name.clone()), "fields", Json::Arr(fields));
    let p = tables_path(req.base_id.as_str());
    client.post(p.as_str(), body)
}

/// The reading of a reply that carries one table.
pub fn table_reply(status: u16, text: String, parsed: Result<DtTable, String>) -> (r: Result<
    DataTable,
    ImError,
>)
    ensures
        !crate::http::is_success(status) ==> r == Err::<DataTable, ImError>(
            ImError::Platform { code: status as i64, message: text },
        ),
        crate::http::is_success(status) && parsed is Err ==> r == Err::<DataTable, ImError>(
            ImError::Serialization(parsed->Err_0),
        ),
        crate::http::is_success(status) && parsed is Ok ==> (r matches Ok(t) && is_table_of(
            t,
            parsed->Ok_0,
        )),
{
    let t = crate::http::read_reply(status, text, parsed)?;
    Ok(table_from_dt(t))
}

/// The path of a table's fields.
pub fn fields_path(base_id: &str, table_id: &str) -> (r: String)
    ensures
        r@ == table_path_v(base_id@, table_id@) + "/fields"@,
{
    let mut p = table_path(base_id, table_id);
    crate::text::push_str(&mut p, "/fields");
    p
}

pub fn create_field_request(
    client: &DingTalkClient,
    base_id: &str,
    table_id: &str,
    req: &CreateFieldRequest,
) -> (r: Result<HttpRequest, ImError>)
    ensures
        dt_authed(
            *client,
            r,
            Method::Post,
            table_path_v(base_id@, table_id@) + "/fields"@,
            Some(field_def_v(*req)),
        ),
{
    let body = field_def(req);
    let p = fields_path(base_id, table_id);
    client.post(p.as_str(), body)
}

/// The reading of a reply that carries one field.
pub fn field_reply(status: u16, text: String, parsed: Result<DtField, String>) -> (r: Result<
    DataField,
    ImError,
>)
    ensures
        !crate::http::is_success(status) ==> r == Err::<DataField, ImError>(
            ImError::Platform { code: status as i64, message: text },
        ),
        crate::http::is_success(status) && parsed is Err ==> r == Err::<DataField, ImError>(
            ImError::Serialization(parsed->Err_0),
        ),
        crate::http::is_success(status) && parsed is Ok ==> (r matches Ok(f) && is_field_of(
            f,
            parsed->Ok_0,
        )),
{
    let f = crate::http::read_reply(status, text, parsed)?;
    Ok(field_from_dt(f))
}

/// The body of a record query: the view, the filter, the sort, the field names (where
/// there are any), the cursor and the page size, each where given, in that order.
pub open spec fn query_body_v(req: ListRecordsRequest) -> JsonV {
    JsonV::Obj(
        (match req.view_id {
            Some(v) => seq![("viewId"@, JsonV::Str(v@))],
            None => Seq::empty(),
        }) + (match req.filter {
            Some(f) => seq![("filter"@, JsonV::Str(f@))],
            None => Seq::empty(),
        }) + (match req.sort {
            Some(s) => seq![("sort"@, s@)],
            None => Seq::empty(),
        }) + (if req.field_names@.len() > 0 {
            seq![("fieldNames"@, JsonV::Arr(str_arr(req.field_names@)))]
        } else {
            Seq::empty()
        }) + (match req.cursor {
            Some(c) => seq![("nextCursor"@, JsonV::Str(c@))],
            None => Seq::empty(),
        }) + (match req.limit {
            Some(l) => seq![("maxResults"@, JsonV::Int(l as i64))],
            None => Seq::empty(),
        }),
    )
}

pub fn list_records_request(client: &DingTalkClient, req: &ListRecordsRequest) -> (r: Result<
    HttpRequest,
    ImError,
>)
    ensures
        dt_authed(
            *client,
            r,
            Method::Post,
            table_path_v(req.base_id@, req.table_id@) + "/records/query"@,
            Some(query_body_v(*req)),
        ),
{
    broadcast use crate::json::group_json;

    let mut m: Vec<(String, Json)> = Vec::new();
    match &req.view_id {
        Some(v) => put(&mut m, "viewId", Json::Str(v.clone())),
        None => {},
    }
    match &req.filter {
        Some(f) => put(&mut m, "filter", Json::Str(f.clone())),
        None => {},
    }
    match &req.sort {
        Some(s) => put(&mut m, "sort", crate::json::json_clone(s)),
        None => {},
    }
    if req.field_names.len() > 0 {
        put(&mut m, "fieldNames", crate::json::jstrs(&req.field_names));
    }
    match &req.cursor {
        Some(c) => put(&mut m, "nextCursor", Json::Str(c.clone())),
        None => {},
    }
    match req.limit {
        Some(l) => put(&mut m, "maxResults", Json::Int(l as i64)),
        None => {},
    }
    assert(jv_members(m@) =~= query_body_v(*req)->Obj_0);
    let mut p = table_path(req.base_id.as_str(), req.table_id.as_str());
    crate::text::push_str(&mut p, "/records/query");
    client.post(p.as_str(), Json::Obj(m))
}

/// A page of records from the reply's records, `hasMore` (false where absent) and
/// cursor.
pub fn records_page(items: Vec<DtRecord>, has_more: Option<bool>, next_cursor: Option<String>) -> (r:
    Page<DataRecord>)
    ensures
        r.items@.len() == items@.len(),
        forall|i: int| 0 <= i < items@.len() ==> is_record_of(#[trigger] r.items@[i], items@[i]),
        r.has_more == (has_more == Some(true)),
        r.next_cursor == next_cursor,
{
    let more = match has_more {
        Some(b) => b,
        None => false,
    };
    Page { items: records_from_dt(items), has_more: more, next_cursor }
}

/// A row of a write: its id where it has one, then its fields.
pub open spec fn write_item_v(x: RecordInput) -> JsonV {
    JsonV::Obj(
        (match x.id {
            Some(id) => seq![("id"@, JsonV::Str(id@))],
            None => Seq::empty(),
        }) + seq![("fields"@, x.fields@)],
    )
}

pub open spec fn write_items_v(s: Seq<RecordInput>) -> Seq<JsonV>
    decreases s.len(),
{
    if s.len() == 0 {
        Seq::empty()
    } else {
        write_items_v(s.drop_last()).push(write_item_v(s.last()))
    }
}

/// What a write sends for each row, in order: a row with an id as
/// `{"id": <its id>, "fields": <its fields>}`, a row without one as
/// `{"fields": <its fields>}`.
pub proof fn law_write_items(s: Seq<RecordInput>)
    ensures
        write_items_v(s).len() == s.len(),
        forall|i: int|
            0 <= i < s.len() ==> #[trigger] write_items_v(s)[i] == JsonV::Obj(match s[i].id {
                Some(id) => seq![("id"@, JsonV::Str(id@)), ("fields"@, s[i].fields@)],
                None => seq![("fields"@, s[i].fields@)],
            }),
    decreases s.len(),
{
    if s.len() > 0 {
        law_write_items(s.drop_last());
        let x = s.last();
        match x.id {
            Some(id) => {
                assert(write_item_v(x)->Obj_0 =~= seq![("id"@, JsonV::Str(id@)), ("fields"@, x.fields@)]);
            },
            None => {
                assert(write_item_v(x)->Obj_0 =~= seq![("fields"@, x.fields@)]);
            },
        }
        assert forall|i: int| 0 <= i < s.len() - 1 implies s[i] == s.drop_last()[i] by {}
    }
}

fn write_item(x: &RecordInput) -> (r: Json)
    ensures
        r@ == write_item_v(*x),
{
    broadcast use crate::json::group_json;

    let mut m: Vec<(String, Json)> = Vec::new();
    match &x.id {
        Some(id) => put(&mut m, "id", Json::Str(id.clone())),
        None => {},
    }
    put(&mut m, "fields", crate::json::json_clone(&x.fields));
    assert(jv_members(m@) =~= write_item_v(*x)->Obj_0);
    Json::Obj(m)
}

/// One request writes every row, those with an id and those without alike.
pub fn write_records_request(client: &DingTalkClient, req: &crate::model::WriteRecordsRequest) -> (r:
    Result<HttpRequest, ImError>)
    ensures
        dt_authed(
            *client,
            r,
            Method::Post,
            table_path_v(req.base_id@, req.table_id@) + "/records"@,
            Some(JsonV::Obj(seq![("records"@, JsonV::Arr(write_items_v(req.records@)))])),
        ),
{
    broadcast use crate::json::group_json;

    let mut items: Vec<Json> = Vec::new();
    let mut i: usize = 0;
    while i < req.records.len()
        invariant
            i <= req.records@.len(),
            jv_seq(items@) == write_items_v(req.records@.subrange(0, i as int)),
        decreases req.records@.len() - i,
    {
        let item = write_item(&req.records[i]);
        let ghost before = items@;
        let ghost ig = item;
        items.push(item);
        proof {
            crate::json::lemma_jv_seq_push(before, ig);
            assert(req.records@.subrange(0, i + 1).drop_last() =~= req.records@.subrange(0, i as int));
        }
        i = i + 1;
    }
    assert(req.records@.subrange(0, req.records@.len() as int) =~= req.records@);
    let body = crate::json::obj1("records", Json::Arr(items));
    let mut p = table_path(req.base_id.as_str(), req.table_id.as_str());
    crate::text::push_str(&mut p, "/records");
    client.post(p.as_str(), body)
}

/// The request that deletes records by id.
pub fn delete_records_request(
    client: &DingTalkClient,
    base_id: &str,
    table_id: &str,
    record_ids: &Vec<String>,
) -> (r: Result<HttpRequest, ImError>)
    ensures
        dt_authed(
            *client,
            r,
            Method::Post,
            table_path_v(base_id@, table_id@) + "/records/delete"@,
            Some(JsonV::Obj(seq![("recordIds"@, JsonV::Arr(str_arr(record_ids@)))])),
        ),
{
    let body = crate::json::obj1("recordIds", crate::json::jstrs(record_ids));
    let mut p = table_path(base_id, table_id);
    crate::text::push_str(&mut p, "/records/delete");
    client.post(p.as_str(), body)
}

} // verus!
