//! WeCom smart sheets: fields and records, written in batches of at most 500 rows.

use crate::http::{advance_writes, advanced, code_of, HttpRequest, Method, WriteState, WriteStep};
use crate::json::{jv_members, jv_seq, put, str_arr, Json, JsonV};
use crate::model::{DataField, DataRecord, ImError, ListRecordsRequest, Page, RecordInput};
use crate::text::{or_empty, or_text};
use crate::time::secs_representable;
use crate::wecom::client::{is_token_request, token_result, WeComClient, WeComEnvelope};
use vstd::prelude::*;

verus! {

/// The most rows one request writes.
pub const BATCH_SIZE: usize = 500;

/// The operations that WeCom's smart sheets do not offer through this API.
pub fn not_supported(feature: &str) -> (e: ImError)
    ensures
        e matches ImError::NotSupported { feature: f, platform: p } && f@ == feature@ && p@
            == "wecom"@,
{
    crate::http::not_supported(feature, "wecom")
}

/// The reading of a reply's error code: nonzero is a platform error with that code and
/// the message (or the reply's text).
pub fn check_errcode(errcode: Option<i64>, errmsg: Option<String>, raw: String) -> (r: Result<
    (),
    ImError,
>)
    ensures
        r is Ok <==> code_of(errcode) == 0,
        r matches Err(e) ==> (e matches ImError::Platform { code: c, message: m } && c == code_of(
            errcode,
        ) && m@ == or_text(errmsg, raw@)),
{
    crate::http::check_code(errcode, errmsg, raw)
}

/// A record as WeCom gives it.
pub struct WcRecord {
    pub record_id: Option<String>,
    pub values: Option<Json>,
    /// Seconds since the epoch.
    pub created_time: Option<i64>,
}

/// What a WeCom record says of a record at the instant `now`, which stands for a
/// creation time chrono cannot represent.
pub open spec fn is_record_of(r: DataRecord, x: WcRecord, now: i64) -> bool {
    &&& r.id@ == or_empty(x.record_id)
    &&& r.fields@ == match x.values {
        Some(v) => v@,
        None => JsonV::Null,
    }
    &&& r.created_at == match x.created_time {
        Some(ts) => Some(
            if secs_representable(ts) {
                (ts * 1000) as i64
            } else {
                now
            },
        ),
        None => None,
    }
}

pub fn record_from_wc(x: WcRecord, now: i64) -> (r: DataRecord)
    ensures
        is_record_of(r, x, now),
{
    let created_at = match x.created_time {
        Some(ts) => match crate::time::from_secs(ts) {
            Some(ms) => Some(ms),
            None => Some(now),
        },
        None => None,
    };
    let fields = match x.values {
        Some(v) => v,
        None => Json::Null,
    };
    DataRecord { id: crate::text::unwrap_or_empty(x.record_id), fields, created_at }
}

pub fn records_from_wc(items: Vec<WcRecord>, now: i64) -> (r: Vec<DataRecord>)
    ensures
        r@.len() == items@.len(),
        forall|i: int| 0 <= i < items@.len() ==> is_record_of(#[trigger] r@[i], items@[i], now),
{
    let mut out: Vec<DataRecord> = Vec::new();
    let ghost all = items@;
    for x in it: items.into_iter()
        invariant
            it.seq() == all,
            out@.len() == it.index(),
            forall|k: int| 0 <= k < out@.len() ==> is_record_of(#[trigger] out@[k], all[k], now),
    {
        out.push(record_from_wc(x, now));
    }
    out
}

/// The rows that a write adds: those without an id, in order, each as its values.
pub open spec fn add_items(s: Seq<RecordInput>) -> Seq<JsonV>
    decreases s.len(),
{
    if s.len() == 0 {
        Seq::empty()
    } else {
        let rest = add_items(s.drop_last());
        match s.last().id {
            None => rest.push(JsonV::Obj(seq![("values"@, s.last().fields@)])),
            Some(_) => rest,
        }
    }
}

/// The rows that a write updates: those with an id, in order, each as its id and
/// values.
pub open spec fn update_items(s: Seq<RecordInput>) -> Seq<JsonV>
    decreases s.len(),
{
    if s.len() == 0 {
        Seq::empty()
    } else {
        let rest = update_items(s.drop_last());
        match s.last().id {
            Some(id) => rest.push(
                JsonV::Obj(seq![("record_id"@, JsonV::Str(id@)), ("values"@, s.last().fields@)]),
            ),
            None => rest,
        }
    }
}

/// Every row of a write is added or updated, never both.
pub proof fn law_write_partition(s: Seq<RecordInput>)
    ensures
        add_items(s).len() + update_items(s).len() == s.len(),
    decreases s.len(),
{
    if s.len() > 0 {
        law_write_partition(s.drop_last());
    }
}

/// What a write sends for each row: every row without an id, in order, is added as
/// `{"values": <its fields>}`; every row with an id, in order, is updated as
/// `{"record_id": <its id>, "values": <its fields>}`.
pub proof fn law_write_items(s: Seq<RecordInput>)
    ensures
        add_items(s) == s.filter(|r: RecordInput| r.id is None).map_values(
            |r: RecordInput| JsonV::Obj(seq![("values"@, r.fields@)]),
        ),
        update_items(s) == s.filter(|r: RecordInput| r.id is Some).map_values(
            |r: RecordInput| JsonV::Obj(seq![("record_id"@, JsonV::Str(r.id->Some_0@)), ("values"@, r.fields@)]),
        ),
    decreases s.len(),
{
    reveal(Seq::filter);
    if s.len() > 0 {
        law_write_items(s.drop_last());
        let fc = s.drop_last().filter(|r: RecordInput| r.id is None);
        let fu = s.drop_last().filter(|r: RecordInput| r.id is Some);
        assert(fc.push(s.last()).map_values(|r: RecordInput| JsonV::Obj(seq![("values"@, r.fields@)]))
            =~= fc.map_values(|r: RecordInput| JsonV::Obj(seq![("values"@, r.fields@)])).push(
            JsonV::Obj(seq![("values"@, s.last().fields@)]),
        ));
        assert(fu.push(s.last()).map_values(
            |r: RecordInput| JsonV::Obj(seq![("record_id"@, JsonV::Str(r.id->Some_0@)), ("values"@, r.fields@)]),
        ) =~= fu.map_values(
            |r: RecordInput| JsonV::Obj(seq![("record_id"@, JsonV::Str(r.id->Some_0@)), ("values"@, r.fields@)]),
        ).push(JsonV::Obj(seq![("record_id"@, JsonV::Str(s.last().id->Some_0@)), ("values"@, s.last().fields@)])));
    }
}

/// Splits the rows of a write into the rows to add and the rows to update.
pub fn split_records(records: Vec<RecordInput>) -> (r: (Vec<Json>, Vec<Json>))
    ensures
        jv_seq(r.0@) == add_items(records@),
        jv_seq(r.1@) == update_items(records@),
{
    broadcast use crate::json::group_json;

    let mut adds: Vec<Json> = Vec::new();
    let mut updates: Vec<Json> = Vec::new();
    let ghost all = records@;
    for rec in it: records.into_iter()
        invariant
            it.seq() == all,
            it.index() <= all.len(),
            jv_seq(adds@) == add_items(all.subrange(0, it.index() as int)),
            jv_seq(updates@) == update_items(all.subrange(0, it.index() as int)),
    {
        let ghost i = it.index();
        let ghost recg = rec;
        proof {
            assert(all.subrange(0, i + 1).drop_last() =~= all.subrange(0, i as int));
            assert(all.subrange(0, i + 1).last() == recg);
        }
        match rec.id {
            Some(id) => {
                let item = crate::json::obj2("record_id", Json::Str(id), "values", rec.fields);
                let ghost before = updates@;
                let ghost ig = item;
                updates.push(item);
                proof {
                    crate::json::lemma_jv_seq_push(before, ig);
                }
            },
            None => {
                let item = crate::json::obj1("values", rec.fields);
                let ghost before = adds@;
                let ghost ig = item;
                adds.push(item);
                proof {
                    crate::json::lemma_jv_seq_push(before, ig);
                }
            },
        }
    }
    assert(all.subrange(0, all.len() as int) =~= all);
    (adds, updates)
}

/// The contents of a list of batches.
pub open spec fn batch_views(b: Seq<Vec<Json>>) -> Seq<Seq<Json>> {
    b.map_values(|v: Vec<Json>| v@)
}

/// Whether `b` cuts `items` into consecutive batches of `BATCH_SIZE` rows, the last
/// one possibly shorter and none empty.
pub open spec fn is_batching(b: Seq<Seq<Json>>, items: Seq<Json>) -> bool {
    &&& b.flatten() == items
    &&& forall|i: int| 0 <= i < b.len() ==> 0 < (#[trigger] b[i]).len() <= BATCH_SIZE
    &&& forall|i: int| 0 <= i < b.len() - 1 ==> (#[trigger] b[i]).len() == BATCH_SIZE
}

/// Cuts `items` into batches of at most `BATCH_SIZE` rows, in order.
pub fn into_batches(items: Vec<Json>) -> (r: Vec<Vec<Json>>)
    ensures
        is_batching(batch_views(r@), items@),
{
    let mut batches: Vec<Vec<Json>> = Vec::new();
    let mut cur: Vec<Json> = Vec::new();
    let ghost all = items@;
    for x in it: items.into_iter()
        invariant
            it.seq() == all,
            it.index() <= all.len(),
            batch_views(batches@).flatten() + cur@ == all.take(it.index() as int),
            cur@.len() < BATCH_SIZE,
            forall|i: int|
                0 <= i < batches@.len() ==> (#[trigger] batch_views(batches@)[i]).len() == BATCH_SIZE,
    {
        let ghost i = it.index();
        let ghost xg = x;
        proof {
            assert(all.take(i + 1) =~= all.take(i as int).push(xg));
        }
        cur.push(x);
        if cur.len() == BATCH_SIZE {
            let ghost bv = batch_views(batches@);
            let ghost cv = cur@;
            batches.push(cur);
            cur = Vec::new();
            proof {
                assert(batch_views(batches@) =~= bv.push(cv));
                bv.lemma_flatten_push(cv);
                assert(batch_views(batches@).flatten() + cur@ =~= bv.flatten() + cv);
            }
        }
    }
    if cur.len() > 0 {
        let ghost bv = batch_views(batches@);
        let ghost cv = cur@;
        batches.push(cur);
        proof {
            assert(batch_views(batches@) =~= bv.push(cv));
            bv.lemma_flatten_push(cv);
        }
    }
    assert(all.take(all.len() as int) =~= all);
    batches
}

/// The body of one batch: the sheet and its rows.
pub open spec fn batch_body_v(doc: Seq<char>, sheet: Seq<char>, rows: Seq<Json>) -> JsonV {
    JsonV::Obj(
        seq![
            ("docid"@, JsonV::Str(doc)),
            ("sheet_id"@, JsonV::Str(sheet)),
            ("records"@, JsonV::Arr(jv_seq(rows))),
        ],
    )
}

fn batch_body(doc: &str, sheet: &str, rows: Vec<Json>) -> (r: Json)
    ensures
        r@ == batch_body_v(doc@, sheet@, rows@),
{
    broadcast use crate::json::group_json;

    let ghost rv = rows@;
    let mut m: Vec<(String, Json)> = Vec::new();
    put(&mut m, "docid", crate::json::jstr(doc));
    put(&mut m, "sheet_id", crate::json::jstr(sheet));
    put(&mut m, "records", Json::Arr(rows));
    assert(jv_members(m@) =~= batch_body_v(doc@, sheet@, rv)->Obj_0);
    Json::Obj(m)
}

/// The requests of a write, in the order they are sent: the rows without an id are
/// added, then the rows with one are updated, each in batches of at most 500 rows.
pub fn write_records_requests(
    client: &WeComClient,
    base_id: &str,
    table_id: &str,
    records: Vec<RecordInput>,
) -> (r: Result<Vec<HttpRequest>, ImError>)
    ensures
        r is Err ==> client.access_token is None,
        r is Err ==> (r matches Err(ImError::Auth { .. })),
        client.access_token is Some ==> r is Ok,
        r matches Ok(v) ==> exists|adds: Seq<Seq<Json>>, ups: Seq<Seq<Json>>|
            {
                &&& is_batching(adds, adds.flatten()) && jv_seq(adds.flatten()) == add_items(
                    records@,
                )
                &&& is_batching(ups, ups.flatten()) && jv_seq(ups.flatten()) == update_items(
                    records@,
                )
                &&& v@.len() == adds.len() + ups.len()
                &&& forall|i: int|
                    0 <= i < adds.len() ==> is_token_request(
                        *client,
                        #[trigger] v@[i],
                        Method::Post,
                        "/cgi-bin/wedoc/smartsheet/add_records"@,
                        Some(batch_body_v(base_id@, table_id@, adds[i])),
                    )
                &&& forall|i: int|
                    0 <= i < ups.len() ==> is_token_request(
                        *client,
                        #[trigger] v@[adds.len() + i],
                        Method::Post,
                        "/cgi-bin/wedoc/smartsheet/update_records"@,
                        Some(batch_body_v(base_id@, table_id@, ups[i])),
                    )
            },
{
    proof {
        law_write_partition(records@);
    }
    let (adds, updates) = split_records(records);
    let add_batches = into_batches(adds);
    let up_batches = into_batches(updates);
    let ghost ab = batch_views(add_batches@);
    let ghost ub = batch_views(up_batches@);
    let mut out: Vec<HttpRequest> = Vec::new();
    let ghost na = add_batches@.len();
    let mut i: usize = 0;
    for batch in it: add_batches.into_iter()
        invariant
            it.seq() == add_batches@,
            ab == batch_views(it.seq()),
            out@.len() == it.index(),
            forall|k: int|
                0 <= k < out@.len() ==> is_token_request(
                    *client,
                    #[trigger] out@[k],
                    Method::Post,
                    "/cgi-bin/wedoc/smartsheet/add_records"@,
                    Some(batch_body_v(base_id@, table_id@, ab[k])),
                ),
    {
        let ghost k = it.index();
        assert(batch@ == ab[k as int]);
        let body = batch_body(base_id, table_id, batch);
        let q = client.post("/cgi-bin/wedoc/smartsheet/add_records", body)?;
        out.push(q);
    }
    for batch in it: up_batches.into_iter()
        invariant
            it.seq() == up_batches@,
            ub == batch_views(it.seq()),
            out@.len() == ab.len() + it.index(),
            forall|k: int|
                0 <= k < ab.len() ==> is_token_request(
                    *client,
                    #[trigger] out@[k],
                    Method::Post,
                    "/cgi-bin/wedoc/smartsheet/add_records"@,
                    Some(batch_body_v(base_id@, table_id@, ab[k])),
                ),
            forall|k: int|
                0 <= k < it.index() ==> is_token_request(
                    *client,
                    #[trigger] out@[ab.len() + k],
                    Method::Post,
                    "/cgi-bin/wedoc/smartsheet/update_records"@,
                    Some(batch_body_v(base_id@, table_id@, ub[k])),
                ),
    {
        let ghost k = it.index();
        assert(batch@ == ub[k as int]);
        let body = batch_body(base_id, table_id, batch);
        let q = client.post("/cgi-bin/wedoc/smartsheet/update_records", body)?;
        out.push(q);
    }
    Ok(out)
}

/// The reading of a reply that gives records back, at the instant `now`.
pub fn records_reply(
    text: String,
    parsed: Result<(WeComEnvelope, Vec<WcRecord>), String>,
    now: i64,
) -> (r: Result<Vec<DataRecord>, ImError>)
    ensures
        parsed is Err ==> r == Err::<Vec<DataRecord>, ImError>(ImError::Serialization(parsed->Err_0)),
        parsed matches Ok(p) ==> (r is Ok <==> code_of(p.0.errcode) == 0),
        parsed matches Ok(p) ==> (r matches Err(e) ==> (e matches ImError::Platform {
            code: c,
            message: m,
        } && c == code_of(p.0.errcode) && m@ == or_text(p.0.errmsg, text@))),
        parsed matches Ok(p) ==> (r matches Ok(v) ==> v@.len() == p.1@.len() && forall|i: int|
            0 <= i < v@.len() ==> is_record_of(#[trigger] v@[i], p.1@[i], now)),
{
    let (env, records) = match parsed {
        Ok(p) => p,
        Err(e) => {
            return Err(ImError::Serialization(e));
        },
    };
    check_errcode(env.errcode, env.errmsg, text)?;
    Ok(records_from_wc(records, now))
}

/// One step of writing records at the instant `now`, after the reply to the batch
/// last sent. A reply with a nonzero code ends the run with its error, and no
/// further batch is given; a reply that succeeds adds its records to those before it
/// and gives the next batch, or all the records where none is left. Begun with the
/// requests of `write_records_requests`, a run gives the records of every batch in
/// the order sent: the added, then the updated.
pub fn write_records_step(
    state: WriteState,
    text: String,
    parsed: Result<(WeComEnvelope, Vec<WcRecord>), String>,
    now: i64,
) -> (r: Result<WriteStep, ImError>)
    ensures
        parsed is Err ==> r == Err::<WriteStep, ImError>(ImError::Serialization(parsed->Err_0)),
        parsed matches Ok(p) ==> (r is Ok <==> code_of(p.0.errcode) == 0),
        parsed matches Ok(p) ==> (r matches Err(e) ==> (e matches ImError::Platform {
            code: c,
            message: m,
        } && c == code_of(p.0.errcode) && m@ == or_text(p.0.errmsg, text@))),
        r matches Ok(step) ==> (parsed matches Ok(p) && exists|got: Seq<DataRecord>|
            {
                &&& got.len() == p.1@.len()
                &&& forall|i: int| 0 <= i < got.len() ==> is_record_of(#[trigger] got[i], p.1@[i], now)
                &&& #[trigger] advanced(state, got, step)
            }),
{
    let ghost pg = parsed;
    let got = records_reply(text, parsed, now)?;
    let ghost gg = got@;
    let step = advance_writes(state, got);
    assert(advanced(state, gg, step));
    Ok(step)
}

/// The body of a records query: the sheet, the cursor as the offset and the limit
/// (at most 500), each where given.
pub open spec fn list_records_body_v(req: ListRecordsRequest) -> JsonV {
    JsonV::Obj(
        seq![("docid"@, JsonV::Str(req.base_id@)), ("sheet_id"@, JsonV::Str(req.table_id@))] + (
        match req.cursor {
            Some(c) => seq![("offset"@, JsonV::Str(c@))],
            None => Seq::empty(),
        }) + (match req.limit {
            Some(l) => seq![("limit"@, JsonV::Int(if l < 500 { l as i64 } else { 500 }))],
            None => Seq::empty(),
        }),
    )
}

pub fn list_records_request(client: &WeComClient, req: &ListRecordsRequest) -> (r: Result<
    HttpRequest,
    ImError,
>)
    ensures
        token_result(
            *client,
            r,
            Method::Post,
            "/cgi-bin/wedoc/smartsheet/get_records"@,
            Some(list_records_body_v(*req)),
        ),
{
    broadcast use crate::json::group_json;

    let mut m: Vec<(String, Json)> = Vec::new();
    put(&mut m, "docid", Json::Str(req.base_id.clone()));
    put(&mut m, "sheet_id", Json::Str(req.table_id.clone()));
    match &req.cursor {
        Some(c) => put(&mut m, "offset", Json::Str(c.clone())),
        None => {},
    }
    match req.limit {
        Some(l) => {
            let capped: u32 = if l < 500 {
                l
            } else {
                500
            };
            put(&mut m, "limit", Json::Int(capped as i64))
        },
        None => {},
    }
    assert(jv_members(m@) =~= list_records_body_v(*req)->Obj_0);
    client.post("/cgi-bin/wedoc/smartsheet/get_records", Json::Obj(m))
}

/// A page of records from the reply, at the instant `now`: `has_more` false where
/// absent, the next cursor as given.
pub fn records_page(
    records: Vec<WcRecord>,
    has_more: Option<bool>,
    next: Option<String>,
    now: i64,
) -> (r: Page<DataRecord>)
    ensures
        r.items@.len() == records@.len(),
        forall|i: int| 0 <= i < records@.len() ==> is_record_of(#[trigger] r.items@[i], records@[i], now),
        r.has_more == (has_more == Some(true)),
        r.next_cursor == next,
{
    let more = match has_more {
        Some(b) => b,
        None => false,
    };
    Page { items: records_from_wc(records, now), has_more: more, next_cursor: next }
}

/// A field as WeCom gives it.
pub struct WcField {
    pub field_id: Option<String>,
    pub field_title: Option<String>,
    pub field_type: Option<String>,
}

/// The fields of the reply, in order, without properties.
pub fn fields_from_wc(items: Vec<WcField>) -> (r: Vec<DataField>)
    ensures
        r@.len() == items@.len(),
        forall|i: int|
            0 <= i < items@.len() ==> (#[trigger] r@[i]).id@ == or_empty(items@[i].field_id)
                && r@[i].name@ == or_empty(items@[i].field_title) && r@[i].field_type@ == or_empty(
                items@[i].field_type,
            ) && r@[i].property@ == JsonV::Null,
{
    let mut out: Vec<DataField> = Vec::new();
    let ghost all = items@;
    for f in it: items.into_iter()
        invariant
            it.seq() == all,
            out@.len() == it.index(),
            forall|k: int|
                0 <= k < out@.len() ==> (#[trigger] out@[k]).id@ == or_empty(all[k].field_id)
                    && out@[k].name@ == or_empty(all[k].field_title) && out@[k].field_type@
                    == or_empty(all[k].field_type) && out@[k].property@ == JsonV::Null,
    {
        out.push(
            DataField {
                id: crate::text::unwrap_or_empty(f.field_id),
                name: crate::text::unwrap_or_empty(f.field_title),
                field_type: crate::text::unwrap_or_empty(f.field_type),
                property: Json::Null,
            },
        );
    }
    out
}

/// The request of a sheet's fields.
pub fn list_fields_request(client: &WeComClient, base_id: &str, table_id: &str) -> (r: Result<
    HttpRequest,
    ImError,
>)
    ensures
        token_result(
            *client,
            r,
            Method::Post,
            "/cgi-bin/wedoc/smartsheet/get_fields"@,
            Some(JsonV::Obj(seq![("docid"@, JsonV::Str(base_id@)), ("sheet_id"@, JsonV::Str(table_id@))])),
        ),
{
    let body = crate::json::obj2("docid", crate::json::jstr(base_id), "sheet_id", crate::json::jstr(table_id));
    client.post("/cgi-bin/wedoc/smartsheet/get_fields", body)
}

/// The request that deletes records by id.
pub fn delete_records_request(
    client: &WeComClient,
    base_id: &str,
    table_id: &str,
    record_ids: &Vec<String>,
) -> (r: Result<HttpRequest, ImError>)
    ensures
        token_result(
            *client,
            r,
            Method::Post,
            "/cgi-bin/wedoc/smartsheet/delete_records"@,
            Some(
                JsonV::Obj(
                    seq![
                        ("docid"@, JsonV::Str(base_id@)),
                        ("sheet_id"@, JsonV::Str(table_id@)),
                        ("record_ids"@, JsonV::Arr(str_arr(record_ids@))),
                    ],
                ),
            ),
        ),
{
    broadcast use crate::json::group_json;

    let mut m: Vec<(String, Json)> = Vec::new();
    put(&mut m, "docid", crate::json::jstr(base_id));
    put(&mut m, "sheet_id", crate::json::jstr(table_id));
    put(&mut m, "record_ids", crate::json::jstrs(record_ids));
    assert(jv_members(m@) =~= seq![
        ("docid"@, JsonV::Str(base_id@)),
        ("sheet_id"@, JsonV::Str(table_id@)),
        ("record_ids"@, JsonV::Arr(str_arr(record_ids@))),
    ]);
    client.post("/cgi-bin/wedoc/smartsheet/delete_records", Json::Obj(m))
}

} // verus!
