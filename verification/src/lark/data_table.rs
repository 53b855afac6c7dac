//! Lark Bitable: bases, tables, fields and records.

use crate::crypto::form_urlencode;
use crate::http::{advance_writes, advanced, code_of, HttpRequest, Method, WriteState, WriteStep};
use crate::json::{jv_members, jv_seq, put, str_arr, Json, JsonV};
use crate::lark::client::{authed_result, is_authed_request, LarkClient};
use crate::lark::messaging::{check_envelope, LarkEnvelope};
use crate::model::{
    CreateBaseRequest, CreateFieldRequest, CreateTableRequest, DataBase, DataField, DataRecord,
    DataTable, ImError, ListBasesRequest, ListRecordsRequest, Page, RecordInput,
};
use crate::text::{dec_int, dec_nat, or_empty, or_text};
use crate::time::millis_representable;
use vstd::prelude::*;
use vstd::utf8::encode_utf8;

verus! {

/// The name of a Lark field type number; numbers without a name are `type_<n>`.
pub open spec fn field_type_name_v(t: i64) -> Seq<char> {
    if t == 1 {
        "text"@
    } else if t == 2 {
        "number"@
    } else if t == 3 {
        "select"@
    } else if t == 4 {
        "multi_select"@
    } else if t == 5 {
        "date"@
    } else if t == 7 {
        "checkbox"@
    } else if t == 11 {
        "person"@
    } else if t == 13 {
        "phone"@
    } else if t == 15 {
        "url"@
    } else if t == 17 {
        "attachment"@
    } else if t == 18 {
        "link"@
    } else if t == 20 {
        "formula"@
    } else if t == 22 {
        "created_time"@
    } else if t == 23 {
        "modified_time"@
    } else {
        "type_"@ + dec_int(t as int)
    }
}

/// The name of a Lark field type number.
pub fn field_type_name(t: i64) -> (r: String)
    ensures
        r@ == field_type_name_v(t),
{
    if t == 1 {
        "text".to_string()
    } else if t == 2 {
        "number".to_string()
    } else if t == 3 {
        "select".to_string()
    } else if t == 4 {
        "multi_select".to_string()
    } else if t == 5 {
        "date".to_string()
    } else if t == 7 {
        "checkbox".to_string()
    } else if t == 11 {
        "person".to_string()
    } else if t == 13 {
        "phone".to_string()
    } else if t == 15 {
        "url".to_string()
    } else if t == 17 {
        "attachment".to_string()
    } else if t == 18 {
        "link".to_string()
    } else if t == 20 {
        "formula".to_string()
    } else if t == 22 {
        "created_time".to_string()
    } else if t == 23 {
        "modified_time".to_string()
    } else {
        let mut s = crate::text::lit("type_");
        let n = crate::text::fmt_i64(t);
        crate::text::push_str(&mut s, n.as_str());
        s
    }
}

/// The type number for a field that is created on its own: the ten names Lark
/// takes there, every other name as text.
pub open spec fn field_type_code_v(name: Seq<char>) -> i64 {
    if name == "text"@ {
        1
    } else if name == "number"@ {
        2
    } else if name == "select"@ {
        3
    } else if name == "multi_select"@ {
        4
    } else if name == "date"@ {
        5
    } else if name == "checkbox"@ {
        7
    } else if name == "person"@ {
        11
    } else if name == "phone"@ {
        13
    } else if name == "url"@ {
        15
    } else if name == "attachment"@ {
        17
    } else {
        1
    }
}

pub fn field_type_code(name: &str) -> (r: i64)
    ensures
        r == field_type_code_v(name@),
{
    if crate::text::str_eq(name, "text") {
        1
    } else if crate::text::str_eq(name, "number") {
        2
    } else if crate::text::str_eq(name, "select") {
        3
    } else if crate::text::str_eq(name, "multi_select") {
        4
    } else if crate::text::str_eq(name, "date") {
        5
    } else if crate::text::str_eq(name, "checkbox") {
        7
    } else if crate::text::str_eq(name, "person") {
        11
    } else if crate::text::str_eq(name, "phone") {
        13
    } else if crate::text::str_eq(name, "url") {
        15
    } else if crate::text::str_eq(name, "attachment") {
        17
    } else {
        1
    }
}

/// The type number for a field of a new table: six names, every other as text.
pub open spec fn table_field_code_v(name: Seq<char>) -> i64 {
    if name == "text"@ {
        1
    } else if name == "number"@ {
        2
    } else if name == "select"@ {
        3
    } else if name == "multi_select"@ {
        4
    } else if name == "date"@ {
        5
    } else if name == "checkbox"@ {
        7
    } else {
        1
    }
}

pub fn table_field_code(name: &str) -> (r: i64)
    ensures
        r == table_field_code_v(name@),
{
    if crate::text::str_eq(name, "text") {
        1
    } else if crate::text::str_eq(name, "number") {
        2
    } else if crate::text::str_eq(name, "select") {
        3
    } else if crate::text::str_eq(name, "multi_select") {
        4
    } else if crate::text::str_eq(name, "date") {
        5
    } else if crate::text::str_eq(name, "checkbox") {
        7
    } else {
        1
    }
}

/// A field created with one of the type names Lark takes reads back with the same
/// name, and a name taken for a new table's field means the same type there.
pub proof fn law_field_type_roundtrip(name: Seq<char>)
    ensures
        (name == "text"@ || name == "number"@ || name == "select"@ || name == "multi_select"@ || name
            == "date"@ || name == "checkbox"@ || name == "person"@ || name == "phone"@ || name
            == "url"@ || name == "attachment"@) ==> field_type_name_v(field_type_code_v(name)) == name,
        table_field_code_v(name) != 1 ==> table_field_code_v(name) == field_type_code_v(name),
{
}

/// The field types that Lark numbers: text 1, number 2, select 3, multi-select 4,
/// date 5, checkbox 7, person 11, phone 13, URL 15, attachment 17.
pub open spec fn known_field_name(name: Seq<char>) -> bool {
    ||| name == "text"@
    ||| name == "number"@
    ||| name == "select"@
    ||| name == "multi_select"@
    ||| name == "date"@
    ||| name == "checkbox"@
    ||| name == "person"@
    ||| name == "phone"@
    ||| name == "url"@
    ||| name == "attachment"@
}

/// The field types a new table's fields may have: text, number, select,
/// multi-select, date and checkbox.
pub open spec fn known_table_field_name(name: Seq<char>) -> bool {
    ||| name == "text"@
    ||| name == "number"@
    ||| name == "select"@
    ||| name == "multi_select"@
    ||| name == "date"@
    ||| name == "checkbox"@
}

/// Lark's numbering of field types, both ways: each named type is sent as its own
/// number and no other name is (an unnamed type is sent as text, 1); a new table's
/// fields know only the first six; and each number Lark gives reads as its name,
/// any other as `type_<number>`.
pub proof fn law_field_type_codes(name: Seq<char>, t: i64)
    ensures
        (field_type_code_v(name) == 1) <==> (name == "text"@ || !known_field_name(name)),
        (field_type_code_v(name) == 2) <==> name == "number"@,
        (field_type_code_v(name) == 3) <==> name == "select"@,
        (field_type_code_v(name) == 4) <==> name == "multi_select"@,
        (field_type_code_v(name) == 5) <==> name == "date"@,
        (field_type_code_v(name) == 7) <==> name == "checkbox"@,
        (field_type_code_v(name) == 11) <==> name == "person"@,
        (field_type_code_v(name) == 13) <==> name == "phone"@,
        (field_type_code_v(name) == 15) <==> name == "url"@,
        (field_type_code_v(name) == 17) <==> name == "attachment"@,
        (table_field_code_v(name) == 1) <==> (name == "text"@ || !known_table_field_name(name)),
        (table_field_code_v(name) == 2) <==> name == "number"@,
        (table_field_code_v(name) == 3) <==> name == "select"@,
        (table_field_code_v(name) == 4) <==> name == "multi_select"@,
        (table_field_code_v(name) == 5) <==> name == "date"@,
        (table_field_code_v(name) == 7) <==> name == "checkbox"@,
        field_type_name_v(1) == "text"@,
        field_type_name_v(2) == "number"@,
        field_type_name_v(3) == "select"@,
        field_type_name_v(4) == "multi_select"@,
        field_type_name_v(5) == "date"@,
        field_type_name_v(7) == "checkbox"@,
        field_type_name_v(11) == "person"@,
        field_type_name_v(13) == "phone"@,
        field_type_name_v(15) == "url"@,
        field_type_name_v(17) == "attachment"@,
        field_type_name_v(18) == "link"@,
        field_type_name_v(20) == "formula"@,
        field_type_name_v(22) == "created_time"@,
        field_type_name_v(23) == "modified_time"@,
        !(t == 1 || t == 2 || t == 3 || t == 4 || t == 5 || t == 7 || t == 11 || t == 13 || t == 15
            || t == 17 || t == 18 || t == 20 || t == 22 || t == 23) ==> field_type_name_v(t) == "type_"@
            + dec_int(t as int),
{
    reveal_strlit("text");
    reveal_strlit("number");
    reveal_strlit("select");
    reveal_strlit("multi_select");
    reveal_strlit("date");
    reveal_strlit("checkbox");
    reveal_strlit("person");
    reveal_strlit("phone");
    reveal_strlit("url");
    reveal_strlit("attachment");
    assert("text"@.len() == 4);
    assert("number"@.len() == 6);
    assert("select"@.len() == 6);
    assert("multi_select"@.len() == 12);
    assert("date"@.len() == 4);
    assert("checkbox"@.len() == 8);
    assert("person"@.len() == 6);
    assert("phone"@.len() == 5);
    assert("url"@.len() == 3);
    assert("attachment"@.len() == 10);
    assert("text"@[0] != "date"@[0]);
    assert("number"@[0] != "select"@[0] && "number"@[0] != "person"@[0] && "select"@[0] != "person"@[0]);
}

/// A field as Lark gives it.
pub struct LarkField {
    pub field_id: Option<String>,
    pub field_name: Option<String>,
    pub field_type: Option<i64>,
    pub property: Option<Json>,
}

pub open spec fn is_field_of(r: DataField, f: LarkField) -> bool {
    &&& r.id@ == or_empty(f.field_id)
    &&& r.name@ == or_empty(f.field_name)
    &&& r.field_type@ == match f.field_type {
        Some(t) => field_type_name_v(t),
        None => Seq::empty(),
    }
    &&& r.property@ == match f.property {
        Some(p) => p@,
        None => JsonV::Null,
    }
}

pub fn field_from_lark(f: LarkField) -> (r: DataField)
    ensures
        is_field_of(r, f),
{
    let field_type = match f.field_type {
        Some(t) => field_type_name(t),
        None => String::new(),
    };
    let property = match f.property {
        Some(p) => p,
        None => Json::Null,
    };
    DataField {
        id: crate::text::unwrap_or_empty(f.field_id),
        name: crate::text::unwrap_or_empty(f.field_name),
        field_type,
        property,
    }
}

pub fn fields_from_lark(items: Vec<LarkField>) -> (r: Vec<DataField>)
    ensures
        r@.len() == items@.len(),
        forall|i: int| 0 <= i < items@.len() ==> is_field_of(#[trigger] r@[i], items@[i]),
{
    let mut out: Vec<DataField> = Vec::new();
    let ghost all = items@;
    for f in it: items.into_iter()
        invariant
            it.seq() == all,
            out@.len() == it.index(),
            forall|k: int| 0 <= k < out@.len() ==> is_field_of(#[trigger] out@[k], all[k]),
    {
        out.push(field_from_lark(f));
    }
    out
}

/// A record as Lark gives it.
pub struct LarkRecord {
    pub record_id: Option<String>,
    pub fields: Option<Json>,
    /// Milliseconds since the epoch.
    pub created_time: Option<i64>,
}

pub open spec fn is_record_of(r: DataRecord, x: LarkRecord) -> bool {
    &&& r.id@ == or_empty(x.record_id)
    &&& r.fields@ == match x.fields {
        Some(f) => f@,
        None => JsonV::Null,
    }
    &&& r.created_at == match x.created_time {
        Some(ms) => if millis_representable(ms) {
            Some(ms)
        } else {
            None
        },
        None => None,
    }
}

pub fn record_from_lark(x: LarkRecord) -> (r: DataRecord)
    ensures
        is_record_of(r, x),
{
    let created_at = match x.created_time {
        Some(ms) => crate::time::from_millis(ms),
        None => None,
    };
    let fields = match x.fields {
        Some(f) => f,
        None => Json::Null,
    };
    DataRecord { id: crate::text::unwrap_or_empty(x.record_id), fields, created_at }
}

pub fn records_from_lark(items: Vec<LarkRecord>) -> (r: Vec<DataRecord>)
    ensures
        r@.len() == items@.len(),
        forall|i: int| 0 <= i < items@.len() ==> is_record_of(#[trigger] r@[i], items@[i]),
{
    let mut out: Vec<DataRecord> = Vec::new();
    let ghost all = items@;
    for x in it: items.into_iter()
        invariant
            it.seq() == all,
            out@.len() == it.index(),
            forall|k: int| 0 <= k < out@.len() ==> is_record_of(#[trigger] out@[k], all[k]),
    {
        out.push(record_from_lark(x));
    }
    out
}

/// The path of a base's tables.
pub open spec fn tables_path_v(base_id: Seq<char>) -> Seq<char> {
    "/open-apis/bitable/v1/apps/"@ + base_id + "/tables"@
}

/// The path of a table's records.
pub open spec fn records_path_v(base_id: Seq<char>, table_id: Seq<char>) -> Seq<char> {
    tables_path_v(base_id) + "/"@ + table_id + "/records"@
}

pub fn tables_path(base_id: &str) -> (r: String)
    ensures
        r@ == tables_path_v(base_id@),
{
    let mut p = crate::text::lit("/open-apis/bitable/v1/apps/");
    crate::text::push_str(&mut p, base_id);
    crate::text::push_str(&mut p, "/tables");
    p
}

pub fn records_path(base_id: &str, table_id: &str) -> (r: String)
    ensures
        r@ == records_path_v(base_id@, table_id@),
{
    let mut p = tables_path(base_id);
    crate::text::push_str(&mut p, "/");
    crate::text::push_str(&mut p, table_id);
    crate::text::push_str(&mut p, "/records");
    p
}

/// The rows that a write creates: those without an id, in order, each as its fields.
pub open spec fn create_items(s: Seq<RecordInput>) -> Seq<JsonV>
    decreases s.len(),
{
    if s.len() == 0 {
        Seq::empty()
    } else {
        let rest = create_items(s.drop_last());
        match s.last().id {
            None => rest.push(JsonV::Obj(seq![("fields"@, s.last().fields@)])),
            Some(_) => rest,
        }
    }
}

/// The rows that a write updates: those with an id, in order, each as its id and
/// fields.
pub open spec fn update_items(s: Seq<RecordInput>) -> Seq<JsonV>
    decreases s.len(),
{
    if s.len() == 0 {
        Seq::empty()
    } else {
        let rest = update_items(s.drop_last());
        match s.last().id {
            Some(id) => rest.push(
                JsonV::Obj(seq![("record_id"@, JsonV::Str(id@)), ("fields"@, s.last().fields@)]),
            ),
            None => rest,
        }
    }
}

/// The number of rows with an id.
pub open spec fn with_id_count(s: Seq<RecordInput>) -> nat
    decreases s.len(),
{
    if s.len() == 0 {
        0
    } else {
        with_id_count(s.drop_last()) + if s.last().id is Some {
            1nat
        } else {
            0nat
        }
    }
}

/// Every row of a write is created or updated, never both: the rows created are the
/// rows without an id and the rows updated are the rows with one.
pub proof fn law_write_partition(s: Seq<RecordInput>)
    ensures
        create_items(s).len() + update_items(s).len() == s.len(),
        update_items(s).len() == with_id_count(s),
        create_items(s).len() == s.len() - with_id_count(s),
    decreases s.len(),
{
    if s.len() > 0 {
        law_write_partition(s.drop_last());
    }
}

/// What a write sends for each row: every row without an id, in order, is created as
/// the object `{"fields": <its fields>}`; every row with an id, in order, is updated
/// as `{"record_id": <its id>, "fields": <its fields>}`.
pub proof fn law_write_items(s: Seq<RecordInput>)
    ensures
        create_items(s) == s.filter(|r: RecordInput| r.id is None).map_values(
            |r: RecordInput| JsonV::Obj(seq![("fields"@, r.fields@)]),
        ),
        update_items(s) == s.filter(|r: RecordInput| r.id is Some).map_values(
            |r: RecordInput| JsonV::Obj(seq![("record_id"@, JsonV::Str(r.id->Some_0@)), ("fields"@, r.fields@)]),
        ),
    decreases s.len(),
{
    reveal(Seq::filter);
    if s.len() > 0 {
        law_write_items(s.drop_last());
        let fc = s.drop_last().filter(|r: RecordInput| r.id is None);
        let fu = s.drop_last().filter(|r: RecordInput| r.id is Some);
        assert(fc.push(s.last()).map_values(|r: RecordInput| JsonV::Obj(seq![("fields"@, r.fields@)]))
            =~= fc.map_values(|r: RecordInput| JsonV::Obj(seq![("fields"@, r.fields@)])).push(
            JsonV::Obj(seq![("fields"@, s.last().fields@)]),
        ));
        assert(fu.push(s.last()).map_values(
            |r: RecordInput| JsonV::Obj(seq![("record_id"@, JsonV::Str(r.id->Some_0@)), ("fields"@, r.fields@)]),
        ) =~= fu.map_values(
            |r: RecordInput| JsonV::Obj(seq![("record_id"@, JsonV::Str(r.id->Some_0@)), ("fields"@, r.fields@)]),
        ).push(JsonV::Obj(seq![("record_id"@, JsonV::Str(s.last().id->Some_0@)), ("fields"@, s.last().fields@)])));
    }
}

/// Splits the rows of a write into the rows to create and the rows to update.
pub fn split_records(records: Vec<RecordInput>) -> (r: (Vec<Json>, Vec<Json>))
    ensures
        jv_seq(r.0@) == create_items(records@),
        jv_seq(r.1@) == update_items(records@),
{
    broadcast use crate::json::group_json;

    let mut creates: Vec<Json> = Vec::new();
    let mut updates: Vec<Json> = Vec::new();
    let ghost all = records@;
    for rec in it: records.into_iter()
        invariant
            it.seq() == all,
            it.index() <= all.len(),
            jv_seq(creates@) == create_items(all.subrange(0, it.index() as int)),
            jv_seq(updates@) == update_items(all.subrange(0, it.index() as int)),
    {
        let ghost i = it.index();
        let ghost recg = rec;
        proof {
            assert(all.subrange(0, i + 1).drop_last() =~= all.subrange(0, i as int));
            assert(all.subrange(0, i + 1).last() == recg);
        }
        match rec.id {
            Some(id) => {
                let item = crate::json::obj2("record_id", Json::Str(id), "fields", rec.fields);
                let ghost before = updates@;
                let ghost ig = item;
                updates.push(item);
                proof {
                    crate::json::lemma_jv_seq_push(before, ig);
                }
            },
            None => {
                let item = crate::json::obj1("fields", rec.fields);
                let ghost before = creates@;
                let ghost ig = item;
                creates.push(item);
                proof {
                    crate::json::lemma_jv_seq_push(before, ig);
                }
            },
        }
    }
    assert(all.subrange(0, all.len() as int) =~= all);
    (creates, updates)
}

/// The body of a batch: `{"records": [..]}`.
pub open spec fn batch_body_v(items: Seq<JsonV>) -> JsonV {
    JsonV::Obj(seq![("records"@, JsonV::Arr(items))])
}

/// The requests of a write, in the order they are sent: a batch create of the rows
/// without an id where there are any, then a batch update of the rows with one where
/// there are any. A write with no rows sends nothing.
pub fn write_records_requests(
    client: &LarkClient,
    base_id: &str,
    table_id: &str,
    records: Vec<RecordInput>,
) -> (r: Result<Vec<HttpRequest>, ImError>)
    ensures
        ({
            let c = create_items(records@);
            let u = update_items(records@);
            let path = records_path_v(base_id@, table_id@);
            &&& r is Err <==> client.access_token is None && (c.len() > 0 || u.len() > 0)
            &&& r is Err ==> (r matches Err(ImError::Auth { .. }))
            &&& r matches Ok(v) ==> ({
                &&& v@.len() == (if c.len() > 0 {
                    1int
                } else {
                    0
                }) + (if u.len() > 0 {
                    1int
                } else {
                    0
                })
                &&& c.len() > 0 ==> is_authed_request(
                    *client,
                    v@[0],
                    Method::Post,
                    path + "/batch_create"@,
                    Some(batch_body_v(c)),
                )
                &&& u.len() > 0 ==> is_authed_request(
                    *client,
                    v@[v@.len() - 1],
                    Method::Post,
                    path + "/batch_update"@,
                    Some(batch_body_v(u)),
                )
            })
        }),
{
    let ghost c = create_items(records@);
    let ghost u = update_items(records@);
    let (creates, updates) = split_records(records);
    let base = records_path(base_id, table_id);
    let mut out: Vec<HttpRequest> = Vec::new();
    if creates.len() > 0 {
        let mut p = crate::text::lit(base.as_str());
        crate::text::push_str(&mut p, "/batch_create");
        let body = crate::json::obj1("records", Json::Arr(creates));
        let q = client.post(p.as_str(), body)?;
        out.push(q);
    }
    if updates.len() > 0 {
        let mut p = crate::text::lit(base.as_str());
        crate::text::push_str(&mut p, "/batch_update");
        let body = crate::json::obj1("records", Json::Arr(updates));
        let q = client.post(p.as_str(), body)?;
        out.push(q);
    }
    Ok(out)
}

/// The reading of a batch's reply: the rows it gives back (none where it gives no
/// data).
pub fn batch_records_reply(
    text: String,
    parsed: Result<(LarkEnvelope, Option<Vec<LarkRecord>>), String>,
) -> (r: Result<Vec<DataRecord>, ImError>)
    ensures
        parsed is Err ==> r == Err::<Vec<DataRecord>, ImError>(ImError::Serialization(parsed->Err_0)),
        parsed matches Ok(p) ==> (r is Ok <==> code_of(p.0.code) == 0),
        parsed matches Ok(p) ==> (r matches Err(e) ==> (e matches ImError::Platform {
            code: c,
            message: m,
        } && c == code_of(p.0.code) && m@ == or_text(p.0.msg, text@))),
        parsed matches Ok(p) ==> (r matches Ok(v) ==> match p.1 {
            Some(items) => v@.len() == items@.len() && forall|i: int|
                0 <= i < items@.len() ==> is_record_of(#[trigger] v@[i], items@[i]),
            None => v@.len() == 0,
        }),
{
    let (env, data) = match parsed {
        Ok(p) => p,
        Err(e) => {
            return Err(ImError::Serialization(e));
        },
    };
    check_envelope(&env, &text)?;
    match data {
        Some(items) => Ok(records_from_lark(items)),
        None => Ok(Vec::new()),
    }
}

/// `got` holds the records of a batch reply's data, in order (none without data).
pub open spec fn batch_records_of(got: Seq<DataRecord>, data: Option<Vec<LarkRecord>>) -> bool {
    match data {
        Some(items) => got.len() == items@.len() && forall|i: int|
            0 <= i < items@.len() ==> is_record_of(#[trigger] got[i], items@[i]),
        None => got.len() == 0,
    }
}

/// One step of writing records, after the reply to the request last sent. A reply
/// that fails ends the run with its error, and no further request is given; a
/// reply that succeeds adds its records to those before it and gives the next
/// request, or all the records where none is left. Begun with the requests of
/// `write_records_requests`, a run gives the created records, then the updated.
pub fn write_records_step(
    state: WriteState,
    text: String,
    parsed: Result<(LarkEnvelope, Option<Vec<LarkRecord>>), String>,
) -> (r: Result<WriteStep, ImError>)
    ensures
        parsed is Err ==> r == Err::<WriteStep, ImError>(ImError::Serialization(parsed->Err_0)),
        parsed matches Ok(p) ==> (r is Ok <==> code_of(p.0.code) == 0),
        parsed matches Ok(p) ==> (r matches Err(e) ==> (e matches ImError::Platform {
            code: c,
            message: m,
        } && c == code_of(p.0.code) && m@ == or_text(p.0.msg, text@))),
        r matches Ok(step) ==> (parsed matches Ok(p) && exists|got: Seq<DataRecord>|
            batch_records_of(got, p.1) && #[trigger] advanced(state, got, step)),
{
    let ghost pg = parsed;
    let got = batch_records_reply(text, parsed)?;
    let ghost gg = got@;
    let step = advance_writes(state, got);
    assert(batch_records_of(gg, pg->Ok_0.1) && advanced(state, gg, step));
    Ok(step)
}

/// The listing path of a table's records: the page size (100 by default), then the
/// cursor, the view and the form-urlencoded filter, each where given.
pub open spec fn list_records_path_v(req: ListRecordsRequest) -> Seq<char> {
    records_path_v(req.base_id@, req.table_id@) + "?page_size="@ + dec_nat(
        match req.limit {
            Some(l) => l as nat,
            None => 100,
        },
    ) + (match req.cursor {
        Some(c) => "&page_token="@ + c@,
        None => Seq::empty(),
    }) + (match req.view_id {
        Some(v) => "&view_id="@ + v@,
        None => Seq::empty(),
    }) + (match req.filter {
        Some(f) => "&filter="@ + form_urlencode(encode_utf8(f@)),
        None => Seq::empty(),
    })
}

pub fn list_records_path(req: &ListRecordsRequest) -> (r: String)
    ensures
        r@ == list_records_path_v(*req),
{
    let mut p = records_path(req.base_id.as_str(), req.table_id.as_str());
    crate::text::push_str(&mut p, "?page_size=");
    let limit: u32 = match req.limit {
        Some(l) => l,
        None => 100,
    };
    let n = crate::text::fmt_u64(limit as u64);
    crate::text::push_str(&mut p, n.as_str());
    let ghost p1 = p@;
    match &req.cursor {
        Some(c) => {
            crate::text::push_str(&mut p, "&page_token=");
            crate::text::push_str(&mut p, c.as_str());
        },
        None => {},
    }
    let ghost p2 = p@;
    match &req.view_id {
        Some(v) => {
            crate::text::push_str(&mut p, "&view_id=");
            crate::text::push_str(&mut p, v.as_str());
        },
        None => {},
    }
    let ghost p3 = p@;
    match &req.filter {
        Some(f) => {
            crate::text::push_str(&mut p, "&filter=");
            let enc = crate::crypto::form_urlencode_str(f.as_str());
            crate::text::push_str(&mut p, enc.as_str());
        },
        None => {},
    }
    assert(p@ =~= list_records_path_v(*req));
    p
}

/// A page of records from the reply's items, `has_more` (false where absent) and
/// page token.
pub fn records_page(items: Vec<LarkRecord>, has_more: Option<bool>, page_token: Option<String>) -> (r:
    Page<DataRecord>)
    ensures
        r.items@.len() == items@.len(),
        forall|i: int| 0 <= i < items@.len() ==> is_record_of(#[trigger] r.items@[i], items@[i]),
        r.has_more == (has_more == Some(true)),
        r.next_cursor == page_token,
{
    let more = match has_more {
        Some(b) => b,
        None => false,
    };
    Page { items: records_from_lark(items), has_more: more, next_cursor: page_token }
}

/// The body of a new field: its name, its type number and its property.
pub open spec fn field_body_v(req: CreateFieldRequest) -> JsonV {
    JsonV::Obj(
        seq![
            ("field_name"@, JsonV::Str(req.name@)),
            ("type"@, JsonV::Int(field_type_code_v(req.field_type@))),
            ("property"@, req.property@),
        ],
    )
}

/// The request that creates a field in a table.
pub fn create_field_request(
    client: &LarkClient,
    base_id: &str,
    table_id: &str,
    req: CreateFieldRequest,
) -> (r: Result<HttpRequest, ImError>)
    ensures
        authed_result(
            *client,
            r,
            Method::Post,
            tables_path_v(base_id@) + "/"@ + table_id@ + "/fields"@,
            Some(field_body_v(req)),
        ),
{
    broadcast use crate::json::group_json;

    let ghost g = req;
    let code = field_type_code(req.field_type.as_str());
    let mut m: Vec<(String, Json)> = Vec::new();
    put(&mut m, "field_name", Json::Str(req.name));
    put(&mut m, "type", Json::Int(code));
    put(&mut m, "property", req.property);
    assert(jv_members(m@) =~= field_body_v(g)->Obj_0);
    let mut p = tables_path(base_id);
    crate::text::push_str(&mut p, "/");
    crate::text::push_str(&mut p, table_id);
    crate::text::push_str(&mut p, "/fields");
    client.post(p.as_str(), Json::Obj(m))
}

/// The reading of a field creation's reply: a reply without the field is an
/// internal error "empty field".
pub fn create_field_reply(text: String, parsed: Result<(LarkEnvelope, Option<LarkField>), String>) -> (r:
    Result<DataField, ImError>)
    ensures
        parsed is Err ==> r == Err::<DataField, ImError>(ImError::Serialization(parsed->Err_0)),
        parsed matches Ok(p) ==> (r is Ok <==> code_of(p.0.code) == 0 && p.1 is Some),
        parsed matches Ok(p) ==> (code_of(p.0.code) != 0 ==> (r matches Err(ImError::Platform {
            code: c,
            message: m,
        }) && c == code_of(p.0.code) && m@ == or_text(p.0.msg, text@))),
        parsed matches Ok(p) ==> (code_of(p.0.code) == 0 && p.1 is None ==> (r matches Err(
            ImError::Internal(m),
        ) && m@ == "empty field"@)),
        parsed matches Ok(p) ==> (r matches Ok(f) ==> is_field_of(f, p.1->Some_0)),
{
    let (env, field) = match parsed {
        Ok(p) => p,
        Err(e) => {
            return Err(ImError::Serialization(e));
        },
    };
    check_envelope(&env, &text)?;
    match field {
        Some(f) => Ok(field_from_lark(f)),
        None => Err(ImError::Internal("empty field".to_string())),
    }
}

/// A new table's field as Lark takes it.
pub open spec fn table_field_v(f: CreateFieldRequest) -> JsonV {
    JsonV::Obj(
        seq![("field_name"@, JsonV::Str(f.name@)), ("type"@, JsonV::Int(table_field_code_v(f.field_type@)))],
    )
}

pub open spec fn table_fields_v(s: Seq<CreateFieldRequest>) -> Seq<JsonV>
    decreases s.len(),
{
    if s.len() == 0 {
        Seq::empty()
    } else {
        table_fields_v(s.drop_last()).push(table_field_v(s.last()))
    }
}

/// The body of a new table: its name, a grid view and its fields.
pub open spec fn create_table_body_v(req: CreateTableRequest) -> JsonV {
    JsonV::Obj(
        seq![
            (
                "table"@,
                JsonV::Obj(
                    seq![
                        ("name"@, JsonV::Str(req.name@)),
                        ("default_view_name"@, JsonV::Str("Grid View"@)),
                        ("fields"@, JsonV::Arr(table_fields_v(req.fields@))),
                    ],
                ),
            ),
        ],
    )
}

/// The request that creates a table in a base.
pub fn create_table_request(client: &LarkClient, req: &CreateTableRequest) -> (r: Result<
    HttpRequest,
    ImError,
>)
    ensures
        authed_result(*client, r, Method::Post, tables_path_v(req.base_id@), Some(create_table_body_v(*req))),
{
    broadcast use crate::json::group_json;

    let mut fields: Vec<Json> = Vec::new();
    let mut i: usize = 0;
    while i < req.fields.len()
        invariant
            i <= req.fields@.len(),
            jv_seq(fields@) == table_fields_v(req.fields@.subrange(0, i as int)),
        decreases req.fields@.len() - i,
    {
        let f = &req.fields[i];
        let item = crate::json::obj2(
            "field_name",
            Json::Str(f.name.clone()),
            "type",
            Json::Int(table_field_code(f.field_type.as_str())),
        );
        let ghost before = fields@;
        let ghost ig = item;
        fields.push(item);
        proof {
            crate::json::lemma_jv_seq_push(before, ig);
            assert(req.fields@.subrange(0, i + 1).drop_last() =~= req.fields@.subrange(0, i as int));
        }
        i = i + 1;
    }
    assert(req.fields@.subrange(0, req.fields@.len() as int) =~= req.fields@);
    let mut inner: Vec<(String, Json)> = Vec::new();
    put(&mut inner, "name", Json::Str(req.name.clone()));
    put(&mut inner, "default_view_name", crate::json::jstr("Grid View"));
    put(&mut inner, "fields", Json::Arr(fields));
    assert(jv_members(inner@) =~= create_table_body_v(*req)->Obj_0[0].1->Obj_0);
    let body = crate::json::obj1("table", Json::Obj(inner));
    let p = tables_path(req.base_id.as_str());
    client.post(p.as_str(), body)
}

/// The reading of a table creation's reply: the table as asked for, with the id the
/// reply gives (empty where none).
pub fn create_table_reply(
    name: String,
    text: String,
    parsed: Result<(LarkEnvelope, Option<String>), String>,
) -> (r: Result<DataTable, ImError>)
    ensures
        parsed is Err ==> r == Err::<DataTable, ImError>(ImError::Serialization(parsed->Err_0)),
        parsed matches Ok(p) ==> (r is Ok <==> code_of(p.0.code) == 0),
        parsed matches Ok(p) ==> (r matches Err(e) ==> (e matches ImError::Platform {
            code: c,
            message: m,
        } && c == code_of(p.0.code) && m@ == or_text(p.0.msg, text@))),
        parsed matches Ok(p) ==> (r matches Ok(t) ==> t.id@ == or_empty(p.1) && t.name == name
            && t.revision is None),
{
    let (env, id) = match parsed {
        Ok(p) => p,
        Err(e) => {
            return Err(ImError::Serialization(e));
        },
    };
    check_envelope(&env, &text)?;
    Ok(DataTable { id: crate::text::unwrap_or_empty(id), name, revision: None })
}

/// A base as Lark gives it.
pub struct LarkBase {
    pub app_token: Option<String>,
    pub name: Option<String>,
    pub url: Option<String>,
}

pub open spec fn is_base_of(r: DataBase, b: LarkBase) -> bool {
    r.id@ == or_empty(b.app_token) && r.name@ == or_empty(b.name) && r.url == b.url
        && r.tables@.len() == 0
}

pub fn base_from_lark(b: LarkBase) -> (r: DataBase)
    ensures
        is_base_of(r, b),
{
    DataBase {
        id: crate::text::unwrap_or_empty(b.app_token),
        name: crate::text::unwrap_or_empty(b.name),
        url: b.url,
        tables: Vec::new(),
    }
}

/// A page of bases from the reply's items, `has_more` (false where absent) and page
/// token.
pub fn bases_page(items: Vec<LarkBase>, has_more: Option<bool>, page_token: Option<String>) -> (r: Page<
    DataBase,
>)
    ensures
        r.items@.len() == items@.len(),
        forall|i: int| 0 <= i < items@.len() ==> is_base_of(#[trigger] r.items@[i], items@[i]),
        r.has_more == (has_more == Some(true)),
        r.next_cursor == page_token,
{
    let mut out: Vec<DataBase> = Vec::new();
    let ghost all = items@;
    for b in it: items.into_iter()
        invariant
            it.seq() == all,
            out@.len() == it.index(),
            forall|k: int| 0 <= k < out@.len() ==> is_base_of(#[trigger] out@[k], all[k]),
    {
        out.push(base_from_lark(b));
    }
    let more = match has_more {
        Some(b) => b,
        None => false,
    };
    Page { items: out, has_more: more, next_cursor: page_token }
}

/// A table as Lark gives it.
pub struct LarkTable {
    pub table_id: Option<String>,
    pub name: Option<String>,
    pub revision: Option<i64>,
}

pub open spec fn is_table_of(r: DataTable, t: LarkTable) -> bool {
    r.id@ == or_empty(t.table_id) && r.name@ == or_empty(t.name) && r.revision == t.revision
}

pub fn tables_from_lark(items: Vec<LarkTable>) -> (r: Vec<DataTable>)
    ensures
        r@.len() == items@.len(),
        forall|i: int| 0 <= i < items@.len() ==> is_table_of(#[trigger] r@[i], items@[i]),
{
    let mut out: Vec<DataTable> = Vec::new();
    let ghost all = items@;
    for t in it: items.into_iter()
        invariant
            it.seq() == all,
            out@.len() == it.index(),
            forall|k: int| 0 <= k < out@.len() ==> is_table_of(#[trigger] out@[k], all[k]),
    {
        out.push(
            DataTable {
                id: crate::text::unwrap_or_empty(t.table_id),
                name: crate::text::unwrap_or_empty(t.name),
                revision: t.revision,
            },
        );
    }
    out
}

/// The path of one table of a base.
pub fn table_path(base_id: &str, table_id: &str) -> (r: String)
    ensures
        r@ == tables_path_v(base_id@) + "/"@ + table_id@,
{
    let mut p = tables_path(base_id);
    crate::text::push_str(&mut p, "/");
    crate::text::push_str(&mut p, table_id);
    p
}

/// The path of a table's fields.
pub fn fields_path(base_id: &str, table_id: &str) -> (r: String)
    ensures
        r@ == tables_path_v(base_id@) + "/"@ + table_id@ + "/fields"@,
{
    let mut p = table_path(base_id, table_id);
    crate::text::push_str(&mut p, "/fields");
    p
}

/// The path of one base.
pub fn base_path(base_id: &str) -> (r: String)
    ensures
        r@ == "/open-apis/bitable/v1/apps/"@ + base_id@,
{
    crate::text::concat2("/open-apis/bitable/v1/apps/", base_id)
}

/// The body of a new base: its name and its folder (empty where none).
pub fn create_base_request(client: &LarkClient, req: &CreateBaseRequest) -> (r: Result<
    HttpRequest,
    ImError,
>)
    ensures
        authed_result(
            *client,
            r,
            Method::Post,
            "/open-apis/bitable/v1/apps"@,
            Some(
                JsonV::Obj(
                    seq![("name"@, JsonV::Str(req.name@)), ("folder_token"@, JsonV::Str(or_empty(req.folder_id)))],
                ),
            ),
        ),
{
    let body = crate::json::obj2(
        "name",
        Json::Str(req.name.clone()),
        "folder_token",
        Json::Str(crate::text::unwrap_or_empty(req.folder_id.clone())),
    );
    client.post("/open-apis/bitable/v1/apps", body)
}

/// The listing path of bases: the page size (20 by default), then the cursor.
pub open spec fn list_bases_path_v(req: ListBasesRequest) -> Seq<char> {
    "/open-apis/bitable/v1/apps?page_size="@ + dec_nat(
        match req.limit {
            Some(l) => l as nat,
            None => 20,
        },
    ) + match req.cursor {
        Some(c) => "&page_token="@ + c@,
        None => Seq::empty(),
    }
}

pub fn list_bases_path(req: &ListBasesRequest) -> (r: String)
    ensures
        r@ == list_bases_path_v(*req),
{
    let mut p = crate::text::lit("/open-apis/bitable/v1/apps?page_size=");
    let limit: u32 = match req.limit {
        Some(l) => l,
        None => 20,
    };
    let n = crate::text::fmt_u64(limit as u64);
    crate::text::push_str(&mut p, n.as_str());
    match &req.cursor {
        Some(c) => {
            crate::text::push_str(&mut p, "&page_token=");
            crate::text::push_str(&mut p, c.as_str());
        },
        None => {},
    }
    p
}

/// The reading of a reply that carries one base: a creation without it is an internal
/// error "empty response"; a lookup without it is "not found" for the base id.
pub fn base_reply(
    lookup_of: Option<&str>,
    text: String,
    parsed: Result<(LarkEnvelope, Option<LarkBase>), String>,
) -> (r: Result<DataBase, ImError>)
    ensures
        parsed is Err ==> r == Err::<DataBase, ImError>(ImError::Serialization(parsed->Err_0)),
        parsed matches Ok(p) ==> (r is Ok <==> code_of(p.0.code) == 0 && p.1 is Some),
        parsed matches Ok(p) ==> (code_of(p.0.code) != 0 ==> (r matches Err(ImError::Platform {
            code: c,
            message: m,
        }) && c == code_of(p.0.code) && m@ == or_text(p.0.msg, text@))),
        parsed matches Ok(p) ==> (code_of(p.0.code) == 0 && p.1 is None ==> match lookup_of {
            Some(id) => r matches Err(ImError::NotFound { resource: res }) && res@ == id@,
            None => r matches Err(ImError::Internal(m)) && m@ == "empty response"@,
        }),
        parsed matches Ok(p) ==> (r matches Ok(b) ==> is_base_of(b, p.1->Some_0)),
{
    let (env, base) = match parsed {
        Ok(p) => p,
        Err(e) => {
            return Err(ImError::Serialization(e));
        },
    };
    check_envelope(&env, &text)?;
    match base {
        Some(b) => Ok(base_from_lark(b)),
        None => match lookup_of {
            Some(id) => Err(ImError::NotFound { resource: id.to_string() }),
            None => Err(ImError::Internal("empty response".to_string())),
        },
    }
}

/// Lark cannot delete a base through its API.
pub fn delete_base_unsupported() -> (e: ImError)
    ensures
        e matches ImError::NotSupported { feature: f, platform: p } && f@
            == "delete_base (Lark Bitable does not support base deletion via API)"@ && p@ == "lark"@,
{
    crate::http::not_supported("delete_base (Lark Bitable does not support base deletion via API)", "lark")
}

/// The request that deletes records by id.
pub fn delete_records_request(
    client: &LarkClient,
    base_id: &str,
    table_id: &str,
    record_ids: &Vec<String>,
) -> (r: Result<HttpRequest, ImError>)
    ensures
        authed_result(
            *client,
            r,
            Method::Post,
            records_path_v(base_id@, table_id@) + "/batch_delete"@,
            Some(JsonV::Obj(seq![("records"@, JsonV::Arr(str_arr(record_ids@)))])),
        ),
{
    let mut p = records_path(base_id, table_id);
    crate::text::push_str(&mut p, "/batch_delete");
    client.post(p.as_str(), crate::json::obj1("records", crate::json::jstrs(record_ids)))
}

} // verus!
