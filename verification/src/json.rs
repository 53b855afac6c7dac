use vstd::prelude::*;

verus! {

/// A JSON document as the library builds and reads it.
#[derive(Debug)]
pub enum Json {
    Null,
    Bool(bool),
    Int(i64),
    /// A number that is not an `i64`, kept as its decimal text.
    Num(String),
    Str(String),
    Arr(Vec<Json>),
    /// Members in the order the library writes them.
    Obj(Vec<(String, Json)>),
    /// A string member whose text is the JSON encoding of the inner document.
    Embedded(Box<Json>),
    /// The document denoted by this JSON text, or `Null` where the text is not JSON.
    Unparsed(String),
}

/// The mathematical model of [`Json`].
pub enum JsonV {
    Null,
    Bool(bool),
    Int(i64),
    Num(Seq<char>),
    Str(Seq<char>),
    Arr(Seq<JsonV>),
    Obj(Seq<(Seq<char>, JsonV)>),
    Embedded(Box<JsonV>),
    Unparsed(Seq<char>),
}

pub open spec fn jv(j: Json) -> JsonV
    decreases j,
{
    match j {
        Json::Null => JsonV::Null,
        Json::Bool(b) => JsonV::Bool(b),
        Json::Int(i) => JsonV::Int(i),
        Json::Num(s) => JsonV::Num(s@),
        Json::Str(s) => JsonV::Str(s@),
        Json::Arr(v) => JsonV::Arr(jv_seq(v@)),
        Json::Obj(m) => JsonV::Obj(jv_members(m@)),
        Json::Embedded(b) => JsonV::Embedded(Box::new(jv(*b))),
        Json::Unparsed(s) => JsonV::Unparsed(s@),
    }
}

pub open spec fn jv_seq(s: Seq<Json>) -> Seq<JsonV>
    decreases s,
{
    if s.len() == 0 {
        Seq::empty()
    } else {
        jv_seq(s.drop_last()).push(jv(s.last()))
    }
}

pub open spec fn jv_members(s: Seq<(String, Json)>) -> Seq<(Seq<char>, JsonV)>
    decreases s,
{
    if s.len() == 0 {
        Seq::empty()
    } else {
        jv_members(s.drop_last()).push((s.last().0@, jv(s.last().1)))
    }
}

pub broadcast proof fn lemma_jv_members_push(s: Seq<(String, Json)>, m: (String, Json))
    ensures
        #[trigger] jv_members(s.push(m)) == jv_members(s).push((m.0@, jv(m.1))),
{
    assert(s.push(m).drop_last() =~= s);
}

pub broadcast proof fn lemma_jv_seq_push(s: Seq<Json>, j: Json)
    ensures
        #[trigger] jv_seq(s.push(j)) == jv_seq(s).push(jv(j)),
{
    assert(s.push(j).drop_last() =~= s);
}

pub broadcast proof fn lemma_jv_empty()
    ensures
        #[trigger] jv_members(Seq::<(String, Json)>::empty()) == Seq::<(Seq<char>, JsonV)>::empty(),
        #[trigger] jv_seq(Seq::<Json>::empty()) == Seq::<JsonV>::empty(),
{
}

pub broadcast group group_json {
    lemma_jv_members_push,
    lemma_jv_seq_push,
    lemma_jv_empty,
}

impl View for Json {
    type V = JsonV;

    open spec fn view(&self) -> JsonV {
        jv(*self)
    }
}

/// A copy of `j`.
pub fn json_clone(j: &Json) -> (r: Json)
    ensures
        r@ == j@,
    decreases j,
{
    broadcast use group_json;

    match j {
        Json::Null => Json::Null,
        Json::Bool(b) => Json::Bool(*b),
        Json::Int(i) => Json::Int(*i),
        Json::Num(s) => Json::Num(s.clone()),
        Json::Str(s) => Json::Str(s.clone()),
        Json::Unparsed(s) => Json::Unparsed(s.clone()),
        Json::Embedded(b) => {
            let inner = json_clone(&**b);
            Json::Embedded(Box::new(inner))
        },
        Json::Arr(v) => {
            let mut out: Vec<Json> = Vec::new();
            let mut i: usize = 0;
            while i < v.len()
                invariant
                    *j == Json::Arr(*v),
                    i <= v@.len(),
                    jv_seq(out@) == jv_seq(v@.subrange(0, i as int)),
                decreases v@.len() - i,
            {
                proof {
                    assert((*j)->Arr_0 == *v);
                    assert(decreases_to!(*j => (*j)->Arr_0));
                    assert(decreases_to!(*v => v@));
                    assert(decreases_to!(v@ => v@[i as int]));
                    assert(decreases_to!(j => v@[i as int]));
                }
                let x = json_clone(&v[i]);
                let ghost before = out@;
                let ghost xg = x;
                out.push(x);
                proof {
                    lemma_jv_seq_push(before, xg);
                    lemma_jv_seq_push(v@.subrange(0, i as int), v@[i as int]);
                    assert(v@.subrange(0, i + 1) =~= v@.subrange(0, i as int).push(v@[i as int]));
                }
                i = i + 1;
            }
            assert(v@.subrange(0, v@.len() as int) =~= v@);
            Json::Arr(out)
        },
        Json::Obj(m) => {
            let mut out: Vec<(String, Json)> = Vec::new();
            let mut i: usize = 0;
            while i < m.len()
                invariant
                    *j == Json::Obj(*m),
                    i <= m@.len(),
                    jv_members(out@) == jv_members(m@.subrange(0, i as int)),
                decreases m@.len() - i,
            {
                proof {
                    assert((*j)->Obj_0 == *m);
                    assert(decreases_to!(*j => (*j)->Obj_0));
                    assert(decreases_to!(*m => m@));
                    assert(decreases_to!(m@ => m@[i as int]));
                    assert(decreases_to!(m@[i as int] => m@[i as int].1));
                    assert(decreases_to!(j => m@[i as int].1));
                }
                let x = json_clone(&m[i].1);
                let k = m[i].0.clone();
                let ghost before = out@;
                let ghost pair = (k, x);
                out.push((k, x));
                proof {
                    lemma_jv_members_push(before, pair);
                    lemma_jv_members_push(m@.subrange(0, i as int), m@[i as int]);
                    assert(m@.subrange(0, i + 1) =~= m@.subrange(0, i as int).push(m@[i as int]));
                }
                i = i + 1;
            }
            assert(m@.subrange(0, m@.len() as int) =~= m@);
            Json::Obj(out)
        },
    }
}

/// The strings of `s`, each as a JSON string.
pub open spec fn str_arr(s: Seq<String>) -> Seq<JsonV>
    decreases s.len(),
{
    if s.len() == 0 {
        Seq::empty()
    } else {
        str_arr(s.drop_last()).push(JsonV::Str(s.last()@))
    }
}

/// The strings of `s`, in order, each as a JSON string.
pub proof fn law_str_arr_items(s: Seq<String>)
    ensures
        str_arr(s) == s.map_values(|x: String| JsonV::Str(x@)),
    decreases s.len(),
{
    if s.len() > 0 {
        law_str_arr_items(s.drop_last());
        assert(s.map_values(|x: String| JsonV::Str(x@)) =~= s.drop_last().map_values(|x: String| JsonV::Str(x@)).push(
            JsonV::Str(s.last()@),
        ));
    }
}

/// `o` as JSON: its string, or `null` where absent.
pub open spec fn opt_str_v(o: Option<String>) -> JsonV {
    match o {
        Some(s) => JsonV::Str(s@),
        None => JsonV::Null,
    }
}

/// A JSON string holding `s`.
pub fn jstr(s: &str) -> (r: Json)
    ensures
        r@ == JsonV::Str(s@),
{
    Json::Str(s.to_string())
}

/// `o` as JSON: its string, or `null`.
pub fn jopt(o: Option<String>) -> (r: Json)
    ensures
        r@ == opt_str_v(o),
{
    match o {
        Some(s) => Json::Str(s),
        None => Json::Null,
    }
}

/// A JSON array of the strings of `v`, in order.
pub fn jstrs(v: &Vec<String>) -> (r: Json)
    ensures
        r@ == JsonV::Arr(str_arr(v@)),
{
    broadcast use group_json;

    let mut out: Vec<Json> = Vec::new();
    let mut i: usize = 0;
    while i < v.len()
        invariant
            i <= v@.len(),
            out@.len() == i,
            jv_seq(out@) == str_arr(v@.subrange(0, i as int)),
        decreases v@.len() - i,
    {
        let s = v[i].clone();
        let ghost before = out@;
        out.push(Json::Str(s));
        proof {
            lemma_jv_seq_push(before, Json::Str(s));
            assert(v@.subrange(0, i + 1).drop_last() =~= v@.subrange(0, i as int));
        }
        i = i + 1;
    }
    proof {
        assert(v@.subrange(0, v@.len() as int) =~= v@);
    }
    Json::Arr(out)
}

/// Appends the member `key: value` to an object under construction.
pub fn put(m: &mut Vec<(String, Json)>, key: &str, value: Json)
    ensures
        jv_members(final(m)@) == jv_members(old(m)@).push((key@, value@)),
{
    let ghost v = value;
    let k = key.to_string();
    let ghost kk = k;
    m.push((k, value));
    proof {
        lemma_jv_members_push(old(m)@, (kk, v));
    }
}

/// A JSON object with the members of `m`, in order.
pub fn obj(m: Vec<(String, Json)>) -> (r: Json)
    ensures
        r@ == JsonV::Obj(jv_members(m@)),
{
    Json::Obj(m)
}

/// An object with the single member `k: v`.
pub fn obj1(k: &str, v: Json) -> (r: Json)
    ensures
        r@ == JsonV::Obj(seq![(k@, v@)]),
{
    broadcast use group_json;

    let mut m: Vec<(String, Json)> = Vec::new();
    put(&mut m, k, v);
    assert(jv_members(m@) =~= seq![(k@, v@)]);
    Json::Obj(m)
}

/// An object with the members `k1: v1` and `k2: v2`, in that order.
pub fn obj2(k1: &str, v1: Json, k2: &str, v2: Json) -> (r: Json)
    ensures
        r@ == JsonV::Obj(seq![(k1@, v1@), (k2@, v2@)]),
{
    broadcast use group_json;

    let mut m: Vec<(String, Json)> = Vec::new();
    put(&mut m, k1, v1);
    put(&mut m, k2, v2);
    assert(jv_members(m@) =~= seq![(k1@, v1@), (k2@, v2@)]);
    Json::Obj(m)
}

/// Where the text `text` is not JSON, the message of serde_json's error.
pub uninterp spec fn json_text_error(text: Seq<char>) -> Option<Seq<char>>;

/// Calls `serde_json::from_str::<Value>`. Claimed: it succeeds or fails as named,
/// and the error's text is the named message.
#[verifier::external_body]
pub fn json_check(text: &str) -> (r: Result<(), String>)
    ensures
        match r {
            Ok(_) => json_text_error(text@) is None,
            Err(e) => json_text_error(text@) == Some(e@),
        },
{
    serde_json::from_str::<serde_json::Value>(text).map(|_| ()).map_err(|e| e.to_string())
}

/// The elements of `str_arr(s)` are the strings of `s`, in order.
pub proof fn lemma_str_arr(s: Seq<String>)
    ensures
        str_arr(s).len() == s.len(),
        forall|k: int| 0 <= k < s.len() ==> #[trigger] str_arr(s)[k] == JsonV::Str(s[k]@),
    decreases s.len(),
{
    if s.len() > 0 {
        lemma_str_arr(s.drop_last());
    }
}

/// The string member `key` of the top-level object of the JSON text `text`, where
/// the text is JSON and that member is a string.
pub uninterp spec fn text_str_member(text: Seq<char>, key: Seq<char>) -> Option<Seq<char>>;

/// The integer member `key` of the top-level object of the JSON text `text`, where
/// the text is JSON and that member is an `i64`.
pub uninterp spec fn text_i64_member(text: Seq<char>, key: Seq<char>) -> Option<i64>;

/// Calls `serde_json::from_str::<Value>`, then `Value::get` and `Value::as_str`.
/// Claimed: the result is the named member.
#[verifier::external_body]
pub fn str_member_of(text: &str, key: &str) -> (r: Option<String>)
    ensures
        crate::text::opt_view(r) == text_str_member(text@, key@),
{
    serde_json::from_str::<serde_json::Value>(text).ok().and_then(
        |v| v.get(key).and_then(|x| x.as_str()).map(String::from),
    )
}

/// Calls `serde_json::from_str::<Value>`, then `Value::get` and `Value::as_i64`.
/// Claimed: the result is the named member.
#[verifier::external_body]
pub fn i64_member_of(text: &str, key: &str) -> (r: Option<i64>)
    ensures
        r == text_i64_member(text@, key@),
{
    serde_json::from_str::<serde_json::Value>(text).ok().and_then(|v| v.get(key).and_then(|x| x.as_i64()))
}

} // verus!
