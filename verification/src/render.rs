//! The debug rendering of message content: the text that `{:?}` gives for a value,
//! written out field by field so that what it holds is stated. A JSON document is
//! rendered as the `serde_json::Value` it converts to, whose objects hold their
//! members sorted by key, the last of equal keys kept.

use vstd::prelude::*;
use crate::json::{jv_members, jv_seq, Json, JsonV};
use crate::model::MessageContent;
use crate::text::{dec_int, dec_nat, opt_view, push_str};

verus! {

// ---------------------------------------------------------------------------
// What std and serde_json write
// ---------------------------------------------------------------------------

/// The text that `Debug` writes for the string `s`: quoted, with std's escapes.
pub uninterp spec fn str_debug(s: Seq<char>) -> Seq<char>;

/// Calls `format!("{:?}")` on a string, that is std's `Debug` for `str`. Claimed: the
/// named text.
#[verifier::external_body]
pub fn str_debug_text(s: &str) -> (r: String)
    ensures
        r@ == str_debug(s@),
{
    format!("{:?}", s)
}

/// The JSON string literal that serde_json writes for `s`.
pub uninterp spec fn json_str_text(s: Seq<char>) -> Seq<char>;

/// Calls `serde_json::to_string` on a string, which cannot fail for one. Claimed: the
/// named literal.
#[verifier::external_body]
pub fn json_string_text(s: &str) -> (r: String)
    ensures
        r@ == json_str_text(s@),
{
    serde_json::to_string(s).unwrap_or_default()
}

/// The debug text of the `serde_json::Value` that serde_json reads from `s`, where `s`
/// is JSON.
pub uninterp spec fn text_value_debug(s: Seq<char>) -> Option<Seq<char>>;

/// Calls `serde_json::from_str::<Value>` and writes the value with `format!("{:?}")`.
/// Claimed: the named text, or nothing where `s` is not JSON.
#[verifier::external_body]
fn parsed_debug_text(s: &str) -> (r: Option<String>)
    ensures
        opt_view(r) == text_value_debug(s@),
{
    serde_json::from_str::<serde_json::Value>(s).ok().map(|v| format!("{:?}", v))
}

/// The compact JSON text that serde_json writes again for what it reads from `s`,
/// where `s` is JSON.
pub uninterp spec fn text_value_text(s: Seq<char>) -> Option<Seq<char>>;

/// Calls `serde_json::from_str::<Value>` and writes the value with `to_string`.
/// Claimed: the named text, or nothing where `s` is not JSON.
#[verifier::external_body]
fn parsed_json_text(s: &str) -> (r: Option<String>)
    ensures
        opt_view(r) == text_value_text(s@),
{
    serde_json::from_str::<serde_json::Value>(s).ok().map(|v| v.to_string())
}

// ---------------------------------------------------------------------------
// Objects as serde_json's map holds them
// ---------------------------------------------------------------------------

/// `a` before `b` in the order of `String`'s `Ord`: character by character (the
/// order of code points, which is that of their UTF-8 bytes), a prefix first.
pub open spec fn seq_lt(a: Seq<char>, b: Seq<char>) -> bool
    decreases a.len(),
{
    if a.len() == 0 {
        b.len() > 0
    } else if b.len() == 0 {
        false
    } else if a[0] != b[0] {
        (a[0] as u32) < (b[0] as u32)
    } else {
        seq_lt(a.drop_first(), b.drop_first())
    }
}

/// The pairs of `v`, as characters.
pub open spec fn pv(v: Seq<(String, String)>) -> Seq<(Seq<char>, Seq<char>)> {
    Seq::new(v.len(), |i: int| (v[i].0@, v[i].1@))
}

/// The keyed pairs `s` after inserting `p` as a sorted map inserts: it replaces the
/// pair with its key, or goes before the first pair with a greater key.
pub open spec fn ins(s: Seq<(Seq<char>, Seq<char>)>, p: (Seq<char>, Seq<char>)) -> Seq<
    (Seq<char>, Seq<char>),
>
    decreases s.len(),
{
    if s.len() == 0 {
        seq![p]
    } else if s[0].0 == p.0 {
        seq![p] + s.drop_first()
    } else if seq_lt(p.0, s[0].0) {
        seq![p] + s
    } else {
        seq![s[0]] + ins(s.drop_first(), p)
    }
}

/// The keyed pairs `s` as a sorted map holds them after inserting each in turn.
pub open spec fn canon(s: Seq<(Seq<char>, Seq<char>)>) -> Seq<(Seq<char>, Seq<char>)>
    decreases s.len(),
{
    if s.len() == 0 {
        Seq::empty()
    } else {
        ins(canon(s.drop_last()), s.last())
    }
}

// ---------------------------------------------------------------------------
// The renderings
// ---------------------------------------------------------------------------

/// The compact JSON text of a document, as serde_json writes the value it converts
/// to.
pub open spec fn json_text(j: JsonV) -> Seq<char>
    decreases j,
{
    match j {
        JsonV::Null => "null"@,
        JsonV::Bool(b) => if b {
            "true"@
        } else {
            "false"@
        },
        JsonV::Int(i) => dec_int(i as int),
        JsonV::Num(s) => s,
        JsonV::Str(s) => json_str_text(s),
        JsonV::Arr(v) => "["@ + items_text(v) + "]"@,
        JsonV::Obj(ms) => "{"@ + text_pairs(canon(text_members(ms))) + "}"@,
        JsonV::Embedded(b) => json_str_text(json_text(*b)),
        JsonV::Unparsed(s) => match text_value_text(s) {
            Some(t) => t,
            None => "null"@,
        },
    }
}

pub open spec fn items_text(s: Seq<JsonV>) -> Seq<char>
    decreases s,
{
    if s.len() == 0 {
        Seq::empty()
    } else if s.len() == 1 {
        json_text(s.last())
    } else {
        items_text(s.drop_last()) + ","@ + json_text(s.last())
    }
}

pub open spec fn text_members(s: Seq<(Seq<char>, JsonV)>) -> Seq<(Seq<char>, Seq<char>)>
    decreases s,
{
    if s.len() == 0 {
        Seq::empty()
    } else {
        text_members(s.drop_last()).push((s.last().0, json_text(s.last().1)))
    }
}

pub open spec fn text_pairs(s: Seq<(Seq<char>, Seq<char>)>) -> Seq<char>
    decreases s.len(),
{
    if s.len() == 0 {
        Seq::empty()
    } else if s.len() == 1 {
        json_str_text(s.last().0) + ":"@ + s.last().1
    } else {
        text_pairs(s.drop_last()) + ","@ + json_str_text(s.last().0) + ":"@ + s.last().1
    }
}

/// The debug rendering of a document, as `serde_json::Value`'s `Debug` writes the
/// value it converts to.
pub open spec fn json_debug(j: JsonV) -> Seq<char>
    decreases j,
{
    match j {
        JsonV::Null => "Null"@,
        JsonV::Bool(b) => if b {
            "Bool(true)"@
        } else {
            "Bool(false)"@
        },
        JsonV::Int(i) => "Number("@ + dec_int(i as int) + ")"@,
        JsonV::Num(s) => "Number("@ + s + ")"@,
        JsonV::Str(s) => "String("@ + str_debug(s) + ")"@,
        JsonV::Arr(v) => "Array ["@ + items_debug(v) + "]"@,
        JsonV::Obj(ms) => "Object {"@ + debug_pairs(canon(debug_members(ms))) + "}"@,
        JsonV::Embedded(b) => "String("@ + str_debug(json_text(*b)) + ")"@,
        JsonV::Unparsed(s) => match text_value_debug(s) {
            Some(t) => t,
            None => "Null"@,
        },
    }
}

pub open spec fn items_debug(s: Seq<JsonV>) -> Seq<char>
    decreases s,
{
    if s.len() == 0 {
        Seq::empty()
    } else if s.len() == 1 {
        json_debug(s.last())
    } else {
        items_debug(s.drop_last()) + ", "@ + json_debug(s.last())
    }
}

pub open spec fn debug_members(s: Seq<(Seq<char>, JsonV)>) -> Seq<(Seq<char>, Seq<char>)>
    decreases s,
{
    if s.len() == 0 {
        Seq::empty()
    } else {
        debug_members(s.drop_last()).push((s.last().0, json_debug(s.last().1)))
    }
}

pub open spec fn debug_pairs(s: Seq<(Seq<char>, Seq<char>)>) -> Seq<char>
    decreases s.len(),
{
    if s.len() == 0 {
        Seq::empty()
    } else if s.len() == 1 {
        str_debug(s.last().0) + ": "@ + s.last().1
    } else {
        debug_pairs(s.drop_last()) + ", "@ + str_debug(s.last().0) + ": "@ + s.last().1
    }
}

/// The debug rendering of an optional string.
pub open spec fn opt_str_debug(o: Option<String>) -> Seq<char> {
    match o {
        Some(s) => "Some("@ + str_debug(s@) + ")"@,
        None => "None"@,
    }
}

/// The debug rendering of an optional count.
pub open spec fn opt_u64_debug(o: Option<u64>) -> Seq<char> {
    match o {
        Some(n) => "Some("@ + dec_nat(n as nat) + ")"@,
        None => "None"@,
    }
}

/// The debug renderings of the strings of `s`, separated by `, `.
pub open spec fn strs_items(s: Seq<String>) -> Seq<char>
    decreases s.len(),
{
    if s.len() == 0 {
        Seq::empty()
    } else if s.len() == 1 {
        str_debug(s.last()@)
    } else {
        strs_items(s.drop_last()) + ", "@ + str_debug(s.last()@)
    }
}

/// The debug rendering of a list of strings.
pub open spec fn strs_debug(s: Seq<String>) -> Seq<char> {
    "["@ + strs_items(s) + "]"@
}

/// The debug rendering of message content, as `derive(Debug)` writes it.
pub open spec fn content_debug(c: MessageContent) -> Seq<char> {
    match c {
        MessageContent::Text(t) => "Text(TextContent { text: "@ + str_debug(t.text@) + ", mentions: "@
            + strs_debug(t.mentions@) + " })"@,
        MessageContent::Markdown(m) => "Markdown(MarkdownContent { title: "@ + opt_str_debug(m.title)
            + ", text: "@ + str_debug(m.text@) + " })"@,
        MessageContent::Image(i) => "Image(ImageContent { media_key: "@ + str_debug(i.media_key@)
            + ", name: "@ + opt_str_debug(i.name) + ", url: "@ + opt_str_debug(i.url) + " })"@,
        MessageContent::File(f) => "File(FileContent { media_key: "@ + str_debug(f.media_key@)
            + ", name: "@ + opt_str_debug(f.name) + ", size: "@ + opt_u64_debug(f.size)
            + ", mime_type: "@ + opt_str_debug(f.mime_type) + " })"@,
        MessageContent::Audio(a) => "Audio(AudioContent { media_key: "@ + str_debug(a.media_key@)
            + ", duration_ms: "@ + opt_u64_debug(a.duration_ms) + " })"@,
        MessageContent::Video(v) => "Video(VideoContent { media_key: "@ + str_debug(v.media_key@)
            + ", name: "@ + opt_str_debug(v.name) + ", cover_key: "@ + opt_str_debug(v.cover_key)
            + " })"@,
        MessageContent::Card(j) => "Card("@ + json_debug(j@) + ")"@,
        MessageContent::Unknown { msg_type, raw } => "Unknown { msg_type: "@ + str_debug(msg_type@)
            + ", raw: "@ + json_debug(raw@) + " }"@,
    }
}

// ---------------------------------------------------------------------------
// Executable renderings
// ---------------------------------------------------------------------------

proof fn lemma_seq_lt_step(a: Seq<char>, b: Seq<char>, i: int)
    requires
        0 <= i < a.len(),
        i < b.len(),
        a[i] == b[i],
    ensures
        seq_lt(a.skip(i), b.skip(i)) == seq_lt(a.skip(i + 1), b.skip(i + 1)),
{
    assert(a.skip(i).drop_first() =~= a.skip(i + 1));
    assert(b.skip(i).drop_first() =~= b.skip(i + 1));
}

/// Whether `a` comes before `b` in `String`'s order.
pub fn str_lt(a: &str, b: &str) -> (r: bool)
    ensures
        r == seq_lt(a@, b@),
{
    let n = a.unicode_len();
    let m = b.unicode_len();
    let mut i: usize = 0;
    assert(a@.skip(0) =~= a@ && b@.skip(0) =~= b@);
    while i < n && i < m && a.get_char(i) == b.get_char(i)
        invariant
            n == a@.len(),
            m == b@.len(),
            i <= n,
            i <= m,
            seq_lt(a@, b@) == seq_lt(a@.skip(i as int), b@.skip(i as int)),
        decreases n - i,
    {
        proof {
            lemma_seq_lt_step(a@, b@, i as int);
        }
        i = i + 1;
    }
    if i == n {
        assert(a@.skip(i as int).len() == 0);
        i < m
    } else if i == m {
        assert(b@.skip(i as int).len() == 0);
        false
    } else {
        let x = a.get_char(i);
        let y = b.get_char(i);
        assert(a@.skip(i as int)[0] == x && b@.skip(i as int)[0] == y);
        (x as u32) < (y as u32)
    }
}

proof fn lemma_pv_push(v: Seq<(String, String)>, x: (String, String))
    ensures
        pv(v.push(x)) == pv(v).push((x.0@, x.1@)),
{
    assert(pv(v.push(x)) =~= pv(v).push((x.0@, x.1@)));
}

/// `acc` with the pair `p` inserted as a sorted map inserts it.
fn insert_pair(acc: Vec<(String, String)>, p: (String, String)) -> (r: Vec<(String, String)>)
    ensures
        pv(r@) == ins(pv(acc@), (p.0@, p.1@)),
{
    let ghost all = pv(acc@);
    let ghost pp = (p.0@, p.1@);
    let mut out: Vec<(String, String)> = Vec::new();
    let mut pending: Option<(String, String)> = Some(p);
    let n = acc.len();
    assert(all.subrange(0, n as int) =~= all);
    assert(pv(out@) =~= Seq::<(Seq<char>, Seq<char>)>::empty());
    assert(ins(all, pp) =~= pv(out@) + ins(all.subrange(0, n as int), pp));
    for x in it: acc.into_iter()
        invariant
            it.seq() == acc@,
            n == acc@.len(),
            all == pv(acc@),
            it.index() <= n,
            pending matches Some(q) ==> (q.0@, q.1@) == pp,
            ins(all, pp) == pv(out@) + (match pending {
                Some(_) => ins(all.subrange(it.index() as int, n as int), pp),
                None => all.subrange(it.index() as int, n as int),
            }),
    {
        let ghost i = it.index() as int;
        let ghost rest = all.subrange(i, n as int);
        let ghost xg = x;
        proof {
            assert(rest[0] == (xg.0@, xg.1@));
            assert(rest.drop_first() =~= all.subrange(i + 1, n as int));
            assert(rest =~= seq![rest[0]] + rest.drop_first());
        }
        let ghost before = out@;
        match pending {
            Some(q) => {
                if crate::text::str_eq(q.0.as_str(), x.0.as_str()) {
                    let ghost qg = q;
                    out.push(q);
                    proof {
                        lemma_pv_push(before, qg);
                    }
                    pending = None;
                } else if str_lt(q.0.as_str(), x.0.as_str()) {
                    let ghost qg = q;
                    out.push(q);
                    proof {
                        lemma_pv_push(before, qg);
                        lemma_pv_push(before.push(qg), xg);
                    }
                    out.push(x);
                    pending = None;
                } else {
                    out.push(x);
                    proof {
                        lemma_pv_push(before, xg);
                    }
                    pending = Some(q);
                }
            },
            None => {
                out.push(x);
                proof {
                    lemma_pv_push(before, xg);
                }
            },
        }
    }
    proof {
        assert(all.subrange(n as int, n as int) =~= Seq::<(Seq<char>, Seq<char>)>::empty());
    }
    match pending {
        Some(q) => {
            let ghost before = out@;
            let ghost qg = q;
            out.push(q);
            proof {
                lemma_pv_push(before, qg);
            }
        },
        None => {},
    }
    assert(pv(out@) =~= ins(all, pp));
    out
}

/// The pairs `v` as a sorted map holds them after inserting each in turn.
fn canonical(v: Vec<(String, String)>) -> (r: Vec<(String, String)>)
    ensures
        pv(r@) == canon(pv(v@)),
{
    let ghost all = v@;
    let mut acc: Vec<(String, String)> = Vec::new();
    assert(pv(acc@) =~= canon(pv(all.subrange(0, 0))));
    for x in it: v.into_iter()
        invariant
            it.seq() == all,
            it.index() <= all.len(),
            pv(acc@) == canon(pv(all.subrange(0, it.index() as int))),
    {
        let ghost i = it.index() as int;
        let ghost xg = x;
        proof {
            assert(pv(all.subrange(0, i + 1)).drop_last() =~= pv(all.subrange(0, i)));
            assert(pv(all.subrange(0, i + 1)).last() == (xg.0@, xg.1@));
        }
        acc = insert_pair(acc, x);
    }
    assert(all.subrange(0, all.len() as int) =~= all);
    acc
}

/// Appends `"key": value` for each pair, separated by `, `.
fn push_debug_pairs(s: &mut String, v: &Vec<(String, String)>)
    ensures
        final(s)@ == old(s)@ + debug_pairs(pv(v@)),
{
    let ghost start = s@;
    let mut i: usize = 0;
    while i < v.len()
        invariant
            i <= v@.len(),
            s@ == start + debug_pairs(pv(v@.subrange(0, i as int))),
        decreases v@.len() - i,
    {
        if i > 0 {
            push_str(s, ", ");
        }
        let k = str_debug_text(v[i].0.as_str());
        push_str(s, k.as_str());
        push_str(s, ": ");
        push_str(s, v[i].1.as_str());
        proof {
            assert(pv(v@.subrange(0, i + 1)).drop_last() =~= pv(v@.subrange(0, i as int)));
        }
        i = i + 1;
    }
    assert(v@.subrange(0, v@.len() as int) =~= v@);
    assert(s@ =~= old(s)@ + debug_pairs(pv(v@)));
}

/// Appends `"key":value` for each pair, separated by `,`.
fn push_text_pairs(s: &mut String, v: &Vec<(String, String)>)
    ensures
        final(s)@ == old(s)@ + text_pairs(pv(v@)),
{
    let ghost start = s@;
    let mut i: usize = 0;
    while i < v.len()
        invariant
            i <= v@.len(),
            s@ == start + text_pairs(pv(v@.subrange(0, i as int))),
        decreases v@.len() - i,
    {
        if i > 0 {
            push_str(s, ",");
        }
        let k = json_string_text(v[i].0.as_str());
        push_str(s, k.as_str());
        push_str(s, ":");
        push_str(s, v[i].1.as_str());
        proof {
            assert(pv(v@.subrange(0, i + 1)).drop_last() =~= pv(v@.subrange(0, i as int)));
        }
        i = i + 1;
    }
    assert(v@.subrange(0, v@.len() as int) =~= v@);
    assert(s@ =~= old(s)@ + text_pairs(pv(v@)));
}

/// The compact JSON text of `j`.
pub fn json_text_of(j: &Json) -> (r: String)
    ensures
        r@ == json_text(j@),
    decreases j,
{
    broadcast use crate::json::group_json;

    let mut s = String::new();
    match j {
        Json::Null => {
            push_str(&mut s, "null");
        },
        Json::Bool(b) => {
            if *b {
                push_str(&mut s, "true");
            } else {
                push_str(&mut s, "false");
            }
        },
        Json::Int(i) => {
            let d = crate::text::fmt_i64(*i);
            push_str(&mut s, d.as_str());
        },
        Json::Num(n) => {
            push_str(&mut s, n.as_str());
        },
        Json::Str(t) => {
            let q = json_string_text(t.as_str());
            push_str(&mut s, q.as_str());
        },
        Json::Embedded(b) => {
            let inner = json_text_of(&**b);
            let q = json_string_text(inner.as_str());
            push_str(&mut s, q.as_str());
        },
        Json::Unparsed(t) => {
            match parsed_json_text(t.as_str()) {
                Some(x) => push_str(&mut s, x.as_str()),
                None => push_str(&mut s, "null"),
            }
        },
        Json::Arr(v) => {
            push_str(&mut s, "[");
            let ghost start = s@;
            let mut i: usize = 0;
            while i < v.len()
                invariant
                    *j == Json::Arr(*v),
                    i <= v@.len(),
                    s@ == start + items_text(jv_seq(v@.subrange(0, i as int))),
                decreases v@.len() - i,
            {
                proof {
                    assert((*j)->Arr_0 == *v);
                    assert(decreases_to!(*j => (*j)->Arr_0));
                    assert(decreases_to!(*v => v@));
                    assert(decreases_to!(v@ => v@[i as int]));
                    assert(decreases_to!(j => v@[i as int]));
                }
                if i > 0 {
                    push_str(&mut s, ",");
                }
                let x = json_text_of(&v[i]);
                push_str(&mut s, x.as_str());
                proof {
                    assert(v@.subrange(0, i + 1) =~= v@.subrange(0, i as int).push(v@[i as int]));
                    crate::json::lemma_jv_seq_push(v@.subrange(0, i as int), v@[i as int]);
                    let js = jv_seq(v@.subrange(0, i + 1));
                    assert(js.drop_last() =~= jv_seq(v@.subrange(0, i as int)));
                }
                i = i + 1;
            }
            push_str(&mut s, "]");
            assert(v@.subrange(0, v@.len() as int) =~= v@);
        },
        Json::Obj(m) => {
            let mut rendered: Vec<(String, String)> = Vec::new();
            let mut i: usize = 0;
            while i < m.len()
                invariant
                    *j == Json::Obj(*m),
                    i <= m@.len(),
                    pv(rendered@) == text_members(jv_members(m@.subrange(0, i as int))),
                decreases m@.len() - i,
            {
                proof {
                    assert((*j)->Obj_0 == *m);
                    assert(decreases_to!(*j => (*j)->Obj_0));
                    assert(decreases_to!(*m => m@));
                    assert(decreases_to!(m@ => m@[i as int]));
                    assert(decreases_to!(m@[i as int] => m@[i as int].1));
                    assert(decreases_to!(j => m@[i as int].1));
                }
                let x = json_text_of(&m[i].1);
                let k = m[i].0.clone();
                let ghost before = rendered@;
                let ghost pair = (k, x);
                rendered.push((k, x));
                proof {
                    lemma_pv_push(before, pair);
                    assert(m@.subrange(0, i + 1) =~= m@.subrange(0, i as int).push(m@[i as int]));
                    crate::json::lemma_jv_members_push(m@.subrange(0, i as int), m@[i as int]);
                    let jm = jv_members(m@.subrange(0, i + 1));
                    assert(jm.drop_last() =~= jv_members(m@.subrange(0, i as int)));
                }
                i = i + 1;
            }
            assert(m@.subrange(0, m@.len() as int) =~= m@);
            let sorted = canonical(rendered);
            push_str(&mut s, "{");
            push_text_pairs(&mut s, &sorted);
            push_str(&mut s, "}");
        },
    }
    assert(s@ =~= json_text(j@));
    s
}

/// Appends the debug rendering of `j`.
pub fn push_json_debug(s: &mut String, j: &Json)
    ensures
        final(s)@ == old(s)@ + json_debug(j@),
    decreases j,
{
    broadcast use crate::json::group_json;

    match j {
        Json::Null => {
            push_str(s, "Null");
        },
        Json::Bool(b) => {
            if *b {
                push_str(s, "Bool(true)");
            } else {
                push_str(s, "Bool(false)");
            }
        },
        Json::Int(i) => {
            push_str(s, "Number(");
            let d = crate::text::fmt_i64(*i);
            push_str(s, d.as_str());
            push_str(s, ")");
        },
        Json::Num(n) => {
            push_str(s, "Number(");
            push_str(s, n.as_str());
            push_str(s, ")");
        },
        Json::Str(t) => {
            push_str(s, "String(");
            let q = str_debug_text(t.as_str());
            push_str(s, q.as_str());
            push_str(s, ")");
        },
        Json::Embedded(b) => {
            let inner = json_text_of(&**b);
            push_str(s, "String(");
            let q = str_debug_text(inner.as_str());
            push_str(s, q.as_str());
            push_str(s, ")");
        },
        Json::Unparsed(t) => {
            match parsed_debug_text(t.as_str()) {
                Some(x) => push_str(s, x.as_str()),
                None => push_str(s, "Null"),
            }
        },
        Json::Arr(v) => {
            push_str(s, "Array [");
            let ghost start = s@;
            let mut i: usize = 0;
            while i < v.len()
                invariant
                    *j == Json::Arr(*v),
                    i <= v@.len(),
                    s@ == start + items_debug(jv_seq(v@.subrange(0, i as int))),
                decreases v@.len() - i,
            {
                proof {
                    assert((*j)->Arr_0 == *v);
                    assert(decreases_to!(*j => (*j)->Arr_0));
                    assert(decreases_to!(*v => v@));
                    assert(decreases_to!(v@ => v@[i as int]));
                    assert(decreases_to!(j => v@[i as int]));
                }
                if i > 0 {
                    push_str(s, ", ");
                }
                push_json_debug(s, &v[i]);
                proof {
                    assert(v@.subrange(0, i + 1) =~= v@.subrange(0, i as int).push(v@[i as int]));
                    crate::json::lemma_jv_seq_push(v@.subrange(0, i as int), v@[i as int]);
                    let js = jv_seq(v@.subrange(0, i + 1));
                    assert(js.drop_last() =~= jv_seq(v@.subrange(0, i as int)));
                }
                i = i + 1;
            }
            push_str(s, "]");
            assert(v@.subrange(0, v@.len() as int) =~= v@);
        },
        Json::Obj(m) => {
            let mut rendered: Vec<(String, String)> = Vec::new();
            let mut i: usize = 0;
            while i < m.len()
                invariant
                    *j == Json::Obj(*m),
                    i <= m@.len(),
                    pv(rendered@) == debug_members(jv_members(m@.subrange(0, i as int))),
                decreases m@.len() - i,
            {
                proof {
                    assert((*j)->Obj_0 == *m);
                    assert(decreases_to!(*j => (*j)->Obj_0));
                    assert(decreases_to!(*m => m@));
                    assert(decreases_to!(m@ => m@[i as int]));
                    assert(decreases_to!(m@[i as int] => m@[i as int].1));
                    assert(decreases_to!(j => m@[i as int].1));
                }
                let mut x = String::new();
                push_json_debug(&mut x, &m[i].1);
                let k = m[i].0.clone();
                let ghost before = rendered@;
                let ghost pair = (k, x);
                rendered.push((k, x));
                proof {
                    lemma_pv_push(before, pair);
                    assert(m@.subrange(0, i + 1) =~= m@.subrange(0, i as int).push(m@[i as int]));
                    crate::json::lemma_jv_members_push(m@.subrange(0, i as int), m@[i as int]);
                    let jm = jv_members(m@.subrange(0, i + 1));
                    assert(jm.drop_last() =~= jv_members(m@.subrange(0, i as int)));
                }
                i = i + 1;
            }
            assert(m@.subrange(0, m@.len() as int) =~= m@);
            let sorted = canonical(rendered);
            push_str(s, "Object {");
            push_debug_pairs(s, &sorted);
            push_str(s, "}");
        },
    }
    assert(s@ =~= old(s)@ + json_debug(j@));
}

fn push_str_debug(s: &mut String, t: &str)
    ensures
        final(s)@ == old(s)@ + str_debug(t@),
{
    let q = str_debug_text(t);
    push_str(s, q.as_str());
}

fn push_opt_str_debug(s: &mut String, o: &Option<String>)
    ensures
        final(s)@ == old(s)@ + opt_str_debug(*o),
{
    match o {
        Some(v) => {
            push_str(s, "Some(");
            push_str_debug(s, v.as_str());
            push_str(s, ")");
        },
        None => {
            push_str(s, "None");
        },
    }
    assert(s@ =~= old(s)@ + opt_str_debug(*o));
}

fn push_opt_u64_debug(s: &mut String, o: Option<u64>)
    ensures
        final(s)@ == old(s)@ + opt_u64_debug(o),
{
    match o {
        Some(n) => {
            push_str(s, "Some(");
            let d = crate::text::fmt_u64(n);
            push_str(s, d.as_str());
            push_str(s, ")");
        },
        None => {
            push_str(s, "None");
        },
    }
    assert(s@ =~= old(s)@ + opt_u64_debug(o));
}

fn push_strs_debug(s: &mut String, v: &Vec<String>)
    ensures
        final(s)@ == old(s)@ + strs_debug(v@),
{
    push_str(s, "[");
    let ghost start = s@;
    let mut i: usize = 0;
    while i < v.len()
        invariant
            i <= v@.len(),
            s@ == start + strs_items(v@.subrange(0, i as int)),
        decreases v@.len() - i,
    {
        if i > 0 {
            push_str(s, ", ");
        }
        push_str_debug(s, v[i].as_str());
        proof {
            let sub = v@.subrange(0, i + 1);
            assert(sub.drop_last() =~= v@.subrange(0, i as int));
            assert(sub.last() == v@[i as int]);
        }
        i = i + 1;
    }
    push_str(s, "]");
    assert(v@.subrange(0, v@.len() as int) =~= v@);
    assert(s@ =~= old(s)@ + strs_debug(v@));
}

/// The debug rendering of message content.
pub fn content_debug_text(c: &MessageContent) -> (r: String)
    ensures
        r@ == content_debug(*c),
{
    let mut s = String::new();
    match c {
        MessageContent::Text(t) => {
            push_str(&mut s, "Text(TextContent { text: ");
            push_str_debug(&mut s, t.text.as_str());
            push_str(&mut s, ", mentions: ");
            push_strs_debug(&mut s, &t.mentions);
            push_str(&mut s, " })");
        },
        MessageContent::Markdown(m) => {
            push_str(&mut s, "Markdown(MarkdownContent { title: ");
            push_opt_str_debug(&mut s, &m.title);
            push_str(&mut s, ", text: ");
            push_str_debug(&mut s, m.text.as_str());
            push_str(&mut s, " })");
        },
        MessageContent::Image(i) => {
            push_str(&mut s, "Image(ImageContent { media_key: ");
            push_str_debug(&mut s, i.media_key.as_str());
            push_str(&mut s, ", name: ");
            push_opt_str_debug(&mut s, &i.name);
            push_str(&mut s, ", url: ");
            push_opt_str_debug(&mut s, &i.url);
            push_str(&mut s, " })");
        },
        MessageContent::File(f) => {
            push_str(&mut s, "File(FileContent { media_key: ");
            push_str_debug(&mut s, f.media_key.as_str());
            push_str(&mut s, ", name: ");
            push_opt_str_debug(&mut s, &f.name);
            push_str(&mut s, ", size: ");
            push_opt_u64_debug(&mut s, f.size);
            push_str(&mut s, ", mime_type: ");
            push_opt_str_debug(&mut s, &f.mime_type);
            push_str(&mut s, " })");
        },
        MessageContent::Audio(a) => {
            push_str(&mut s, "Audio(AudioContent { media_key: ");
            push_str_debug(&mut s, a.media_key.as_str());
            push_str(&mut s, ", duration_ms: ");
            push_opt_u64_debug(&mut s, a.duration_ms);
            push_str(&mut s, " })");
        },
        MessageContent::Video(v) => {
            push_str(&mut s, "Video(VideoContent { media_key: ");
            push_str_debug(&mut s, v.media_key.as_str());
            push_str(&mut s, ", name: ");
            push_opt_str_debug(&mut s, &v.name);
            push_str(&mut s, ", cover_key: ");
            push_opt_str_debug(&mut s, &v.cover_key);
            push_str(&mut s, " })");
        },
        MessageContent::Card(j) => {
            push_str(&mut s, "Card(");
            push_json_debug(&mut s, j);
            push_str(&mut s, ")");
        },
        MessageContent::Unknown { msg_type, raw } => {
            push_str(&mut s, "Unknown { msg_type: ");
            push_str_debug(&mut s, msg_type.as_str());
            push_str(&mut s, ", raw: ");
            push_json_debug(&mut s, raw);
            push_str(&mut s, " }");
        },
    }
    assert(s@ =~= content_debug(*c));
    s
}

} // verus!
