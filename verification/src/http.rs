//! Requests as the library describes them, and the checks on replies.

use crate::json::Json;
use crate::model::{DataRecord, ImError};
use vstd::prelude::*;

verus! {

#[derive(Debug, Clone, Copy, PartialEq, Eq, Structural)]
pub enum Method {
    Get,
    Post,
    Put,
    Patch,
    Delete,
}

/// One HTTP request: the caller sends it and hands the reply back.
#[derive(Debug)]
pub struct HttpRequest {
    pub method: Method,
    pub url: String,
    /// Header name and value pairs.
    pub headers: Vec<(String, String)>,
    /// A JSON body, where the request has one.
    pub body: Option<Json>,
    /// A multipart form body, where the request has one.
    pub form: Option<Vec<FormPart>>,
}

/// One part of a multipart form: a text field, or a file's bytes with its name and
/// media type.
#[derive(Debug)]
pub enum FormPart {
    Text { name: String, value: String },
    File { name: String, file_name: String, mime: String, data: Vec<u8> },
}

/// `StatusCode::is_success`: 200 to 299.
pub open spec fn is_success(status: u16) -> bool {
    200 <= status <= 299
}

/// Fails with the reply's text where the status is not a success.
pub fn check_status(status: u16, text: String) -> (r: Result<(), ImError>)
    ensures
        r is Ok <==> is_success(status),
        !is_success(status) ==> r == Err::<(), ImError>(
            ImError::Platform { code: status as i64, message: text },
        ),
{
    if 200 <= status && status <= 299 {
        Ok(())
    } else {
        Err(ImError::Platform { code: status as i64, message: text })
    }
}

/// Fails with the reply's text and code 0 where the status is not a success (the
/// reading of deletions and cancellations).
pub fn check_status_code0(status: u16, text: String) -> (r: Result<(), ImError>)
    ensures
        r is Ok <==> is_success(status),
        !is_success(status) ==> r == Err::<(), ImError>(ImError::Platform { code: 0, message: text }),
{
    if 200 <= status && status <= 299 {
        Ok(())
    } else {
        Err(ImError::Platform { code: 0, message: text })
    }
}

/// The data a reply carries, or `missing` where it carries none.
pub fn require<T>(data: Option<T>, missing: ImError) -> (r: Result<T, ImError>)
    ensures
        data matches Some(d) ==> r == Ok::<T, ImError>(d),
        data is None ==> r == Err::<T, ImError>(missing),
{
    match data {
        Some(d) => Ok(d),
        None => Err(missing),
    }
}

/// The reading of a reply that is parsed only on success: a failed status is a
/// platform error with the status and the text; a reply that is not the expected
/// JSON is a serialization error; otherwise the parsed reply.
pub fn read_reply<T>(status: u16, text: String, parsed: Result<T, String>) -> (r: Result<T, ImError>)
    ensures
        !is_success(status) ==> r == Err::<T, ImError>(ImError::Platform { code: status as i64, message: text }),
        is_success(status) && parsed is Err ==> r == Err::<T, ImError>(ImError::Serialization(parsed->Err_0)),
        is_success(status) && parsed is Ok ==> r == Ok::<T, ImError>(parsed->Ok_0),
{
    if !(200 <= status && status <= 299) {
        return Err(ImError::Platform { code: status as i64, message: text });
    }
    match parsed {
        Ok(t) => Ok(t),
        Err(e) => Err(ImError::Serialization(e)),
    }
}

/// The code of an error envelope: a missing code counts as 0.
pub open spec fn code_of(code: Option<i64>) -> i64 {
    match code {
        Some(c) => c,
        None => 0,
    }
}

/// Fails where the reply's code is present and not 0, with that code and the
/// reply's message (or its raw text where it has none).
pub fn check_code(code: Option<i64>, msg: Option<String>, raw: String) -> (r: Result<(), ImError>)
    ensures
        r is Ok <==> code_of(code) == 0,
        r matches Err(ImError::Platform { code: c, message: m }) ==> c == code_of(code) && m@
            == crate::text::or_text(msg, raw@),
        r is Err ==> r->Err_0 is Platform,
{
    match code {
        Some(c) => {
            if c != 0 {
                let m = crate::text::unwrap_or_text(msg, raw.as_str());
                Err(ImError::Platform { code: c, message: m })
            } else {
                Ok(())
            }
        },
        None => Ok(()),
    }
}

/// The error for an operation that a platform does not offer.
pub fn not_supported(feature: &str, platform: &str) -> (e: ImError)
    ensures
        e matches ImError::NotSupported { feature: f, platform: p } && f@ == feature@ && p@
            == platform@,
{
    ImError::NotSupported { feature: feature.to_string(), platform: platform.to_string() }
}

/// A run of writes sent one after another: the requests still to send, in order,
/// and the records the replies so far gave back.
pub struct WriteState {
    pub pending: Vec<HttpRequest>,
    pub done: Vec<DataRecord>,
}

/// What to do next in a run of writes: send the request and hand its reply back
/// with the state, or stop with every record given back, in the order sent.
pub enum WriteStep {
    Send(WriteState, HttpRequest),
    Done(Vec<DataRecord>),
}

/// The step after records `got` came back from a reply in `state`: the next
/// pending request where one is left, else the records of every reply in order.
pub open spec fn advanced(state: WriteState, got: Seq<DataRecord>, r: WriteStep) -> bool {
    if state.pending@.len() == 0 {
        r matches WriteStep::Done(v) && v@ == state.done@ + got
    } else {
        r matches WriteStep::Send(st, q) && q == state.pending@[0] && st.pending@
            == state.pending@.drop_first() && st.done@ == state.done@ + got
    }
}

/// The first step of a run of writes: nothing to send gives no records.
pub fn begin_writes(requests: Vec<HttpRequest>) -> (r: WriteStep)
    ensures
        requests@.len() == 0 ==> (r matches WriteStep::Done(v) && v@.len() == 0),
        requests@.len() > 0 ==> (r matches WriteStep::Send(st, q) && q == requests@[0] && st.pending@
            == requests@.drop_first() && st.done@.len() == 0),
{
    let st = WriteState { pending: requests, done: Vec::new() };
    advance_writes(st, Vec::new())
}

/// The step after a reply in `state` gave back the records `got`.
pub fn advance_writes(state: WriteState, got: Vec<DataRecord>) -> (r: WriteStep)
    ensures
        advanced(state, got@, r),
{
    let WriteState { mut pending, mut done } = state;
    let mut got = got;
    done.append(&mut got);
    if pending.len() == 0 {
        WriteStep::Done(done)
    } else {
        let q = pending.remove(0);
        proof {
            assert(pending@ =~= state.pending@.drop_first());
        }
        WriteStep::Send(WriteState { pending, done }, q)
    }
}

} // verus!
