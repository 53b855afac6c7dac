//! Lark media: uploading images and files as multipart forms, downloading resources.

use crate::http::{code_of, is_success, FormPart, HttpRequest, Method};
use crate::lark::client::{bearer, LarkClient};
use crate::lark::messaging::{check_envelope, LarkEnvelope};
use crate::model::{ImError, MediaInfo, MediaType};
use crate::text::{or_empty, or_text};
use vstd::prelude::*;

verus! {

/// Whether `r` is an upload of `c` to `path` with these form parts.
pub open spec fn is_upload(c: LarkClient, r: HttpRequest, path: Seq<char>, parts: Seq<(Seq<char>, Option<Seq<char>>)>, file: (Seq<char>, Seq<char>, Seq<u8>)) -> bool {
    &&& r.method == Method::Post
    &&& r.url@ == c.base_url@ + path
    &&& r.headers@.len() == 1
    &&& r.headers@[0].0@ == "Authorization"@
    &&& c.access_token matches Some(t) && r.headers@[0].1@ == bearer(t@)
    &&& r.body is None
    &&& r.form matches Some(f) && f@.len() == parts.len() + 1 && (forall|i: int|
        0 <= i < parts.len() ==> (#[trigger] f@[i] matches FormPart::Text { name: n, value: v }
            && n@ == parts[i].0 && parts[i].1 == Some(v@))) && (f@[parts.len() as int] matches FormPart::File {
        name: n,
        file_name: fname,
        mime: m,
        data: d,
    } && n@ == file.0 && fname@ == file.1 && m@ == "application/octet-stream"@ && d@ == file.2)
}

/// The authorization of an upload or download: the bearer header, or the error
/// "no access token".
fn auth_header(client: &LarkClient) -> (r: Result<Vec<(String, String)>, ImError>)
    ensures
        r is Ok <==> client.access_token is Some,
        r matches Ok(h) ==> h@.len() == 1 && h@[0].0@ == "Authorization"@ && (client.access_token matches Some(
            t,
        ) && h@[0].1@ == bearer(t@)),
        client.access_token is None ==> (r matches Err(ImError::Auth { message: m }) && m@
            == "no access token"@),
{
    match &client.access_token {
        Some(t) => {
            let mut value = crate::text::lit("Bearer ");
            crate::text::push_str(&mut value, t.as_str());
            let mut h: Vec<(String, String)> = Vec::new();
            h.push(("Authorization".to_string(), value));
            Ok(h)
        },
        None => Err(ImError::Auth { message: "no access token".to_string() }),
    }
}

/// The upload of an image for messages.
pub fn upload_image_request(client: &LarkClient, data: Vec<u8>, filename: &str) -> (r: Result<
    HttpRequest,
    ImError,
>)
    ensures
        r is Ok <==> client.access_token is Some,
        client.access_token is None ==> (r matches Err(ImError::Auth { message: m }) && m@
            == "no access token"@),
        r matches Ok(q) ==> is_upload(
            *client,
            q,
            "/open-apis/im/v1/images"@,
            seq![("image_type"@, Some("message"@))],
            ("image"@, filename@, data@),
        ),
{
    let headers = auth_header(client)?;
    let ghost dv = data@;
    let mut form: Vec<FormPart> = Vec::new();
    form.push(FormPart::Text { name: "image_type".to_string(), value: "message".to_string() });
    form.push(
        FormPart::File {
            name: "image".to_string(),
            file_name: filename.to_string(),
            mime: "application/octet-stream".to_string(),
            data,
        },
    );
    Ok(
        HttpRequest {
            method: Method::Post,
            url: client.url("/open-apis/im/v1/images"),
            headers,
            body: None,
            form: Some(form),
        },
    )
}

/// The upload of a file as a stream.
pub fn upload_file_request(client: &LarkClient, data: Vec<u8>, filename: &str) -> (r: Result<
    HttpRequest,
    ImError,
>)
    ensures
        r is Ok <==> client.access_token is Some,
        client.access_token is None ==> (r matches Err(ImError::Auth { message: m }) && m@
            == "no access token"@),
        r matches Ok(q) ==> is_upload(
            *client,
            q,
            "/open-apis/im/v1/files"@,
            seq![("file_type"@, Some("stream"@)), ("file_name"@, Some(filename@))],
            ("file"@, filename@, data@),
        ),
{
    let headers = auth_header(client)?;
    let mut form: Vec<FormPart> = Vec::new();
    form.push(FormPart::Text { name: "file_type".to_string(), value: "stream".to_string() });
    form.push(FormPart::Text { name: "file_name".to_string(), value: filename.to_string() });
    form.push(
        FormPart::File {
            name: "file".to_string(),
            file_name: filename.to_string(),
            mime: "application/octet-stream".to_string(),
            data,
        },
    );
    Ok(
        HttpRequest {
            method: Method::Post,
            url: client.url("/open-apis/im/v1/files"),
            headers,
            body: None,
            form: Some(form),
        },
    )
}

/// The uploaded media: the key the reply gives (empty where none), with the name.
pub open spec fn is_upload_info(r: MediaInfo, key: Option<String>, filename: Seq<char>, kind: MediaType) -> bool {
    r.media_key@ == or_empty(key) && (r.name matches Some(n) && n@ == filename) && r.size is None
        && r.mime_type is None && r.media_type == kind && r.url is None
}

/// The reading of an image upload's reply.
pub fn upload_image_reply(filename: &str, text: String, parsed: Result<(LarkEnvelope, Option<String>), String>) -> (r:
    Result<MediaInfo, ImError>)
    ensures
        parsed is Err ==> r == Err::<MediaInfo, ImError>(ImError::Serialization(parsed->Err_0)),
        parsed matches Ok(p) ==> (r is Ok <==> code_of(p.0.code) == 0),
        parsed matches Ok(p) ==> (r matches Err(e) ==> (e matches ImError::Platform {
            code: c,
            message: m,
        } && c == code_of(p.0.code) && m@ == or_text(p.0.msg, text@))),
        parsed matches Ok(p) ==> (r matches Ok(i) ==> is_upload_info(i, p.1, filename@, MediaType::Image)),
{
    let (env, key) = match parsed {
        Ok(p) => p,
        Err(e) => {
            return Err(ImError::Serialization(e));
        },
    };
    check_envelope(&env, &text)?;
    Ok(
        MediaInfo {
            media_key: crate::text::unwrap_or_empty(key),
            name: Some(filename.to_string()),
            size: None,
            mime_type: None,
            media_type: MediaType::Image,
            url: None,
        },
    )
}

/// The reading of a file upload's reply, given its `code`, `msg` and `data.file_key`:
/// a missing code counts as 0.
pub fn upload_file_reply(
    filename: &str,
    text: String,
    parsed: Result<(Option<i64>, Option<String>, Option<String>), String>,
) -> (r: Result<MediaInfo, ImError>)
    ensures
        parsed is Err ==> r == Err::<MediaInfo, ImError>(ImError::Serialization(parsed->Err_0)),
        parsed matches Ok(p) ==> (r is Ok <==> code_of(p.0) == 0),
        parsed matches Ok(p) ==> (r matches Err(e) ==> (e matches ImError::Platform {
            code: c,
            message: m,
        } && c == code_of(p.0) && m@ == or_text(p.1, text@))),
        parsed matches Ok(p) ==> (r matches Ok(i) ==> is_upload_info(i, p.2, filename@, MediaType::File)),
{
    let (code, msg, key) = match parsed {
        Ok(p) => p,
        Err(e) => {
            return Err(ImError::Serialization(e));
        },
    };
    crate::http::check_code(code, msg, text)?;
    Ok(
        MediaInfo {
            media_key: crate::text::unwrap_or_empty(key),
            name: Some(filename.to_string()),
            size: None,
            mime_type: None,
            media_type: MediaType::File,
            url: None,
        },
    )
}

/// The download of a message's resource: it needs the message and a token.
pub fn download_media_request(client: &LarkClient, media_key: &str, message_id: Option<&str>) -> (r:
    Result<HttpRequest, ImError>)
    ensures
        message_id is None ==> (r matches Err(ImError::InvalidParam { message: m }) && m@
            == "message_id is required for Lark media download"@),
        message_id is Some && client.access_token is None ==> (r matches Err(
            ImError::Auth { message: m },
        ) && m@ == "no access token"@),
        r is Ok <==> message_id is Some && client.access_token is Some,
        r matches Ok(q) ==> q.method == Method::Get && q.url@ == client.base_url@
            + "/open-apis/im/v1/messages/"@ + message_id->Some_0@ + "/resources/"@ + media_key@
            + "?type=file"@ && q.headers@.len() == 1 && q.body is None && q.form is None,
{
    let msg = match message_id {
        Some(m) => m,
        None => {
            return Err(
                ImError::InvalidParam { message: "message_id is required for Lark media download".to_string() },
            );
        },
    };
    let mut p = crate::text::lit("/open-apis/im/v1/messages/");
    crate::text::push_str(&mut p, msg);
    crate::text::push_str(&mut p, "/resources/");
    crate::text::push_str(&mut p, media_key);
    crate::text::push_str(&mut p, "?type=file");
    let headers = auth_header(client)?;
    let url = client.url(p.as_str());
    Ok(HttpRequest { method: Method::Get, url, headers, body: None, form: None })
}


} // verus!
