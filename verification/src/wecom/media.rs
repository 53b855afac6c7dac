//! WeCom media: uploads are refused; a download gives the media's description.

use crate::http::{code_of, HttpRequest, Method};
use crate::json::{jv_members, opt_str_v, put, Json, JsonV};
use crate::model::ImError;
use crate::text::{dec_nat, or_text};
use crate::wecom::client::{token_result, WeComClient};
use vstd::prelude::*;

verus! {

/// The feature named in the refusal of an upload of an image (`image`) or a file.
pub open spec fn upload_feature(image: bool) -> Seq<char> {
    if image {
        "upload_image (WeCom bot API doesn't support media upload)"@
    } else {
        "upload_file (WeCom bot API doesn't support media upload)"@
    }
}

/// Uploads are refused as not supported on WeCom.
pub fn upload_unsupported(image: bool) -> (e: ImError)
    ensures
        e matches ImError::NotSupported { feature: f, platform: p } && f@ == upload_feature(image) && p@
            == "wecom"@,
{
    if image {
        crate::http::not_supported("upload_image (WeCom bot API doesn't support media upload)", "wecom")
    } else {
        crate::http::not_supported("upload_file (WeCom bot API doesn't support media upload)", "wecom")
    }
}

pub fn download_request(client: &WeComClient, media_key: &str) -> (r: Result<HttpRequest, ImError>)
    ensures
        token_result(
            *client,
            r,
            Method::Post,
            "/cgi-bin/message/get_media"@,
            Some(JsonV::Obj(seq![("media_id"@, JsonV::Str(media_key@))])),
        ),
{
    client.post("/cgi-bin/message/get_media", crate::json::obj1("media_id", crate::json::jstr(media_key)))
}

/// A media item as WeCom describes it.
pub struct WcMedia {
    pub media_id: Option<String>,
    pub name: Option<String>,
    pub media_type: Option<String>,
    pub local_path: Option<String>,
    pub size: Option<u64>,
    pub content_type: Option<String>,
}

/// The description of a media item as JSON, each member `null` where absent.
pub open spec fn media_json_v(m: WcMedia) -> JsonV {
    JsonV::Obj(
        seq![
            ("media_id"@, opt_str_v(m.media_id)),
            ("name"@, opt_str_v(m.name)),
            ("type"@, opt_str_v(m.media_type)),
            ("local_path"@, opt_str_v(m.local_path)),
            (
                "size"@,
                match m.size {
                    Some(n) => JsonV::Num(dec_nat(n as nat)),
                    None => JsonV::Null,
                },
            ),
            ("content_type"@, opt_str_v(m.content_type)),
        ],
    )
}

/// The reading of a download's reply: WeCom gives the media's description, not its
/// bytes, and the download's result is that description as JSON (the caller encodes
/// it). A nonzero `errcode` is a platform error; a reply without a media item is not
/// found ("media <key>").
pub fn download_reply(
    media_key: &str,
    text: String,
    parsed: Result<(Option<i64>, Option<String>, Option<WcMedia>), String>,
) -> (r: Result<Json, ImError>)
    ensures
        parsed is Err ==> r == Err::<Json, ImError>(ImError::Serialization(parsed->Err_0)),
        parsed matches Ok(d) ==> (code_of(d.0) != 0 ==> (r matches Err(ImError::Platform {
            code: c,
            message: m,
        }) && c == code_of(d.0) && m@ == or_text(d.1, text@))),
        parsed matches Ok(d) ==> (code_of(d.0) == 0 && d.2 is None ==> (r matches Err(
            ImError::NotFound { resource: res },
        ) && res@ == "media "@ + media_key@)),
        parsed matches Ok(d) ==> (code_of(d.0) == 0 && d.2 is Some ==> (r matches Ok(j) && j@
            == media_json_v(d.2->Some_0))),
{
    broadcast use crate::json::group_json;

    let (code, msg, item) = match parsed {
        Ok(d) => d,
        Err(e) => {
            return Err(ImError::Serialization(e));
        },
    };
    crate::http::check_code(code, msg, text)?;
    let m = match item {
        Some(m) => m,
        None => {
            return Err(ImError::NotFound { resource: crate::text::concat2("media ", media_key) });
        },
    };
    let ghost g = m;
    let size = match m.size {
        Some(n) => Json::Num(crate::text::fmt_u64(n)),
        None => Json::Null,
    };
    let mut o: Vec<(String, Json)> = Vec::new();
    put(&mut o, "media_id", crate::json::jopt(m.media_id));
    put(&mut o, "name", crate::json::jopt(m.name));
    put(&mut o, "type", crate::json::jopt(m.media_type));
    put(&mut o, "local_path", crate::json::jopt(m.local_path));
    put(&mut o, "size", size);
    put(&mut o, "content_type", crate::json::jopt(m.content_type));
    assert(jv_members(o@) =~= media_json_v(g)->Obj_0);
    Ok(Json::Obj(o))
}

} // verus!
