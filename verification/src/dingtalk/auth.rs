//! DingTalk user access tokens: exchange, refresh, and the token the client keeps.

use crate::dingtalk::client::DingTalkClient;
use crate::http::{is_success, HttpRequest, Method};
use crate::json::{jv_members, put, Json, JsonV};
use crate::model::{AccessToken, Credentials, ImError};
use crate::time::{expiry_at, expiry_fits};
use vstd::prelude::*;

verus! {

/// The path of the token exchange.
pub open spec fn token_path() -> Seq<char> {
    "/v1.0/oauth2/userAccessToken"@
}

/// The body of a token exchange: the application, the grant, and the refresh token
/// where there is one.
pub open spec fn token_body_v(
    client_id: Seq<char>,
    client_secret: Seq<char>,
    grant: Seq<char>,
    refresh: Option<Seq<char>>,
) -> JsonV {
    JsonV::Obj(
        seq![
            ("clientId"@, JsonV::Str(client_id)),
            ("clientSecret"@, JsonV::Str(client_secret)),
            ("grantType"@, JsonV::Str(grant)),
        ] + match refresh {
            Some(r) => seq![("refreshToken"@, JsonV::Str(r))],
            None => Seq::empty(),
        },
    )
}

fn token_body(client_id: &str, client_secret: &str, grant: &str, refresh: Option<&str>) -> (r: Json)
    ensures
        r@ == token_body_v(
            client_id@,
            client_secret@,
            grant@,
            match refresh {
                Some(t) => Some(t@),
                None => None,
            },
        ),
{
    broadcast use crate::json::group_json;

    let mut m: Vec<(String, Json)> = Vec::new();
    put(&mut m, "clientId", crate::json::jstr(client_id));
    put(&mut m, "clientSecret", crate::json::jstr(client_secret));
    put(&mut m, "grantType", crate::json::jstr(grant));
    match refresh {
        Some(t) => put(&mut m, "refreshToken", crate::json::jstr(t)),
        None => {},
    }
    assert(jv_members(m@) =~= token_body_v(
        client_id@,
        client_secret@,
        grant@,
        match refresh {
            Some(t) => Some(t@),
            None => None,
        },
    )->Obj_0);
    Json::Obj(m)
}

/// The exchange of the given credentials for a token (an authorization-code grant).
pub fn access_token_request(client: &DingTalkClient, credentials: &Credentials) -> (r: HttpRequest)
    ensures
        r.method == Method::Post,
        r.url@ == client.base_url@ + token_path(),
        r.headers@.len() == 0,
        r.body matches Some(b) && b@ == token_body_v(
            credentials.client_id@,
            credentials.client_secret@,
            "authorization_code"@,
            None,
        ),
{
    let body = token_body(
        credentials.client_id.as_str(),
        credentials.client_secret.as_str(),
        "authorization_code",
        None,
    );
    client.post_no_auth("/v1.0/oauth2/userAccessToken", body)
}

/// The refresh of a token, with the client's own credentials.
pub fn refresh_token_request(client: &DingTalkClient, refresh_token: &str) -> (r: HttpRequest)
    ensures
        r.method == Method::Post,
        r.url@ == client.base_url@ + token_path(),
        r.headers@.len() == 0,
        r.body matches Some(b) && b@ == token_body_v(
            client.client_id@,
            client.client_secret@,
            "refresh_token"@,
            Some(refresh_token@),
        ),
{
    let body = token_body(
        client.client_id.as_str(),
        client.client_secret.as_str(),
        "refresh_token",
        Some(refresh_token),
    );
    client.post_no_auth("/v1.0/oauth2/userAccessToken", body)
}

/// The token exchange's reply as DingTalk gives it.
pub struct DtTokenResponse {
    pub access_token: Option<String>,
    pub refresh_token: Option<String>,
    /// Seconds until expiry.
    pub expire_in: Option<i64>,
}

/// The reading of a token exchange's reply at the instant `now`: a failed status is
/// an authentication error with the reply's text; a reply that is not the expected
/// JSON is a serialization error; a reply without a token is an authentication
/// error with `missing`. On success the client keeps the token, and nothing else
/// changes; on failure the client is unchanged.
pub fn token_outcome(
    client: &mut DingTalkClient,
    status: u16,
    text: String,
    parsed: Result<DtTokenResponse, String>,
    now: i64,
    missing: &str,
) -> (r: Result<AccessToken, ImError>)
    requires
        is_success(status) ==> (parsed matches Ok(t) ==> (t.access_token is Some ==> expiry_fits(
            now,
            t.expire_in,
        ))),
    ensures
        !is_success(status) ==> r == Err::<AccessToken, ImError>(ImError::Auth { message: text }),
        is_success(status) && parsed is Err ==> r == Err::<AccessToken, ImError>(
            ImError::Serialization(parsed->Err_0),
        ),
        is_success(status) && (parsed matches Ok(t) && t.access_token is None) ==> (r matches Err(
            ImError::Auth { message: m },
        ) && m@ == missing@),
        r is Ok <==> is_success(status) && (parsed matches Ok(t) && t.access_token is Some),
        r matches Ok(tok) ==> (parsed matches Ok(t) && Some(tok.token) == t.access_token
            && tok.refresh_token == t.refresh_token && tok.expires_at == expiry_at(
            now,
            t.expire_in,
        )),
        r matches Ok(tok) ==> *final(client) == old(client).with_token_set(tok.token),
        r is Err ==> *final(client) == *old(client),
{
    if !(200 <= status && status <= 299) {
        return Err(ImError::Auth { message: text });
    }
    let data = match parsed {
        Ok(d) => d,
        Err(e) => {
            return Err(ImError::Serialization(e));
        },
    };
    let token = match data.access_token {
        Some(t) => t,
        None => {
            return Err(ImError::Auth { message: missing.to_string() });
        },
    };
    client.set_token(token.clone());
    let expires_at = crate::time::expiry(now, data.expire_in);
    Ok(AccessToken { token, expires_at, refresh_token: data.refresh_token })
}

/// Reads a token exchange's reply at the current instant. The reply's own errors come
/// first, as `token_outcome` gives them; where the reply holds a token but the expiry
/// it gives lies beyond what milliseconds in an `i64` hold, it is refused as an
/// internal error. On any error the client is unchanged.
pub fn token_reply(
    client: &mut DingTalkClient,
    status: u16,
    text: String,
    parsed: Result<DtTokenResponse, String>,
    missing: &str,
) -> (r: Result<AccessToken, ImError>)
    ensures
        !is_success(status) ==> r == Err::<AccessToken, ImError>(ImError::Auth { message: text }),
        is_success(status) && parsed is Err ==> r == Err::<AccessToken, ImError>(
            ImError::Serialization(parsed->Err_0),
        ),
        is_success(status) && (parsed matches Ok(t) && t.access_token is None) ==> (r matches Err(
            ImError::Auth { message: m },
        ) && m@ == missing@),
        r is Ok ==> is_success(status) && (parsed matches Ok(t) && t.access_token is Some),
        is_success(status) && (parsed matches Ok(t) && t.access_token is Some) ==> (r is Ok || (r matches Err(
            ImError::Internal(m),
        ) && (m@ == "token expiry out of range"@ || m@ == crate::time::clock_error_text()))),
        r matches Ok(tok) ==> (parsed matches Ok(t) && Some(tok.token) == t.access_token
            && tok.refresh_token == t.refresh_token && (tok.expires_at is Some
            <==> t.expire_in is Some)),
        r matches Ok(tok) ==> *final(client) == old(client).with_token_set(tok.token),
        r is Err ==> *final(client) == *old(client),
        is_success(status) && (parsed matches Ok(t) && t.access_token is Some
            && t.expire_in is None) ==> r is Ok,
{
    let holds_token = 200 <= status && status <= 299 && match &parsed {
        Ok(t) => t.access_token.is_some(),
        Err(_) => false,
    };
    let needs_clock = holds_token && match &parsed {
        Ok(t) => t.expire_in.is_some(),
        Err(_) => false,
    };
    let mut now: i64 = 0;
    if needs_clock {
        now = match crate::time::now_millis() {
            Some(t) => t,
            None => {
                return Err(crate::time::clock_error());
            },
        };
        let fits = match &parsed {
            Ok(t) => crate::time::expiry_checked(now, t.expire_in).is_some(),
            Err(_) => true,
        };
        if !fits {
            return Err(ImError::Internal("token expiry out of range".to_string()));
        }
    }
    token_outcome(client, status, text, parsed, now, missing)
}

} // verus!
