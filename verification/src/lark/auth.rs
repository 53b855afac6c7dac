//! Lark tenant access tokens: fetched with the application's id and secret.

use crate::http::{code_of, HttpRequest, Method};
use crate::json::JsonV;
use crate::lark::client::{LarkClient, TokenType};
use crate::model::{AccessToken, Credentials, ImError};
use crate::text::or_text;
use crate::time::{expiry_at, expiry_fits};
use vstd::prelude::*;

verus! {

/// The path of the tenant token exchange.
pub open spec fn token_path() -> Seq<char> {
    "/open-apis/auth/v3/tenant_access_token/internal"@
}

/// The exchange of the given credentials for a tenant token.
pub fn access_token_request(client: &LarkClient, credentials: &Credentials) -> (r: HttpRequest)
    ensures
        r.method == Method::Post,
        r.url@ == client.base_url@ + token_path(),
        r.headers@.len() == 0,
        r.body matches Some(b) && b@ == JsonV::Obj(
            seq![
                ("app_id"@, JsonV::Str(credentials.client_id@)),
                ("app_secret"@, JsonV::Str(credentials.client_secret@)),
            ],
        ),
{
    let body = crate::json::obj2(
        "app_id",
        crate::json::Json::Str(credentials.client_id.clone()),
        "app_secret",
        crate::json::Json::Str(credentials.client_secret.clone()),
    );
    client.post_no_auth("/open-apis/auth/v3/tenant_access_token/internal", body)
}

/// Tenant tokens are not refreshed: a refresh fetches a new one with the client's
/// own id and secret.
pub fn refresh_token_request(client: &LarkClient) -> (r: HttpRequest)
    ensures
        r.method == Method::Post,
        r.url@ == client.base_url@ + token_path(),
        r.headers@.len() == 0,
        r.body matches Some(b) && b@ == JsonV::Obj(
            seq![("app_id"@, JsonV::Str(client.app_id@)), ("app_secret"@, JsonV::Str(client.app_secret@))],
        ),
{
    let creds = Credentials { client_id: client.app_id.clone(), client_secret: client.app_secret.clone() };
    access_token_request(client, &creds)
}

/// The token reply as Lark gives it.
pub struct TenantTokenResp {
    pub code: Option<i64>,
    pub msg: Option<String>,
    pub tenant_access_token: Option<String>,
    /// Seconds until expiry.
    pub expire: Option<i64>,
}

/// The reading of a token reply at the instant `now`: a reply that is not the
/// expected JSON is a serialization error; a nonzero code is an authentication error
/// with the message (or the text); a reply without a token is an authentication
/// error. On success the client keeps the token as the tenant's; on failure it is
/// unchanged.
pub fn token_outcome(
    client: &mut LarkClient,
    text: String,
    parsed: Result<TenantTokenResp, String>,
    now: i64,
) -> (r: Result<AccessToken, ImError>)
    requires
        parsed matches Ok(t) ==> (code_of(t.code) == 0 && t.tenant_access_token is Some ==> expiry_fits(
            now,
            t.expire,
        )),
    ensures
        parsed is Err ==> r == Err::<AccessToken, ImError>(ImError::Serialization(parsed->Err_0)),
        parsed matches Ok(t) ==> (code_of(t.code) != 0 ==> (r matches Err(ImError::Auth { message: m })
            && m@ == or_text(t.msg, text@))),
        parsed matches Ok(t) ==> (code_of(t.code) == 0 && t.tenant_access_token is None ==> (r matches Err(
            ImError::Auth { message: m },
        ) && m@ == "no tenant_access_token in response"@)),
        r is Ok <==> (parsed matches Ok(t) && code_of(t.code) == 0 && t.tenant_access_token is Some),
        r matches Ok(tok) ==> (parsed matches Ok(t) && Some(tok.token) == t.tenant_access_token
            && tok.refresh_token is None && tok.expires_at == expiry_at(now, t.expire)),
        r matches Ok(tok) ==> *final(client) == old(client).with_token_set(tok.token, false),
        r is Err ==> *final(client) == *old(client),
{
    let data = match parsed {
        Ok(d) => d,
        Err(e) => {
            return Err(ImError::Serialization(e));
        },
    };
    let code = match data.code {
        Some(c) => c,
        None => 0,
    };
    if code != 0 {
        return Err(ImError::Auth { message: crate::text::unwrap_or_text(data.msg, text.as_str()) });
    }
    let token = match data.tenant_access_token {
        Some(t) => t,
        None => {
            return Err(ImError::Auth { message: "no tenant_access_token in response".to_string() });
        },
    };
    client.set_token(token.clone(), false);
    let expires_at = crate::time::expiry(now, data.expire);
    Ok(AccessToken { token, expires_at, refresh_token: None })
}

/// Reads a token reply at the current instant. The reply's own errors come first,
/// as `token_outcome` gives them; where the reply holds a token but the expiry it
/// gives lies beyond what milliseconds in an `i64` hold, it is refused as an internal
/// error. On any error the client is unchanged.
pub fn token_reply(client: &mut LarkClient, text: String, parsed: Result<TenantTokenResp, String>) -> (r:
    Result<AccessToken, ImError>)
    ensures
        parsed is Err ==> r == Err::<AccessToken, ImError>(ImError::Serialization(parsed->Err_0)),
        parsed matches Ok(t) ==> (code_of(t.code) != 0 ==> (r matches Err(ImError::Auth { message: m })
            && m@ == or_text(t.msg, text@))),
        parsed matches Ok(t) ==> (code_of(t.code) == 0 && t.tenant_access_token is None ==> (r matches Err(
            ImError::Auth { message: m },
        ) && m@ == "no tenant_access_token in response"@)),
        r is Ok ==> (parsed matches Ok(t) && code_of(t.code) == 0 && t.tenant_access_token is Some),
        (parsed matches Ok(t) && code_of(t.code) == 0 && t.tenant_access_token is Some) ==> (r is Ok
            || (r matches Err(ImError::Internal(m)) && (m@ == "token expiry out of range"@
            || m@ == crate::time::clock_error_text()))),
        r matches Ok(tok) ==> (parsed matches Ok(t) && Some(tok.token) == t.tenant_access_token
            && tok.refresh_token is None && (tok.expires_at is Some <==> t.expire is Some)),
        r matches Ok(tok) ==> *final(client) == old(client).with_token_set(tok.token, false),
        r matches Ok(_) ==> final(client).token_type == TokenType::Tenant,
        r is Err ==> *final(client) == *old(client),
        (parsed matches Ok(t) && code_of(t.code) == 0 && t.tenant_access_token is Some
            && t.expire is None) ==> r is Ok,
{
    let holds_token = match &parsed {
        Ok(t) => (match t.code {
            Some(c) => c == 0,
            None => true,
        }) && t.tenant_access_token.is_some(),
        Err(_) => false,
    };
    let needs_clock = holds_token && match &parsed {
        Ok(t) => t.expire.is_some(),
        Err(_) => false,
    };
    let mut now: i64 = 0;
    if needs_clock {
        now = match crate::time::now_millis() {
            Some(t) => t,
            None => {
                return Err(crate::time::clock_error());
            },
        };
        let fits = match &parsed {
            Ok(t) => crate::time::expiry_checked(now, t.expire).is_some(),
            Err(_) => true,
        };
        if !fits {
            return Err(ImError::Internal("token expiry out of range".to_string()));
        }
    }
    token_outcome(client, text, parsed, now)
}

} // verus!
