//! WeCom access tokens: fetched with the corporation's id and secret.

use crate::http::{code_of, HttpRequest, Method};
use crate::model::{AccessToken, Credentials, ImError};
use crate::text::or_text;
use crate::time::{expiry_at, expiry_fits};
use crate::wecom::client::WeComClient;
use vstd::prelude::*;

verus! {

/// The URL that fetches a token: the credentials go in the query, as given.
pub open spec fn token_url_v(base: Seq<char>, id: Seq<char>, secret: Seq<char>) -> Seq<char> {
    base + "/cgi-bin/gettoken?corpid="@ + id + "&corpsecret="@ + secret
}

/// The GET that fetches a token for `credentials`.
pub fn access_token_request(client: &WeComClient, credentials: &Credentials) -> (r: HttpRequest)
    ensures
        r.method == Method::Get,
        r.url@ == token_url_v(client.base_url@, credentials.client_id@, credentials.client_secret@),
        r.headers@.len() == 0,
        r.body is None,
{
    let mut u = crate::text::lit(client.base_url.as_str());
    crate::text::push_str(&mut u, "/cgi-bin/gettoken?corpid=");
    crate::text::push_str(&mut u, credentials.client_id.as_str());
    crate::text::push_str(&mut u, "&corpsecret=");
    crate::text::push_str(&mut u, credentials.client_secret.as_str());
    HttpRequest { method: Method::Get, url: u, headers: Vec::new(), body: None, form: None }
}

/// WeCom has no refresh tokens: a refresh fetches a new token with the client's own
/// corporation id and secret.
pub fn refresh_token_request(client: &WeComClient) -> (r: HttpRequest)
    ensures
        r.method == Method::Get,
        r.url@ == token_url_v(client.base_url@, client.corp_id@, client.corp_secret@),
        r.headers@.len() == 0,
        r.body is None,
{
    let creds = Credentials { client_id: client.corp_id.clone(), client_secret: client.corp_secret.clone() };
    access_token_request(client, &creds)
}

/// The token reply as WeCom gives it.
pub struct WcTokenResponse {
    pub errcode: Option<i64>,
    pub errmsg: Option<String>,
    pub access_token: Option<String>,
    /// Seconds until expiry.
    pub expires_in: Option<i64>,
}

/// The reading of a token reply at the instant `now`: a reply that is not the
/// expected JSON is a serialization error; a nonzero code is an authentication error
/// with the message (or the text); a reply without a token is an authentication
/// error. On success the client keeps the token; on failure it is unchanged.
pub fn token_outcome(
    client: &mut WeComClient,
    text: String,
    parsed: Result<WcTokenResponse, String>,
    now: i64,
) -> (r: Result<AccessToken, ImError>)
    requires
        parsed matches Ok(t) ==> (code_of(t.errcode) == 0 && t.access_token is Some ==> expiry_fits(
            now,
            t.expires_in,
        )),
    ensures
        parsed is Err ==> r == Err::<AccessToken, ImError>(ImError::Serialization(parsed->Err_0)),
        parsed matches Ok(t) ==> (code_of(t.errcode) != 0 ==> (r matches Err(
            ImError::Auth { message: m },
        ) && m@ == or_text(t.errmsg, text@))),
        parsed matches Ok(t) ==> (code_of(t.errcode) == 0 && t.access_token is None ==> (r matches Err(
            ImError::Auth { message: m },
        ) && m@ == "no access_token in response"@)),
        r is Ok <==> (parsed matches Ok(t) && code_of(t.errcode) == 0 && t.access_token is Some),
        r matches Ok(tok) ==> (parsed matches Ok(t) && Some(tok.token) == t.access_token
            && tok.refresh_token is None && tok.expires_at == expiry_at(now, t.expires_in)),
        r matches Ok(tok) ==> *final(client) == old(client).with_token_set(tok.token),
        r is Err ==> *final(client) == *old(client),
{
    let data = match parsed {
        Ok(d) => d,
        Err(e) => {
            return Err(ImError::Serialization(e));
        },
    };
    let code = match data.errcode {
        Some(c) => c,
        None => 0,
    };
    if code != 0 {
        return Err(ImError::Auth { message: crate::text::unwrap_or_text(data.errmsg, text.as_str()) });
    }
    let token = match data.access_token {
        Some(t) => t,
        None => {
            return Err(ImError::Auth { message: "no access_token in response".to_string() });
        },
    };
    client.set_token(token.clone());
    let expires_at = crate::time::expiry(now, data.expires_in);
    Ok(AccessToken { token, expires_at, refresh_token: None })
}

/// Reads a token reply at the current instant. The reply's own errors come first,
/// as `token_outcome` gives them; where the reply holds a token but the expiry it
/// gives lies beyond what milliseconds in an `i64` hold, it is refused as an internal
/// error. On any error the client is unchanged.
pub fn token_reply(client: &mut WeComClient, text: String, parsed: Result<WcTokenResponse, String>) -> (r:
    Result<AccessToken, ImError>)
    ensures
        parsed is Err ==> r == Err::<AccessToken, ImError>(ImError::Serialization(parsed->Err_0)),
        parsed matches Ok(t) ==> (code_of(t.errcode) != 0 ==> (r matches Err(
            ImError::Auth { message: m },
        ) && m@ == or_text(t.errmsg, text@))),
        parsed matches Ok(t) ==> (code_of(t.errcode) == 0 && t.access_token is None ==> (r matches Err(
            ImError::Auth { message: m },
        ) && m@ == "no access_token in response"@)),
        r is Ok ==> (parsed matches Ok(t) && code_of(t.errcode) == 0 && t.access_token is Some),
        parsed matches Ok(t) ==> (code_of(t.errcode) == 0 && t.access_token is Some ==> (r is Ok || (r matches Err(
            ImError::Internal(m),
        ) && (m@ == "token expiry out of range"@ || m@ == crate::time::clock_error_text())))),
        r matches Ok(tok) ==> (parsed matches Ok(t) && Some(tok.token) == t.access_token
            && tok.refresh_token is None && (tok.expires_at is Some <==> t.expires_in is Some)),
        r matches Ok(tok) ==> *final(client) == old(client).with_token_set(tok.token),
        r is Err ==> *final(client) == *old(client),
        (parsed matches Ok(t) && code_of(t.errcode) == 0 && t.access_token is Some
            && t.expires_in is None) ==> r is Ok,
{
    let holds_token = match &parsed {
        Ok(t) => (match t.errcode {
            Some(c) => c == 0,
            None => true,
        }) && t.access_token.is_some(),
        Err(_) => false,
    };
    let needs_clock = holds_token && match &parsed {
        Ok(t) => t.expires_in.is_some(),
        Err(_) => false,
    };
    let mut now: i64 = 0;
    if needs_clock {
        now = match crate::time::now_millis() {
            Some(t) => t,
            None => {
                return Err(crate::time::clock_error());
            },
        };
        let fits = match &parsed {
            Ok(t) => crate::time::expiry_checked(now, t.expires_in).is_some(),
            Err(_) => true,
        };
        if !fits {
            return Err(ImError::Internal("token expiry out of range".to_string()));
        }
    }
    token_outcome(client, text, parsed, now)
}

} // verus!
