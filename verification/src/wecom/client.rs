//! The WeCom client: the token travels in the query string.

use crate::http::{is_success, HttpRequest, Method};
use crate::json::{Json, JsonV};
use crate::model::{ImError, Platform, Service};
use crate::text::or_text;
use vstd::prelude::*;

verus! {

/// The message of the error for a request made before authentication.
pub open spec fn no_token_message() -> Seq<char> {
    "no access token set; call auth first"@
}

/// Connection settings and the current access token of a WeCom application.
pub struct WeComClient {
    pub base_url: String,
    pub access_token: Option<String>,
    pub corp_id: String,
    pub corp_secret: String,
}

/// The URL of `path` with the token appended as a query parameter: after `&` where
/// the path already has a query, else after `?`.
pub open spec fn token_url(base: Seq<char>, path: Seq<char>, token: Seq<char>) -> Seq<char> {
    base + path + (if path.contains('?') {
        "&access_token="@
    } else {
        "?access_token="@
    }) + token
}

/// Whether `r` is an authenticated request of `c` with this method, path and body.
pub open spec fn is_token_request(
    c: WeComClient,
    r: HttpRequest,
    method: Method,
    path: Seq<char>,
    body: Option<JsonV>,
) -> bool {
    &&& r.method == method
    &&& c.access_token matches Some(t) && r.url@ == token_url(c.base_url@, path, t@)
    &&& r.headers@.len() == 0
    &&& r.form is None
    &&& match body {
        Some(b) => r.body matches Some(x) && x@ == b,
        None => r.body is None,
    }
}

/// The result of an authenticated request: the request where the client holds a
/// token, else the authentication error.
pub open spec fn token_result(
    c: WeComClient,
    r: Result<HttpRequest, ImError>,
    method: Method,
    path: Seq<char>,
    body: Option<JsonV>,
) -> bool {
    &&& (r is Ok <==> c.access_token is Some)
    &&& (r matches Ok(q) ==> is_token_request(c, q, method, path, body))
    &&& (c.access_token is None ==> (r matches Err(ImError::Auth { message: m }) && m@
        == no_token_message()))
}

impl WeComClient {
    /// A client for `https://qyapi.weixin.qq.com`, not yet authenticated.
    pub fn new(corp_id: String, corp_secret: String) -> (c: Self)
        ensures
            c.base_url@ == "https://qyapi.weixin.qq.com"@,
            c.access_token is None,
            c.corp_id == corp_id,
            c.corp_secret == corp_secret,
    {
        WeComClient {
            base_url: "https://qyapi.weixin.qq.com".to_string(),
            access_token: None,
            corp_id,
            corp_secret,
        }
    }

    /// The same client, sending to `url` instead.
    pub fn with_base_url(self, url: String) -> (c: Self)
        ensures
            c == (WeComClient { base_url: url, ..self }),
    {
        WeComClient { base_url: url, ..self }
    }

    /// The client after `set_token(token)`.
    pub open spec fn with_token_set(self, token: String) -> Self {
        WeComClient { access_token: Some(token), ..self }
    }

    /// Uses `token` from now on.
    pub fn set_token(&mut self, token: String)
        ensures
            *final(self) == old(self).with_token_set(token),
    {
        self.access_token = Some(token);
    }

    /// The current token, or an authentication error where there is none.
    pub fn token_or_err(&self) -> (r: Result<String, ImError>)
        ensures
            r is Ok <==> self.access_token is Some,
            r matches Ok(t) ==> self.access_token == Some(t),
            self.access_token is None ==> (r matches Err(ImError::Auth { message: m }) && m@
                == no_token_message()),
    {
        match &self.access_token {
            Some(t) => Ok(t.clone()),
            None => Err(ImError::Auth { message: "no access token set; call auth first".to_string() }),
        }
    }

    /// The URL of `path` carrying `token`.
    pub fn url_with_token(&self, path: &str, token: &str) -> (r: String)
        ensures
            r@ == token_url(self.base_url@, path@, token@),
    {
        let mut u = crate::text::concat2(self.base_url.as_str(), path);
        if crate::text::has_char(path, '?') {
            crate::text::push_str(&mut u, "&access_token=");
        } else {
            crate::text::push_str(&mut u, "?access_token=");
        }
        crate::text::push_str(&mut u, token);
        u
    }

    /// An authenticated request.
    pub fn request(&self, method: Method, path: &str, body: Option<Json>) -> (r: Result<
        HttpRequest,
        ImError,
    >)
        ensures
            token_result(
                *self,
                r,
                method,
                path@,
                match body {
                    Some(b) => Some(b@),
                    None => None,
                },
            ),
    {
        let token = self.token_or_err()?;
        let url = self.url_with_token(path, token.as_str());
        Ok(HttpRequest { method, url, headers: Vec::new(), body, form: None })
    }

    pub fn get(&self, path: &str) -> (r: Result<HttpRequest, ImError>)
        ensures
            token_result(*self, r, Method::Get, path@, None),
    {
        self.request(Method::Get, path, None)
    }

    pub fn post(&self, path: &str, body: Json) -> (r: Result<HttpRequest, ImError>)
        ensures
            token_result(*self, r, Method::Post, path@, Some(body@)),
    {
        self.request(Method::Post, path, Some(body))
    }

    /// An unauthenticated POST to a full URL (a robot's webhook).
    pub fn post_no_auth(&self, url: &str, body: Json) -> (r: HttpRequest)
        ensures
            r.method == Method::Post,
            r.url@ == url@,
            r.headers@.len() == 0,
            r.body matches Some(b) && b@ == body@,
            r.form is None,
    {
        HttpRequest { method: Method::Post, url: url.to_string(), headers: Vec::new(), body: Some(body), form: None }
    }
}

/// The error code and message of a WeCom reply.
pub struct WeComEnvelope {
    pub errcode: Option<i64>,
    pub errmsg: Option<String>,
}

/// The reading of a reply: a failed status is a platform error with the status and
/// the text; a reply that is not the expected JSON is a serialization error; a
/// nonzero `errcode` is a platform error with that code and `errmsg` (or the text).
pub open spec fn reply_ok(status: u16, text: Seq<char>, parsed: Result<WeComEnvelope, String>, r: Result<(), ImError>) -> bool {
    &&& !is_success(status) ==> (r matches Err(ImError::Platform { code: c, message: m }) && c
        == status as i64 && m@ == text)
    &&& is_success(status) && parsed is Err ==> (r matches Err(ImError::Serialization(e)) && e
        == parsed->Err_0)
    &&& (r is Ok <==> is_success(status) && (parsed matches Ok(env) && crate::http::code_of(
        env.errcode,
    ) == 0))
    &&& is_success(status) ==> (parsed matches Ok(env) ==> (crate::http::code_of(env.errcode) != 0
        ==> (r matches Err(ImError::Platform { code: c, message: m }) && c == crate::http::code_of(
        env.errcode,
    ) && m@ == or_text(env.errmsg, text))))
}

pub fn check_reply(status: u16, text: &String, parsed: Result<WeComEnvelope, String>) -> (r: Result<
    (),
    ImError,
>)
    ensures
        reply_ok(status, text@, parsed, r),
{
    crate::http::check_status(status, text.clone())?;
    match parsed {
        Ok(env) => crate::http::check_code(env.errcode, env.errmsg, text.clone()),
        Err(e) => Err(ImError::Serialization(e)),
    }
}

/// The envelope part of a parsed reply that also carries data.
pub open spec fn env_part<T>(p: Result<(WeComEnvelope, T), String>) -> Result<WeComEnvelope, String> {
    match p {
        Ok(x) => Ok(x.0),
        Err(e) => Err(e),
    }
}

/// Whether a reading succeeded, and its error where it did not.
pub open spec fn unit_part<T>(r: Result<T, ImError>) -> Result<(), ImError> {
    match r {
        Ok(_) => Ok(()),
        Err(e) => Err(e),
    }
}

/// The reading of a reply that carries data besides its envelope: the data where
/// the reply is a success, as `check_reply` reads it.
pub fn check_reply_with<T>(status: u16, text: &String, parsed: Result<(WeComEnvelope, T), String>) -> (r:
    Result<T, ImError>)
    ensures
        reply_ok(status, text@, env_part(parsed), unit_part(r)),
        r matches Ok(x) ==> (parsed matches Ok(p) && x == p.1),
{
    let (env, data) = match parsed {
        Ok(p) => (Ok(p.0), Some(p.1)),
        Err(e) => (Err(e), None),
    };
    check_reply(status, text, env)?;
    match data {
        Some(d) => Ok(d),
        None => Err(ImError::Internal(String::new())),
    }
}

/// Whether a WeCom provider offers `service`: every one but message extensions.
pub fn offers_service(service: Service) -> (r: bool)
    ensures
        r == (service != Service::MessageExt),
{
    match service {
        Service::MessageExt => false,
        _ => true,
    }
}

/// The WeCom provider: one client behind every service.
pub struct WeComProvider {
    pub client: WeComClient,
}

impl WeComProvider {
    pub fn new(corp_id: String, corp_secret: String) -> (p: Self)
        ensures
            p.client.base_url@ == "https://qyapi.weixin.qq.com"@,
            p.client.access_token is None,
            p.client.corp_id == corp_id,
            p.client.corp_secret == corp_secret,
    {
        WeComProvider { client: WeComClient::new(corp_id, corp_secret) }
    }

    pub fn client(&self) -> (c: &WeComClient)
        ensures
            c == &self.client,
    {
        &self.client
    }

    /// Whether the provider offers `service`: every one but message extensions.
    pub fn offers(&self, service: Service) -> (r: bool)
        ensures
            r == (service != Service::MessageExt),
    {
        offers_service(service)
    }

    pub fn platform(&self) -> (p: Platform)
        ensures
            p == Platform::WeCom,
    {
        Platform::WeCom
    }
}

/// A token that was stored is the token that authenticated requests carry.
pub proof fn law_token_read_after_write(c: WeComClient, token: String)
    ensures
        c.with_token_set(token).access_token == Some(token),
        c.with_token_set(token).base_url == c.base_url,
{
}

} // verus!
