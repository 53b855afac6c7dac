//! The Lark / Feishu client: the region's endpoint and the bearer token.

use crate::http::{HttpRequest, Method};
use crate::json::{Json, JsonV};
use crate::model::{ImError, Platform, Service};
use crate::model::core_services;
use vstd::prelude::*;

verus! {

/// Whether to use Feishu (China) or Lark (International) endpoints.
#[derive(Clone, Copy, PartialEq, Eq, Structural, Debug)]
pub enum LarkRegion {
    /// `open.feishu.cn`: China mainland.
    Feishu,
    /// `open.larksuite.com`: international.
    Lark,
}

/// The endpoint of a region.
pub open spec fn region_base(region: LarkRegion) -> Seq<char> {
    match region {
        LarkRegion::Feishu => "https://open.feishu.cn"@,
        LarkRegion::Lark => "https://open.larksuite.com"@,
    }
}

/// Whose token the client holds: the application's (tenant) or a user's.
#[derive(Clone, Copy, PartialEq, Eq, Structural)]
pub enum TokenType {
    Tenant,
    User,
}

/// The message of the error for a request made before authentication.
pub open spec fn no_token_message() -> Seq<char> {
    "no access token set; call auth first"@
}

/// The `Authorization` header value for `token`.
pub open spec fn bearer(token: Seq<char>) -> Seq<char> {
    "Bearer "@ + token
}

/// Connection settings and the current token of a Lark application.
pub struct LarkClient {
    pub base_url: String,
    pub access_token: Option<String>,
    pub token_type: TokenType,
    pub app_id: String,
    pub app_secret: String,
}

/// Whether `r` is an authenticated request of `c` with this method, path and body.
pub open spec fn is_authed_request(
    c: LarkClient,
    r: HttpRequest,
    method: Method,
    path: Seq<char>,
    body: Option<JsonV>,
) -> bool {
    &&& r.method == method
    &&& r.url@ == c.base_url@ + path
    &&& r.headers@.len() == 1
    &&& r.headers@[0].0@ == "Authorization"@
    &&& c.access_token matches Some(t) && r.headers@[0].1@ == bearer(t@)
    &&& r.form is None
    &&& match body {
        Some(b) => r.body matches Some(x) && x@ == b,
        None => r.body is None,
    }
}

/// The result of an authenticated request: the request where the client holds a
/// token, else the authentication error.
pub open spec fn authed_result(
    c: LarkClient,
    r: Result<HttpRequest, ImError>,
    method: Method,
    path: Seq<char>,
    body: Option<JsonV>,
) -> bool {
    &&& (r is Ok <==> c.access_token is Some)
    &&& (r matches Ok(q) ==> is_authed_request(c, q, method, path, body))
    &&& (c.access_token is None ==> (r matches Err(ImError::Auth { message: m }) && m@
        == no_token_message()))
}

impl LarkClient {
    /// A client for `region`, holding no token yet (a tenant token is expected).
    pub fn new(app_id: String, app_secret: String, region: LarkRegion) -> (c: Self)
        ensures
            c.base_url@ == region_base(region),
            c.access_token is None,
            c.token_type == TokenType::Tenant,
            c.app_id == app_id,
            c.app_secret == app_secret,
    {
        let base = match region {
            LarkRegion::Feishu => "https://open.feishu.cn",
            LarkRegion::Lark => "https://open.larksuite.com",
        };
        LarkClient {
            base_url: base.to_string(),
            access_token: None,
            token_type: TokenType::Tenant,
            app_id,
            app_secret,
        }
    }

    /// The same client, sending to `url` instead.
    pub fn with_base_url(self, url: String) -> (c: Self)
        ensures
            c == (LarkClient { base_url: url, ..self }),
    {
        LarkClient { base_url: url, ..self }
    }

    /// The client after `set_token(token, is_user)`.
    pub open spec fn with_token_set(self, token: String, is_user: bool) -> Self {
        LarkClient {
            access_token: Some(token),
            token_type: if is_user {
                TokenType::User
            } else {
                TokenType::Tenant
            },
            ..self
        }
    }

    /// Uses `token` from now on, as a user's token or the tenant's.
    pub fn set_token(&mut self, token: String, is_user: bool)
        ensures
            *final(self) == old(self).with_token_set(token, is_user),
    {
        self.access_token = Some(token);
        self.token_type = if is_user {
            TokenType::User
        } else {
            TokenType::Tenant
        };
    }

    /// The current token, or an authentication error where there is none.
    pub fn token_or_err(&self) -> (r: Result<String, ImError>)
        ensures
            r is Ok <==> self.access_token is Some,
            r matches Ok(t) ==> self.access_token == Some(t),
            self.access_token is None ==> (r matches Err(ImError::Auth { message: m }) && m@
                == no_token_message()),
    {
        match &self.access_token {
            Some(t) => Ok(t.clone()),
            None => Err(ImError::Auth { message: "no access token set; call auth first".to_string() }),
        }
    }

    /// The full URL of `path`.
    pub fn url(&self, path: &str) -> (r: String)
        ensures
            r@ == self.base_url@ + path@,
    {
        crate::text::concat2(self.base_url.as_str(), path)
    }

    /// An authenticated request.
    pub fn request(&self, method: Method, path: &str, body: Option<Json>) -> (r: Result<
        HttpRequest,
        ImError,
    >)
        ensures
            authed_result(
                *self,
                r,
                method,
                path@,
                match body {
                    Some(b) => Some(b@),
                    None => None,
                },
            ),
    {
        let token = self.token_or_err()?;
        let mut value = crate::text::lit("Bearer ");
        crate::text::push_str(&mut value, token.as_str());
        let mut headers: Vec<(String, String)> = Vec::new();
        headers.push(("Authorization".to_string(), value));
        Ok(HttpRequest { method, url: self.url(path), headers, body, form: None })
    }

    pub fn get(&self, path: &str) -> (r: Result<HttpRequest, ImError>)
        ensures
            authed_result(*self, r, Method::Get, path@, None),
    {
        self.request(Method::Get, path, None)
    }

    pub fn post(&self, path: &str, body: Json) -> (r: Result<HttpRequest, ImError>)
        ensures
            authed_result(*self, r, Method::Post, path@, Some(body@)),
    {
        self.request(Method::Post, path, Some(body))
    }

    pub fn put(&self, path: &str, body: Json) -> (r: Result<HttpRequest, ImError>)
        ensures
            authed_result(*self, r, Method::Put, path@, Some(body@)),
    {
        self.request(Method::Put, path, Some(body))
    }

    pub fn patch(&self, path: &str, body: Json) -> (r: Result<HttpRequest, ImError>)
        ensures
            authed_result(*self, r, Method::Patch, path@, Some(body@)),
    {
        self.request(Method::Patch, path, Some(body))
    }

    pub fn delete(&self, path: &str) -> (r: Result<HttpRequest, ImError>)
        ensures
            authed_result(*self, r, Method::Delete, path@, None),
    {
        self.request(Method::Delete, path, None)
    }

    /// An unauthenticated POST, for the token exchange.
    pub fn post_no_auth(&self, path: &str, body: Json) -> (r: HttpRequest)
        ensures
            r.method == Method::Post,
            r.url@ == self.base_url@ + path@,
            r.headers@.len() == 0,
            r.body matches Some(b) && b@ == body@,
            r.form is None,
    {
        HttpRequest { method: Method::Post, url: self.url(path), headers: Vec::new(), body: Some(body), form: None }
    }
}

/// Whether a Lark provider offers `service`: messaging, contacts, groups,
/// calendars and tasks.
pub fn offers_service(service: Service) -> (r: bool)
    ensures
        r == core_services(service),
{
    crate::model::offers_core(service)
}

/// The Lark / Feishu provider: one client behind every service.
pub struct LarkProvider {
    pub client: LarkClient,
}

impl LarkProvider {
    pub fn new(app_id: String, app_secret: String, region: LarkRegion) -> (p: Self)
        ensures
            p.client.base_url@ == region_base(region),
            p.client.access_token is None,
            p.client.app_id == app_id,
            p.client.app_secret == app_secret,
    {
        LarkProvider { client: LarkClient::new(app_id, app_secret, region) }
    }

    /// A provider on Feishu (China) endpoints.
    pub fn feishu(app_id: String, app_secret: String) -> (p: Self)
        ensures
            p.client.base_url@ == "https://open.feishu.cn"@,
            p.client.access_token is None,
            p.client.app_id == app_id,
            p.client.app_secret == app_secret,
    {
        Self::new(app_id, app_secret, LarkRegion::Feishu)
    }

    /// A provider on Lark (international) endpoints.
    pub fn lark(app_id: String, app_secret: String) -> (p: Self)
        ensures
            p.client.base_url@ == "https://open.larksuite.com"@,
            p.client.access_token is None,
            p.client.app_id == app_id,
            p.client.app_secret == app_secret,
    {
        Self::new(app_id, app_secret, LarkRegion::Lark)
    }

    pub fn client(&self) -> (c: &LarkClient)
        ensures
            c == &self.client,
    {
        &self.client
    }

    /// Whether the provider offers `service`: messaging, contacts, groups, calendars
    /// and tasks.
    pub fn offers(&self, service: Service) -> (r: bool)
        ensures
            r == core_services(service),
    {
        offers_service(service)
    }

    pub fn platform(&self) -> (p: Platform)
        ensures
            p == Platform::Lark,
    {
        Platform::Lark
    }
}

/// A token that was stored is the token that authenticated requests carry, and its
/// kind is the one given.
pub proof fn law_token_read_after_write(c: LarkClient, token: String, is_user: bool)
    ensures
        c.with_token_set(token, is_user).access_token == Some(token),
        c.with_token_set(token, is_user).token_type == (if is_user {
            TokenType::User
        } else {
            TokenType::Tenant
        }),
        c.with_token_set(token, is_user).base_url == c.base_url,
{
}

} // verus!
