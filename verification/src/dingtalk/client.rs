//! The DingTalk client: where requests go and with which credentials.

use crate::http::{HttpRequest, Method};
use crate::json::Json;
use crate::model::{ImError, Platform, Service};
use crate::model::core_services;
use vstd::prelude::*;

verus! {

/// The header that carries the access token.
pub open spec fn token_header() -> Seq<char> {
    "x-acs-dingtalk-access-token"@
}

/// The message of the error for a request made before authentication.
pub open spec fn no_token_message() -> Seq<char> {
    "no access token set; call auth first"@
}

/// Connection settings and the current access token of a DingTalk application.
pub struct DingTalkClient {
    pub base_url: String,
    pub access_token: Option<String>,
    pub client_id: String,
    pub client_secret: String,
}

impl DingTalkClient {
    /// A client for `https://api.dingtalk.com`, not yet authenticated.
    pub fn new(client_id: String, client_secret: String) -> (c: Self)
        ensures
            c.base_url@ == "https://api.dingtalk.com"@,
            c.access_token is None,
            c.client_id == client_id,
            c.client_secret == client_secret,
    {
        DingTalkClient {
            base_url: "https://api.dingtalk.com".to_string(),
            access_token: None,
            client_id,
            client_secret,
        }
    }

    /// The same client, sending to `url` instead.
    pub fn with_base_url(self, url: String) -> (c: Self)
        ensures
            c.base_url == url,
            c.access_token == self.access_token,
            c.client_id == self.client_id,
            c.client_secret == self.client_secret,
    {
        DingTalkClient { base_url: url, ..self }
    }

    /// The client after `set_token(token)`.
    pub open spec fn with_token_set(self, token: String) -> Self {
        DingTalkClient { access_token: Some(token), ..self }
    }

    /// Uses `token` from now on.
    pub fn set_token(&mut self, token: String)
        ensures
            *final(self) == old(self).with_token_set(token),
    {
        self.access_token = Some(token);
    }

    /// The current token, or an authentication error where there is none.
    pub fn token_or_err(&self) -> (r: Result<String, ImError>)
        ensures
            r is Ok <==> self.access_token is Some,
            r matches Ok(t) ==> self.access_token == Some(t),
            self.access_token is None ==> (r matches Err(ImError::Auth { message: m }) && m@
                == no_token_message()),
    {
        match &self.access_token {
            Some(t) => Ok(t.clone()),
            None => Err(ImError::Auth { message: "no access token set; call auth first".to_string() }),
        }
    }

    /// The full URL of `path`.
    pub fn url(&self, path: &str) -> (r: String)
        ensures
            r@ == self.base_url@ + path@,
    {
        crate::text::concat2(self.base_url.as_str(), path)
    }

    fn with_token(&self, method: Method, path: &str, body: Option<Json>, token: String) -> (r:
        HttpRequest)
        ensures
            r.method == method,
            r.url@ == self.base_url@ + path@,
            r.headers@.len() == 1,
            r.headers@[0].0@ == token_header(),
            r.headers@[0].1 == token,
            r.body == body,
            r.form is None,
    {
        let mut headers: Vec<(String, String)> = Vec::new();
        headers.push(("x-acs-dingtalk-access-token".to_string(), token));
        HttpRequest { method, url: self.url(path), headers, body, form: None }
    }

    /// An authenticated GET of `path`.
    pub fn get(&self, path: &str) -> (r: Result<HttpRequest, ImError>)
        ensures
            r is Ok <==> self.access_token is Some,
            r matches Ok(q) ==> q.method == Method::Get && q.url@ == self.base_url@ + path@
                && q.headers@.len() == 1 && q.headers@[0].0@ == token_header() && Some(
                q.headers@[0].1,
            ) == self.access_token && q.body is None && q.form is None,
            self.access_token is None ==> (r matches Err(ImError::Auth { message: m }) && m@
                == no_token_message()),
    {
        let token = self.token_or_err()?;
        Ok(self.with_token(Method::Get, path, None, token))
    }

    /// An authenticated POST of `body` to `path`.
    pub fn post(&self, path: &str, body: Json) -> (r: Result<HttpRequest, ImError>)
        ensures
            r is Ok <==> self.access_token is Some,
            r matches Ok(q) ==> q.method == Method::Post && q.url@ == self.base_url@ + path@
                && q.headers@.len() == 1 && q.headers@[0].0@ == token_header() && Some(
                q.headers@[0].1,
            ) == self.access_token && q.body == Some(body) && q.form is None,
            self.access_token is None ==> (r matches Err(ImError::Auth { message: m }) && m@
                == no_token_message()),
    {
        let token = self.token_or_err()?;
        Ok(self.with_token(Method::Post, path, Some(body), token))
    }

    /// An authenticated DELETE of `path`; without a token it fails with "no access token".
    pub fn delete(&self, path: &str) -> (r: Result<HttpRequest, ImError>)
        ensures
            r is Ok <==> self.access_token is Some,
            r matches Ok(q) ==> q.method == Method::Delete && q.url@ == self.base_url@ + path@
                && q.headers@.len() == 1 && q.headers@[0].0@ == token_header() && Some(
                q.headers@[0].1,
            ) == self.access_token && q.body is None && q.form is None,
            self.access_token is None ==> (r matches Err(ImError::Auth { message: m }) && m@
                == "no access token"@),
    {
        match &self.access_token {
            Some(t) => Ok(self.with_token(Method::Delete, path, None, t.clone())),
            None => Err(ImError::Auth { message: "no access token".to_string() }),
        }
    }

    /// An unauthenticated POST of `body` to `path`, for the token exchange.
    pub fn post_no_auth(&self, path: &str, body: Json) -> (r: HttpRequest)
        ensures
            r.method == Method::Post,
            r.url@ == self.base_url@ + path@,
            r.headers@.len() == 0,
            r.body == Some(body),
            r.form is None,
    {
        HttpRequest { method: Method::Post, url: self.url(path), headers: Vec::new(), body: Some(body), form: None }
    }
}

/// Whether a DingTalk provider offers `service`: messaging, contacts, groups,
/// calendars and tasks.
pub fn offers_service(service: Service) -> (r: bool)
    ensures
        r == core_services(service),
{
    crate::model::offers_core(service)
}

/// The DingTalk provider: one client behind every service.
pub struct DingTalkProvider {
    pub client: DingTalkClient,
}

impl DingTalkProvider {
    pub fn new(client_id: String, client_secret: String) -> (p: Self)
        ensures
            p.client.base_url@ == "https://api.dingtalk.com"@,
            p.client.access_token is None,
            p.client.client_id == client_id,
            p.client.client_secret == client_secret,
    {
        DingTalkProvider { client: DingTalkClient::new(client_id, client_secret) }
    }

    /// The underlying client.
    pub fn client(&self) -> (c: &DingTalkClient)
        ensures
            c == &self.client,
    {
        &self.client
    }

    /// Whether the provider offers `service`: messaging, contacts, groups, calendars
    /// and tasks.
    pub fn offers(&self, service: Service) -> (r: bool)
        ensures
            r == core_services(service),
    {
        offers_service(service)
    }

    pub fn platform(&self) -> (p: Platform)
        ensures
            p == Platform::DingTalk,
    {
        Platform::DingTalk
    }
}

/// A token that was stored is the token that authenticated requests read back.
pub proof fn law_token_read_after_write(c: DingTalkClient, token: String)
    ensures
        c.with_token_set(token).access_token == Some(token),
        c.with_token_set(token).base_url == c.base_url,
{
}

} // verus!
