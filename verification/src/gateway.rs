//! The client of the helper's gateway: what it sends over the loopback
//! interface, and what the answers mean.

use crate::api::{param, param_views, HttpMethod, Param};
use crate::json::Json;
use crate::retry::CallError;
use crate::text::{join2, decimal_string, decimal_text, opt_text};
use vstd::prelude::*;

verus! {

/// The longest time a request to the gateway may take, in seconds.
pub const GATEWAY_TIMEOUT_SECS: u64 = 15;

/// The longest time connecting to the gateway may take, in seconds.
pub const GATEWAY_CONNECT_TIMEOUT_SECS: u64 = 5;

/// What `http::StatusCode` prints for the status `code`: the number and
/// its canonical reason. `None` where `code` is no status.
pub uninterp spec fn status_line(code: u16) -> Option<Seq<char>>;

/// Prints the status `code` with the `Display` of `reqwest::StatusCode`.
/// The result depends on the code alone; the contract names it.
#[verifier::external_body]
fn print_status(code: u16) -> (r: Option<String>)
    ensures
        opt_text(r) == status_line(code),
{
    match reqwest::StatusCode::from_u16(code) {
        Ok(status) => Some(status.to_string()),
        Err(_) => None,
    }
}

/// The status reports success: it lies from 200 up to 299.
pub open spec fn is_success(status: u16) -> bool {
    200 <= status < 300
}

/// How the status `code` reads in a message: as `http::StatusCode` prints
/// it, and as the bare number where it is no status.
pub open spec fn status_text(code: u16) -> Seq<char> {
    match status_line(code) {
        Some(line) => line,
        None => decimal_text(code as nat),
    }
}

/// How the status `code` reads in a message.
pub fn describe_status(code: u16) -> (r: String)
    ensures
        r@ == status_text(code),
{
    match print_status(code) {
        Some(line) => line,
        None => decimal_string(code as u64),
    }
}

/// The token that a successful pairing hands out.
#[derive(Debug)]
pub struct PairResponse {
    pub token: String,
}

/// One request to the gateway.
#[derive(Debug)]
pub struct GatewayRequest {
    pub method: HttpMethod,
    pub url: String,
    /// The headers, in order.
    pub headers: Vec<Param>,
    /// The JSON text sent as body, if any.
    pub body: Option<String>,
}

pub struct GatewayRequestView {
    pub method: HttpMethod,
    pub url: Seq<char>,
    pub headers: Seq<(Seq<char>, Seq<char>)>,
    pub body: Option<Seq<char>>,
}

impl View for GatewayRequest {
    type V = GatewayRequestView;

    open spec fn view(&self) -> GatewayRequestView {
        GatewayRequestView {
            method: self.method,
            url: self.url@,
            headers: param_views(self.headers@),
            body: opt_text(self.body),
        }
    }
}

/// The client of the gateway on a port of the local machine, with the
/// bearer token once it is paired.
#[derive(Debug)]
pub struct GatewayClient {
    pub base_url: String,
    pub bearer: Option<String>,
}

/// The address of the gateway on `port`.
pub open spec fn gateway_url(port: u16) -> Seq<char> {
    "http://localhost:"@ + decimal_text(port as nat)
}

/// The header that presents the bearer token `token`.
pub open spec fn bearer_header(token: Seq<char>) -> (Seq<char>, Seq<char>) {
    ("Authorization"@, "Bearer "@ + token)
}

/// What the answer to a pairing request means: the bearer token, or the
/// message of the failure. The answer must report success and carry an
/// object with a string `token`.
pub open spec fn pairing_outcome(status: u16, body: Option<Json>) -> Result<Seq<char>, Seq<char>> {
    if !is_success(status) {
        Err("Pairing failed: "@ + status_text(status))
    } else {
        match body {
            Some(doc) => match doc.text_field("token"@) {
                Some(token) => if doc is Object {
                    Ok(token)
                } else {
                    Err("error decoding response body"@)
                },
                None => Err("error decoding response body"@),
            },
            None => Err("error decoding response body"@),
        }
    }
}

impl GatewayClient {
    /// The unpaired client of the gateway on `port`.
    pub fn new(port: u16) -> (r: GatewayClient)
        ensures
            r.base_url@ == gateway_url(port),
            r.bearer is None,
    {
        let digits = decimal_string(port as u64);
        GatewayClient { base_url: join2("http://localhost:", digits.as_str()), bearer: None }
    }

    /// The same client with the bearer token `token`.
    pub fn with_bearer(self, token: String) -> (r: GatewayClient)
        ensures
            r.base_url == self.base_url,
            r.bearer == Some(token),
    {
        GatewayClient { base_url: self.base_url, bearer: Some(token) }
    }

    /// A copy of the client.
    pub fn duplicate(&self) -> (r: GatewayClient)
        ensures
            r == *self,
    {
        GatewayClient {
            base_url: self.base_url.clone(),
            bearer: match &self.bearer {
                Some(token) => Some(token.clone()),
                None => None,
            },
        }
    }

    /// Whether the client holds a bearer token.
    pub fn is_paired(&self) -> (r: bool)
        ensures
            r == self.bearer is Some,
    {
        self.bearer.is_some()
    }

    /// The request that exchanges the pairing code `code` for a bearer
    /// token.
    pub fn pair_request(&self, code: &str) -> (r: GatewayRequest)
        ensures
            r.method == HttpMethod::Post,
            r.url@ == self.base_url@ + "/pair"@,
            param_views(r.headers@) == seq![("X-Pairing-Code"@, code@)],
            r.body is None,
    {
        let mut headers: Vec<Param> = Vec::new();
        let header = param("X-Pairing-Code", code);
        headers.push(header);
        assert(param_views(headers@) =~= seq![("X-Pairing-Code"@, code@)]);
        GatewayRequest {
            method: HttpMethod::Post,
            url: join2(self.base_url.as_str(), "/pair"),
            headers,
            body: None,
        }
    }

    /// Reads the answer to a pairing request. On success the client keeps
    /// the token and hands it out; on failure the client is unchanged.
    pub fn pair(&mut self, status: u16, body: Option<&Json>) -> (r: Result<String, CallError>)
        ensures
            final(self).base_url == old(self).base_url,
            match r {
                Ok(token) => pairing_outcome(
                    status,
                    match body {
                        Some(doc) => Some(*doc),
                        None => None,
                    },
                ) == Ok::<Seq<char>, Seq<char>>(token@) && opt_text(final(self).bearer) == Some(
                    token@,
                ),
                Err(e) => pairing_outcome(
                    status,
                    match body {
                        Some(doc) => Some(*doc),
                        None => None,
                    },
                ) == Err::<Seq<char>, Seq<char>>(e.message@) && final(self).bearer == old(self).bearer && e.transport is None,
            },
    {
        if !(200 <= status && status < 300) {
            let shown = describe_status(status);
            return Err(
                CallError { message: join2("Pairing failed: ", shown.as_str()), transport: None },
            );
        }
        let token = match body {
            Some(doc) => match doc {
                Json::Object(_) => doc.get_string("token"),
                _ => None,
            },
            None => None,
        };
        match token {
            Some(token) => {
                self.bearer = Some(token.clone());
                Ok(token)
            },
            None => Err(
                CallError { message: "error decoding response body".to_owned(), transport: None },
            ),
        }
    }

    /// The request that probes the health of the gateway. It presents the
    /// bearer token where the client has one.
    pub fn health_check_request(&self) -> (r: GatewayRequest)
        ensures
            r.method == HttpMethod::Get,
            r.url@ == self.base_url@ + "/health"@,
            r.body is None,
            param_views(r.headers@) == match self.bearer {
                Some(token) => seq![bearer_header(token@)],
                None => Seq::empty(),
            },
    {
        let mut headers: Vec<Param> = Vec::new();
        match &self.bearer {
            Some(token) => {
                let value = join2("Bearer ", token.as_str());
                let header = param("Authorization", value.as_str());
                headers.push(header);
                assert(param_views(headers@) =~= seq![bearer_header(token@)]);
            },
            None => {
                assert(param_views(headers@) =~= Seq::empty());
            },
        }
        GatewayRequest {
            method: HttpMethod::Get,
            url: join2(self.base_url.as_str(), "/health"),
            headers,
            body: None,
        }
    }

    /// Reads the outcome of a health probe: the status of the answer, or
    /// `None` where the request could not be sent. The gateway is healthy
    /// where it answered with success.
    pub fn health_check(&self, status: Option<u16>) -> (r: bool)
        ensures
            r == match status {
                Some(code) => is_success(code),
                None => false,
            },
    {
        match status {
            Some(code) => 200 <= code && code < 300,
            None => false,
        }
    }

    /// The request that submits `payload` to the agent. It needs a paired
    /// client.
    pub fn send_to_agent_request(&self, payload: &Json) -> (r: Result<GatewayRequest, CallError>)
        ensures
            match r {
                Ok(request) => self.bearer matches Some(token) && request.method
                    == HttpMethod::Post && request.url@ == self.base_url@ + "/webhook"@
                    && param_views(request.headers@) == seq![bearer_header(token@)]
                    && opt_text(request.body) == Some(crate::json::printed_json(*payload)),
                Err(e) => self.bearer is None && e.message@ == "Not paired with gateway"@
                    && e.transport is None,
            },
    {
        match &self.bearer {
            None => Err(
                CallError { message: "Not paired with gateway".to_owned(), transport: None },
            ),
            Some(token) => {
                let value = join2("Bearer ", token.as_str());
                let header = param("Authorization", value.as_str());
                let mut headers: Vec<Param> = Vec::new();
                headers.push(header);
                assert(param_views(headers@) =~= seq![bearer_header(token@)]);
                Ok(
                    GatewayRequest {
                        method: HttpMethod::Post,
                        url: join2(self.base_url.as_str(), "/webhook"),
                        headers,
                        body: Some(payload.to_text()),
                    },
                )
            },
        }
    }

    /// Reads the answer to a submitted command: the reply text of the
    /// agent.
    pub fn send_to_agent(status: u16, reply: String) -> (r: Result<String, CallError>)
        ensures
            match r {
                Ok(text) => is_success(status) && text == reply,
                Err(e) => !is_success(status) && e.message@ == "Webhook failed: "@ + status_text(
                    status,
                ) && e.transport is None,
            },
    {
        if 200 <= status && status < 300 {
            Ok(reply)
        } else {
            let shown = describe_status(status);
            Err(CallError { message: join2("Webhook failed: ", shown.as_str()), transport: None })
        }
    }
}

} // verus!
