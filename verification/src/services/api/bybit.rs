//! The client of the exchange API: signed requests and checked envelopes.

use crate::constants::api::{
    BYBIT_API_KEY_HEADER, BYBIT_BASE_URL, BYBIT_RECV_WINDOW, BYBIT_RECV_WINDOW_HEADER,
    BYBIT_SIGN_HEADER, BYBIT_TIMESTAMP_HEADER,
};
use crate::error::{outcome_view, ServiceError, ServiceErrorView};
use crate::http::{
    is_success_status, HttpMethod, HttpRequest, HttpRequestView, HttpResponse, HttpResponseView,
};
use crate::json::{json_from_str, parsed_view, Json, JsonView};
use crate::signature::{sign, signature_text};
use crate::text::{decimal, decimal_string, push_signed_decimal, signed_decimal};
use vstd::prelude::*;

verus! {

/// What the envelope of a response says of the request.
#[derive(Debug)]
pub enum ApiStatus {
    Success,
    Error(i64, String),
}

/// The mathematical value of an [`ApiStatus`].
pub ghost enum ApiStatusView {
    Success,
    Error(i64, Seq<char>),
}

impl View for ApiStatus {
    type V = ApiStatusView;

    open spec fn view(&self) -> ApiStatusView {
        match self {
            ApiStatus::Success => ApiStatusView::Success,
            ApiStatus::Error(code, msg) => ApiStatusView::Error(*code, msg@),
        }
    }
}

/// The status that an envelope carries: success for return code 0; any
/// other code with the envelope's message; and code -1 where the envelope
/// has no integer return code.
pub open spec fn api_status(doc: JsonView) -> ApiStatusView {
    match doc.member("retCode"@).as_i64() {
        Some(code) => if code != 0 {
            ApiStatusView::Error(
                code,
                match doc.member("retMsg"@).as_str() {
                    Some(msg) => msg,
                    None => "Unknown error"@,
                },
            )
        } else {
            ApiStatusView::Success
        },
        None => ApiStatusView::Error(-1i64, "Missing return code"@),
    }
}

/// What a call returns, given the response and what parsing its body gave:
/// the document where the status is 2xx, the body parsed and the envelope
/// says success; else the error that says which of these failed.
pub open spec fn envelope_outcome(
    response: HttpResponseView,
    parsed: Result<JsonView, Seq<char>>,
) -> Result<JsonView, ServiceErrorView> {
    if !is_success_status(response.status) {
        Err(
            ServiceErrorView::ApiError(
                "API returned error status: "@ + response.status_text + ". Body: "@
                    + response.body,
            ),
        )
    } else {
        match parsed {
            Err(message) => Err(
                ServiceErrorView::ParseError(
                    "Failed to parse JSON: "@ + message + ". Response: "@ + response.body,
                ),
            ),
            Ok(doc) => match api_status(doc) {
                ApiStatusView::Success => Ok(doc),
                ApiStatusView::Error(code, msg) => Err(
                    ServiceErrorView::ApiError(
                        "API returned error code "@ + signed_decimal(code as int) + ": "@ + msg,
                    ),
                ),
            },
        }
    }
}

/// The credentials of an account and where its API lives.
#[derive(Debug, Clone)]
pub struct BybitApiClient {
    api_key: String,
    api_secret: String,
    base_url: String,
}

/// The mathematical value of a [`BybitApiClient`].
pub ghost struct BybitApiClientView {
    pub api_key: Seq<char>,
    pub api_secret: Seq<char>,
    pub base_url: Seq<char>,
}

impl View for BybitApiClient {
    type V = BybitApiClientView;

    closed spec fn view(&self) -> BybitApiClientView {
        BybitApiClientView {
            api_key: self.api_key@,
            api_secret: self.api_secret@,
            base_url: self.base_url@,
        }
    }
}

impl BybitApiClientView {
    /// The signature of a request: the secret signs the timestamp, the API
    /// key, the receive window and the query, joined in that order.
    pub open spec fn signature(
        self,
        timestamp: Seq<char>,
        recv_window: Seq<char>,
        params: Seq<char>,
    ) -> Seq<char> {
        signature_text(self.api_secret, timestamp + self.api_key + recv_window + params)
    }

    /// The request for `endpoint` with the query `params`, signed at
    /// `timestamp_ms` milliseconds after the epoch.
    pub open spec fn signed_request(
        self,
        endpoint: Seq<char>,
        params: Seq<char>,
        timestamp_ms: nat,
    ) -> HttpRequestView {
        HttpRequestView {
            method: HttpMethod::Get,
            url: self.base_url + "/"@ + endpoint + "?"@ + params,
            headers: seq![
                (BYBIT_API_KEY_HEADER@, self.api_key),
                (BYBIT_TIMESTAMP_HEADER@, decimal(timestamp_ms)),
                (BYBIT_RECV_WINDOW_HEADER@, BYBIT_RECV_WINDOW@),
                (
                    BYBIT_SIGN_HEADER@,
                    self.signature(decimal(timestamp_ms), BYBIT_RECV_WINDOW@, params),
                ),
            ],
            body: None,
        }
    }
}

impl BybitApiClient {
    /// A client for the account with this key and secret.
    pub fn new(api_key: String, api_secret: String) -> (client: BybitApiClient)
        ensures
            client@ == (BybitApiClientView {
                api_key: api_key@,
                api_secret: api_secret@,
                base_url: BYBIT_BASE_URL@,
            }),
    {
        BybitApiClient { api_key, api_secret, base_url: String::from_str(BYBIT_BASE_URL) }
    }

    /// Signs a request made at `timestamp` with the query `params`.
    pub fn generate_signature(
        &self,
        timestamp: &str,
        recv_window: &str,
        params: &str,
    ) -> (signature: String)
        ensures
            signature@ == self@.signature(timestamp@, recv_window@, params@),
            signature@.len() == 64,
    {
        let mut str_to_sign = String::from_str(timestamp);
        str_to_sign.append(self.api_key.as_str());
        str_to_sign.append(recv_window);
        str_to_sign.append(params);
        sign(self.api_secret.as_str(), str_to_sign.as_str())
    }

    /// What the envelope of a parsed response says of the request.
    pub fn check_response_status(&self, response_json: &Json) -> (status: ApiStatus)
        ensures
            status@ == api_status(response_json@),
    {
        let ret_code = match response_json.get("retCode") {
            Some(value) => value.as_i64(),
            None => None,
        };
        match ret_code {
            Some(code) => {
                if code != 0 {
                    let ret_msg = match response_json.get("retMsg") {
                        Some(value) => value.as_str(),
                        None => None,
                    };
                    let msg = match ret_msg {
                        Some(text) => String::from_str(text),
                        None => String::from_str("Unknown error"),
                    };
                    ApiStatus::Error(code, msg)
                } else {
                    ApiStatus::Success
                }
            },
            None => ApiStatus::Error(-1, String::from_str("Missing return code")),
        }
    }

    /// The signed request for `endpoint` with the query `params`, made at
    /// `timestamp_ms` milliseconds after the epoch.
    pub fn make_request(&self, endpoint: &str, params: &str, timestamp_ms: u128) -> (request:
        HttpRequest)
        ensures
            request@ == self@.signed_request(endpoint@, params@, timestamp_ms as nat),
    {
        let timestamp = decimal_string(timestamp_ms);
        let signature = self.generate_signature(timestamp.as_str(), BYBIT_RECV_WINDOW, params);
        let mut url = self.base_url.clone();
        url.append("/");
        url.append(endpoint);
        url.append("?");
        url.append(params);
        let mut headers: Vec<(String, String)> = Vec::new();
        headers.push((String::from_str(BYBIT_API_KEY_HEADER), self.api_key.clone()));
        headers.push((String::from_str(BYBIT_TIMESTAMP_HEADER), timestamp));
        headers.push(
            (String::from_str(BYBIT_RECV_WINDOW_HEADER), String::from_str(BYBIT_RECV_WINDOW)),
        );
        headers.push((String::from_str(BYBIT_SIGN_HEADER), signature));
        let request = HttpRequest { method: HttpMethod::Get, url, headers, body: None };
        assert(request@.headers =~= self@.signed_request(
            endpoint@,
            params@,
            timestamp_ms as nat,
        ).headers);
        request
    }

    /// What a call returns once the body of its response has been parsed:
    /// see [`envelope_outcome`].
    pub fn accept(&self, response: &HttpResponse, parsed: Result<Json, String>) -> (outcome: Result<
        Json,
        ServiceError,
    >)
        ensures
            outcome_view(outcome) == envelope_outcome(response@, parsed_view(parsed)),
    {
        if !response.is_success() {
            let mut msg = String::from_str("API returned error status: ");
            msg.append(response.status_text.as_str());
            msg.append(". Body: ");
            msg.append(response.body.as_str());
            return Err(ServiceError::ApiError(msg));
        }
        match parsed {
            Err(message) => {
                let mut msg = String::from_str("Failed to parse JSON: ");
                msg.append(message.as_str());
                msg.append(". Response: ");
                msg.append(response.body.as_str());
                Err(ServiceError::ParseError(msg))
            },
            Ok(doc) => match self.check_response_status(&doc) {
                ApiStatus::Success => Ok(doc),
                ApiStatus::Error(code, text) => {
                    let mut msg = String::from_str("API returned error code ");
                    push_signed_decimal(&mut msg, code);
                    msg.append(": ");
                    msg.append(text.as_str());
                    Err(ServiceError::ApiError(msg))
                },
            },
        }
    }

    /// Reads the response to a request: parses its body and checks its
    /// status and its envelope.
    pub fn read_response(&self, response: &HttpResponse) -> (outcome: Result<Json, ServiceError>)
        ensures
            outcome_view(outcome) == envelope_outcome(response@, json_from_str(response.body@)),
    {
        let parsed = Json::parse(response.body.as_str());
        self.accept(response, parsed)
    }
}

/// An envelope with return code 0 is handed back as it was parsed, whole
/// and unchanged.
pub proof fn lemma_accepted_envelope_is_returned(response: HttpResponseView, doc: JsonView)
    requires
        is_success_status(response.status),
        doc.member("retCode"@).as_i64() == Some(0i64),
    ensures
        envelope_outcome(response, Ok(doc)) == Ok::<JsonView, ServiceErrorView>(doc),
{
}

/// An envelope with any other return code is turned down with an API error
/// that carries that code and the envelope's message.
pub proof fn lemma_rejected_envelope_carries_code(
    response: HttpResponseView,
    doc: JsonView,
    code: i64,
)
    requires
        is_success_status(response.status),
        doc.member("retCode"@).as_i64() == Some(code),
        code != 0,
    ensures
        envelope_outcome(response, Ok(doc)) == Err::<JsonView, ServiceErrorView>(
            ServiceErrorView::ApiError(
                "API returned error code "@ + signed_decimal(code as int) + ": "@ + (match doc.member(
                    "retMsg"@,
                ).as_str() {
                    Some(msg) => msg,
                    None => "Unknown error"@,
                }),
            ),
        ),
{
}

/// An envelope without an integer return code is turned down with an API
/// error that carries the code -1: a missing code is never a success.
pub proof fn lemma_envelope_without_code_is_rejected(response: HttpResponseView, doc: JsonView)
    requires
        is_success_status(response.status),
        doc.member("retCode"@).as_i64() is None,
    ensures
        envelope_outcome(response, Ok(doc)) == Err::<JsonView, ServiceErrorView>(
            ServiceErrorView::ApiError(
                "API returned error code "@ + signed_decimal(-1) + ": "@ + "Missing return code"@,
            ),
        ),
{
}

/// Two clients with the same key and secret sign the same request alike:
/// the signature depends on the secret, the key, the timestamp, the receive
/// window and the query, and on nothing else.
pub proof fn lemma_equal_inputs_sign_alike(
    a: BybitApiClientView,
    b: BybitApiClientView,
    timestamp: Seq<char>,
    recv_window: Seq<char>,
    params: Seq<char>,
)
    requires
        a.api_key == b.api_key,
        a.api_secret == b.api_secret,
    ensures
        a.signature(timestamp, recv_window, params) == b.signature(timestamp, recv_window, params),
{
}

} // verus!
