//! The client of the chat bot API: what it posts and how it reads the
//! answer.

use crate::constants::api::{CONTENT_TYPE_HEADER, CONTENT_TYPE_JSON, TELEGRAM_BASE_URL};
use crate::error::{outcome_view, ServiceError, ServiceErrorView};
use crate::http::{
    is_success_status, HttpMethod, HttpRequest, HttpRequestView, HttpResponse, HttpResponseView,
};
use crate::json::{json_from_str, parsed_view, Json, JsonView};
use crate::text::{push_signed_decimal, signed_decimal};
use vstd::prelude::*;

verus! {

/// The error code that a rejecting envelope carries, 0 where it has none.
pub open spec fn bot_error_code(doc: JsonView) -> i64 {
    match doc.member("error_code"@).as_i64() {
        Some(code) => code,
        None => 0i64,
    }
}

/// The description that a rejecting envelope carries.
pub open spec fn bot_description(doc: JsonView) -> Seq<char> {
    match doc.member("description"@).as_str() {
        Some(text) => text,
        None => "Unknown error"@,
    }
}

/// Whether an envelope says that the bot accepted the request: its `ok`
/// member is the boolean `true`.
pub open spec fn bot_accepted(doc: JsonView) -> bool {
    doc.member("ok"@).as_bool() == Some(true)
}

/// What a post returns, given the response and what parsing its body gave:
/// the document where the status is 2xx, the body parsed and the envelope
/// says `ok`; else the error that says which of these failed.
pub open spec fn bot_outcome(
    response: HttpResponseView,
    parsed: Result<JsonView, Seq<char>>,
) -> Result<JsonView, ServiceErrorView> {
    if !is_success_status(response.status) {
        Err(
            ServiceErrorView::ApiError(
                "Telegram API returned error status: "@ + response.status_text + ". Body: "@
                    + response.body,
            ),
        )
    } else {
        match parsed {
            Err(message) => Err(
                ServiceErrorView::ParseError(
                    "Failed to parse JSON: "@ + message + ". Response: "@ + response.body,
                ),
            ),
            Ok(doc) => if bot_accepted(doc) {
                Ok(doc)
            } else {
                Err(
                    ServiceErrorView::ApiError(
                        "Telegram API error "@ + signed_decimal(bot_error_code(doc) as int)
                            + ": "@ + bot_description(doc),
                    ),
                )
            },
        }
    }
}

/// The token of a bot and where its API lives.
#[derive(Debug, Clone)]
pub struct TelegramApiClient {
    bot_token: String,
    base_url: String,
}

/// The mathematical value of a [`TelegramApiClient`].
pub ghost struct TelegramApiClientView {
    pub bot_token: Seq<char>,
    pub base_url: Seq<char>,
}

impl View for TelegramApiClient {
    type V = TelegramApiClientView;

    closed spec fn view(&self) -> TelegramApiClientView {
        TelegramApiClientView { bot_token: self.bot_token@, base_url: self.base_url@ }
    }
}

impl TelegramApiClientView {
    /// The address under which the bot's methods live.
    pub open spec fn bot_url(self) -> Seq<char> {
        self.base_url + "/bot"@ + self.bot_token
    }

    /// The post of the JSON text `params` to the bot's method `endpoint`.
    pub open spec fn post_request(self, endpoint: Seq<char>, params: Seq<char>) -> HttpRequestView {
        HttpRequestView {
            method: HttpMethod::Post,
            url: self.bot_url() + "/"@ + endpoint,
            headers: seq![(CONTENT_TYPE_HEADER@, CONTENT_TYPE_JSON@)],
            body: Some(params),
        }
    }
}

impl TelegramApiClient {
    /// A client for the bot with this token.
    pub fn new(bot_token: String) -> (client: TelegramApiClient)
        ensures
            client@ == (TelegramApiClientView {
                bot_token: bot_token@,
                base_url: TELEGRAM_BASE_URL@,
            }),
    {
        TelegramApiClient { bot_token, base_url: String::from_str(TELEGRAM_BASE_URL) }
    }

    /// The address under which the bot's methods live.
    pub fn get_bot_url(&self) -> (url: String)
        ensures
            url@ == self@.bot_url(),
    {
        let mut url = self.base_url.clone();
        url.append("/bot");
        url.append(self.bot_token.as_str());
        url
    }

    /// The post of the JSON text `params` to the bot's method `endpoint`.
    pub fn make_request(&self, endpoint: &str, params: &str) -> (request: HttpRequest)
        ensures
            request@ == self@.post_request(endpoint@, params@),
    {
        let mut url = self.get_bot_url();
        url.append("/");
        url.append(endpoint);
        let mut headers: Vec<(String, String)> = Vec::new();
        headers.push((String::from_str(CONTENT_TYPE_HEADER), String::from_str(CONTENT_TYPE_JSON)));
        let request = HttpRequest {
            method: HttpMethod::Post,
            url,
            headers,
            body: Some(String::from_str(params)),
        };
        assert(request@.headers =~= self@.post_request(endpoint@, params@).headers);
        request
    }

    /// What a post returns once the body of its response has been parsed:
    /// see [`bot_outcome`].
    pub fn accept(&self, response: &HttpResponse, parsed: Result<Json, String>) -> (outcome: Result<
        Json,
        ServiceError,
    >)
        ensures
            outcome_view(outcome) == bot_outcome(response@, parsed_view(parsed)),
    {
        if !response.is_success() {
            let mut msg = String::from_str("Telegram API returned error status: ");
            msg.append(response.status_text.as_str());
            msg.append(". Body: ");
            msg.append(response.body.as_str());
            return Err(ServiceError::ApiError(msg));
        }
        match parsed {
            Err(message) => {
                let mut msg = String::from_str("Failed to parse JSON: ");
                msg.append(message.as_str());
                msg.append(". Response: ");
                msg.append(response.body.as_str());
                Err(ServiceError::ParseError(msg))
            },
            Ok(doc) => {
                let ok = match doc.get("ok") {
                    Some(value) => value.as_bool(),
                    None => None,
                };
                let accepted = match ok {
                    Some(flag) => flag,
                    None => false,
                };
                if accepted {
                    return Ok(doc);
                }
                let code = match doc.get("error_code") {
                    Some(value) => value.as_i64(),
                    None => None,
                };
                let error_code: i64 = match code {
                    Some(n) => n,
                    None => 0,
                };
                let text = match doc.get("description") {
                    Some(value) => value.as_str(),
                    None => None,
                };
                let mut msg = String::from_str("Telegram API error ");
                push_signed_decimal(&mut msg, error_code);
                msg.append(": ");
                match text {
                    Some(description) => msg.append(description),
                    None => msg.append("Unknown error"),
                }
                Err(ServiceError::ApiError(msg))
            },
        }
    }

    /// Reads the response to a post: parses its body and checks its status
    /// and its envelope.
    pub fn read_response(&self, response: &HttpResponse) -> (outcome: Result<Json, ServiceError>)
        ensures
            outcome_view(outcome) == bot_outcome(response@, json_from_str(response.body@)),
    {
        let parsed = Json::parse(response.body.as_str());
        self.accept(response, parsed)
    }
}

/// An envelope whose `ok` is `true` is handed back as it was parsed.
pub proof fn lemma_accepted_post_is_returned(response: HttpResponseView, doc: JsonView)
    requires
        is_success_status(response.status),
        bot_accepted(doc),
    ensures
        bot_outcome(response, Ok(doc)) == Ok::<JsonView, ServiceErrorView>(doc),
{
}

/// An envelope whose `ok` is anything but `true` is turned down with an API
/// error that carries the envelope's error code and description.
pub proof fn lemma_rejected_post_carries_code(response: HttpResponseView, doc: JsonView)
    requires
        is_success_status(response.status),
        !bot_accepted(doc),
    ensures
        bot_outcome(response, Ok(doc)) == Err::<JsonView, ServiceErrorView>(
            ServiceErrorView::ApiError(
                "Telegram API error "@ + signed_decimal(bot_error_code(doc) as int) + ": "@
                    + bot_description(doc),
            ),
        ),
{
}

} // verus!
