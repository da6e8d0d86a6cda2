//! The chat channel, through the bot's API client: what a notification
//! posts and when it counts as delivered.

use crate::constants::api::TELEGRAM_BASE_URL;
use crate::error::{unit_view, ServiceError, ServiceErrorView};
use crate::http::{HttpRequest, HttpRequestView, HttpResponse};
use crate::json::{json_from_str, json_object_text, parsed_view, Json, JsonView};
use crate::services::api::telegram::{bot_outcome, TelegramApiClient, TelegramApiClientView};
use vstd::prelude::*;

verus! {

/// Whether a post was delivered, from what the post itself gave.
pub open spec fn delivery_from(outcome: Result<JsonView, ServiceErrorView>) -> Result<
    (),
    ServiceErrorView,
> {
    match outcome {
        Ok(doc) => Ok(()),
        Err(error) => Err(error),
    }
}

/// The members of the body of a notification: the chat it goes to, its
/// text, and the markup in which the text is written.
pub open spec fn notification_members(group_id: Seq<char>, message: Seq<char>) -> Seq<
    (Seq<char>, Seq<char>),
> {
    seq![("chat_id"@, group_id), ("text"@, message), ("parse_mode"@, "HTML"@)]
}

/// The body of a notification: the JSON text of an object with the members
/// of [`notification_members`].
pub open spec fn notification_body(group_id: Seq<char>, message: Seq<char>) -> Seq<char> {
    json_object_text(notification_members(group_id, message))
}

/// A chat channel: the bot's API client and the chat that it writes to.
#[derive(Debug, Clone)]
pub struct TelegramServiceImpl {
    api_client: TelegramApiClient,
    group_id: String,
}

/// The mathematical value of a [`TelegramServiceImpl`].
pub ghost struct TelegramServiceImplView {
    pub api_client: TelegramApiClientView,
    pub group_id: Seq<char>,
}

impl View for TelegramServiceImpl {
    type V = TelegramServiceImplView;

    closed spec fn view(&self) -> TelegramServiceImplView {
        TelegramServiceImplView { api_client: self.api_client@, group_id: self.group_id@ }
    }
}

impl TelegramServiceImplView {
    /// The post that sends `message` to the chat.
    pub open spec fn notification_request(self, message: Seq<char>) -> HttpRequestView {
        self.api_client.post_request("sendMessage"@, notification_body(self.group_id, message))
    }
}

impl TelegramServiceImpl {
    /// The channel of the bot with this token into the chat `group_id`.
    pub fn new(bot_token: String, group_id: String) -> (service: TelegramServiceImpl)
        ensures
            service@.group_id == group_id@,
            service@.api_client == (TelegramApiClientView {
                bot_token: bot_token@,
                base_url: TELEGRAM_BASE_URL@,
            }),
    {
        TelegramServiceImpl { api_client: TelegramApiClient::new(bot_token), group_id }
    }

    /// The body of the post that sends `message` to the chat.
    pub fn notification_params(&self, message: &str) -> (params: String)
        ensures
            params@ == notification_body(self@.group_id, message@),
    {
        let mut members: Vec<(String, String)> = Vec::new();
        members.push((String::from_str("chat_id"), self.group_id.clone()));
        members.push((String::from_str("text"), String::from_str(message)));
        members.push((String::from_str("parse_mode"), String::from_str("HTML")));
        assert(members.deep_view() =~= notification_members(self@.group_id, message@));
        Json::object_text(&members)
    }

    /// The post that sends `message` to the chat.
    pub fn notification_request(&self, message: &str) -> (request: HttpRequest)
        ensures
            request@ == self@.notification_request(message@),
    {
        let params = self.notification_params(message);
        self.api_client.make_request("sendMessage", params.as_str())
    }

    /// Whether a notification was delivered, once the body of the response
    /// to its post has been parsed.
    pub fn accept_delivery(
        &self,
        response: &HttpResponse,
        parsed: Result<Json, String>,
    ) -> (outcome: Result<(), ServiceError>)
        ensures
            unit_view(outcome) == delivery_from(bot_outcome(response@, parsed_view(parsed))),
    {
        match self.api_client.accept(response, parsed) {
            Ok(_) => Ok(()),
            Err(error) => Err(error),
        }
    }

    /// Whether a notification was delivered, from the response to its post.
    pub fn send_notification(&self, response: &HttpResponse) -> (outcome: Result<(), ServiceError>)
        ensures
            unit_view(outcome) == delivery_from(
                bot_outcome(response@, json_from_str(response.body@)),
            ),
    {
        match self.api_client.read_response(response) {
            Ok(_) => Ok(()),
            Err(error) => Err(error),
        }
    }
}

} // verus!
