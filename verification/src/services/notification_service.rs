//! The chat channel, from a bot token and a chat alone.

use crate::constants::api::TELEGRAM_BASE_URL;
use crate::error::{unit_view, ServiceError};
use crate::http::{HttpRequest, HttpRequestView, HttpResponse};
use crate::json::{json_from_str, parsed_view, Json};
use crate::services::api::telegram::{bot_outcome, TelegramApiClientView};
use crate::services::telegram_service::{delivery_from, notification_body, TelegramServiceImpl};
use vstd::prelude::*;

verus! {

/// A chat channel: the token of the bot and the chat that it writes to.
#[derive(Debug, Clone)]
pub struct TelegramService {
    bot_token: String,
    group_id: String,
}

/// The mathematical value of a [`TelegramService`].
pub ghost struct TelegramServiceView {
    pub bot_token: Seq<char>,
    pub group_id: Seq<char>,
}

impl View for TelegramService {
    type V = TelegramServiceView;

    closed spec fn view(&self) -> TelegramServiceView {
        TelegramServiceView { bot_token: self.bot_token@, group_id: self.group_id@ }
    }
}

impl TelegramServiceView {
    /// The post that sends `message` to the chat: to the bot's method
    /// `sendMessage`, with the notification as its JSON body.
    pub open spec fn notification_request(self, message: Seq<char>) -> HttpRequestView {
        (TelegramApiClientView {
            bot_token: self.bot_token,
            base_url: TELEGRAM_BASE_URL@,
        }).post_request("sendMessage"@, notification_body(self.group_id, message))
    }
}

impl TelegramService {
    /// The channel of the bot with this token into the chat `group_id`.
    pub fn new(bot_token: String, group_id: String) -> (service: TelegramService)
        ensures
            service@ == (TelegramServiceView { bot_token: bot_token@, group_id: group_id@ }),
    {
        TelegramService { bot_token, group_id }
    }

    /// The post that sends `message` to the chat.
    pub fn notification_request(&self, message: &str) -> (request: HttpRequest)
        ensures
            request@ == self@.notification_request(message@),
    {
        let channel = TelegramServiceImpl::new(self.bot_token.clone(), self.group_id.clone());
        channel.notification_request(message)
    }

    /// Whether a notification was delivered, once the body of the response
    /// to its post has been parsed.
    pub fn accept_delivery(
        &self,
        response: &HttpResponse,
        parsed: Result<Json, String>,
    ) -> (outcome: Result<(), ServiceError>)
        ensures
            unit_view(outcome) == delivery_from(bot_outcome(response@, parsed_view(parsed))),
    {
        let channel = TelegramServiceImpl::new(self.bot_token.clone(), self.group_id.clone());
        channel.accept_delivery(response, parsed)
    }

    /// Whether a notification was delivered, from the response to its post.
    pub fn send_notification(&self, response: &HttpResponse) -> (outcome: Result<(), ServiceError>)
        ensures
            unit_view(outcome) == delivery_from(
                bot_outcome(response@, json_from_str(response.body@)),
            ),
    {
        let channel = TelegramServiceImpl::new(self.bot_token.clone(), self.group_id.clone());
        channel.send_notification(response)
    }
}

} // verus!
