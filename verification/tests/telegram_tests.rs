use bybit_notifier::error::ServiceError;
use bybit_notifier::http::{HttpMethod, HttpResponse};
use bybit_notifier::json::Json;
use bybit_notifier::services::api::telegram::TelegramApiClient;
use bybit_notifier::services::notification_service::TelegramService;
use bybit_notifier::services::telegram_service::TelegramServiceImpl;

fn ok(body: &str) -> HttpResponse {
    HttpResponse { status: 200, status_text: "200 OK".to_string(), body: body.to_string() }
}

fn channel() -> TelegramServiceImpl {
    TelegramServiceImpl::new("123:abc".to_string(), "-100200".to_string())
}

fn api_error(message: &str) -> ServiceError {
    ServiceError::ApiError(message.to_string())
}

#[test]
fn bot_url_holds_the_token() {
    let client = TelegramApiClient::new("123:abc".to_string());
    assert_eq!(client.get_bot_url(), "https://api.telegram.org/bot123:abc");
}

#[test]
fn client_posts_json_to_the_method() {
    let client = TelegramApiClient::new("123:abc".to_string());
    let request = client.make_request("sendMessage", "{\"a\":1}");
    assert_eq!(request.method, HttpMethod::Post);
    assert_eq!(request.url, "https://api.telegram.org/bot123:abc/sendMessage");
    assert_eq!(request.headers, vec![("Content-Type".to_string(), "application/json".to_string())]);
    assert_eq!(request.body, Some("{\"a\":1}".to_string()));
}

#[test]
fn notification_endpoint_rejects_with_chat_not_found() {
    let reply = ok("{\"ok\":false,\"error_code\":400,\"description\":\"chat not found\"}");
    assert_eq!(
        channel().send_notification(&reply),
        Err(api_error("Telegram API error 400: chat not found"))
    );
}

#[test]
fn notification_is_delivered_when_the_bot_says_ok() {
    let reply = ok("{\"ok\":true,\"result\":{\"message_id\":7}}");
    assert_eq!(channel().send_notification(&reply), Ok(()));
}

#[test]
fn notification_without_ok_is_rejected_with_defaults() {
    assert_eq!(
        channel().send_notification(&ok("{}")),
        Err(api_error("Telegram API error 0: Unknown error"))
    );
    assert_eq!(
        channel().send_notification(&ok("{\"ok\":\"true\"}")),
        Err(api_error("Telegram API error 0: Unknown error"))
    );
    assert_eq!(
        channel().send_notification(&ok("{\"ok\":1,\"error_code\":\"x\",\"description\":5}")),
        Err(api_error("Telegram API error 0: Unknown error"))
    );
    assert_eq!(
        channel().send_notification(&ok("{\"ok\":false,\"error_code\":-3}")),
        Err(api_error("Telegram API error -3: Unknown error"))
    );
}

#[test]
fn notification_reports_a_status_that_is_not_2xx() {
    let reply = HttpResponse {
        status: 403,
        status_text: "403 Forbidden".to_string(),
        body: "{\"ok\":true}".to_string(),
    };
    assert_eq!(
        channel().send_notification(&reply),
        Err(api_error("Telegram API returned error status: 403 Forbidden. Body: {\"ok\":true}"))
    );
}

#[test]
fn notification_reports_a_body_that_is_no_json() {
    assert_eq!(
        channel().send_notification(&ok("gateway timeout")),
        Err(ServiceError::ParseError(
            "Failed to parse JSON: expected value at line 1 column 1. Response: gateway timeout"
                .to_string()
        ))
    );
}

#[test]
fn client_returns_the_accepted_envelope() {
    let client = TelegramApiClient::new("t".to_string());
    let body = "{\"ok\":true,\"result\":{\"message_id\":7}}";
    assert_eq!(client.read_response(&ok(body)), Ok(Json::parse(body).unwrap()));
}

#[test]
fn client_decides_on_the_parsed_body_it_is_given() {
    let client = TelegramApiClient::new("t".to_string());
    let reply = ok("ignored");
    let accepted = Json::Object(vec![("ok".to_string(), Json::Bool(true))]);
    assert!(client.accept(&reply, Ok(accepted)).is_ok());
    let rejected = Json::Object(vec![("ok".to_string(), Json::Bool(false))]);
    assert_eq!(
        client.accept(&reply, Ok(rejected)),
        Err(api_error("Telegram API error 0: Unknown error"))
    );
    assert_eq!(
        client.accept(&reply, Err("eof".to_string())),
        Err(ServiceError::ParseError("Failed to parse JSON: eof. Response: ignored".to_string()))
    );
    assert_eq!(
        channel().accept_delivery(&reply, Ok(Json::Object(vec![("ok".to_string(), Json::Bool(true))]))),
        Ok(())
    );
}

#[test]
fn notification_request_posts_chat_text_and_markup() {
    let request = channel().notification_request("<b>hi</b>");
    assert_eq!(request.method, HttpMethod::Post);
    assert_eq!(request.url, "https://api.telegram.org/bot123:abc/sendMessage");
    assert_eq!(request.headers, vec![("Content-Type".to_string(), "application/json".to_string())]);
    let body = Json::parse(request.body.as_ref().unwrap()).unwrap();
    assert_eq!(body.get("chat_id").unwrap().as_str(), Some("-100200"));
    assert_eq!(body.get("text").unwrap().as_str(), Some("<b>hi</b>"));
    assert_eq!(body.get("parse_mode").unwrap().as_str(), Some("HTML"));
    assert_eq!(
        request.body,
        Some("{\"chat_id\":\"-100200\",\"parse_mode\":\"HTML\",\"text\":\"<b>hi</b>\"}".to_string())
    );
}

#[test]
fn notification_params_escape_the_message() {
    let params = channel().notification_params("line one\nline \"two\"");
    assert_eq!(
        params,
        "{\"chat_id\":\"-100200\",\"parse_mode\":\"HTML\",\"text\":\"line one\\nline \\\"two\\\"\"}"
    );
}

#[test]
fn both_channels_post_the_same_request() {
    let plain = TelegramService::new("123:abc".to_string(), "-100200".to_string());
    assert_eq!(plain.notification_request("hello"), channel().notification_request("hello"));
}

#[test]
fn the_plain_channel_checks_the_envelope_too() {
    let plain = TelegramService::new("123:abc".to_string(), "-100200".to_string());
    assert_eq!(plain.send_notification(&ok("{\"ok\":true}")), Ok(()));
    assert_eq!(
        plain.send_notification(&ok(
            "{\"ok\":false,\"error_code\":400,\"description\":\"chat not found\"}"
        )),
        Err(api_error("Telegram API error 400: chat not found"))
    );
    assert_eq!(
        plain.accept_delivery(&ok("x"), Err("bad".to_string())),
        Err(ServiceError::ParseError("Failed to parse JSON: bad. Response: x".to_string()))
    );
}
