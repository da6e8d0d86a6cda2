use bybit_notifier::config::Config;
use bybit_notifier::error::ServiceError;
use bybit_notifier::http::HttpResponse;
use bybit_notifier::json::Json;
use bybit_notifier::services::bybit_service::BybitService;
use bybit_notifier::services::scheduler_service::{
    CycleAction, CycleEvent, CycleState, SchedulerService, Transition,
};
use bybit_notifier::services::telegram_service::TelegramServiceImpl;

fn scheduler() -> SchedulerService {
    let config = Config::new(
        "my-key".to_string(),
        "my-secret".to_string(),
        "UNIFIED".to_string(),
        "123:abc".to_string(),
        "-100200".to_string(),
        "60",
    );
    let account = BybitService::new(
        config.bybit_api_key.clone(),
        config.bybit_api_secret.clone(),
        config.account_type.clone(),
    );
    let channel =
        TelegramServiceImpl::new(config.telegram_bot_token.clone(), config.telegram_group_id.clone());
    SchedulerService::new(config, account, channel)
}

fn ok(body: &str) -> HttpResponse {
    HttpResponse { status: 200, status_text: "200 OK".to_string(), body: body.to_string() }
}

fn two_decimals(value: f64) -> String {
    format!("{:.2}", value)
}

fn sum_of(amounts: &[String]) -> String {
    two_decimals(amounts.iter().filter_map(|text| text.parse::<f64>().ok()).fold(0.0, |sum, amount| sum + amount))
}

fn balance_event(scheduler: &SchedulerService, reply: &HttpResponse) -> CycleEvent {
    CycleEvent::Balance(match scheduler.account().get_balance(reply) {
        Ok(text) => match text.parse::<f64>() {
            Ok(value) => Ok(two_decimals(value)),
            Err(error) => Err(ServiceError::ParseError(error.to_string())),
        },
        Err(error) => Err(error),
    })
}

fn totals_event(action: &CycleAction) -> CycleEvent {
    match action {
        CycleAction::Total { closed_pnl, unrealised_pnl } => CycleEvent::Totals {
            last_pnl: sum_of(closed_pnl),
            current_pnl: sum_of(unrealised_pnl),
            generated_at: "2024-05-01 12:00:00".to_string(),
        },
        other => panic!("the cycle did not ask for its sums: {:?}", other),
    }
}

fn timeout() -> ServiceError {
    ServiceError::RequestError("operation timed out".to_string())
}

#[test]
fn start_schedules_a_tick_every_period() {
    let started = scheduler().start();
    assert_eq!(
        started,
        Transition {
            state: CycleState::Running,
            diagnostic: None,
            action: CycleAction::Schedule { period_secs: 60 },
        }
    );
}

#[test]
fn a_tick_starts_with_the_balance() {
    let step = scheduler().step(CycleState::Running, CycleEvent::Tick);
    assert_eq!(step.state, CycleState::AwaitingBalance);
    assert_eq!(step.action, CycleAction::FetchBalance);
    assert_eq!(step.diagnostic, None);
}

#[test]
fn a_full_cycle_reports_what_was_fetched() {
    let scheduler = scheduler();
    let step = scheduler.step(CycleState::Running, CycleEvent::Tick);
    let reply = ok("{\"retCode\":0,\"result\":{\"list\":[{\"totalEquity\":\"1234.5\"}]}}");
    let step = scheduler.step(step.state, balance_event(&scheduler, &reply));
    assert_eq!(step.action, CycleAction::FetchPositions { limit: 10 });
    assert_eq!(step.diagnostic, None);
    let reply = ok(
        "{\"retCode\":0,\"result\":{\"list\":[{\"unrealisedPnl\":\"1.5\"},{\"unrealisedPnl\":\"-0.25\"},{\"symbol\":\"X\"}]}}",
    );
    let step =
        scheduler.step(step.state, CycleEvent::Positions(scheduler.account().get_positions(&reply)));
    assert_eq!(step.action, CycleAction::FetchClosedPnl { limit: 100 });
    assert_eq!(step.diagnostic, None);
    let reply = ok(
        "{\"retCode\":0,\"result\":{\"list\":[{\"closedPnl\":\"10.5\"},{\"closedPnl\":\"bad\"},{\"closedPnl\":\"-3.0\"}]}}",
    );
    let step =
        scheduler.step(step.state, CycleEvent::ClosedPnl(scheduler.account().get_closed_pnl(&reply)));
    assert_eq!(
        step.action,
        CycleAction::Total {
            closed_pnl: vec!["10.5".to_string(), "bad".to_string(), "-3.0".to_string()],
            unrealised_pnl: vec!["1.5".to_string(), "-0.25".to_string()],
        }
    );
    assert_eq!(step.diagnostic, None);
    let totals = totals_event(&step.action);
    let step = scheduler.step(step.state, totals);
    assert_eq!(step.state, CycleState::AwaitingDelivery);
    let expected = "<b>✨ Account Status (UNIFIED) ✨</b>\n\
        <b>💰 Balance:</b> <code>1234.50 USDT</code>\n\
        <b>⏱️ Timeframe:</b> <code>1m</code>\n\
        <b>📂 Open Positions:</b> <code>3</code>\n\
        <b>💰 Last 100 P&L:</b> <code>7.50 USDT</code>\n\
        <b>💹 Current P&L:</b> <code>1.25 USDT</code>\n\n\
        <i>🔸 Generated at: <code>2024-05-01 12:00:00</code></i>";
    assert_eq!(step.action, CycleAction::Send { message: expected.to_string() });
    let step = scheduler.step(step.state, CycleEvent::Delivery(Ok(())));
    assert_eq!(
        step,
        Transition { state: CycleState::Running, diagnostic: None, action: CycleAction::Wait }
    );
}

#[test]
fn a_cycle_whose_positions_time_out_still_reports() {
    let scheduler = scheduler();
    let step = scheduler.step(CycleState::Running, CycleEvent::Tick);
    let reply = ok("{\"retCode\":0,\"result\":{\"list\":[{\"totalEquity\":\"1234.56\"}]}}");
    let step = scheduler.step(step.state, balance_event(&scheduler, &reply));
    let step = scheduler.step(step.state, CycleEvent::Positions(Err(timeout())));
    assert_eq!(
        step.diagnostic,
        Some("Error getting positions: Request error: operation timed out".to_string())
    );
    assert_eq!(step.action, CycleAction::FetchClosedPnl { limit: 100 });
    let reply = ok(
        "{\"retCode\":0,\"result\":{\"list\":[{\"closedPnl\":\"10.5\"},{\"closedPnl\":\"bad\"},{\"closedPnl\":\"-3.0\"}]}}",
    );
    let step =
        scheduler.step(step.state, CycleEvent::ClosedPnl(scheduler.account().get_closed_pnl(&reply)));
    assert_eq!(
        step.action,
        CycleAction::Total {
            closed_pnl: vec!["10.5".to_string(), "bad".to_string(), "-3.0".to_string()],
            unrealised_pnl: vec![],
        }
    );
    let totals = totals_event(&step.action);
    let step = scheduler.step(step.state, totals);
    let message = match step.action {
        CycleAction::Send { message } => message,
        other => panic!("no report was sent: {:?}", other),
    };
    assert!(message.contains("<b>💰 Balance:</b> <code>1234.56 USDT</code>"));
    assert!(message.contains("<b>📂 Open Positions:</b> <code>0</code>"));
    assert!(message.contains("<b>💰 Last 100 P&L:</b> <code>7.50 USDT</code>"));
    assert!(message.contains("<b>💹 Current P&L:</b> <code>0.00 USDT</code>"));
}

#[test]
fn a_cycle_whose_fetches_all_fail_still_reports() {
    let scheduler = scheduler();
    let step = scheduler.step(CycleState::Running, CycleEvent::Tick);
    let rejected = ok("{\"retCode\":10001,\"retMsg\":\"invalid signature\"}");
    let step = scheduler.step(step.state, balance_event(&scheduler, &rejected));
    assert_eq!(
        step.diagnostic,
        Some(
            "Error getting balance: API error: API returned error code 10001: invalid signature"
                .to_string()
        )
    );
    assert_eq!(step.state, CycleState::AwaitingPositions { balance: "Error".to_string() });
    let step = scheduler.step(step.state, CycleEvent::Positions(Err(timeout())));
    let step = scheduler.step(
        step.state,
        CycleEvent::ClosedPnl(Err(ServiceError::ParseError("'list' is empty".to_string()))),
    );
    assert_eq!(
        step.diagnostic,
        Some("Error getting closed PnL: Parse error: 'list' is empty".to_string())
    );
    assert_eq!(step.action, CycleAction::Total { closed_pnl: vec![], unrealised_pnl: vec![] });
    let totals = totals_event(&step.action);
    let step = scheduler.step(step.state, totals);
    let expected = "<b>✨ Account Status (UNIFIED) ✨</b>\n\
        <b>💰 Balance:</b> <code>Error USDT</code>\n\
        <b>⏱️ Timeframe:</b> <code>1m</code>\n\
        <b>📂 Open Positions:</b> <code>0</code>\n\
        <b>💰 Last 100 P&L:</b> <code>0.00 USDT</code>\n\
        <b>💹 Current P&L:</b> <code>0.00 USDT</code>\n\n\
        <i>🔸 Generated at: <code>2024-05-01 12:00:00</code></i>";
    assert_eq!(step.action, CycleAction::Send { message: expected.to_string() });
}

#[test]
fn a_balance_that_is_no_number_shows_as_error() {
    let scheduler = scheduler();
    let reply = ok("{\"retCode\":0,\"result\":{\"list\":[{\"totalEquity\":\"n/a\"}]}}");
    let step = scheduler.step(CycleState::AwaitingBalance, balance_event(&scheduler, &reply));
    assert_eq!(step.state, CycleState::AwaitingPositions { balance: "Error".to_string() });
    assert_eq!(
        step.diagnostic,
        Some("Error getting balance: Parse error: invalid float literal".to_string())
    );
}

#[test]
fn a_failed_delivery_is_reported_and_the_schedule_goes_on() {
    let step = scheduler().step(
        CycleState::AwaitingDelivery,
        CycleEvent::Delivery(Err(ServiceError::ApiError(
            "Telegram API error 400: chat not found".to_string(),
        ))),
    );
    assert_eq!(step.state, CycleState::Running);
    assert_eq!(step.action, CycleAction::Wait);
    assert_eq!(
        step.diagnostic,
        Some(
            "Error sending notification: API error: Telegram API error 400: chat not found"
                .to_string()
        )
    );
    let next = scheduler().step(step.state, CycleEvent::Tick);
    assert_eq!(next.action, CycleAction::FetchBalance);
}

#[test]
fn the_count_is_the_raw_number_of_positions() {
    let positions = Json::parse("[{},17,{\"unrealisedPnl\":\"x\"},null]").unwrap().into_array().unwrap();
    let step = scheduler().step(
        CycleState::AwaitingPositions { balance: "1.00".to_string() },
        CycleEvent::Positions(Ok(positions)),
    );
    assert_eq!(
        step.state,
        CycleState::AwaitingClosedPnl {
            balance: "1.00".to_string(),
            open_positions: 4,
            unrealised_pnl: vec!["x".to_string()],
        }
    );
}

#[test]
fn an_event_that_is_not_awaited_changes_nothing() {
    let scheduler = scheduler();
    let states = || {
        vec![
            CycleState::Idle,
            CycleState::AwaitingBalance,
            CycleState::AwaitingPositions { balance: "1.00".to_string() },
            CycleState::AwaitingClosedPnl {
                balance: "1.00".to_string(),
                open_positions: 2,
                unrealised_pnl: vec!["3".to_string()],
            },
            CycleState::AwaitingTotals { balance: "1.00".to_string(), open_positions: 2 },
            CycleState::AwaitingDelivery,
        ]
    };
    for (state, same) in states().into_iter().zip(states()) {
        let step = scheduler.step(state, CycleEvent::Tick);
        assert_eq!(step, Transition { state: same, diagnostic: None, action: CycleAction::Wait });
    }
    let step = scheduler.step(CycleState::Running, CycleEvent::Delivery(Ok(())));
    assert_eq!(
        step,
        Transition { state: CycleState::Running, diagnostic: None, action: CycleAction::Wait }
    );
    let step = scheduler.step(CycleState::Idle, CycleEvent::Balance(Ok("1.00".to_string())));
    assert_eq!(
        step,
        Transition { state: CycleState::Idle, diagnostic: None, action: CycleAction::Wait }
    );
    let step = scheduler.step(CycleState::AwaitingBalance, CycleEvent::Positions(Ok(vec![])));
    assert_eq!(step.state, CycleState::AwaitingBalance);
    assert_eq!(step.action, CycleAction::Wait);
}

#[test]
fn the_scheduler_hands_out_its_services() {
    let scheduler = scheduler();
    let request = scheduler.account().balance_request(1);
    assert_eq!(request.url, "https://api.bybit.com/v5/account/wallet-balance?accountType=UNIFIED");
    let request = scheduler.channel().notification_request("x");
    assert_eq!(request.url, "https://api.telegram.org/bot123:abc/sendMessage");
}
