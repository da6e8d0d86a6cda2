//! The schedule: one report per tick. Each cycle asks for the balance, the
//! open positions and the closed trades in turn, has the two sums made,
//! and sends the report. A step that fails is reported on one line and
//! replaced by a placeholder; the cycle goes on.
//!
//! The service decides and its caller acts: [`SchedulerService::step`] takes
//! the state of the cycle and what the last action gave, and returns the
//! next state and the next action.

use crate::config::Config;
use crate::error::{list_view, text_view, unit_view, ServiceError, ServiceErrorView};
use crate::json::{items_view, Json, JsonView};
use crate::report::{
    format_report, lemma_report_is_never_empty, report_text, select_amounts, selected_amounts,
    texts_view, BALANCE_UNAVAILABLE,
};
use crate::services::bybit_service::BybitService;
use crate::services::telegram_service::TelegramServiceImpl;
use vstd::prelude::*;

verus! {

/// How many open positions a cycle asks for.
pub const POSITIONS_LIMIT: u32 = 10;

/// How many closed trades a cycle asks for.
pub const CLOSED_PNL_LIMIT: u32 = 100;

/// The member of a closed trade that holds its realized profit or loss.
pub const CLOSED_PNL_FIELD: &'static str = "closedPnl";

/// The member of an open position that holds its unrealized profit or loss.
pub const UNREALISED_PNL_FIELD: &'static str = "unrealisedPnl";

/// Where a cycle stands.
#[derive(Debug, Clone, PartialEq, Eq)]
pub enum CycleState {
    /// The schedule has not been started.
    Idle,
    /// Between two cycles: the next tick starts one.
    Running,
    /// The balance has been asked for.
    AwaitingBalance,
    /// The open positions have been asked for.
    AwaitingPositions { balance: String },
    /// The closed trades have been asked for.
    AwaitingClosedPnl { balance: String, open_positions: usize, unrealised_pnl: Vec<String> },
    /// The two sums have been asked for.
    AwaitingTotals { balance: String, open_positions: usize },
    /// The report has been handed over for sending.
    AwaitingDelivery,
}

/// What the last action gave.
#[derive(Debug, PartialEq, Eq)]
pub enum CycleEvent {
    /// The period has passed.
    Tick,
    /// The balance, written with two decimals, or why there is none.
    Balance(Result<String, ServiceError>),
    /// The open positions, or why there are none.
    Positions(Result<Vec<Json>, ServiceError>),
    /// The closed trades, or why there are none.
    ClosedPnl(Result<Vec<Json>, ServiceError>),
    /// The two sums, each written with two decimals, and the local time at
    /// which they were made.
    Totals { last_pnl: String, current_pnl: String, generated_at: String },
    /// Whether the report was delivered.
    Delivery(Result<(), ServiceError>),
}

/// What the caller is to do next.
#[derive(Debug, Clone, PartialEq, Eq)]
pub enum CycleAction {
    /// Hand in a `Tick` every `period_secs` seconds, the first one after
    /// one full period.
    Schedule { period_secs: u64 },
    /// Ask for the balance and hand in `Balance`.
    FetchBalance,
    /// Ask for at most `limit` open positions and hand in `Positions`.
    FetchPositions { limit: u32 },
    /// Ask for at most `limit` closed trades and hand in `ClosedPnl`.
    FetchClosedPnl { limit: u32 },
    /// Sum the amounts of each list, leaving out those that are no numbers,
    /// and hand in `Totals`.
    Total { closed_pnl: Vec<String>, unrealised_pnl: Vec<String> },
    /// Send the report and hand in `Delivery`.
    Send { message: String },
    /// Nothing to do until the next tick.
    Wait,
}

/// One step of a cycle: the state after it, the line that reports a failure
/// if there was one, and what to do next.
#[derive(Debug, Clone, PartialEq, Eq)]
pub struct Transition {
    pub state: CycleState,
    pub diagnostic: Option<String>,
    pub action: CycleAction,
}

/// The mathematical value of a [`CycleState`].
pub ghost enum CycleStateView {
    Idle,
    Running,
    AwaitingBalance,
    AwaitingPositions { balance: Seq<char> },
    AwaitingClosedPnl { balance: Seq<char>, open_positions: nat, unrealised_pnl: Seq<Seq<char>> },
    AwaitingTotals { balance: Seq<char>, open_positions: nat },
    AwaitingDelivery,
}

/// The mathematical value of a [`CycleEvent`].
pub ghost enum CycleEventView {
    Tick,
    Balance(Result<Seq<char>, ServiceErrorView>),
    Positions(Result<Seq<JsonView>, ServiceErrorView>),
    ClosedPnl(Result<Seq<JsonView>, ServiceErrorView>),
    Totals { last_pnl: Seq<char>, current_pnl: Seq<char>, generated_at: Seq<char> },
    Delivery(Result<(), ServiceErrorView>),
}

/// The mathematical value of a [`CycleAction`].
pub ghost enum CycleActionView {
    Schedule { period_secs: u64 },
    FetchBalance,
    FetchPositions { limit: u32 },
    FetchClosedPnl { limit: u32 },
    Total { closed_pnl: Seq<Seq<char>>, unrealised_pnl: Seq<Seq<char>> },
    Send { message: Seq<char> },
    Wait,
}

/// The mathematical value of a [`Transition`].
pub ghost struct TransitionView {
    pub state: CycleStateView,
    pub diagnostic: Option<Seq<char>>,
    pub action: CycleActionView,
}

impl View for CycleState {
    type V = CycleStateView;

    open spec fn view(&self) -> CycleStateView {
        match self {
            CycleState::Idle => CycleStateView::Idle,
            CycleState::Running => CycleStateView::Running,
            CycleState::AwaitingBalance => CycleStateView::AwaitingBalance,
            CycleState::AwaitingPositions { balance } => CycleStateView::AwaitingPositions {
                balance: balance@,
            },
            CycleState::AwaitingClosedPnl {
                balance,
                open_positions,
                unrealised_pnl,
            } => CycleStateView::AwaitingClosedPnl {
                balance: balance@,
                open_positions: *open_positions as nat,
                unrealised_pnl: texts_view(unrealised_pnl@),
            },
            CycleState::AwaitingTotals { balance, open_positions } => CycleStateView::AwaitingTotals {
                balance: balance@,
                open_positions: *open_positions as nat,
            },
            CycleState::AwaitingDelivery => CycleStateView::AwaitingDelivery,
        }
    }
}

impl View for CycleEvent {
    type V = CycleEventView;

    open spec fn view(&self) -> CycleEventView {
        match self {
            CycleEvent::Tick => CycleEventView::Tick,
            CycleEvent::Balance(outcome) => CycleEventView::Balance(text_view(*outcome)),
            CycleEvent::Positions(outcome) => CycleEventView::Positions(list_view(*outcome)),
            CycleEvent::ClosedPnl(outcome) => CycleEventView::ClosedPnl(list_view(*outcome)),
            CycleEvent::Totals { last_pnl, current_pnl, generated_at } => CycleEventView::Totals {
                last_pnl: last_pnl@,
                current_pnl: current_pnl@,
                generated_at: generated_at@,
            },
            CycleEvent::Delivery(outcome) => CycleEventView::Delivery(unit_view(*outcome)),
        }
    }
}

impl View for CycleAction {
    type V = CycleActionView;

    open spec fn view(&self) -> CycleActionView {
        match self {
            CycleAction::Schedule { period_secs } => CycleActionView::Schedule {
                period_secs: *period_secs,
            },
            CycleAction::FetchBalance => CycleActionView::FetchBalance,
            CycleAction::FetchPositions { limit } => CycleActionView::FetchPositions {
                limit: *limit,
            },
            CycleAction::FetchClosedPnl { limit } => CycleActionView::FetchClosedPnl {
                limit: *limit,
            },
            CycleAction::Total { closed_pnl, unrealised_pnl } => CycleActionView::Total {
                closed_pnl: texts_view(closed_pnl@),
                unrealised_pnl: texts_view(unrealised_pnl@),
            },
            CycleAction::Send { message } => CycleActionView::Send { message: message@ },
            CycleAction::Wait => CycleActionView::Wait,
        }
    }
}

impl View for Transition {
    type V = TransitionView;

    open spec fn view(&self) -> TransitionView {
        TransitionView {
            state: self.state@,
            diagnostic: match self.diagnostic {
                Some(line) => Some(line@),
                None => None,
            },
            action: self.action@,
        }
    }
}

/// The line that reports a failed step: what failed, then the error.
pub open spec fn failure_line(what: Seq<char>, error: ServiceErrorView) -> Seq<char> {
    what + error.message()
}

/// The line that reports the failure of a step, if it failed.
pub open spec fn diagnostic_of<T>(what: Seq<char>, outcome: Result<T, ServiceErrorView>) -> Option<
    Seq<char>,
> {
    match outcome {
        Ok(_) => None,
        Err(error) => Some(failure_line(what, error)),
    }
}

/// The balance as the report shows it: the balance, or the marker that
/// stands for one that could not be had.
pub open spec fn balance_shown(outcome: Result<Seq<char>, ServiceErrorView>) -> Seq<char> {
    match outcome {
        Ok(balance) => balance,
        Err(_) => BALANCE_UNAVAILABLE@,
    }
}

/// The list that a cycle goes on with: the list, or an empty one in place
/// of a list that could not be had.
pub open spec fn items_or_none(outcome: Result<Seq<JsonView>, ServiceErrorView>) -> Seq<
    JsonView,
> {
    match outcome {
        Ok(items) => items,
        Err(_) => Seq::empty(),
    }
}

/// A step that changes nothing: the event is not the one that the state
/// waits for.
pub open spec fn stay(state: CycleStateView) -> TransitionView {
    TransitionView { state, diagnostic: None, action: CycleActionView::Wait }
}

/// One step of a cycle for the account labelled `account`: the state
/// after `event` in `state`, the line that reports a failure, and the next
/// action.
pub open spec fn next_step(
    account: Seq<char>,
    state: CycleStateView,
    event: CycleEventView,
) -> TransitionView {
    match state {
        CycleStateView::Idle => stay(state),
        CycleStateView::Running => match event {
            CycleEventView::Tick => TransitionView {
                state: CycleStateView::AwaitingBalance,
                diagnostic: None,
                action: CycleActionView::FetchBalance,
            },
            _ => stay(state),
        },
        CycleStateView::AwaitingBalance => match event {
            CycleEventView::Balance(outcome) => TransitionView {
                state: CycleStateView::AwaitingPositions { balance: balance_shown(outcome) },
                diagnostic: diagnostic_of("Error getting balance: "@, outcome),
                action: CycleActionView::FetchPositions { limit: POSITIONS_LIMIT },
            },
            _ => stay(state),
        },
        CycleStateView::AwaitingPositions { balance } => match event {
            CycleEventView::Positions(outcome) => TransitionView {
                state: CycleStateView::AwaitingClosedPnl {
                    balance,
                    open_positions: items_or_none(outcome).len(),
                    unrealised_pnl: selected_amounts(
                        items_or_none(outcome),
                        UNREALISED_PNL_FIELD@,
                    ),
                },
                diagnostic: diagnostic_of("Error getting positions: "@, outcome),
                action: CycleActionView::FetchClosedPnl { limit: CLOSED_PNL_LIMIT },
            },
            _ => stay(state),
        },
        CycleStateView::AwaitingClosedPnl { balance, open_positions, unrealised_pnl } => match event {
            CycleEventView::ClosedPnl(outcome) => TransitionView {
                state: CycleStateView::AwaitingTotals { balance, open_positions },
                diagnostic: diagnostic_of("Error getting closed PnL: "@, outcome),
                action: CycleActionView::Total {
                    closed_pnl: selected_amounts(items_or_none(outcome), CLOSED_PNL_FIELD@),
                    unrealised_pnl,
                },
            },
            _ => stay(state),
        },
        CycleStateView::AwaitingTotals { balance, open_positions } => match event {
            CycleEventView::Totals { last_pnl, current_pnl, generated_at } => TransitionView {
                state: CycleStateView::AwaitingDelivery,
                diagnostic: None,
                action: CycleActionView::Send {
                    message: report_text(
                        account,
                        balance,
                        open_positions,
                        last_pnl,
                        current_pnl,
                        generated_at,
                    ),
                },
            },
            _ => stay(state),
        },
        CycleStateView::AwaitingDelivery => match event {
            CycleEventView::Delivery(outcome) => TransitionView {
                state: CycleStateView::Running,
                diagnostic: diagnostic_of("Error sending notification: "@, outcome),
                action: CycleActionView::Wait,
            },
            _ => stay(state),
        },
    }
}

/// The schedule of one account's reports.
#[derive(Debug, Clone)]
pub struct SchedulerService {
    config: Config,
    bybit_service: BybitService,
    telegram_service: TelegramServiceImpl,
}

/// The mathematical value of a [`SchedulerService`]: the label of the
/// account in its reports and the period between two of them, in seconds.
pub ghost struct SchedulerServiceView {
    pub account_type: Seq<char>,
    pub check_interval: u64,
}

impl View for SchedulerService {
    type V = SchedulerServiceView;

    closed spec fn view(&self) -> SchedulerServiceView {
        SchedulerServiceView {
            account_type: self.config.account_type@,
            check_interval: self.config.check_interval,
        }
    }
}

/// The line that reports a failed step.
fn failure_message(what: &str, error: &ServiceError) -> (line: String)
    ensures
        line@ == failure_line(what@, error@),
{
    let mut line = String::from_str(what);
    let message = error.message();
    line.append(message.as_str());
    line
}

/// A step that changes nothing.
fn unchanged(state: CycleState) -> (transition: Transition)
    ensures
        transition@ == stay(state@),
{
    Transition { state, diagnostic: None, action: CycleAction::Wait }
}

impl SchedulerService {
    /// The schedule for the account and the channel of `config`.
    pub fn new(
        config: Config,
        bybit_service: BybitService,
        telegram_service: TelegramServiceImpl,
    ) -> (service: SchedulerService)
        ensures
            service@ == (SchedulerServiceView {
                account_type: config.account_type@,
                check_interval: config.check_interval,
            }),
            service.bybit_service() == bybit_service,
            service.telegram_service() == telegram_service,
    {
        SchedulerService { config, bybit_service, telegram_service }
    }

    /// The account that the reports are about.
    pub closed spec fn bybit_service(&self) -> BybitService {
        self.bybit_service
    }

    /// The channel that the reports go to.
    pub closed spec fn telegram_service(&self) -> TelegramServiceImpl {
        self.telegram_service
    }

    /// The account that the reports are about.
    pub fn account(&self) -> (service: &BybitService)
        ensures
            *service == self.bybit_service(),
    {
        &self.bybit_service
    }

    /// The channel that the reports go to.
    pub fn channel(&self) -> (service: &TelegramServiceImpl)
        ensures
            *service == self.telegram_service(),
    {
        &self.telegram_service
    }

    /// Starts the schedule: from now on a tick is due every period, the
    /// first one after one full period.
    pub fn start(&self) -> (transition: Transition)
        ensures
            transition@ == (TransitionView {
                state: CycleStateView::Running,
                diagnostic: None,
                action: CycleActionView::Schedule { period_secs: self@.check_interval },
            }),
    {
        Transition {
            state: CycleState::Running,
            diagnostic: None,
            action: CycleAction::Schedule { period_secs: self.config.check_interval },
        }
    }

    /// One step of a cycle: see [`next_step`].
    pub fn step(&self, state: CycleState, event: CycleEvent) -> (transition: Transition)
        ensures
            transition@ == next_step(self@.account_type, state@, event@),
    {
        match state {
            CycleState::Idle => unchanged(CycleState::Idle),
            CycleState::Running => match event {
                CycleEvent::Tick => Transition {
                    state: CycleState::AwaitingBalance,
                    diagnostic: None,
                    action: CycleAction::FetchBalance,
                },
                _ => unchanged(CycleState::Running),
            },
            CycleState::AwaitingBalance => match event {
                CycleEvent::Balance(outcome) => {
                    let (balance, diagnostic) = match outcome {
                        Ok(balance) => (balance, None),
                        Err(error) => (
                            String::from_str(BALANCE_UNAVAILABLE),
                            Some(failure_message("Error getting balance: ", &error)),
                        ),
                    };
                    Transition {
                        state: CycleState::AwaitingPositions { balance },
                        diagnostic,
                        action: CycleAction::FetchPositions { limit: POSITIONS_LIMIT },
                    }
                },
                _ => unchanged(CycleState::AwaitingBalance),
            },
            CycleState::AwaitingPositions { balance } => match event {
                CycleEvent::Positions(outcome) => {
                    let (positions, diagnostic) = match outcome {
                        Ok(positions) => (positions, None),
                        Err(error) => (
                            Vec::new(),
                            Some(failure_message("Error getting positions: ", &error)),
                        ),
                    };
                    assert(items_view(positions@) =~= items_or_none(list_view(outcome)));
                    let unrealised_pnl = select_amounts(&positions, UNREALISED_PNL_FIELD);
                    Transition {
                        state: CycleState::AwaitingClosedPnl {
                            balance,
                            open_positions: positions.len(),
                            unrealised_pnl,
                        },
                        diagnostic,
                        action: CycleAction::FetchClosedPnl { limit: CLOSED_PNL_LIMIT },
                    }
                },
                _ => unchanged(CycleState::AwaitingPositions { balance }),
            },
            CycleState::AwaitingClosedPnl { balance, open_positions, unrealised_pnl } => match event {
                CycleEvent::ClosedPnl(outcome) => {
                    let (closed, diagnostic) = match outcome {
                        Ok(closed) => (closed, None),
                        Err(error) => (
                            Vec::new(),
                            Some(failure_message("Error getting closed PnL: ", &error)),
                        ),
                    };
                    assert(items_view(closed@) =~= items_or_none(list_view(outcome)));
                    let closed_pnl = select_amounts(&closed, CLOSED_PNL_FIELD);
                    Transition {
                        state: CycleState::AwaitingTotals { balance, open_positions },
                        diagnostic,
                        action: CycleAction::Total { closed_pnl, unrealised_pnl },
                    }
                },
                _ => unchanged(
                    CycleState::AwaitingClosedPnl { balance, open_positions, unrealised_pnl },
                ),
            },
            CycleState::AwaitingTotals { balance, open_positions } => match event {
                CycleEvent::Totals { last_pnl, current_pnl, generated_at } => {
                    let message = format_report(
                        self.config.account_type.as_str(),
                        balance.as_str(),
                        open_positions,
                        last_pnl.as_str(),
                        current_pnl.as_str(),
                        generated_at.as_str(),
                    );
                    Transition {
                        state: CycleState::AwaitingDelivery,
                        diagnostic: None,
                        action: CycleAction::Send { message },
                    }
                },
                _ => unchanged(CycleState::AwaitingTotals { balance, open_positions }),
            },
            CycleState::AwaitingDelivery => match event {
                CycleEvent::Delivery(outcome) => {
                    let diagnostic = match outcome {
                        Ok(_) => None,
                        Err(error) => Some(
                            failure_message("Error sending notification: ", &error),
                        ),
                    };
                    Transition {
                        state: CycleState::Running,
                        diagnostic,
                        action: CycleAction::Wait,
                    }
                },
                _ => unchanged(CycleState::AwaitingDelivery),
            },
        }
    }
}

/// The state of a cycle once its tick and the outcomes of the three reads
/// have been handed in, in order.
pub open spec fn state_after_reads(
    account: Seq<char>,
    balance: Result<Seq<char>, ServiceErrorView>,
    positions: Result<Seq<JsonView>, ServiceErrorView>,
    closed_pnl: Result<Seq<JsonView>, ServiceErrorView>,
) -> TransitionView {
    let ticked = next_step(account, CycleStateView::Running, CycleEventView::Tick);
    let with_balance = next_step(account, ticked.state, CycleEventView::Balance(balance));
    let with_positions = next_step(
        account,
        with_balance.state,
        CycleEventView::Positions(positions),
    );
    next_step(account, with_positions.state, CycleEventView::ClosedPnl(closed_pnl))
}

/// A cycle never stops short of its report. Whatever the three reads give,
/// success or failure each on its own, the cycle asks for the two sums over
/// the amounts that the lists hold, and then sends one report: with the
/// balance or the marker in its place, and with the number of positions
/// that were had. Whatever the delivery gives, the schedule is then back
/// between two cycles.
pub proof fn lemma_cycle_always_reports(
    account: Seq<char>,
    balance: Result<Seq<char>, ServiceErrorView>,
    positions: Result<Seq<JsonView>, ServiceErrorView>,
    closed_pnl: Result<Seq<JsonView>, ServiceErrorView>,
    last_pnl: Seq<char>,
    current_pnl: Seq<char>,
    generated_at: Seq<char>,
    delivery: Result<(), ServiceErrorView>,
)
    ensures
        state_after_reads(account, balance, positions, closed_pnl).action == (
        CycleActionView::Total {
            closed_pnl: selected_amounts(items_or_none(closed_pnl), CLOSED_PNL_FIELD@),
            unrealised_pnl: selected_amounts(items_or_none(positions), UNREALISED_PNL_FIELD@),
        }),
        next_step(
            account,
            state_after_reads(account, balance, positions, closed_pnl).state,
            CycleEventView::Totals { last_pnl, current_pnl, generated_at },
        ) == (TransitionView {
            state: CycleStateView::AwaitingDelivery,
            diagnostic: None,
            action: CycleActionView::Send {
                message: report_text(
                    account,
                    balance_shown(balance),
                    items_or_none(positions).len(),
                    last_pnl,
                    current_pnl,
                    generated_at,
                ),
            },
        }),
        next_step(
            account,
            CycleStateView::AwaitingDelivery,
            CycleEventView::Delivery(delivery),
        ).state == CycleStateView::Running,
{
}

/// Where all three reads fail, the report still goes out and is not empty:
/// it shows the marker in place of the balance and no open position, and
/// the two sums are made over no amounts at all.
pub proof fn lemma_failed_reads_still_report(
    account: Seq<char>,
    balance_error: ServiceErrorView,
    positions_error: ServiceErrorView,
    closed_pnl_error: ServiceErrorView,
    last_pnl: Seq<char>,
    current_pnl: Seq<char>,
    generated_at: Seq<char>,
)
    ensures
        state_after_reads(
            account,
            Err(balance_error),
            Err(positions_error),
            Err(closed_pnl_error),
        ).action == (CycleActionView::Total {
            closed_pnl: Seq::empty(),
            unrealised_pnl: Seq::empty(),
        }),
        next_step(
            account,
            state_after_reads(
                account,
                Err(balance_error),
                Err(positions_error),
                Err(closed_pnl_error),
            ).state,
            CycleEventView::Totals { last_pnl, current_pnl, generated_at },
        ).action == (CycleActionView::Send {
            message: report_text(
                account,
                BALANCE_UNAVAILABLE@,
                0,
                last_pnl,
                current_pnl,
                generated_at,
            ),
        }),
        report_text(account, BALANCE_UNAVAILABLE@, 0, last_pnl, current_pnl, generated_at).len()
            > 0,
{
    lemma_report_is_never_empty(
        account,
        BALANCE_UNAVAILABLE@,
        0,
        last_pnl,
        current_pnl,
        generated_at,
    );
    assert(selected_amounts(Seq::<JsonView>::empty(), CLOSED_PNL_FIELD@) =~= Seq::<
        Seq<char>,
    >::empty());
    assert(selected_amounts(Seq::<JsonView>::empty(), UNREALISED_PNL_FIELD@) =~= Seq::<
        Seq<char>,
    >::empty());
}

/// An event that the state does not wait for changes nothing: a tick that
/// comes while a cycle is under way starts no second one.
pub proof fn lemma_tick_during_cycle_is_ignored(account: Seq<char>, state: CycleStateView)
    requires
        state != CycleStateView::Running,
    ensures
        next_step(account, state, CycleEventView::Tick) == stay(state),
{
}

} // verus!
