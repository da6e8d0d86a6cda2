//! The account data service: the three reads of an account and what each
//! takes out of the answer.

use crate::constants::api::BYBIT_BASE_URL;
use crate::error::{list_view, outcome_view, text_view, ServiceError, ServiceErrorView};
use crate::http::{HttpRequest, HttpResponse};
use crate::json::{items_view, json_from_str, Json, JsonView};
use crate::services::api::bybit::{envelope_outcome, BybitApiClient, BybitApiClientView};
use crate::text::{decimal, push_decimal};
use vstd::prelude::*;

verus! {

/// The items under `result.list` of a response; a parse error where there
/// is no array at that place.
pub open spec fn list_of(doc: JsonView) -> Result<Seq<JsonView>, ServiceErrorView> {
    match doc.member("result"@).member("list"@).as_array() {
        Some(items) => Ok(items),
        None => Err(ServiceErrorView::ParseError("'list' not found or not an array"@)),
    }
}

/// The total equity that a wallet response reports, as the text in which
/// the response writes it: the string `totalEquity` of the first item of the
/// list. A parse error says which of these is missing.
pub open spec fn equity_of(doc: JsonView) -> Result<Seq<char>, ServiceErrorView> {
    match list_of(doc) {
        Err(error) => Err(error),
        Ok(items) => if items.len() == 0 {
            Err(ServiceErrorView::ParseError("'list' is empty"@))
        } else {
            match items[0].member("totalEquity"@).as_str() {
                Some(text) => Ok(text),
                None => Err(
                    ServiceErrorView::ParseError("'totalEquity' not found or not a string"@),
                ),
            }
        },
    }
}

/// The list that a call gives, from what the call itself gave.
pub open spec fn list_from(outcome: Result<JsonView, ServiceErrorView>) -> Result<
    Seq<JsonView>,
    ServiceErrorView,
> {
    match outcome {
        Ok(doc) => list_of(doc),
        Err(error) => Err(error),
    }
}

/// The equity that a call gives, from what the call itself gave.
pub open spec fn equity_from(outcome: Result<JsonView, ServiceErrorView>) -> Result<
    Seq<char>,
    ServiceErrorView,
> {
    match outcome {
        Ok(doc) => equity_of(doc),
        Err(error) => Err(error),
    }
}

/// The query of the wallet balance of an account of the given type.
pub open spec fn balance_params(account_type: Seq<char>) -> Seq<char> {
    "accountType="@ + account_type
}

/// The query of at most `limit` open positions.
pub open spec fn positions_params(limit: u32) -> Seq<char> {
    "category=linear&settleCoin=USDT&limit="@ + decimal(limit as nat)
}

/// The query of at most `limit` closed trades.
pub open spec fn closed_pnl_params(limit: u32) -> Seq<char> {
    "category=linear&limit="@ + decimal(limit as nat)
}

/// An account: its API client and its type.
#[derive(Debug, Clone)]
pub struct BybitService {
    client: BybitApiClient,
    account_type: String,
}

/// The mathematical value of a [`BybitService`].
pub ghost struct BybitServiceView {
    pub client: BybitApiClientView,
    pub account_type: Seq<char>,
}

impl View for BybitService {
    type V = BybitServiceView;

    closed spec fn view(&self) -> BybitServiceView {
        BybitServiceView { client: self.client@, account_type: self.account_type@ }
    }
}

impl BybitService {
    /// The service for the account with this key, secret and type.
    pub fn new(api_key: String, api_secret: String, account_type: String) -> (service:
        BybitService)
        ensures
            service@.account_type == account_type@,
            service@.client == (BybitApiClientView {
                api_key: api_key@,
                api_secret: api_secret@,
                base_url: BYBIT_BASE_URL@,
            }),
    {
        let client = BybitApiClient::new(api_key, api_secret);
        BybitService { client, account_type }
    }

    /// Signs a request made at `timestamp` with the query `params`.
    pub fn generate_signature(
        &self,
        timestamp: &str,
        recv_window: &str,
        params: &str,
    ) -> (signature: String)
        ensures
            signature@ == self@.client.signature(timestamp@, recv_window@, params@),
            signature@.len() == 64,
    {
        self.client.generate_signature(timestamp, recv_window, params)
    }

    /// The signed request for `endpoint` with the query `params`, made at
    /// `timestamp_ms` milliseconds after the epoch.
    pub fn make_request(&self, endpoint: &str, params: &str, timestamp_ms: u128) -> (request:
        HttpRequest)
        ensures
            request@ == self@.client.signed_request(endpoint@, params@, timestamp_ms as nat),
    {
        self.client.make_request(endpoint, params, timestamp_ms)
    }

    /// Reads the response to a request: parses its body and checks its
    /// status and its envelope.
    pub fn read_response(&self, response: &HttpResponse) -> (outcome: Result<Json, ServiceError>)
        ensures
            outcome_view(outcome) == envelope_outcome(response@, json_from_str(response.body@)),
    {
        self.client.read_response(response)
    }

    /// The items under `result.list` of a response.
    pub fn extract_list(&self, response: Json) -> (outcome: Result<Vec<Json>, ServiceError>)
        ensures
            list_view(outcome) == list_of(response@),
    {
        match response.into_member("result").into_member("list").into_array() {
            Some(items) => Ok(items),
            None => Err(
                ServiceError::ParseError(String::from_str("'list' not found or not an array")),
            ),
        }
    }

    /// The total equity that a wallet response reports, as the text in
    /// which the response writes it.
    pub fn extract_equity(&self, response: Json) -> (outcome: Result<String, ServiceError>)
        ensures
            text_view(outcome) == equity_of(response@),
    {
        let items = match self.extract_list(response) {
            Ok(items) => items,
            Err(error) => {
                return Err(error);
            },
        };
        if items.len() == 0 {
            return Err(ServiceError::ParseError(String::from_str("'list' is empty")));
        }
        assert(items_view(items@)[0] == items@[0]@);
        let equity = match items[0].get("totalEquity") {
            Some(value) => value.as_str(),
            None => None,
        };
        match equity {
            Some(text) => Ok(String::from_str(text)),
            None => Err(
                ServiceError::ParseError(
                    String::from_str("'totalEquity' not found or not a string"),
                ),
            ),
        }
    }

    /// The request for the wallet balance, made at `timestamp_ms`.
    pub fn balance_request(&self, timestamp_ms: u128) -> (request: HttpRequest)
        ensures
            request@ == self@.client.signed_request(
                "account/wallet-balance"@,
                balance_params(self@.account_type),
                timestamp_ms as nat,
            ),
    {
        let mut params = String::from_str("accountType=");
        params.append(self.account_type.as_str());
        self.make_request("account/wallet-balance", params.as_str(), timestamp_ms)
    }

    /// The request for at most `limit` open positions, made at
    /// `timestamp_ms`.
    pub fn positions_request(&self, limit: u32, timestamp_ms: u128) -> (request: HttpRequest)
        ensures
            request@ == self@.client.signed_request(
                "position/list"@,
                positions_params(limit),
                timestamp_ms as nat,
            ),
    {
        let mut params = String::from_str("category=linear&settleCoin=USDT&limit=");
        push_decimal(&mut params, limit as u128);
        self.make_request("position/list", params.as_str(), timestamp_ms)
    }

    /// The request for at most `limit` closed trades, made at
    /// `timestamp_ms`.
    pub fn closed_pnl_request(&self, limit: u32, timestamp_ms: u128) -> (request: HttpRequest)
        ensures
            request@ == self@.client.signed_request(
                "position/closed-pnl"@,
                closed_pnl_params(limit),
                timestamp_ms as nat,
            ),
    {
        let mut params = String::from_str("category=linear&limit=");
        push_decimal(&mut params, limit as u128);
        self.make_request("position/closed-pnl", params.as_str(), timestamp_ms)
    }

    /// The total equity that the response to a balance request reports, as
    /// the text in which it is written.
    pub fn get_balance(&self, response: &HttpResponse) -> (outcome: Result<String, ServiceError>)
        ensures
            text_view(outcome) == equity_from(
                envelope_outcome(response@, json_from_str(response.body@)),
            ),
    {
        match self.read_response(response) {
            Ok(doc) => self.extract_equity(doc),
            Err(error) => Err(error),
        }
    }

    /// The positions that the response to a positions request lists.
    pub fn get_positions(&self, response: &HttpResponse) -> (outcome: Result<
        Vec<Json>,
        ServiceError,
    >)
        ensures
            list_view(outcome) == list_from(
                envelope_outcome(response@, json_from_str(response.body@)),
            ),
    {
        match self.read_response(response) {
            Ok(doc) => self.extract_list(doc),
            Err(error) => Err(error),
        }
    }

    /// The closed trades that the response to a closed-PnL request lists.
    pub fn get_closed_pnl(&self, response: &HttpResponse) -> (outcome: Result<
        Vec<Json>,
        ServiceError,
    >)
        ensures
            list_view(outcome) == list_from(
                envelope_outcome(response@, json_from_str(response.body@)),
            ),
    {
        match self.read_response(response) {
            Ok(doc) => self.extract_list(doc),
            Err(error) => Err(error),
        }
    }
}

} // verus!
