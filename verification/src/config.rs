//! What the process is configured with.

use crate::text::{parse_u64, parsed_u64};
use vstd::prelude::*;

verus! {

/// The period between two reports, in seconds, where none can be read from
/// the configuration.
pub const DEFAULT_CHECK_INTERVAL: u64 = 3600;

/// The keys, the chat and the period that the process runs with.
#[derive(Debug, Clone)]
pub struct Config {
    pub bybit_api_key: String,
    pub bybit_api_secret: String,
    pub telegram_bot_token: String,
    pub telegram_group_id: String,
    pub check_interval: u64,
    pub account_type: String,
}

/// The period that the text `interval` sets: the number of seconds that it
/// writes, or the default where it writes no `u64`.
pub open spec fn check_interval_of(interval: Seq<char>) -> u64 {
    match parsed_u64(interval) {
        Some(seconds) => seconds,
        None => DEFAULT_CHECK_INTERVAL,
    }
}

impl Config {
    /// The configuration with these values; the period is read from the
    /// text `check_interval`.
    pub fn new(
        bybit_api_key: String,
        bybit_api_secret: String,
        account_type: String,
        telegram_bot_token: String,
        telegram_group_id: String,
        check_interval: &str,
    ) -> (config: Config)
        ensures
            config.bybit_api_key@ == bybit_api_key@,
            config.bybit_api_secret@ == bybit_api_secret@,
            config.account_type@ == account_type@,
            config.telegram_bot_token@ == telegram_bot_token@,
            config.telegram_group_id@ == telegram_group_id@,
            config.check_interval == check_interval_of(check_interval@),
    {
        let seconds = match parse_u64(check_interval) {
            Some(seconds) => seconds,
            None => DEFAULT_CHECK_INTERVAL,
        };
        Config {
            bybit_api_key,
            bybit_api_secret,
            telegram_bot_token,
            telegram_group_id,
            check_interval: seconds,
            account_type,
        }
    }
}

} // verus!
