//! Signed requests to an exchange account API, checks of what it answers,
//! and the status report that goes out to a chat channel on every tick.

pub mod config;
pub mod constants;
pub mod error;
pub mod http;
pub mod json;
pub mod report;
pub mod services;
pub mod signature;
pub mod text;
