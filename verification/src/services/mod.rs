//! The services: the exchange account, the chat channel and the schedule.

pub mod api;
pub mod bybit_service;
pub mod notification_service;
pub mod scheduler_service;
pub mod telegram_service;
