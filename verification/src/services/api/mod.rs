//! The two API clients: what each sends and how it reads the answer.

pub mod bybit;
pub mod telegram;
