//! Fixed names and addresses of the two remote APIs.

pub mod api;
