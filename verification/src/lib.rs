//! Client core for a local messaging daemon that speaks line-delimited JSON
//! over a stream socket: request building, response decoding, a bounded
//! fan-out bus, deadline-bound request correlation, and the dispatcher that
//! keeps the conversation store up to date.

pub mod app;
pub mod bus;
pub mod event;
pub mod focus;
pub mod handlers;
pub mod json;
pub mod network;
pub mod signald;
pub mod text;
