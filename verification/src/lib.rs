//! The tools of a paper-search server and the HTTP calls behind them.
//!
//! The library decides which HTTP request stands for a tool call and what the
//! answer of the backend means for the caller of the tool. It sends nothing
//! itself: the program that embeds it performs each request and hands back
//! the status and the body that came.

pub mod config;
pub mod search;
pub mod server;
pub mod text;
