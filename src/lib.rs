//! Event dispatch for chat bots: classification of incoming updates into
//! events, typed accessors on events, per-scope state containers, handler
//! actions and the short-circuiting handler chain.

pub mod api;
pub mod chain;
pub mod event;
pub mod handler;
pub mod logging;
pub mod state;
