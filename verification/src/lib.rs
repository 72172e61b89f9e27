//! An OAuth2 authorization-code relying party, reduced to its decisions.
//!
//! The crate issues sign-in links, validates the provider's redirect
//! callback, keeps the most recent access token and prepares the event that
//! announces a new session. Network traffic is left to the caller: every
//! function here works on plain values and says in its contract what it
//! returns.

pub mod config;
pub mod csrf;
pub mod event;
pub mod flow;
pub mod http;
pub mod provider;
pub mod service;
