//! A forwarding-and-inspection engine for a WebDriver reverse proxy.
//!
//! The library classifies request paths against the Grid's session
//! collection route, extracts session-lifecycle events from requests,
//! decides the retry and timeout policy for outbound dispatch, and
//! rebuilds the response that is handed back to the client.

pub mod auth;
pub mod config;
pub mod dispatch;
pub mod domain;
pub mod inspector;
pub mod paths;
pub mod proxy;
pub mod store;
