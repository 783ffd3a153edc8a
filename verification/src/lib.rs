//! Message handling for a QQ Bot webhook channel: verified core.
pub mod text;
pub mod config;
pub mod signing;
pub mod routing;
pub mod envelope;
pub mod access;
pub mod outbound;
pub mod token;
pub mod webhook;
