//! Verified core of a messaging backend: configuration, sessions, tokens,
//! rate limiting, circuit breaking, request validation and the decisions that
//! the HTTP and WebSocket handlers take.

pub mod config;
pub mod decimal;
pub mod text;
pub mod auth_error;
pub mod clock;
pub mod session;
pub mod tokens;
pub mod jwt;
pub mod app_error;
pub mod password;
pub mod requests;
pub mod circuit_breaker;
pub mod metrics;
pub mod metric_ids;
pub mod server_settings;
pub mod rate_limit;
pub mod security;
pub mod health;
pub mod request_auth;
pub mod signaling;
pub mod chat_session;
pub mod refusal;
pub mod messaging;
pub mod groups;
pub mod email;
pub mod accounts;
pub mod uploads;
pub mod api_types;
