//! Ingestion of trading-signal webhooks: the values a signal carries, the
//! record stored for each accepted signal, and the answers of the two
//! HTTP endpoints.
pub mod document;
pub mod health;
pub mod price;
pub mod signal;
