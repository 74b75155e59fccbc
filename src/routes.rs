//! The decisions behind the service's HTTP endpoints.
pub mod subscriptions;
