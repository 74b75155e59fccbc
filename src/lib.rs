//! A newsletter service's subscriber intake, verified: the domain values that
//! hold a subscriber's name and email address, the decision taken on a
//! submitted subscription form, and the request that notifies a subscriber
//! through a transactional-email provider.
pub mod domain;
pub mod email_client;
pub mod routes;
