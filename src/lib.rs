//! Administrative backend logic for a services marketplace: identifiers,
//! credentials, signed admin tokens, request authentication, list queries,
//! partial updates, the service catalogue, subscriptions and notifications.

pub mod admin_auth;
pub mod catalog;
pub mod credentials;
pub mod documents;
pub mod errors;
pub mod guard;
pub mod ids;
pub mod jobs;
pub mod listing;
pub mod models;
pub mod notifications;
pub mod numbers;
pub mod pagination;
pub mod subscriptions;
pub mod text;
pub mod tokens;
pub mod updates;
