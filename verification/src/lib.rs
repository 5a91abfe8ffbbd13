pub mod client;
pub mod error;
pub mod helpers;
pub mod json;
pub mod request;
pub mod socket;
pub mod subscriptions;
pub mod text;
pub mod types;
