//! Subscriptions to streams of messages.
pub mod transaction;
pub mod tx;
