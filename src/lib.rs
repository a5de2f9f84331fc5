//! Subscriber registration and confirmation: validated domain values, the
//! decisions of the registration and confirmation workflows, confirmation
//! tokens, and an in-memory model of the subscription ledger.
//!
//! The ledger in `store` holds the rows in memory; the workflows built on it
//! (`register`, `register_new`, `confirm_subscription`) show the all-or-nothing
//! creation and repeatable confirmation on that model. A deployment that keeps
//! the rows in a database performs the same steps there, driven by
//! `next_action`, and answers through `subscription_response` and
//! `confirmation_response`.
pub mod domain;
pub mod store;
pub mod subscriptions;
pub mod token;
