//! Newsletter subscriptions with double opt-in: validated subscriber input,
//! confirmation tokens, a transactional subscription store, the registration
//! and confirmation workflow, and the newsletter fan-out.

pub mod configuration;
pub mod dispatch;
pub mod domain;
pub mod message;
pub mod store;
pub mod token;
pub mod workflow;
