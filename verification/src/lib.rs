//! The logic of a small lunch-ordering service: the lifecycle of a shared
//! meal, the rules for orders, users, payment methods and provider accounts,
//! and the replies that each request receives.

pub mod common;
pub mod env;
pub mod error;
pub mod meal;
pub mod order;
pub mod paymethod;
pub mod provider;
pub mod user;
