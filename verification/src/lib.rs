//! A two-tier points ledger.
//!
//! Founders hold an allocation of points and push part of it to contracts;
//! contracts turn the points they hold into rewards, which the founder claims
//! back. The crate keeps the two registries and the rules that move points and
//! rewards between them, and proves that every operation either applies its
//! whole effect or rejects the request and leaves both registries as they were.

pub mod error;
pub mod model;
pub mod book;
pub mod founder;
pub mod contract;
pub mod registry;
pub mod request;
pub mod ledger;
pub mod invariants;
pub mod reply;
