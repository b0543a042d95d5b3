//! The rows the service stores, one module per table.

pub mod event;
pub mod group;
pub mod member;
pub mod relation;
pub mod session;
pub mod user;
