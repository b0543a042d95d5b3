//! Request handling, data model and schema of a small group/event web service
//! that signs its users in through Discord.

pub mod calendar;
pub mod discord;
pub mod entity;
pub mod event_scheme;
pub mod flow;
pub mod group_scheme;
pub mod http;
pub mod ids;
pub mod migration;
pub mod pages;
pub mod text;
