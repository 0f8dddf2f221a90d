//! Verified core of an ActivityPub bot server whose bots answer mentions with
//! replies produced by a language model, and of the load tester that drives it.

pub mod urls;
pub mod text;
pub mod sessions;
pub mod errors;
pub mod model_config;
pub mod users;
pub mod activities;
pub mod ids;
pub mod context;
pub mod handler;
pub mod tester;
pub mod timings;
