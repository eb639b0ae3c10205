//! Checks a fleet of public resolvers and reports what it finds.

pub mod check;
pub mod config;
pub mod confirm;
pub mod health;
pub mod push;
pub mod text;
pub mod time;
