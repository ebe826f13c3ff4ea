pub mod auth;
pub mod incidents;
pub mod messages;
pub mod releases;
pub mod rule_engine;
pub mod teams;
