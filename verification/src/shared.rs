pub mod clients;
pub mod clock;
pub mod config;
pub mod crypto;
pub mod error;
pub mod hex;
pub mod json;
pub mod text;
pub mod validation;
pub mod ws;
