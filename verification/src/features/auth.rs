pub mod dto;
pub mod model;
pub mod oauth;
pub mod service;
