pub mod auth;
pub mod message;
