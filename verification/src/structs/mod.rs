pub mod keys;
pub mod message;
pub mod user;
