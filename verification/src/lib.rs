pub mod commands;
pub mod crypt;
pub mod keys;
pub mod logger;
pub mod structs;
