pub mod login;
pub mod register;
pub mod response_struct;
