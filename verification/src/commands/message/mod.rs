pub mod send_message;
