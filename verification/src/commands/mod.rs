//! The decisions behind the command-line commands.
pub mod account;
pub mod get_context_token;
pub mod login;
pub mod qrcode;
pub mod send;
