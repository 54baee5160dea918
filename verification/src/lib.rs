//! Verified core of a command-line client for WeChat iLink bot accounts.
pub mod account;
pub mod commands;
pub mod context;
pub mod errors;
pub mod outside;
pub mod storage;
pub mod text;
pub mod wechat;
