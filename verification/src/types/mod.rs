//! Data types of the WeCom AI bot protocol.

pub mod api;
pub mod common;
pub mod config;
pub mod event;
pub mod message;
