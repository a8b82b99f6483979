//! Decision logic of an automatic scene switcher for live broadcasts.

pub mod chat;
pub mod config;
pub mod error;
pub mod noalbs;
pub mod state;
pub mod stream_servers;
pub mod switcher;
pub mod text;
