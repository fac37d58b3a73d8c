//! Tunnel configuration and upgrade rules for a TCP/UDP over WebSocket tunnel.

pub mod addr;
pub mod config;
pub mod parse;
pub mod session;
pub mod text;
pub mod upgrade;
