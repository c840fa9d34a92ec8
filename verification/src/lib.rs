//! Verified core of a Linux desktop front end and root helper for OpenVPN.
pub mod text;
pub mod ipc;
pub mod daemon;
pub mod openvpn;
pub mod health;
pub mod paths;
pub mod config;
pub mod vpn;
pub mod ipc_client;
pub mod app_state;
