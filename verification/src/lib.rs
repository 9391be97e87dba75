//! Beacon: a lightweight WiFi manager.
//!
//! This crate holds the verified logic of the manager: the data model, the
//! parsers for the text and byte formats it reads, and the decisions taken
//! by the daemon and the terminal client.

pub mod mac;
pub mod types;
pub mod protocol;

pub use protocol::{Command, Log, Response};
mod text;
pub mod frontend;
pub mod history;
pub mod backend;
pub mod control;
pub mod dhcp;
pub mod dhcp_storage;
pub mod netlink;
pub mod scan;
pub mod family;
pub mod interfaces;
pub mod route;
pub mod wpa;
pub mod daemon;
pub mod ui;
pub mod nlmsg;
pub mod requests;
pub mod dhcp_out;
