//! The messages exchanged between the client and the daemon.

use crate::types::{Connection, CurrentConnection, Host, Interface};
use vstd::prelude::*;

verus! {

/// A request from the client.
#[derive(Debug)]
pub enum Command {
    Ping,
    Tick,
    ListConnections,
    ListActiveConnections(Interface),
    CurrentConnection,
    ListInterfaces,
    Connect { host: Host, password: Option<String>, iface: Interface },
    Notification(String),
    ClearNotification,
    Disconnect(String),
    Info(String),
}

/// An answer to a [`Command`].
#[derive(Debug)]
pub enum Response {
    /// A plain acknowledgement.
    Accepted,
    Pong,
    Tick,
    CurrentConnection(Option<Vec<CurrentConnection>>),
    ActiveHosts(String, Vec<Host>),
    SavedHosts(Vec<Connection>),
    AllInterfaces(Vec<Interface>),
    Notification(String),
    Connected,
    Disconnected,
    ClearNotification,
    Error(String),
}

/// The severity of a log line.
#[derive(Debug, Clone, Copy, PartialEq, Eq, Structural)]
pub enum Log {
    Success,
    Failure,
    Info,
    Warn,
}

/// A request about the daemon's list of rejected networks.
#[derive(Debug)]
pub enum EventCommand {
    AddToRejectList(String),
    RemoveFromRejectList(String),
    ListRejectList,
}

/// An answer to an [`EventCommand`].
#[derive(Debug)]
pub enum EventResponse {
    ListRejectList(Vec<String>),
}

} // verus!
