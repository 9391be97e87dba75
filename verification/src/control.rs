//! The in-process channels that carry commands and responses in the client.

use crate::protocol::{Command, Response};
use std::sync::mpsc::{Receiver, Sender};
use vstd::prelude::*;

verus! {

#[verifier::external_type_specification]
#[verifier::external_body]
#[verifier::reject_recursive_types(T)]
pub struct ExSender<T>(Sender<T>);

#[verifier::external_type_specification]
#[verifier::external_body]
#[verifier::reject_recursive_types(T)]
pub struct ExReceiver<T>(Receiver<T>);

/// Whether the sending end `sx` and the receiving end `rx` belong to one
/// channel of commands: what is sent on `sx` is received on `rx`.
pub uninterp spec fn command_ends(sx: Sender<Command>, rx: Receiver<Command>) -> bool;

/// Whether the sending end `sx` and the receiving end `rx` belong to one
/// channel of responses.
pub uninterp spec fn response_ends(sx: Sender<Response>, rx: Receiver<Response>) -> bool;

/// `std::sync::mpsc::channel::<Command>`: a new channel, as its sending and
/// its receiving end, which belong to it. What the channel holds later
/// depends on what every holder of the sending end sends, so it is not
/// named here.
#[verifier::external_body]
fn open_command_channel() -> (r: (Sender<Command>, Receiver<Command>))
    ensures
        command_ends(r.0, r.1),
{
    std::sync::mpsc::channel()
}

/// `std::sync::mpsc::channel::<Response>`, as for [`open_command_channel`].
#[verifier::external_body]
fn open_response_channel() -> (r: (Sender<Response>, Receiver<Response>))
    ensures
        response_ends(r.0, r.1),
{
    std::sync::mpsc::channel()
}

/// Both ends of a channel of commands.
pub struct CommandTransmitter {
    pub sx: Sender<Command>,
    pub rx: Receiver<Command>,
}

/// Both ends of a channel of responses.
pub struct ResponseTransmitter {
    pub sx: Sender<Response>,
    pub rx: Receiver<Response>,
}

impl CommandTransmitter {
    /// A new channel of commands.
    pub fn default() -> (r: Self)
        ensures
            command_ends(r.sx, r.rx),
    {
        let (sx, rx) = open_command_channel();
        CommandTransmitter { rx, sx }
    }
}

impl ResponseTransmitter {
    /// A new channel of responses.
    pub fn default() -> (r: Self)
        ensures
            response_ends(r.sx, r.rx),
    {
        let (sx, rx) = open_response_channel();
        ResponseTransmitter { rx, sx }
    }
}

/// The two ends of a new channel of commands.
pub fn init_command_transmitter() -> (r: (Sender<Command>, Receiver<Command>))
    ensures
        command_ends(r.0, r.1),
{
    let cmd_tns = CommandTransmitter::default();
    (cmd_tns.sx, cmd_tns.rx)
}

} // verus!
