//! The web surface's side of the node: which port it listens on, what a
//! request body becomes, and what is answered.

use vstd::prelude::*;
use crate::command::NodeCommand;
use crate::dm::{text_of, utf8_lossy};

verus! {

/// The longest body of a log request that is taken, in bytes: 16 KiB.
pub const MAX_LOG_BODY: u64 = 16384;

/// The status of a request that was handed to the node loop.
pub const STATUS_OK: u16 = 200;

/// The status of a request that could not be handed to the node loop.
pub const STATUS_INTERNAL_ERROR: u16 = 500;

/// The two requests that hand a command to the node loop.
#[derive(Clone, Copy, Debug, PartialEq, Eq)]
pub enum ApiCall {
    /// `POST /api/log`
    Log,
    /// `POST /api/dm`
    Dm,
}

/// The answer to a request: a status and a short text.
#[derive(Clone, Copy, Debug, PartialEq, Eq)]
pub struct HttpReply {
    pub status: u16,
    pub body: &'static str,
}

/// The port of the web surface of the node on `node_port`: the next
/// port, or `None` where there is none.
pub fn http_port(node_port: u16) -> (port: Option<u16>)
    ensures
        port == if node_port < u16::MAX {
            Some((node_port + 1) as u16)
        } else {
            None
        },
{
    if node_port < u16::MAX {
        Some(node_port + 1)
    } else {
        None
    }
}

/// The command that the body of a log request stands for: the body as
/// text becomes a log entry.
pub fn log_command(body: &[u8]) -> (command: NodeCommand)
    ensures
        command matches NodeCommand::Log(message) && message@ == text_of(body@),
{
    NodeCommand::Log(utf8_lossy(body))
}

/// The answer to a request whose command was handed to the node loop
/// (`delivered`), or could not be.
pub fn reply(call: ApiCall, delivered: bool) -> (answer: HttpReply)
    ensures
        answer.status == if delivered {
            STATUS_OK
        } else {
            STATUS_INTERNAL_ERROR
        },
        answer.body@ == if !delivered {
            "Internal Error"@
        } else if call == ApiCall::Log {
            "Logged"@
        } else {
            "Sent"@
        },
{
    if !delivered {
        HttpReply { status: STATUS_INTERNAL_ERROR, body: "Internal Error" }
    } else {
        match call {
            ApiCall::Log => HttpReply { status: STATUS_OK, body: "Logged" },
            ApiCall::Dm => HttpReply { status: STATUS_OK, body: "Sent" },
        }
    }
}

} // verus!
