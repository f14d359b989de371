//! Client side of a binary file-transfer protocol carried over a secure
//! channel: the wire codec of its messages (`wire`, `message`), its status
//! vocabulary (`status`), request numbering and reply matching (`client`),
//! and the decisions of a sequential file reader (`reader`). Every function
//! here is verified; moving bytes over a channel is left to the caller.
use vstd::prelude::*;

pub mod client;
pub mod message;
pub mod reader;
pub mod status;
pub mod wire;

verus! {

} // verus!
