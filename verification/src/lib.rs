//! Implements the [packet-stream protocol](https://github.com/ssbc/packet-stream).
use vstd::prelude::*;

pub mod codec;
pub mod ids;
pub mod io;
pub mod mux;
mod outside;
pub mod ps;
pub mod wire;

pub use crate::mux::{
    get_id, packet_stream, ConnectionError, InRequest, InResponse, IncomingPacket, Metadata,
    OutRequest, OutResponse, PacketType, PsIn, PsOut, PsSink, PsStream,
};

verus! {

} // verus!
