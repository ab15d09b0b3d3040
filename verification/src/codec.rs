//! Reading packets from a reader and writing them to a writer.
//!
//! Each type here is a state machine that owns its reader or writer and says
//! which I/O call is due. The caller makes the call and hands its outcome back.
use vstd::prelude::*;

use crate::wire::PacketId;

pub mod laws;
pub mod read;
pub mod reports;
pub mod sink;
pub mod write;

pub use crate::codec::read::{DecodedPacket, PSCodecStream, ReadModel, ReadPacket};
pub use crate::codec::sink::{PSCodecSink, SinkIo, SinkModel, StartSend};
pub use crate::codec::write::{WriteKind, WriteModel, WritePacket, WriteZeros};

verus! {

/// The metadata of a packet.
#[derive(Debug, Clone, Copy, PartialEq, Eq)]
pub struct MetaData {
    /// The type of the data, and whether the stream and the end flag are set.
    pub flags: u8,
    /// The id of the packet.
    pub id: PacketId,
}

} // verus!
