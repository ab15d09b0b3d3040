//! Requests and duplexes over a single packet-stream.
//!
//! The packets themselves travel elsewhere: what is sent goes to a sink of packets,
//! and what arrives comes from a stream of packets that hands each packet to
//! whoever waits for its id. The types here say which packets to send, which ids to
//! wait for, and what to make of the packets that arrive.
use vstd::prelude::*;

use crate::codec::MetaData;
use crate::ids;
use crate::io::{Async, AsyncSink, Poll, Progress, SendPoll};
use crate::outside;
use crate::wire::{PacketId, END, STREAM, TYPE, TYPE_BINARY, TYPE_INVALID, TYPE_JSON, TYPE_STRING};

pub mod laws;

verus! {

/// An enumeration representing the different types a packet can have.
#[derive(Debug, Clone, Copy, PartialEq, Eq)]
pub enum PacketType {
    /// Raw binary data.
    Binary,
    /// A utf-8 encoded string.
    String,
    /// A valid piece of json.
    Json,
}

impl PacketType {
    /// The type flags of packets of this type.
    pub open spec fn type_flags(self) -> u8 {
        match self {
            PacketType::Binary => TYPE_BINARY,
            PacketType::String => TYPE_STRING,
            PacketType::Json => TYPE_JSON,
        }
    }

    /// Returns the type flags of packets of this type.
    pub fn flags(&self) -> (r: u8)
        ensures
            r == self.type_flags(),
    {
        match *self {
            PacketType::Binary => outside::type_binary(),
            PacketType::String => outside::type_string(),
            PacketType::Json => outside::type_json(),
        }
    }
}

/// The metadata associated with a packet.
///
/// The packet id is an implementation detail of packet-stream and is thus not
/// exposed.
#[derive(Debug, Copy, Clone, PartialEq, Eq)]
pub struct Metadata {
    /// The type of the packet.
    pub packet_type: PacketType,
    /// Whether the packet has the end/error flag set.
    pub is_end: bool,
}

impl Metadata {
    /// The flags of a packet with this metadata.
    pub open spec fn all_flags(self) -> u8 {
        if self.is_end {
            self.packet_type.type_flags() | END
        } else {
            self.packet_type.type_flags()
        }
    }

    /// The metadata that the flags of a packet stand for.
    pub open spec fn of_flags(flags: u8) -> Metadata
        recommends
            flags & TYPE != TYPE_INVALID,
    {
        Metadata {
            packet_type: if flags & TYPE == TYPE_BINARY {
                PacketType::Binary
            } else if flags & TYPE == TYPE_STRING {
                PacketType::String
            } else {
                PacketType::Json
            },
            is_end: flags & END != 0,
        }
    }

    /// Create new `Metadata`.
    pub fn new(packet_type: PacketType, is_end: bool) -> (r: Metadata)
        ensures
            r == (Metadata { packet_type, is_end }),
    {
        Metadata { packet_type, is_end }
    }

    /// Returns the flags of a packet with this metadata.
    pub fn flags(&self) -> (r: u8)
        ensures
            r == self.all_flags(),
    {
        if self.is_end {
            self.packet_type.flags() | outside::end()
        } else {
            self.packet_type.flags()
        }
    }

    /// Reads the metadata of a packet off its flags. No packet that arrives has the
    /// type flags that are not in use.
    pub fn from_decoded_metadata(metadata: MetaData) -> (r: Metadata)
        requires
            metadata.flags & TYPE != TYPE_INVALID,
        ensures
            r == Metadata::of_flags(metadata.flags),
    {
        let packet_type = if outside::is_buffer_packet(metadata) {
            PacketType::Binary
        } else if outside::is_string_packet(metadata) {
            PacketType::String
        } else if outside::is_json_packet(metadata) {
            PacketType::Json
        } else {
            let ghost flags = metadata.flags;
            assert(flags & 3 == 0 || flags & 3 == 1 || flags & 3 == 2 || flags & 3 == 3)
                by (bit_vector);
            vstd::pervasive::unreached()
        };
        Metadata { packet_type, is_end: outside::is_end_packet(metadata) }
    }

    /// Returns the flags and the id of a packet with this metadata.
    pub fn to_codec_metadata(self, id: PacketId) -> (r: MetaData)
        ensures
            r == (MetaData { flags: self.all_flags(), id }),
    {
        MetaData { flags: self.flags(), id }
    }
}

/// Returns the id of a packet, by which it finds whoever waits for it.
pub fn get_id<D>(item: &(D, MetaData)) -> (r: PacketId)
    ensures
        r == item.1.id,
{
    item.1.id
}

/// Creates the two halves of a packet-stream.
pub fn packet_stream() -> (r: (PsIn, PsOut))
    ensures
        r.0.wf(),
        r.0@ == 1,
        r.1.wf(),
        r.1@ == 1,
{
    (PsIn { accepted_id: 1 }, PsOut { id_counter: 1 })
}

/// The metadata of the packet of a request with the given id.
pub open spec fn request_packet(t: PacketType, id: PacketId) -> MetaData {
    MetaData { flags: t.type_flags(), id }
}

/// The metadata of the packet that responds to a request with the given id.
pub open spec fn response_packet(metadata: Metadata, id: PacketId) -> MetaData {
    MetaData { flags: metadata.all_flags(), id: ids::answering(id) }
}

/// The metadata of the packet of an item that is sent with the given id.
pub open spec fn item_packet(metadata: Metadata, id: PacketId) -> MetaData {
    MetaData { flags: metadata.all_flags() | STREAM, id }
}

/// What a packet that was accepted opens.
pub enum Incoming {
    /// A request, with the id that it has.
    Request(PacketId),
    /// A duplex, with the id of the packets to send, and that of the packets to wait
    /// for.
    Duplex(PacketId, PacketId),
}

/// What a packet opens when it is accepted.
pub open spec fn incoming(metadata: MetaData) -> Incoming {
    if metadata.flags & STREAM != 0 {
        Incoming::Duplex(ids::answering(metadata.id), metadata.id)
    } else {
        Incoming::Request(metadata.id)
    }
}

/// An incoming packet, initiated by the peer.
///
/// The enum variants carry values that allow interacting with the peer.
pub enum IncomingPacket {
    /// An incoming request. You get an `InRequest`, the peer got an
    /// `OutRequest` and an `InResponse`.
    Request(InRequest),
    /// A duplex connection initiated by the peer. Both peers get a `PsSink` and
    /// a `PsStream`.
    Duplex(PsSink, PsStream),
}

impl View for IncomingPacket {
    type V = Incoming;

    open spec fn view(&self) -> Incoming {
        match self {
            IncomingPacket::Request(request) => Incoming::Request(request@),
            IncomingPacket::Duplex(sink, stream) => Incoming::Duplex(sink@, stream@),
        }
    }
}

impl IncomingPacket {
    /// A request can be responded to.
    pub open spec fn wf(&self) -> bool {
        self matches IncomingPacket::Request(request) ==> request.wf()
    }
}

/// The requests and duplexes that the peer opens.
pub struct PsIn {
    // The next id to be accepted as an active packet from the peer.
    accepted_id: PacketId,
}

impl View for PsIn {
    type V = PacketId;

    /// The next id to be accepted.
    closed spec fn view(&self) -> PacketId {
        self.accepted_id
    }
}

impl PsIn {
    /// Ids that open a request or duplex are positive.
    pub open spec fn wf(&self) -> bool {
        1 <= self@
    }

    fn increment_accepted(&mut self)
        requires
            old(self).wf(),
        ensures
            final(self).wf(),
            final(self)@ == ids::following(old(self)@),
    {
        self.accepted_id = ids::increment(self.accepted_id);
    }

    /// Takes what polling for a packet that nobody waits for gave. A packet with the
    /// next id opens a request or a duplex. Any other one is ignored, and it is time
    /// to poll again.
    pub fn poll<D, E>(&mut self, outcome: Poll<Option<(D, MetaData)>, E>) -> (r: Progress<
        Option<(D, Metadata, IncomingPacket)>,
        E,
    >)
        requires
            old(self).wf(),
            outcome matches Ok(Async::Ready(Some((_, metadata)))) ==> metadata.id == old(self)@
                ==> metadata.flags & TYPE != TYPE_INVALID,
        ensures
            final(self).wf(),
            match outcome {
                Ok(Async::Ready(Some((data, metadata)))) => if metadata.id == old(self)@ {
                    &&& final(self)@ == ids::following(old(self)@)
                    &&& r matches Progress::Ready(Some((d, m, packet))) && d == data && m
                        == Metadata::of_flags(metadata.flags) && packet.wf() && packet@
                        == incoming(metadata)
                } else {
                    &&& final(self)@ == old(self)@
                    &&& r == Progress::<Option<(D, Metadata, IncomingPacket)>, E>::Continue
                },
                Ok(Async::Ready(None)) => {
                    &&& final(self)@ == old(self)@
                    &&& r == Progress::<Option<(D, Metadata, IncomingPacket)>, E>::Ready(None)
                },
                Ok(Async::NotReady) => {
                    &&& final(self)@ == old(self)@
                    &&& r == Progress::<Option<(D, Metadata, IncomingPacket)>, E>::NotReady
                },
                Err(e) => {
                    &&& final(self)@ == old(self)@
                    &&& r == Progress::<Option<(D, Metadata, IncomingPacket)>, E>::Failed(e)
                },
            },
    {
        match outcome {
            Ok(Async::Ready(Some((data, metadata)))) => {
                if metadata.id == self.accepted_id {
                    self.increment_accepted();
                    let packet = if outside::is_stream_packet(metadata) {
                        let sink_id: PacketId = -metadata.id;
                        let stream_id: PacketId = metadata.id;
                        IncomingPacket::Duplex(PsSink::new(sink_id), PsStream::new(stream_id))
                    } else {
                        IncomingPacket::Request(InRequest::new(metadata.id))
                    };
                    Progress::Ready(
                        Some((data, Metadata::from_decoded_metadata(metadata), packet)),
                    )
                } else {
                    // Packet is neither an incoming request nor does it open
                    // a new stream, so ignore it
                    Progress::Continue
                }
            },
            Ok(Async::Ready(None)) => Progress::Ready(None),
            Ok(Async::NotReady) => Progress::NotReady,
            Err(e) => Progress::Failed(e),
        }
    }
}

/// Opens requests and duplexes.
pub struct PsOut {
    // The id used for the next actively sent packet.
    id_counter: PacketId,
}

impl View for PsOut {
    type V = PacketId;

    /// The id of the next request or duplex.
    closed spec fn view(&self) -> PacketId {
        self.id_counter
    }
}

impl PsOut {
    /// Ids that open a request or duplex are positive.
    pub open spec fn wf(&self) -> bool {
        1 <= self@
    }

    fn next_id(&mut self) -> (r: PacketId)
        requires
            old(self).wf(),
        ensures
            final(self).wf(),
            final(self)@ == ids::following(old(self)@),
            r == old(self)@,
    {
        let ret: PacketId = self.id_counter;
        self.increment_id();
        ret
    }

    fn increment_id(&mut self)
        requires
            old(self).wf(),
        ensures
            final(self).wf(),
            final(self)@ == ids::following(old(self)@),
    {
        self.id_counter = ids::increment(self.id_counter);
    }

    /// Opens a request: a packet to send, and the id of the response to wait for.
    pub fn request<B>(&mut self, data: B, t: PacketType) -> (r: (OutRequest<B>, InResponse))
        requires
            old(self).wf(),
        ensures
            final(self).wf(),
            final(self)@ == ids::following(old(self)@),
            r.0@ == (data, request_packet(t, old(self)@)),
            r.1@ == ids::answering(old(self)@),
    {
        let id: PacketId = self.next_id();
        (OutRequest::new(data, t, id), InResponse::new(-id))
    }

    /// Opens a bidirectional channel.
    pub fn duplex(&mut self) -> (r: (PsSink, PsStream))
        requires
            old(self).wf(),
        ensures
            final(self).wf(),
            final(self)@ == ids::following(old(self)@),
            r.0@ == old(self)@,
            r.1@ == ids::answering(old(self)@),
    {
        let id: PacketId = self.next_id();
        (PsSink::new(id), PsStream::new(-id))
    }
}

/// The sink half of a duplex multiplexed over the packet-stream.
pub struct PsSink {
    id: PacketId,
}

impl View for PsSink {
    type V = PacketId;

    /// The id of the packets that are sent.
    closed spec fn view(&self) -> PacketId {
        self.id
    }
}

impl PsSink {
    fn new(id: PacketId) -> (r: PsSink)
        ensures
            r@ == id,
    {
        PsSink { id }
    }

    /// Returns the packet that sends an item.
    pub fn start_send<B>(&self, item: (B, Metadata)) -> (r: (B, MetaData))
        ensures
            r == (item.0, item_packet(item.1, self@)),
    {
        let flags: u8 = item.1.flags() | outside::stream();
        (item.0, MetaData { flags, id: self.id })
    }

    /// Takes what sending the packet of an item with the given metadata gave.
    pub fn finish_send<B, E>(
        &self,
        metadata: Metadata,
        outcome: SendPoll<(B, MetaData), E>,
    ) -> (r: SendPoll<(B, Metadata), E>)
        ensures
            r == (match outcome {
                Ok(AsyncSink::NotReady((bytes, _))) => Ok(AsyncSink::NotReady((bytes, metadata))),
                Ok(AsyncSink::Ready) => Ok(AsyncSink::Ready),
                Err(e) => Err(e),
            }),
    {
        match outcome {
            Ok(AsyncSink::NotReady((bytes, _))) => Ok(AsyncSink::NotReady((bytes, metadata))),
            Ok(AsyncSink::Ready) => Ok(AsyncSink::Ready),
            Err(e) => Err(e),
        }
    }
}

/// An error indicating what happend on a connection.
#[derive(Debug, PartialEq, Eq, Copy, Clone)]
pub enum ConnectionError {
    /// The peer closed the connection even though this substream was still
    /// waiting for data.
    Closed,
    /// The connection errored.
    Errored,
}

impl ConnectionError {
    /// Returns the name of the error.
    pub fn name(&self) -> (r: &'static str)
        ensures
            r@ == (match *self {
                ConnectionError::Closed => "ConnectionError::Closed"@,
                ConnectionError::Errored => "ConnectionError::Errored"@,
            }),
    {
        match *self {
            ConnectionError::Closed => "ConnectionError::Closed",
            ConnectionError::Errored => "ConnectionError::Errored",
        }
    }

    /// Returns what happened.
    pub fn description(&self) -> (r: &'static str)
        ensures
            r@ == (match *self {
                ConnectionError::Closed => "Peer closed its write-half of the packet-stream"@,
                ConnectionError::Errored => "An error occuded on the packet-stream"@,
            }),
    {
        match *self {
            ConnectionError::Closed => "Peer closed its write-half of the packet-stream",
            ConnectionError::Errored => "An error occuded on the packet-stream",
        }
    }
}

/// The stream half of a duplex multiplexed over the packet-stream.
pub struct PsStream {
    key: PacketId,
}

impl View for PsStream {
    type V = PacketId;

    /// The id of the packets to wait for.
    closed spec fn view(&self) -> PacketId {
        self.key
    }
}

impl PsStream {
    fn new(key: PacketId) -> (r: PsStream)
        ensures
            r@ == key,
    {
        PsStream { key }
    }

    /// Returns the id of the packets to wait for.
    pub fn key(&self) -> (r: PacketId)
        ensures
            r == self@,
    {
        self.key
    }

    /// Takes what polling for a packet with the id gave. If the peer closed the
    /// packet-stream, this gives a `ConnectionError::Closed`. If an error happened,
    /// this gives a `ConnectionError::Errored`.
    ///
    /// Note that this never gives `Ok(Async::Ready(None))`.
    pub fn poll<D>(&self, outcome: Poll<Option<(D, MetaData)>, ()>) -> (r: Poll<
        Option<(D, Metadata)>,
        ConnectionError,
    >)
        requires
            outcome matches Ok(Async::Ready(Some((_, metadata)))) ==> metadata.flags & TYPE
                != TYPE_INVALID,
        ensures
            r == (match outcome {
                Ok(Async::Ready(Some((data, metadata)))) => Ok(
                    Async::Ready(Some((data, Metadata::of_flags(metadata.flags)))),
                ),
                Ok(Async::Ready(None)) => Err(ConnectionError::Closed),
                Ok(Async::NotReady) => Ok(Async::NotReady),
                Err(()) => Err(ConnectionError::Errored),
            }),
            r != Ok::<Async<Option<(D, Metadata)>>, ConnectionError>(Async::Ready(None)),
    {
        match outcome {
            Ok(Async::Ready(Some((data, codec_metadata)))) => Ok(
                Async::Ready(Some((data, Metadata::from_decoded_metadata(codec_metadata)))),
            ),
            Ok(Async::Ready(None)) => Err(ConnectionError::Closed),
            Ok(Async::NotReady) => Ok(Async::NotReady),
            Err(()) => Err(ConnectionError::Errored),
        }
    }
}

/// A request initated by the peer. Drop to ignore it, or use `respond` to send
/// a response.
pub struct InRequest {
    id: PacketId,
}

impl View for InRequest {
    type V = PacketId;

    /// The id of the request.
    closed spec fn view(&self) -> PacketId {
        self.id
    }
}

impl InRequest {
    /// Ids of requests are positive.
    pub open spec fn wf(&self) -> bool {
        1 <= self@
    }

    fn new(id: PacketId) -> (r: InRequest)
        ensures
            r@ == id,
    {
        InRequest { id }
    }

    /// Returns the response to send.
    pub fn respond<B>(self, data: B, metadata: Metadata) -> (r: OutResponse<B>)
        requires
            self.wf(),
        ensures
            r@ == (data, response_packet(metadata, self@)),
    {
        OutResponse::new(-self.id, data, metadata)
    }
}

/// An outgoing request, initated by this packet-stream.
pub struct OutRequest<B> {
    data: B,
    metadata: MetaData,
}

impl<B> View for OutRequest<B> {
    type V = (B, MetaData);

    /// The packet to send.
    closed spec fn view(&self) -> (B, MetaData) {
        (self.data, self.metadata)
    }
}

impl<B> OutRequest<B> {
    fn new(data: B, t: PacketType, id: PacketId) -> (r: OutRequest<B>)
        ensures
            r@ == (data, request_packet(t, id)),
    {
        OutRequest { data, metadata: MetaData { flags: t.flags(), id } }
    }

    /// Returns the packet to send.
    pub fn into_packet(self) -> (r: (B, MetaData))
        ensures
            r == self@,
    {
        (self.data, self.metadata)
    }
}

/// A response that will be received from the peer.
pub struct InResponse {
    key: PacketId,
}

impl View for InResponse {
    type V = PacketId;

    /// The id of the packet to wait for.
    closed spec fn view(&self) -> PacketId {
        self.key
    }
}

impl InResponse {
    fn new(key: PacketId) -> (r: InResponse)
        ensures
            r@ == key,
    {
        InResponse { key }
    }

    /// Returns the id of the packet to wait for.
    pub fn key(&self) -> (r: PacketId)
        ensures
            r == self@,
    {
        self.key
    }

    /// Takes what polling for a packet with the id gave. If the peer closed the
    /// packet-stream, this gives a `ConnectionError::Closed`. If an error happened,
    /// this gives a `ConnectionError::Errored`.
    pub fn poll<D>(&self, outcome: Poll<Option<(D, MetaData)>, ()>) -> (r: Poll<
        (D, Metadata),
        ConnectionError,
    >)
        requires
            outcome matches Ok(Async::Ready(Some((_, metadata)))) ==> metadata.flags & TYPE
                != TYPE_INVALID,
        ensures
            r == (match outcome {
                Ok(Async::Ready(Some((data, metadata)))) => Ok(
                    Async::Ready((data, Metadata::of_flags(metadata.flags))),
                ),
                Ok(Async::Ready(None)) => Err(ConnectionError::Closed),
                Ok(Async::NotReady) => Ok(Async::NotReady),
                Err(()) => Err(ConnectionError::Errored),
            }),
    {
        match outcome {
            Ok(Async::Ready(Some((data, codec_metadata)))) => Ok(
                Async::Ready((data, Metadata::from_decoded_metadata(codec_metadata))),
            ),
            Ok(Async::Ready(None)) => Err(ConnectionError::Closed),
            Ok(Async::NotReady) => Ok(Async::NotReady),
            Err(()) => Err(ConnectionError::Errored),
        }
    }
}

/// A response to send to the peer.
pub struct OutResponse<B> {
    data: B,
    metadata: MetaData,
}

impl<B> View for OutResponse<B> {
    type V = (B, MetaData);

    /// The packet to send.
    closed spec fn view(&self) -> (B, MetaData) {
        (self.data, self.metadata)
    }
}

impl<B> OutResponse<B> {
    fn new(id: PacketId, data: B, metadata: Metadata) -> (r: OutResponse<B>)
        requires
            id < 0,
        ensures
            r@ == (data, MetaData { flags: metadata.all_flags(), id }),
    {
        OutResponse { data, metadata: metadata.to_codec_metadata(id) }
    }

    /// Returns the packet to send.
    pub fn into_packet(self) -> (r: (B, MetaData))
        ensures
            r == self@,
    {
        (self.data, self.metadata)
    }
}

} // verus!
