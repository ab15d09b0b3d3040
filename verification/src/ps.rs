//! Requests and duplexes over a packet-stream that is read and written by the
//! `codec` of this crate.
//!
//! The packets themselves travel elsewhere: what is sent goes to a sink of packets,
//! and what arrives comes from a stream of packets that hands each packet to
//! whoever waits for its id.
use vstd::prelude::*;

use crate::codec::{DecodedPacket, MetaData};
use crate::ids;
use crate::io::{Async, AsyncSink, ErrorKind, Poll, Progress, SendPoll};
use crate::wire::{Frame, PacketId, END, STREAM, TYPE_BINARY, TYPE_JSON, TYPE_STRING};

pub mod laws;

verus! {

/// An enumeration representing the different types a packet can have.
#[derive(Debug, Clone, Copy, PartialEq, Eq)]
pub enum PsPacketType {
    /// Raw binary data.
    Binary,
    /// A utf-8 encoded string.
    String,
    /// A valid piece of json.
    Json,
}

impl PsPacketType {
    /// The type flags of packets of this type.
    pub open spec fn type_flags(self) -> u8 {
        match self {
            PsPacketType::Binary => TYPE_BINARY,
            PsPacketType::String => TYPE_STRING,
            PsPacketType::Json => TYPE_JSON,
        }
    }

    /// The flags of a packet of this type that a duplex sends.
    pub open spec fn stream_flags(self, end: bool) -> u8 {
        if end {
            self.type_flags() | STREAM | END
        } else {
            self.type_flags() | STREAM
        }
    }

    /// Returns the type flags of packets of this type.
    pub fn flags(&self) -> (r: u8)
        ensures
            r == self.type_flags(),
    {
        match *self {
            PsPacketType::Binary => TYPE_BINARY,
            PsPacketType::String => TYPE_STRING,
            PsPacketType::Json => TYPE_JSON,
        }
    }
}

/// The metadata of the packet of a request with the given id.
pub open spec fn request_packet(t: PsPacketType, id: PacketId) -> MetaData {
    MetaData { flags: t.type_flags(), id }
}

/// The metadata of the packet that responds to a request with the given id.
pub open spec fn response_packet(t: PsPacketType, id: PacketId) -> MetaData {
    MetaData { flags: t.type_flags(), id: ids::answering(id) }
}

/// The metadata of the packet that responds with an error to a request with the given
/// id.
pub open spec fn error_packet(t: PsPacketType, id: PacketId) -> MetaData {
    MetaData { flags: t.type_flags() | END, id: ids::answering(id) }
}

/// The metadata of the packet of an item that is sent with the given id.
pub open spec fn item_packet(t: PsPacketType, end: bool, id: PacketId) -> MetaData {
    MetaData { flags: t.stream_flags(end), id }
}

/// Creates the two halves of a packet-stream.
pub fn packet_stream() -> (r: (PsIn, PsOut))
    ensures
        r.0.wf(),
        r.0@ == 1,
        r.1.wf(),
        r.1@ == 1,
{
    (PsIn { accepted_id: 1 }, PsOut { id_counter: 1 })
}

/// Why waiting for a packet failed. `E` is the error of the stream of packets.
#[derive(Debug, PartialEq, Eq)]
pub enum WaitError<E> {
    /// The packet-stream ended before the response to a request arrived.
    NoResponse,
    /// The packet-stream ended while the stream half of a duplex was waiting.
    StreamEnded,
    /// The stream of packets failed.
    Io(E),
}

impl<E> WaitError<E> {
    /// The kind and the message of the error, if it is not that of the stream of
    /// packets.
    pub open spec fn description(self) -> Option<(ErrorKind, Seq<char>)> {
        match self {
            WaitError::NoResponse => Some(
                (
                    ErrorKind::UnexpectedEof,
                    "packet-stream closed before response was received"@,
                ),
            ),
            WaitError::StreamEnded => Some(
                (
                    ErrorKind::UnexpectedEof,
                    "packet stream closed while substream was waiting for items"@,
                ),
            ),
            WaitError::Io(_) => None,
        }
    }

    /// Returns the kind and the message of the error, or `None` for an error of the
    /// stream of packets.
    pub fn describe(&self) -> (r: Option<(ErrorKind, &'static str)>)
        ensures
            match r {
                Some((kind, message)) => self.description() == Some((kind, message@)),
                None => self.description() is None,
            },
    {
        match self {
            WaitError::NoResponse => Some(
                (ErrorKind::UnexpectedEof, "packet-stream closed before response was received"),
            ),
            WaitError::StreamEnded => Some(
                (
                    ErrorKind::UnexpectedEof,
                    "packet stream closed while substream was waiting for items",
                ),
            ),
            WaitError::Io(_) => None,
        }
    }
}

/// Opens requests and duplexes.
pub struct PsOut {
    // The id used for the next actively sent packet.
    id_counter: PacketId,
}

impl View for PsOut {
    type V = PacketId;

    /// The id of the next request or duplex.
    closed spec fn view(&self) -> PacketId {
        self.id_counter
    }
}

impl PsOut {
    /// Ids that open a request or duplex are positive.
    pub open spec fn wf(&self) -> bool {
        1 <= self@
    }

    fn next_id(&mut self) -> (r: PacketId)
        requires
            old(self).wf(),
        ensures
            final(self).wf(),
            final(self)@ == ids::following(old(self)@),
            r == old(self)@,
    {
        let ret: PacketId = self.id_counter;
        self.increment_id();
        ret
    }

    fn increment_id(&mut self)
        requires
            old(self).wf(),
        ensures
            final(self).wf(),
            final(self)@ == ids::following(old(self)@),
    {
        self.id_counter = ids::increment(self.id_counter);
    }

    /// Opens a request: a packet to send, and the id of the response to wait for.
    pub fn request<B>(&mut self, data: B, t: PsPacketType) -> (r: (SendRequest<B>, InResponse))
        requires
            old(self).wf(),
        ensures
            final(self).wf(),
            final(self)@ == ids::following(old(self)@),
            r.0@ == (data, request_packet(t, old(self)@)),
            r.1@ == ids::answering(old(self)@),
    {
        let id: PacketId = self.next_id();
        (SendRequest::new(data, t, id), InResponse::new(-id))
    }

    /// Opens a bidirectional channel.
    pub fn duplex(&mut self) -> (r: (PsSink, PsStream))
        requires
            old(self).wf(),
        ensures
            final(self).wf(),
            final(self)@ == ids::following(old(self)@),
            r.0@ == old(self)@,
            r.1@ == (Waiting { key: ids::answering(old(self)@), initial: None }),
    {
        let id: PacketId = self.next_id();
        (PsSink::new(id), PsStream::new(-id, None))
    }
}

/// A request initated by this packet-stream.
pub struct SendRequest<B> {
    data: B,
    metadata: MetaData,
}

impl<B> View for SendRequest<B> {
    type V = (B, MetaData);

    /// The packet to send.
    closed spec fn view(&self) -> (B, MetaData) {
        (self.data, self.metadata)
    }
}

impl<B> SendRequest<B> {
    fn new(data: B, t: PsPacketType, id: PacketId) -> (r: SendRequest<B>)
        ensures
            r@ == (data, MetaData { flags: t.type_flags(), id }),
    {
        SendRequest { data, metadata: MetaData { flags: t.flags(), id } }
    }

    /// Returns the packet to send.
    pub fn into_packet(self) -> (r: (B, MetaData))
        ensures
            r == self@,
    {
        (self.data, self.metadata)
    }
}

/// A response that will be received from the peer.
pub struct InResponse {
    key: PacketId,
}

impl View for InResponse {
    type V = PacketId;

    /// The id of the packet to wait for.
    closed spec fn view(&self) -> PacketId {
        self.key
    }
}

impl InResponse {
    fn new(key: PacketId) -> (r: InResponse)
        ensures
            r@ == key,
    {
        InResponse { key }
    }

    /// Returns the id of the packet to wait for.
    pub fn key(&self) -> (r: PacketId)
        ensures
            r == self@,
    {
        self.key
    }

    /// Takes what polling for a packet with the id gave.
    pub fn poll<E>(&self, outcome: Poll<Option<DecodedPacket>, E>) -> (r: Poll<
        DecodedPacket,
        WaitError<E>,
    >)
        ensures
            r == (match outcome {
                Ok(Async::Ready(Some(packet))) => Ok(Async::Ready(packet)),
                Ok(Async::Ready(None)) => Err(WaitError::NoResponse),
                Ok(Async::NotReady) => Ok(Async::NotReady),
                Err(e) => Err(WaitError::Io(e)),
            }),
    {
        match outcome {
            Ok(Async::Ready(Some(decoded_packet))) => Ok(Async::Ready(decoded_packet)),
            Ok(Async::Ready(None)) => Err(WaitError::NoResponse),
            Ok(Async::NotReady) => Ok(Async::NotReady),
            Err(e) => Err(WaitError::Io(e)),
        }
    }
}

/// The sink half of a duplex multiplexed over the packet-stream.
pub struct PsSink {
    id: PacketId,
}

impl View for PsSink {
    type V = PacketId;

    /// The id of the packets that are sent.
    closed spec fn view(&self) -> PacketId {
        self.id
    }
}

impl PsSink {
    fn new(id: PacketId) -> (r: PsSink)
        ensures
            r@ == id,
    {
        PsSink { id }
    }

    /// Returns the packet that sends an item. If the `bool` is true, the end/error
    /// flag gets set.
    pub fn start_send<B>(&self, item: (B, PsPacketType, bool)) -> (r: (B, MetaData))
        ensures
            r == (item.0, item_packet(item.1, item.2, self@)),
    {
        let mut flags: u8 = item.1.flags() | STREAM;
        if item.2 {
            flags = flags | END;
        }
        (item.0, MetaData { flags, id: self.id })
    }

    /// Takes what sending the packet of an item of the given type, with the end flag
    /// set or not, gave.
    pub fn finish_send<B, E>(
        &self,
        t: PsPacketType,
        end: bool,
        outcome: SendPoll<(B, MetaData), E>,
    ) -> (r: SendPoll<(B, PsPacketType, bool), E>)
        ensures
            r == (match outcome {
                Ok(AsyncSink::NotReady((bytes, _))) => Ok(AsyncSink::NotReady((bytes, t, end))),
                Ok(AsyncSink::Ready) => Ok(AsyncSink::Ready),
                Err(e) => Err(e),
            }),
    {
        match outcome {
            Ok(AsyncSink::NotReady((bytes, _))) => Ok(AsyncSink::NotReady((bytes, t, end))),
            Ok(AsyncSink::Ready) => Ok(AsyncSink::Ready),
            Err(e) => Err(e),
        }
    }
}

/// What the stream half of a duplex is to emit.
#[verifier::ext_equal]
pub struct Waiting {
    /// The id of the packets to wait for.
    pub key: PacketId,
    /// A packet to emit before those.
    pub initial: Option<Frame>,
}

/// The stream half of a duplex multiplexed over the packet-stream.
pub struct PsStream {
    key: PacketId,
    initial: Option<DecodedPacket>,
}

impl View for PsStream {
    type V = Waiting;

    closed spec fn view(&self) -> Waiting {
        Waiting {
            key: self.key,
            initial: match self.initial {
                Some(packet) => Some(packet@),
                None => None,
            },
        }
    }
}

impl PsStream {
    fn new(key: PacketId, initial: Option<DecodedPacket>) -> (r: PsStream)
        ensures
            r@ == (Waiting {
                key,
                initial: match initial {
                    Some(packet) => Some(packet@),
                    None => None,
                },
            }),
    {
        PsStream { key, initial }
    }

    /// Returns the id of the packets to wait for.
    pub fn key(&self) -> (r: PacketId)
        ensures
            r == self@.key,
    {
        self.key
    }

    /// Emits the packet that opened the duplex, if the peer did and it has not been
    /// emitted yet. Otherwise, it is time to poll for a packet with the id.
    pub fn take_initial(&mut self) -> (r: Option<DecodedPacket>)
        ensures
            final(self)@ == (Waiting { initial: None, ..old(self)@ }),
            match r {
                Some(packet) => old(self)@.initial == Some(packet@),
                None => old(self)@.initial is None,
            },
    {
        self.initial.take()
    }

    /// Takes what polling for a packet with the id gave.
    ///
    /// Note that this never gives `Ok(Async::Ready(None))`.
    pub fn poll<E>(&self, outcome: Poll<Option<DecodedPacket>, E>) -> (r: Poll<
        Option<DecodedPacket>,
        WaitError<E>,
    >)
        requires
            self@.initial is None,
        ensures
            r == (match outcome {
                Ok(Async::Ready(Some(packet))) => Ok(Async::Ready(Some(packet))),
                Ok(Async::Ready(None)) => Err(WaitError::StreamEnded),
                Ok(Async::NotReady) => Ok(Async::NotReady),
                Err(e) => Err(WaitError::Io(e)),
            }),
            r != Ok::<Async<Option<DecodedPacket>>, WaitError<E>>(Async::Ready(None)),
    {
        match outcome {
            Ok(Async::Ready(Some(packet))) => Ok(Async::Ready(Some(packet))),
            Ok(Async::Ready(None)) => Err(WaitError::StreamEnded),
            Ok(Async::NotReady) => Ok(Async::NotReady),
            Err(e) => Err(WaitError::Io(e)),
        }
    }
}

/// The requests and duplexes that the peer opens.
pub struct PsIn {
    // The next id to be accepted as an active packet from the peer.
    accepted_id: PacketId,
}

impl View for PsIn {
    type V = PacketId;

    /// The next id to be accepted.
    closed spec fn view(&self) -> PacketId {
        self.accepted_id
    }
}

/// What a packet that was accepted opens.
#[verifier::ext_equal]
pub enum Incoming {
    /// A request, with its packet.
    Request(Frame),
    /// A duplex, with the id of the packets to send, and the packets to emit.
    Duplex(PacketId, Waiting),
}

/// What a packet opens when it is accepted.
pub open spec fn incoming(frame: Frame) -> Incoming {
    if frame.flags & STREAM != 0 {
        Incoming::Duplex(
            ids::answering(frame.id),
            Waiting { key: frame.id, initial: Some(frame) },
        )
    } else {
        Incoming::Request(frame)
    }
}

impl PsIn {
    /// Ids that open a request or duplex are positive.
    pub open spec fn wf(&self) -> bool {
        1 <= self@
    }

    fn increment_accepted(&mut self)
        requires
            old(self).wf(),
        ensures
            final(self).wf(),
            final(self)@ == ids::following(old(self)@),
    {
        self.accepted_id = ids::increment(self.accepted_id);
    }

    /// Takes what polling for a packet that nobody waits for gave. A packet with the
    /// next id opens a request or a duplex. Any other one is ignored, and it is time
    /// to poll again.
    pub fn poll<E>(&mut self, outcome: Poll<Option<DecodedPacket>, E>) -> (r: Progress<
        Option<IncomingPacket>,
        E,
    >)
        requires
            old(self).wf(),
        ensures
            final(self).wf(),
            match outcome {
                Ok(Async::Ready(Some(p))) => if p@.id == old(self)@ {
                    &&& final(self)@ == ids::following(old(self)@)
                    &&& r matches Progress::Ready(Some(packet)) && packet.wf() && packet@
                        == incoming(p@)
                } else {
                    &&& final(self)@ == old(self)@
                    &&& r == Progress::<Option<IncomingPacket>, E>::Continue
                },
                Ok(Async::Ready(None)) => {
                    &&& final(self)@ == old(self)@
                    &&& r == Progress::<Option<IncomingPacket>, E>::Ready(None)
                },
                Ok(Async::NotReady) => {
                    &&& final(self)@ == old(self)@
                    &&& r == Progress::<Option<IncomingPacket>, E>::NotReady
                },
                Err(e) => {
                    &&& final(self)@ == old(self)@
                    &&& r == Progress::<Option<IncomingPacket>, E>::Failed(e)
                },
            },
    {
        match outcome {
            Ok(Async::Ready(Some(p))) => {
                if p.id() == self.accepted_id {
                    self.increment_accepted();
                    let packet = if p.is_stream_packet() {
                        let id: PacketId = p.id();
                        IncomingPacket::Duplex(PsSink::new(-id), PsStream::new(id, Some(p)))
                    } else {
                        IncomingPacket::Request(InRequest::new(p))
                    };
                    Progress::Ready(Some(packet))
                } else {
                    // Packet is neither an incoming request nor does it open
                    // a new stream, so ignore it
                    Progress::Continue
                }
            },
            Ok(Async::Ready(None)) => Progress::Ready(None),
            Ok(Async::NotReady) => Progress::NotReady,
            Err(e) => Progress::Failed(e),
        }
    }
}

/// An incoming packet, initiated by the peer.
pub enum IncomingPacket {
    /// An incoming request.
    Request(InRequest),
    /// A duplex connection initiated by the peer.
    Duplex(PsSink, PsStream),
}

impl View for IncomingPacket {
    type V = Incoming;

    open spec fn view(&self) -> Incoming {
        match self {
            IncomingPacket::Request(request) => Incoming::Request(request@),
            IncomingPacket::Duplex(sink, stream) => Incoming::Duplex(sink@, stream@),
        }
    }
}

impl IncomingPacket {
    /// A request can be responded to.
    pub open spec fn wf(&self) -> bool {
        self matches IncomingPacket::Request(request) ==> request.wf()
    }
}

/// A request initated by the peer. Drop to ignore it, or use `respond` to send
/// a response.
pub struct InRequest {
    packet: DecodedPacket,
}

impl View for InRequest {
    type V = Frame;

    /// The packet of the request.
    closed spec fn view(&self) -> Frame {
        self.packet@
    }
}

impl InRequest {
    /// Ids of requests are positive.
    pub open spec fn wf(&self) -> bool {
        1 <= self@.id
    }

    fn new(packet: DecodedPacket) -> (r: InRequest)
        ensures
            r@ == packet@,
    {
        InRequest { packet }
    }

    /// Returns the packet corresponding to this incoming request.
    pub fn packet(&self) -> (r: &DecodedPacket)
        ensures
            r@ == self@,
    {
        &self.packet
    }

    /// Returns the response to send.
    pub fn respond<B>(self, bytes: B, t: PsPacketType) -> (r: SendResponse<B>)
        requires
            self.wf(),
        ensures
            r@ == (bytes, response_packet(t, self@.id)),
    {
        SendResponse::new(-self.packet.id(), bytes, t)
    }

    /// Returns the response to send, with the error flag set in its header.
    pub fn respond_error<B>(self, bytes: B, t: PsPacketType) -> (r: SendResponseError<B>)
        requires
            self.wf(),
        ensures
            r@ == (bytes, error_packet(t, self@.id)),
    {
        SendResponseError::new(-self.packet.id(), bytes, t)
    }
}

/// A response to send to the peer.
pub struct SendResponse<B> {
    data: B,
    metadata: MetaData,
}

impl<B> View for SendResponse<B> {
    type V = (B, MetaData);

    /// The packet to send.
    closed spec fn view(&self) -> (B, MetaData) {
        (self.data, self.metadata)
    }
}

impl<B> SendResponse<B> {
    fn new(id: PacketId, data: B, t: PsPacketType) -> (r: SendResponse<B>)
        requires
            id < 0,
        ensures
            r@ == (data, MetaData { flags: t.type_flags(), id }),
    {
        SendResponse { data, metadata: MetaData { flags: t.flags(), id } }
    }

    /// Returns the packet to send.
    pub fn into_packet(self) -> (r: (B, MetaData))
        ensures
            r == self@,
    {
        (self.data, self.metadata)
    }
}

/// A response to send to the peer, with the error flag set.
pub struct SendResponseError<B> {
    data: B,
    metadata: MetaData,
}

impl<B> View for SendResponseError<B> {
    type V = (B, MetaData);

    /// The packet to send.
    closed spec fn view(&self) -> (B, MetaData) {
        (self.data, self.metadata)
    }
}

impl<B> SendResponseError<B> {
    fn new(id: PacketId, data: B, t: PsPacketType) -> (r: SendResponseError<B>)
        requires
            id < 0,
        ensures
            r@ == (data, MetaData { flags: t.type_flags() | END, id }),
    {
        SendResponseError { data, metadata: MetaData { flags: t.flags() | END, id } }
    }

    /// Returns the packet to send.
    pub fn into_packet(self) -> (r: (B, MetaData))
        ensures
            r == self@,
    {
        (self.data, self.metadata)
    }
}

} // verus!
