//! Reading packets.
use vstd::prelude::*;

use crate::io::{CodecError, Field, IoOutcome, Progress};
use crate::wire;
use crate::wire::{
    Frame, PacketId, Parsed, END, STREAM, TYPE, TYPE_BINARY, TYPE_INVALID, TYPE_JSON, TYPE_STRING,
};

verus! {

/// A packet that has been read.
#[derive(Debug)]
pub struct DecodedPacket {
    flags: u8,
    id: PacketId,
    bytes: Vec<u8>,
}

impl View for DecodedPacket {
    type V = Frame;

    closed spec fn view(&self) -> Frame {
        Frame { flags: self.flags, id: self.id, data: self.bytes@ }
    }
}

impl DecodedPacket {
    /// Returns true if the stream flag of the packet is set.
    pub fn is_stream_packet(&self) -> (r: bool)
        ensures
            r == (self@.flags & STREAM != 0),
    {
        self.flags & STREAM != 0
    }

    /// Returns true if the end flag of the packet is set.
    pub fn is_end_packet(&self) -> (r: bool)
        ensures
            r == (self@.flags & END != 0),
    {
        self.flags & END != 0
    }

    /// Returns true if the type flags signal a buffer.
    pub fn is_buffer_packet(&self) -> (r: bool)
        ensures
            r == (self@.flags & TYPE == TYPE_BINARY),
    {
        self.flags & TYPE == TYPE_BINARY
    }

    /// Returns true if the type flags signal a string.
    pub fn is_string_packet(&self) -> (r: bool)
        ensures
            r == (self@.flags & TYPE == TYPE_STRING),
    {
        self.flags & TYPE == TYPE_STRING
    }

    /// Returns true if the type flags signal json.
    pub fn is_json_packet(&self) -> (r: bool)
        ensures
            r == (self@.flags & TYPE == TYPE_JSON),
    {
        self.flags & TYPE == TYPE_JSON
    }

    /// Returns the id of the packet.
    pub fn id(&self) -> (r: PacketId)
        ensures
            r == self@.id,
    {
        self.id
    }

    /// Returns a reference to the packet's data.
    pub fn data(&self) -> (r: &Vec<u8>)
        ensures
            r@ == self@.data,
    {
        &self.bytes
    }

    /// Returns a mutable reference to the packet's data.
    pub fn data_mut(&mut self) -> (r: &mut Vec<u8>)
        ensures
            r@ == old(self)@.data,
            final(self)@ == (Frame { data: final(r)@, ..old(self)@ }),
    {
        &mut self.bytes
    }

    /// Consumes the packet and gives ownership of its data.
    pub fn into_data(self) -> (r: Vec<u8>)
        ensures
            r@ == self@.data,
    {
        self.bytes
    }
}

/// Bytes on their way out of a reader.
#[verifier::ext_equal]
pub struct ReadModel<R> {
    /// The reader, unless it was given back or lost to an error.
    pub reader: Option<R>,
    /// The bytes that have been read of the packet that is being read.
    pub consumed: Seq<u8>,
}

/// The bytes that a call of a reader gave.
pub open spec fn bytes_read<E>(outcome: IoOutcome<&[u8], E>) -> IoOutcome<Seq<u8>, E> {
    match outcome {
        IoOutcome::Done(data) => IoOutcome::Done(data@),
        IoOutcome::WouldBlock => IoOutcome::WouldBlock,
        IoOutcome::Interrupted => IoOutcome::Interrupted,
        IoOutcome::Failed(e) => IoOutcome::Failed(e),
    }
}

impl<R> ReadModel<R> {
    /// A reader of which nothing has been read yet.
    pub open spec fn fresh(reader: R) -> Self {
        ReadModel { reader: Some(reader), consumed: Seq::empty() }
    }

    /// A reader that was given back or lost to an error.
    pub open spec fn finished() -> Self {
        ReadModel { reader: None, consumed: Seq::empty() }
    }

    /// How many bytes the next call of the reader is asked for: those that are
    /// missing of the part of the packet that is being read.
    pub open spec fn wanted(self) -> int {
        let total = 9 + wire::be32_value(self.consumed.subrange(1, 5));
        wire::field_end(self.consumed.len(), total as nat) - self.consumed.len()
    }

    /// Whether a call of the reader can have gone this way: it gives no more than
    /// it is asked for.
    pub open spec fn possible<E>(self, outcome: IoOutcome<Seq<u8>, E>) -> bool {
        outcome matches IoOutcome::Done(data) ==> data.len() <= self.wanted()
    }

    /// The same with the reader as a call left it.
    pub open spec fn with_reader(self, reader: R) -> Self {
        ReadModel { reader: Some(reader), ..self }
    }

    /// The state after a call of the reader that went this way. The reader is
    /// given back with the last byte of the packet, and lost on an error.
    pub open spec fn after<E>(self, outcome: IoOutcome<Seq<u8>, E>) -> Self {
        match outcome {
            IoOutcome::Done(data) => if data.len() > 0 && wire::parse(self.consumed + data)
                == Parsed::Incomplete {
                ReadModel { consumed: self.consumed + data, ..self }
            } else {
                ReadModel::finished()
            },
            IoOutcome::WouldBlock => self,
            IoOutcome::Interrupted => self,
            IoOutcome::Failed(_) => ReadModel::finished(),
        }
    }

    /// How reading stands after a call of the reader that went this way.
    pub open spec fn progress<E>(self, outcome: IoOutcome<Seq<u8>, E>) -> Progress<
        (Option<Frame>, R),
        CodecError<E>,
    >
        recommends
            self.reader is Some,
    {
        match outcome {
            IoOutcome::Done(data) => if data.len() == 0 {
                Progress::Failed(CodecError::UnexpectedEof(wire::field_at(self.consumed.len())))
            } else {
                match wire::parse(self.consumed + data) {
                    Parsed::Incomplete => Progress::Continue,
                    Parsed::InvalidType => Progress::Failed(CodecError::InvalidType),
                    Parsed::End => Progress::Ready((None, self.reader->0)),
                    Parsed::Packet(frame) => Progress::Ready((Some(frame), self.reader->0)),
                }
            },
            IoOutcome::WouldBlock => Progress::NotReady,
            IoOutcome::Interrupted => Progress::Continue,
            IoOutcome::Failed(e) => Progress::Failed(CodecError::Io(e)),
        }
    }
}

/// The contents of what reading a packet gave.
pub open spec fn packet_read<R, E>(
    progress: Progress<(Option<DecodedPacket>, R), CodecError<E>>,
) -> Progress<(Option<Frame>, R), CodecError<E>> {
    match progress {
        Progress::Continue => Progress::Continue,
        Progress::NotReady => Progress::NotReady,
        Progress::Ready((Some(packet), r)) => Progress::Ready((Some(packet@), r)),
        Progress::Ready((None, r)) => Progress::Ready((None, r)),
        Progress::Failed(e) => Progress::Failed(e),
    }
}

/// Reads four bytes, most significant first.
fn read_be32(bytes: &Vec<u8>, at: usize) -> (r: u32)
    requires
        at + 4 <= bytes.len(),
    ensures
        r == wire::be32_value(bytes@.subrange(at as int, at + 4)),
{
    bytes[at] as u32 * 0x100_0000 + bytes[at + 1] as u32 * 0x1_0000 + bytes[at + 2] as u32 * 0x100
        + bytes[at + 3] as u32
}

/// Appends bytes.
fn append(bytes: &mut Vec<u8>, data: &[u8])
    ensures
        final(bytes)@ == old(bytes)@ + data@,
{
    bytes.extend_from_slice(data);
    assert(bytes@ =~= old(bytes)@ + data@);
}

/// Which part of a packet is being read.
enum ReadPacketState {
    ReadFlags,
    ReadLength,
    ReadId,
    /// The data, of the given length.
    ReadBytes(u32),
}

/// Reads a packet from a reader.
pub struct ReadPacket<R> {
    read: Option<R>,
    packet: Option<DecodedPacket>,
    /// What has been read of the header.
    header: Vec<u8>,
    state: ReadPacketState,
}

impl<R> View for ReadPacket<R> {
    type V = ReadModel<R>;

    closed spec fn view(&self) -> ReadModel<R> {
        ReadModel {
            reader: self.read,
            consumed: match self.packet {
                Some(packet) => self.header@ + packet@.data,
                None => Seq::empty(),
            },
        }
    }
}

impl<R> ReadPacket<R> {
    /// The state machine is between two I/O calls.
    pub closed spec fn wf(&self) -> bool {
        &&& self.read is Some <==> self.packet is Some
        &&& self.packet matches Some(packet) ==> {
            &&& wire::parse(self@.consumed) == Parsed::Incomplete
            &&& self.header@.len() > 0 ==> packet@.flags == self.header@[0]
            &&& match self.state {
                ReadPacketState::ReadFlags => self.header@.len() == 0 && packet@.data.len() == 0,
                ReadPacketState::ReadLength => 1 <= self.header@.len() < 5 && packet@.data.len()
                    == 0,
                ReadPacketState::ReadId => 5 <= self.header@.len() < 9 && packet@.data.len() == 0,
                ReadPacketState::ReadBytes(length) => {
                    &&& self.header@.len() == 9
                    &&& length == wire::be32_value(self.header@.subrange(1, 5))
                    &&& packet@.id == wire::id_of_bits(
                        wire::be32_value(self.header@.subrange(5, 9)),
                    )
                    &&& packet@.data.len() < length
                },
            }
        }
    }

    /// What `wf` says about the bytes.
    pub proof fn lemma_wf(&self)
        requires
            self.wf(),
        ensures
            wire::parse(self@.consumed) == Parsed::Incomplete,
            self@.reader is None ==> self@.consumed.len() == 0,
    {
    }

    /// Starts reading a packet.
    pub fn new(read: R) -> (r: ReadPacket<R>)
        ensures
            r.wf(),
            r@ == ReadModel::fresh(read),
    {
        let r = ReadPacket {
            read: Some(read),
            packet: Some(DecodedPacket { flags: 0, id: 0, bytes: Vec::new() }),
            header: Vec::new(),
            state: ReadPacketState::ReadFlags,
        };
        assert(r@.consumed =~= Seq::empty());
        r
    }

    /// Whether the reader has been neither given back nor lost.
    pub fn has_reader(&self) -> (r: bool)
        ensures
            r == (self@.reader is Some),
    {
        self.read.is_some()
    }

    /// Returns the reader and how many bytes to ask it for in the next call.
    pub fn reader_and_wanted(&mut self) -> (r: (&mut R, usize))
        requires
            old(self).wf(),
            old(self)@.reader is Some,
        ensures
            Some(*r.0) == old(self)@.reader,
            r.1 == old(self)@.wanted(),
            r.1 > 0,
            final(self).wf(),
            final(self)@ == old(self)@.with_reader(*final(r.0)),
    {
        assert(self.header@.len() >= 5 ==> self@.consumed.subrange(1, 5)
            =~= self.header@.subrange(1, 5));
        let wanted: usize = match self.state {
            ReadPacketState::ReadFlags => 1,
            ReadPacketState::ReadLength => 5 - self.header.len(),
            ReadPacketState::ReadId => 9 - self.header.len(),
            ReadPacketState::ReadBytes(length) => length as usize
                - self.packet.as_ref().unwrap().bytes.len(),
        };
        (self.read.as_mut().unwrap(), wanted)
    }

    /// Lets go of the reader, and of what has been read, after an error.
    fn lose(&mut self)
        ensures
            final(self).wf(),
            final(self)@ == ReadModel::<R>::finished(),
    {
        self.read = None;
        self.packet = None;
    }

    /// Takes the outcome of a call of the reader for as many bytes as it was to be
    /// asked for: the bytes that it gave, none if it has ended. Emits the reader
    /// with the packet, or with `None` for an end of the stream.
    pub fn poll<E>(&mut self, outcome: IoOutcome<&[u8], E>) -> (r: Progress<
        (Option<DecodedPacket>, R),
        CodecError<E>,
    >)
        requires
            old(self).wf(),
            old(self)@.reader is Some,
            old(self)@.possible(bytes_read(outcome)),
        ensures
            final(self).wf(),
            final(self)@ == old(self)@.after(bytes_read(outcome)),
            packet_read(r) == old(self)@.progress(bytes_read(outcome)),
    {
        let data: &[u8] = match outcome {
            IoOutcome::Done(data) => data,
            IoOutcome::WouldBlock => return Progress::NotReady,
            IoOutcome::Interrupted => return Progress::Continue,
            IoOutcome::Failed(e) => {
                self.lose();
                return Progress::Failed(CodecError::Io(e));
            },
        };
        let ghost before = self@;
        let ghost all = before.consumed + data@;
        let r = self.read.take().unwrap();
        let mut packet = self.packet.take().unwrap();
        match self.state {
            ReadPacketState::ReadFlags => {
                if data.len() == 0 {
                    return Progress::Failed(CodecError::UnexpectedEof(Field::Flags));
                }
                assert(all[0] == data@[0]);
                packet.flags = data[0];
                if packet.flags & TYPE == TYPE_INVALID {
                    return Progress::Failed(CodecError::InvalidType);
                }
                self.header.push(data[0]);
                assert(self.header@ + packet@.data =~= all);
                self.state = ReadPacketState::ReadLength;
                self.read = Some(r);
                self.packet = Some(packet);
                Progress::Continue
            },
            ReadPacketState::ReadLength => {
                if data.len() == 0 {
                    return Progress::Failed(CodecError::UnexpectedEof(Field::Length));
                }
                append(&mut self.header, data);
                assert(self.header@ + packet@.data =~= all);
                if self.header.len() == 5 {
                    self.state = ReadPacketState::ReadId;
                }
                self.read = Some(r);
                self.packet = Some(packet);
                Progress::Continue
            },
            ReadPacketState::ReadId => {
                if data.len() == 0 {
                    return Progress::Failed(CodecError::UnexpectedEof(Field::Id));
                }
                append(&mut self.header, data);
                assert(self.header@ =~= all);
                assert(self.header@ + packet@.data =~= all);
                if self.header.len() < 9 {
                    self.read = Some(r);
                    self.packet = Some(packet);
                    return Progress::Continue;
                }
                let length: u32 = read_be32(&self.header, 1);
                let bits: u32 = read_be32(&self.header, 5);
                assert(bits < 0x8000_0000 ==> bits as i32 == bits) by (bit_vector);
                assert(bits >= 0x8000_0000 ==> bits as i32 == bits - 0x1_0000_0000) by (bit_vector);
                packet.id = bits as i32;
                if length == 0 && packet.id == 0 && packet.flags == 0 {
                    return Progress::Ready((None, r));
                }
                if length == 0 {
                    assert(all.subrange(9, 9) =~= packet@.data);
                    return Progress::Ready((Some(packet), r));
                }
                self.state = ReadPacketState::ReadBytes(length);
                self.read = Some(r);
                self.packet = Some(packet);
                Progress::Continue
            },
            ReadPacketState::ReadBytes(length) => {
                if data.len() == 0 {
                    return Progress::Failed(CodecError::UnexpectedEof(Field::Data));
                }
                proof {
                    assert(before.consumed.subrange(1, 5) =~= self.header@.subrange(1, 5));
                    assert(before.consumed.subrange(5, 9) =~= self.header@.subrange(5, 9));
                    assert(all.subrange(1, 5) =~= self.header@.subrange(1, 5));
                    assert(all.subrange(5, 9) =~= self.header@.subrange(5, 9));
                }
                append(&mut packet.bytes, data);
                assert(self.header@ + packet@.data =~= all);
                if packet.bytes.len() < length as usize {
                    self.read = Some(r);
                    self.packet = Some(packet);
                    return Progress::Continue;
                }
                assert(all.subrange(9, 9 + length) =~= packet@.data);
                Progress::Ready((Some(packet), r))
            },
        }
    }
}

/// The contents of what reading from a stream of packets gave.
pub open spec fn item_read<E>(
    progress: Progress<Option<DecodedPacket>, CodecError<E>>,
) -> Progress<Option<Frame>, CodecError<E>> {
    match progress {
        Progress::Continue => Progress::Continue,
        Progress::NotReady => Progress::NotReady,
        Progress::Ready(Some(packet)) => Progress::Ready(Some(packet@)),
        Progress::Ready(None) => Progress::Ready(None),
        Progress::Failed(e) => Progress::Failed(e),
    }
}

impl<R> ReadModel<R> {
    /// The state of a stream of packets after a call of the reader that went this
    /// way: the next packet is read from the reader that the last one gave back.
    pub open spec fn stream_after<E>(self, outcome: IoOutcome<Seq<u8>, E>) -> Self {
        match self.progress(outcome) {
            Progress::Ready((_, r)) => ReadModel::fresh(r),
            _ => self.after(outcome),
        }
    }

    /// How reading from a stream of packets stands after a call of the reader that
    /// went this way.
    pub open spec fn stream_progress<E>(self, outcome: IoOutcome<Seq<u8>, E>) -> Progress<
        Option<Frame>,
        CodecError<E>,
    > {
        match self.progress(outcome) {
            Progress::Continue => Progress::Continue,
            Progress::NotReady => Progress::NotReady,
            Progress::Ready((item, _)) => Progress::Ready(item),
            Progress::Failed(e) => Progress::Failed(e),
        }
    }
}

/// Reads packets from a reader, one after the other.
pub struct PSCodecStream<R> {
    state: Option<ReadPacket<R>>,
}

impl<R> View for PSCodecStream<R> {
    type V = ReadModel<R>;

    closed spec fn view(&self) -> ReadModel<R> {
        self.state->0@
    }
}

impl<R> PSCodecStream<R> {
    /// The state machine is between two I/O calls.
    pub closed spec fn wf(&self) -> bool {
        self.state is Some && self.state->0.wf()
    }

    /// What `wf` says about the bytes.
    pub proof fn lemma_wf(&self)
        requires
            self.wf(),
        ensures
            wire::parse(self@.consumed) == Parsed::Incomplete,
            self@.reader is None ==> self@.consumed.len() == 0,
    {
    }

    /// Creates a stream that reads from the given reader.
    pub fn new(read: R) -> (r: PSCodecStream<R>)
        ensures
            r.wf(),
            r@ == ReadModel::fresh(read),
    {
        PSCodecStream { state: Some(ReadPacket::new(read)) }
    }

    /// Whether the reader has not been lost to an error.
    pub fn has_reader(&self) -> (r: bool)
        requires
            self.wf(),
        ensures
            r == (self@.reader is Some),
    {
        self.state.as_ref().unwrap().has_reader()
    }

    /// Returns the reader and how many bytes to ask it for in the next call.
    pub fn reader_and_wanted(&mut self) -> (r: (&mut R, usize))
        requires
            old(self).wf(),
            old(self)@.reader is Some,
        ensures
            Some(*r.0) == old(self)@.reader,
            r.1 == old(self)@.wanted(),
            r.1 > 0,
            final(self).wf(),
            final(self)@ == old(self)@.with_reader(*final(r.0)),
    {
        self.state.as_mut().unwrap().reader_and_wanted()
    }

    /// Takes the outcome of a call of the reader for as many bytes as it was to be
    /// asked for. Emits the next packet, or `None` for an end of the stream.
    pub fn poll<E>(&mut self, outcome: IoOutcome<&[u8], E>) -> (r: Progress<
        Option<DecodedPacket>,
        CodecError<E>,
    >)
        requires
            old(self).wf(),
            old(self)@.reader is Some,
            old(self)@.possible(bytes_read(outcome)),
        ensures
            final(self).wf(),
            final(self)@ == old(self)@.stream_after(bytes_read(outcome)),
            item_read(r) == old(self)@.stream_progress(bytes_read(outcome)),
    {
        let mut rp = self.state.take().unwrap();
        match rp.poll(outcome) {
            Progress::Ready((Some(decoded_packet), r)) => {
                self.state = Some(ReadPacket::new(r));
                Progress::Ready(Some(decoded_packet))
            },
            Progress::Ready((None, r)) => {
                self.state = Some(ReadPacket::new(r));
                Progress::Ready(None)
            },
            Progress::Continue => {
                self.state = Some(rp);
                Progress::Continue
            },
            Progress::NotReady => {
                self.state = Some(rp);
                Progress::NotReady
            },
            Progress::Failed(e) => {
                self.state = Some(rp);
                Progress::Failed(e)
            },
        }
    }
}

} // verus!
