//! Writing a single packet, or the header that ends a stream.
use vstd::prelude::*;
use vstd::slice::slice_subrange;

use crate::io::{CodecError, Field, IoOutcome, Progress};
use crate::wire;
use crate::wire::{Frame, PacketId};

verus! {

/// What is being written.
pub enum WriteKind {
    /// The bytes of a packet.
    Packet,
    /// The bytes that end a stream.
    EndHeader,
}

/// Some bytes on their way into a writer.
#[verifier::ext_equal]
pub struct WriteModel<W> {
    /// The writer, unless it was given back or lost to an error.
    pub writer: Option<W>,
    pub kind: WriteKind,
    /// All of the bytes.
    pub bytes: Seq<u8>,
    /// How many of the bytes the writer has taken.
    pub written: nat,
}

impl<W> WriteModel<W> {
    /// A packet of which nothing has been written yet.
    pub open spec fn packet(writer: W, frame: Frame) -> Self {
        WriteModel {
            writer: Some(writer),
            kind: WriteKind::Packet,
            bytes: wire::encode(frame),
            written: 0,
        }
    }

    /// An end of the stream of which nothing has been written yet.
    pub open spec fn end(writer: W) -> Self {
        WriteModel {
            writer: Some(writer),
            kind: WriteKind::EndHeader,
            bytes: wire::end_header(),
            written: 0,
        }
    }

    /// The bytes that the next call of the writer is offered.
    pub open spec fn chunk(self) -> Seq<u8> {
        match self.kind {
            WriteKind::Packet => self.bytes.subrange(
                self.written as int,
                wire::field_end(self.written, self.bytes.len()) as int,
            ),
            WriteKind::EndHeader => self.bytes.skip(self.written as int),
        }
    }

    /// The bytes that the writer has not taken yet.
    pub open spec fn outstanding(self) -> Seq<u8> {
        self.bytes.skip(self.written as int)
    }

    /// The error for a writer that takes none of the bytes it is offered.
    pub open spec fn write_zero<E>(self) -> CodecError<E> {
        match self.kind {
            WriteKind::Packet => CodecError::WriteZero(wire::field_at(self.written)),
            WriteKind::EndHeader => CodecError::WriteZeroEnd,
        }
    }

    /// Whether a call of the writer can have gone this way: it takes no more than
    /// it is offered.
    pub open spec fn possible<E>(self, outcome: IoOutcome<usize, E>) -> bool {
        outcome matches IoOutcome::Done(n) ==> n <= self.chunk().len()
    }

    /// The same with the writer as a call left it.
    pub open spec fn with_writer(self, writer: W) -> Self {
        WriteModel { writer: Some(writer), ..self }
    }

    /// The state after a call of the writer that went this way. The writer is
    /// given back when it has taken the last byte, and lost on an error.
    pub open spec fn after<E>(self, outcome: IoOutcome<usize, E>) -> Self {
        match outcome {
            IoOutcome::Done(n) => if n == 0 {
                WriteModel { writer: None, ..self }
            } else if self.written + n == self.bytes.len() {
                WriteModel { writer: None, written: self.written + n as nat, ..self }
            } else {
                WriteModel { written: self.written + n as nat, ..self }
            },
            IoOutcome::WouldBlock => self,
            IoOutcome::Interrupted => self,
            IoOutcome::Failed(_) => WriteModel { writer: None, ..self },
        }
    }

    /// How writing stands after a call of the writer that went this way.
    pub open spec fn progress<E>(self, outcome: IoOutcome<usize, E>) -> Progress<W, CodecError<E>>
        recommends
            self.writer is Some,
    {
        match outcome {
            IoOutcome::Done(n) => if n == 0 {
                Progress::Failed(self.write_zero())
            } else if self.written + n == self.bytes.len() {
                Progress::Ready(self.writer->0)
            } else {
                Progress::Continue
            },
            IoOutcome::WouldBlock => Progress::NotReady,
            IoOutcome::Interrupted => Progress::Continue,
            IoOutcome::Failed(e) => Progress::Failed(CodecError::Io(e)),
        }
    }
}

/// Which part of a packet is being written, and how many bytes of it have been.
enum WritePacketState {
    WriteFlags,
    WriteLength(u8),
    WriteId(u8),
    WritePacket(u32),
}

/// Writes an entire packet into a writer.
pub struct WritePacket<W> {
    write: Option<W>,
    header: [u8; 9],
    packet: Vec<u8>,
    state: WritePacketState,
}

impl<W> View for WritePacket<W> {
    type V = WriteModel<W>;

    closed spec fn view(&self) -> WriteModel<W> {
        WriteModel {
            writer: self.write,
            kind: WriteKind::Packet,
            bytes: self.header@ + self.packet@,
            written: match self.state {
                WritePacketState::WriteFlags => 0,
                WritePacketState::WriteLength(offset) => 1 + offset as nat,
                WritePacketState::WriteId(offset) => 5 + offset as nat,
                WritePacketState::WritePacket(offset) => 9 + offset as nat,
            },
        }
    }
}

impl<W> WritePacket<W> {
    /// The state machine is between two I/O calls.
    pub closed spec fn wf(&self) -> bool {
        &&& self.packet@.len() <= u32::MAX
        &&& match self.state {
            WritePacketState::WriteFlags => true,
            WritePacketState::WriteLength(offset) => offset < 4,
            WritePacketState::WriteId(offset) => offset < 4,
            WritePacketState::WritePacket(offset) => offset <= self.packet@.len(),
        }
        &&& self.write is Some ==> self@.written < self@.bytes.len()
    }

    /// What `wf` says about the bytes.
    pub proof fn lemma_wf(&self)
        requires
            self.wf(),
        ensures
            self@.kind == WriteKind::Packet,
            9 <= self@.bytes.len(),
            self@.written <= self@.bytes.len(),
            self@.writer is Some ==> self@.written < self@.bytes.len(),
    {
    }

    /// Starts writing a packet. Its data may not be larger than the maximum size
    /// of a packet, `u32::MAX`.
    pub fn new(write: W, packet: Vec<u8>, id: PacketId, flags: u8) -> (r: WritePacket<W>)
        requires
            packet@.len() <= u32::MAX,
        ensures
            r.wf(),
            r@ == WriteModel::packet(write, Frame { flags, id, data: packet@ }),
    {
        let len: u32 = packet.len() as u32;
        let bits: u32 = id as u32;
        proof {
            assert(id >= 0 ==> id as u32 == id) by (bit_vector);
            assert(id < 0 ==> id as u32 == id + 0x1_0000_0000) by (bit_vector);
        }
        let header: [u8; 9] = [
            flags,
            (len / 0x100_0000) as u8,
            (len / 0x1_0000 % 0x100) as u8,
            (len / 0x100 % 0x100) as u8,
            (len % 0x100) as u8,
            (bits / 0x100_0000) as u8,
            (bits / 0x1_0000 % 0x100) as u8,
            (bits / 0x100 % 0x100) as u8,
            (bits % 0x100) as u8,
        ];
        assert(header@ =~= wire::header(flags, len, id));
        WritePacket { write: Some(write), header, packet, state: WritePacketState::WriteFlags }
    }

    /// Whether the writer has been neither given back nor lost.
    pub fn has_writer(&self) -> (r: bool)
        ensures
            r == (self@.writer is Some),
    {
        self.write.is_some()
    }

    /// Gives the writer back. It must not have been given back or lost before.
    pub fn into_inner(self) -> (r: W)
        requires
            self@.writer is Some,
        ensures
            Some(r) == self@.writer,
    {
        self.write.unwrap()
    }

    /// Returns the writer and the bytes to offer it in the next call.
    pub fn writer_and_chunk(&mut self) -> (r: (&mut W, &[u8]))
        requires
            old(self).wf(),
            old(self)@.writer is Some,
        ensures
            Some(*r.0) == old(self)@.writer,
            r.1@ == old(self)@.chunk(),
            r.1@.len() > 0,
            final(self).wf(),
            final(self)@ == old(self)@.with_writer(*final(r.0)),
    {
        let header: &[u8] = self.header.as_slice();
        let chunk: &[u8] = match self.state {
            WritePacketState::WriteFlags => slice_subrange(header, 0, 1),
            WritePacketState::WriteLength(offset) => slice_subrange(header, 1 + offset as usize, 5),
            WritePacketState::WriteId(offset) => slice_subrange(header, 5 + offset as usize, 9),
            WritePacketState::WritePacket(offset) => slice_subrange(
                self.packet.as_slice(),
                offset as usize,
                self.packet.len(),
            ),
        };
        assert(chunk@ =~= self@.chunk());
        (self.write.as_mut().unwrap(), chunk)
    }

    /// Takes the outcome of a call of the writer with the bytes that it was to be
    /// offered. Emits the writer once it has taken the last byte.
    pub fn poll<E>(&mut self, outcome: IoOutcome<usize, E>) -> (r: Progress<W, CodecError<E>>)
        requires
            old(self).wf(),
            old(self)@.writer is Some,
            old(self)@.possible(outcome),
        ensures
            final(self).wf(),
            final(self)@ == old(self)@.after(outcome),
            r == old(self)@.progress(outcome),
    {
        let n: usize = match outcome {
            IoOutcome::Done(n) => n,
            IoOutcome::WouldBlock => return Progress::NotReady,
            IoOutcome::Interrupted => return Progress::Continue,
            IoOutcome::Failed(e) => {
                self.write = None;
                return Progress::Failed(CodecError::Io(e));
            },
        };
        match self.state {
            WritePacketState::WriteFlags => {
                if n == 0 {
                    self.write = None;
                    return Progress::Failed(CodecError::WriteZero(Field::Flags));
                }
                self.state = WritePacketState::WriteLength(0);
            },
            WritePacketState::WriteLength(initial_offset) => {
                if n == 0 {
                    self.write = None;
                    return Progress::Failed(CodecError::WriteZero(Field::Length));
                }
                let offset: u8 = initial_offset + n as u8;
                self.state = if offset < 4 {
                    WritePacketState::WriteLength(offset)
                } else {
                    WritePacketState::WriteId(0)
                };
            },
            WritePacketState::WriteId(initial_offset) => {
                if n == 0 {
                    self.write = None;
                    return Progress::Failed(CodecError::WriteZero(Field::Id));
                }
                let offset: u8 = initial_offset + n as u8;
                self.state = if offset < 4 {
                    WritePacketState::WriteId(offset)
                } else {
                    WritePacketState::WritePacket(0)
                };
            },
            WritePacketState::WritePacket(initial_offset) => {
                if n == 0 {
                    self.write = None;
                    return Progress::Failed(CodecError::WriteZero(Field::Data));
                }
                self.state = WritePacketState::WritePacket(initial_offset + n as u32);
            },
        }
        if let WritePacketState::WritePacket(offset) = self.state {
            if offset as usize == self.packet.len() {
                return Progress::Ready(self.write.take().unwrap());
            }
        }
        Progress::Continue
    }
}

/// Writes the header that ends a stream.
pub struct WriteZeros<W> {
    /// How many of the zeros have been written.
    written: u8,
    write: Option<W>,
    zeros: [u8; 9],
}

impl<W> View for WriteZeros<W> {
    type V = WriteModel<W>;

    closed spec fn view(&self) -> WriteModel<W> {
        WriteModel {
            writer: self.write,
            kind: WriteKind::EndHeader,
            bytes: self.zeros@,
            written: self.written as nat,
        }
    }
}

impl<W> WriteZeros<W> {
    /// The state machine is between two I/O calls.
    pub closed spec fn wf(&self) -> bool {
        &&& self.zeros@ == wire::end_header()
        &&& self.written <= 9
        &&& self.write is Some ==> self.written < 9
    }

    /// What `wf` says about the bytes.
    pub proof fn lemma_wf(&self)
        requires
            self.wf(),
        ensures
            self@.kind == WriteKind::EndHeader,
            self@.bytes == wire::end_header(),
            self@.written <= self@.bytes.len(),
            self@.writer is Some ==> self@.written < self@.bytes.len(),
    {
    }

    /// Starts writing the header.
    pub fn new(w: W) -> (r: WriteZeros<W>)
        ensures
            r.wf(),
            r@ == WriteModel::end(w),
    {
        let zeros: [u8; 9] = [0, 0, 0, 0, 0, 0, 0, 0, 0];
        assert(zeros@ =~= wire::end_header());
        WriteZeros { written: 0, write: Some(w), zeros }
    }

    /// Whether the writer has been neither given back nor lost.
    pub fn has_writer(&self) -> (r: bool)
        ensures
            r == (self@.writer is Some),
    {
        self.write.is_some()
    }

    /// Gives the writer back. It must not have been given back or lost before.
    pub fn into_inner(self) -> (r: W)
        requires
            self@.writer is Some,
        ensures
            Some(r) == self@.writer,
    {
        self.write.unwrap()
    }

    /// Returns the writer and the bytes to offer it in the next call.
    pub fn writer_and_chunk(&mut self) -> (r: (&mut W, &[u8]))
        requires
            old(self).wf(),
            old(self)@.writer is Some,
        ensures
            Some(*r.0) == old(self)@.writer,
            r.1@ == old(self)@.chunk(),
            r.1@.len() > 0,
            final(self).wf(),
            final(self)@ == old(self)@.with_writer(*final(r.0)),
    {
        let chunk: &[u8] = slice_subrange(self.zeros.as_slice(), self.written as usize, 9);
        assert(chunk@ =~= self@.chunk());
        (self.write.as_mut().unwrap(), chunk)
    }

    /// Takes the outcome of a call of the writer with the bytes that it was to be
    /// offered. Emits the writer once it has taken the last byte.
    pub fn poll<E>(&mut self, outcome: IoOutcome<usize, E>) -> (r: Progress<W, CodecError<E>>)
        requires
            old(self).wf(),
            old(self)@.writer is Some,
            old(self)@.possible(outcome),
        ensures
            final(self).wf(),
            final(self)@ == old(self)@.after(outcome),
            r == old(self)@.progress(outcome),
    {
        match outcome {
            IoOutcome::Done(n) => {
                if n == 0 {
                    self.write = None;
                    return Progress::Failed(CodecError::WriteZeroEnd);
                }
                self.written = self.written + n as u8;
                if self.written < 9 {
                    Progress::Continue
                } else {
                    Progress::Ready(self.write.take().unwrap())
                }
            },
            IoOutcome::WouldBlock => Progress::NotReady,
            IoOutcome::Interrupted => Progress::Continue,
            IoOutcome::Failed(e) => {
                self.write = None;
                Progress::Failed(CodecError::Io(e))
            },
        }
    }
}

} // verus!
