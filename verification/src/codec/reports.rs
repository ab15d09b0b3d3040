//! What each operation of the state machines does, by what goes into it and what comes
//! out of it.
use vstd::prelude::*;

use crate::codec::read::{DecodedPacket, PSCodecStream, ReadPacket};
use crate::codec::sink::{PSCodecSink, SinkIo, SinkModel, StartSend};
use crate::codec::write::{WritePacket, WriteZeros};
use crate::codec::MetaData;
use crate::io::{CodecError, IoOutcome, Poll, Progress};
use crate::wire;
use crate::wire::{Frame, PacketId, Parsed};

verus! {

/// Writing a packet starts with all of its bytes: the flags, the length of the data and
/// the id with the most significant byte first, and the data.
pub proof fn law_write_packet_new<W>(
    w: W,
    packet: Vec<u8>,
    id: PacketId,
    flags: u8,
    r: WritePacket<W>,
)
    requires
        packet@.len() <= 0xffff_ffff,
        call_ensures(WritePacket::<W>::new, (w, packet, id, flags), r),
    ensures
        call_requires(WritePacket::<W>::new, (w, packet, id, flags)),
        r.wf(),
        r@.writer == Some(w),
        r@.kind is Packet,
        r@.written == 0,
        r@.bytes.len() == 9 + packet@.len(),
        r@.bytes[0] == flags,
        r@.bytes[1] * 0x100_0000 + r@.bytes[2] * 0x1_0000 + r@.bytes[3] * 0x100 + r@.bytes[4]
            == packet@.len(),
        r@.bytes[5] * 0x100_0000 + r@.bytes[6] * 0x1_0000 + r@.bytes[7] * 0x100 + r@.bytes[8]
            == id as int % 0x1_0000_0000,
        r@.bytes.skip(9) == packet@,
{
    wire::law_encode_bytes(Frame { flags, id, data: packet@ });
    assert(r@.bytes.skip(9) =~= packet@) by {
        assert forall|i: int| 0 <= i < packet@.len() implies r@.bytes.skip(9)[i] == packet@[i] by {
            assert(r@.bytes[9 + i] == packet@[i]);
        }
    }
}

/// Writing the end of a stream starts with nine zeros.
pub proof fn law_write_zeros_new<W>(w: W, r: WriteZeros<W>)
    requires
        call_ensures(WriteZeros::<W>::new, (w,), r),
    ensures
        call_requires(WriteZeros::<W>::new, (w,)),
        r.wf(),
        r@.writer == Some(w),
        r@.kind is EndHeader,
        r@.written == 0,
        r@.bytes.len() == 9,
        forall|i: int| 0 <= i < 9 ==> #[trigger] r@.bytes[i] == 0,
{
    wire::law_end_header_bytes();
}

/// The writer is offered the next bytes that it has not taken: all of those up to the
/// nearest of the places where the flags, the length, the id and the data end. Only the
/// writer can change by that.
pub proof fn law_write_packet_offers<W>(s: &mut WritePacket<W>, r: (&mut W, &[u8]))
    requires
        old(s).wf(),
        old(s)@.writer is Some,
        call_ensures(WritePacket::<W>::writer_and_chunk, (s,), r),
    ensures
        call_requires(WritePacket::<W>::writer_and_chunk, (s,)),
        Some(*old(r.0)) == old(s)@.writer,
        0 < r.1@.len() <= old(s)@.bytes.len() - old(s)@.written,
        r.1@ == old(s)@.bytes.subrange(
            old(s)@.written as int,
            old(s)@.written + r.1@.len() as int,
        ),
        ({
            let end = old(s)@.written + r.1@.len();
            &&& end == 1 || end == 5 || end == 9 || end == old(s)@.bytes.len()
            &&& old(s)@.written < 1 ==> end <= 1
            &&& old(s)@.written < 5 ==> end <= 5
            &&& old(s)@.written < 9 ==> end <= 9
        }),
        final(s).wf(),
        final(s)@.writer == Some(*final(r.0)),
        final(s)@.kind == old(s)@.kind,
        final(s)@.bytes == old(s)@.bytes,
        final(s)@.written == old(s)@.written,
{
    old(s).lemma_wf();
}

/// The writer is offered all of the zeros that it has not taken. Only the writer can
/// change by that.
pub proof fn law_write_zeros_offers<W>(s: &mut WriteZeros<W>, r: (&mut W, &[u8]))
    requires
        old(s).wf(),
        old(s)@.writer is Some,
        call_ensures(WriteZeros::<W>::writer_and_chunk, (s,), r),
    ensures
        call_requires(WriteZeros::<W>::writer_and_chunk, (s,)),
        Some(*old(r.0)) == old(s)@.writer,
        r.1@.len() == 9 - old(s)@.written,
        r.1@.len() > 0,
        forall|i: int| 0 <= i < r.1@.len() ==> #[trigger] r.1@[i] == 0,
        final(s).wf(),
        final(s)@.writer == Some(*final(r.0)),
        final(s)@.kind == old(s)@.kind,
        final(s)@.bytes == old(s)@.bytes,
        final(s)@.written == old(s)@.written,
{
    old(s).lemma_wf();
    wire::law_end_header_bytes();
}

/// What writing a packet reports, in every state. It waits if and only if the writer
/// would have blocked. It goes on after an interrupted call, and after one that took
/// some bytes but not the last one. It is done, and gives the writer back, with the last
/// byte. It fails if and only if the writer failed or took nothing, and says so. It never
/// loses count of the bytes, and loses the writer only when it fails.
pub proof fn law_write_packet_reports<W, E>(
    s: &mut WritePacket<W>,
    outcome: IoOutcome<usize, E>,
    r: Progress<W, CodecError<E>>,
)
    requires
        old(s).wf(),
        old(s)@.writer is Some,
        call_ensures(WritePacket::<W>::poll::<E>, (s, outcome), r),
    ensures
        final(s).wf(),
        final(s)@.kind == old(s)@.kind,
        final(s)@.bytes == old(s)@.bytes,
        match outcome {
            IoOutcome::WouldBlock => r is NotReady && final(s)@ == old(s)@,
            IoOutcome::Interrupted => r is Continue && final(s)@ == old(s)@,
            IoOutcome::Failed(e) => {
                &&& r matches Progress::Failed(CodecError::Io(f)) && f == e
                &&& final(s)@.writer is None
                &&& final(s)@.written == old(s)@.written
            },
            IoOutcome::Done(n) => {
                &&& final(s)@.written == old(s)@.written + n
                &&& n == 0 ==> {
                    &&& r matches Progress::Failed(CodecError::WriteZero(field)) && {
                        &&& field is Flags <==> old(s)@.written < 1
                        &&& field is Length <==> 1 <= old(s)@.written < 5
                        &&& field is Id <==> 5 <= old(s)@.written < 9
                        &&& field is Data <==> 9 <= old(s)@.written
                    }
                    &&& final(s)@.writer is None
                }
                &&& n > 0 && old(s)@.written + n == old(s)@.bytes.len() ==> {
                    &&& r matches Progress::Ready(w) && old(s)@.writer == Some(w)
                    &&& final(s)@.writer is None
                }
                &&& n > 0 && old(s)@.written + n < old(s)@.bytes.len() ==> {
                    &&& r is Continue
                    &&& final(s)@.writer == old(s)@.writer
                }
            },
        },
{
    old(s).lemma_wf();
}

/// What writing the end of a stream reports, in every state: the same as writing a packet
/// does, but for the error about a writer that takes nothing.
pub proof fn law_write_zeros_reports<W, E>(
    s: &mut WriteZeros<W>,
    outcome: IoOutcome<usize, E>,
    r: Progress<W, CodecError<E>>,
)
    requires
        old(s).wf(),
        old(s)@.writer is Some,
        call_ensures(WriteZeros::<W>::poll::<E>, (s, outcome), r),
    ensures
        final(s).wf(),
        final(s)@.kind == old(s)@.kind,
        final(s)@.bytes == old(s)@.bytes,
        match outcome {
            IoOutcome::WouldBlock => r is NotReady && final(s)@ == old(s)@,
            IoOutcome::Interrupted => r is Continue && final(s)@ == old(s)@,
            IoOutcome::Failed(e) => {
                &&& r matches Progress::Failed(CodecError::Io(f)) && f == e
                &&& final(s)@.writer is None
                &&& final(s)@.written == old(s)@.written
            },
            IoOutcome::Done(n) => {
                &&& final(s)@.written == old(s)@.written + n
                &&& n == 0 ==> {
                    &&& r is Failed
                    &&& r->Failed_0 is WriteZeroEnd
                    &&& final(s)@.writer is None
                }
                &&& n > 0 && old(s)@.written + n == old(s)@.bytes.len() ==> {
                    &&& r matches Progress::Ready(w) && old(s)@.writer == Some(w)
                    &&& final(s)@.writer is None
                }
                &&& n > 0 && old(s)@.written + n < old(s)@.bytes.len() ==> {
                    &&& r is Continue
                    &&& final(s)@.writer == old(s)@.writer
                }
            },
        },
{
    old(s).lemma_wf();
}

/// Any outcome is accepted in which the writer took no more than it was offered.
pub proof fn law_write_accepts<W, E>(
    packet: &mut WritePacket<W>,
    zeros: &mut WriteZeros<W>,
    outcome: IoOutcome<usize, E>,
)
    requires
        old(packet).wf(),
        old(packet)@.writer is Some,
        old(zeros).wf(),
        old(zeros)@.writer is Some,
    ensures
        !(outcome is Done) ==> call_requires(WritePacket::<W>::poll::<E>, (packet, outcome))
            && call_requires(WriteZeros::<W>::poll::<E>, (zeros, outcome)),
        outcome matches IoOutcome::Done(n) ==> {
            let end = old(packet)@.written + n;
            &&& end <= old(packet)@.bytes.len() && (old(packet)@.written < 1 ==> end <= 1) && (
            old(packet)@.written < 5 ==> end <= 5) && (old(packet)@.written < 9 ==> end <= 9)
                ==> call_requires(WritePacket::<W>::poll::<E>, (packet, outcome))
            &&& old(zeros)@.written + n <= 9 ==> call_requires(
                WriteZeros::<W>::poll::<E>,
                (zeros, outcome),
            )
        },
{
    old(packet).lemma_wf();
    old(zeros).lemma_wf();
    wire::law_end_header_bytes();
}

/// Whether the writer has been neither given back nor lost.
pub proof fn law_write_has_writer<W>(
    packet: WritePacket<W>,
    has: bool,
    zeros: WriteZeros<W>,
    zeros_has: bool,
)
    requires
        call_ensures(WritePacket::<W>::has_writer, (&packet,), has),
        call_ensures(WriteZeros::<W>::has_writer, (&zeros,), zeros_has),
    ensures
        has <==> packet@.writer is Some,
        zeros_has <==> zeros@.writer is Some,
{
}

/// The writer can be had back unless it has been given back or lost.
pub proof fn law_write_into_inner<W>(packet: WritePacket<W>, w: W, zeros: WriteZeros<W>, v: W)
    requires
        packet@.writer is Some,
        zeros@.writer is Some,
        call_ensures(WritePacket::<W>::into_inner, (packet,), w),
        call_ensures(WriteZeros::<W>::into_inner, (zeros,), v),
    ensures
        call_requires(WritePacket::<W>::into_inner, (packet,)),
        call_requires(WriteZeros::<W>::into_inner, (zeros,)),
        packet@.writer == Some(w),
        zeros@.writer == Some(v),
{
}

/// A sink takes a packet if and only if it is not writing one, and then writes the bytes
/// of that packet from the first. Otherwise it gives the packet back as it is, and does
/// not change.
pub proof fn law_sink_start_send<W>(
    s: &mut PSCodecSink<W>,
    item: (Vec<u8>, MetaData),
    r: StartSend,
)
    requires
        item.0@.len() <= 0xffff_ffff,
        call_ensures(PSCodecSink::<W>::start_send, (s, item), r),
    ensures
        final(s).wf(),
        old(s).wf() && (old(s)@ is Waiting || (old(s)@ matches SinkModel::Writing(m)
            && m.writer is Some)) ==> call_requires(PSCodecSink::<W>::start_send, (s, item)),
        match old(s)@ {
            SinkModel::Waiting(w) => {
                &&& r is Ready
                &&& final(s)@ matches SinkModel::Writing(m) && {
                    &&& m.writer == Some(w)
                    &&& m.kind is Packet
                    &&& m.written == 0
                    &&& m.bytes.len() == 9 + item.0@.len()
                    &&& m.bytes[0] == item.1.flags
                    &&& m.bytes[1] * 0x100_0000 + m.bytes[2] * 0x1_0000 + m.bytes[3] * 0x100
                        + m.bytes[4] == item.0@.len()
                    &&& m.bytes[5] * 0x100_0000 + m.bytes[6] * 0x1_0000 + m.bytes[7] * 0x100
                        + m.bytes[8] == item.1.id as int % 0x1_0000_0000
                    &&& m.bytes.skip(9) == item.0@
                }
            },
            _ => r == StartSend::Busy(item) && final(s)@ == old(s)@,
        },
{
    wire::law_encode_bytes(Frame { flags: item.1.flags, id: item.1.id, data: item.0@ });
    if let SinkModel::Writing(m) = final(s)@ {
        if old(s)@ is Waiting {
            assert forall|i: int| 0 <= i < item.0@.len() implies m.bytes.skip(9)[i] == item.0@[i] by {
                assert(m.bytes[9 + i] == item.0@[i]);
            }
            assert(m.bytes.skip(9) =~= item.0@);
        }
    }
}

/// A sink is flushed once everything has been written, and shut down once the end of the
/// stream has been. Before that, there are bytes to write. Closing it starts the end of
/// the stream, nine zeros, once all packets have been written and no earlier, and only
/// once.
pub proof fn law_sink_due<W>(
    s: PSCodecSink<W>,
    due: SinkIo,
    closing: &mut PSCodecSink<W>,
    close_due: SinkIo,
)
    requires
        call_ensures(PSCodecSink::<W>::poll_complete, (&s,), due),
        call_ensures(PSCodecSink::<W>::close, (closing,), close_due),
    ensures
        s.wf() ==> call_requires(PSCodecSink::<W>::poll_complete, (&s,)),
        old(closing).wf() ==> call_requires(PSCodecSink::<W>::close, (closing,)),
        due is Flush <==> s@ is Waiting,
        due is Write <==> s@ is Writing || s@ is Ending,
        due is Shutdown <==> s@ is ShuttingDown,
        final(closing).wf(),
        close_due is Shutdown <==> old(closing)@ is ShuttingDown,
        close_due is Write <==> !(old(closing)@ is ShuttingDown),
        match old(closing)@ {
            SinkModel::Waiting(w) => final(closing)@ matches SinkModel::Ending(m) && {
                &&& m.writer == Some(w)
                &&& m.kind is EndHeader
                &&& m.written == 0
                &&& m.bytes.len() == 9
                &&& forall|i: int| 0 <= i < 9 ==> #[trigger] m.bytes[i] == 0
            },
            _ => final(closing)@ == old(closing)@,
        },
{
    wire::law_end_header_bytes();
}

/// A sink offers its writer the next bytes that the writer has not taken: of a packet all
/// of those up to the nearest of the places where its flags, its length, its id and its
/// data end, of the end of the stream all. Only the writer can change by that.
pub proof fn law_sink_offers<W>(s: &mut PSCodecSink<W>, r: (&mut W, &[u8]))
    requires
        old(s).wf(),
        old(s)@ matches SinkModel::Writing(m) ==> m.writer is Some,
        old(s)@ matches SinkModel::Ending(m) ==> m.writer is Some,
        old(s)@ is Writing || old(s)@ is Ending,
        call_ensures(PSCodecSink::<W>::writer_and_chunk, (s,), r),
    ensures
        call_requires(PSCodecSink::<W>::writer_and_chunk, (s,)),
        final(s).wf(),
        r.1@.len() > 0,
        match old(s)@ {
            SinkModel::Writing(m) => {
                let end = m.written + r.1@.len();
                &&& m.writer == Some(*old(r.0))
                &&& end <= m.bytes.len()
                &&& r.1@ == m.bytes.subrange(m.written as int, end as int)
                &&& end == 1 || end == 5 || end == 9 || end == m.bytes.len()
                &&& m.written < 1 ==> end <= 1
                &&& m.written < 5 ==> end <= 5
                &&& m.written < 9 ==> end <= 9
                &&& final(s)@ matches SinkModel::Writing(after) && {
                    &&& after.writer == Some(*final(r.0))
                    &&& after.kind == m.kind
                    &&& after.bytes == m.bytes
                    &&& after.written == m.written
                }
            },
            SinkModel::Ending(m) => {
                &&& m.writer == Some(*old(r.0))
                &&& m.written + r.1@.len() == m.bytes.len()
                &&& r.1@ == m.bytes.skip(m.written as int)
                &&& final(s)@ matches SinkModel::Ending(after) && {
                    &&& after.writer == Some(*final(r.0))
                    &&& after.kind == m.kind
                    &&& after.bytes == m.bytes
                    &&& after.written == m.written
                }
            },
            _ => true,
        },
{
    old(s).lemma_wf();
}

/// A sink hands out its writer to be flushed or shut down, and is otherwise unchanged.
pub proof fn law_sink_hands_out<W>(s: &mut PSCodecSink<W>, r: &mut W)
    requires
        old(s).wf(),
        old(s)@ is Waiting || old(s)@ is ShuttingDown,
        call_ensures(PSCodecSink::<W>::writer, (s,), r),
    ensures
        call_requires(PSCodecSink::<W>::writer, (s,)),
        final(s).wf(),
        old(s)@ matches SinkModel::Waiting(w) ==> w == *old(r) && final(s)@ == SinkModel::Waiting(
            *final(r),
        ),
        old(s)@ matches SinkModel::ShuttingDown(w) ==> w == *old(r) && final(s)@
            == SinkModel::ShuttingDown(*final(r)),
{
}

/// What a sink reports when its writer was offered bytes, in every state. It waits if and
/// only if the writer would have blocked. It fails if and only if the writer failed or
/// took nothing, and says so. In all other cases another call is due: for the rest of the
/// bytes, if there is one, or else for what comes after them. Bytes are neither skipped
/// nor repeated.
pub proof fn law_sink_reports<W, E>(
    s: &mut PSCodecSink<W>,
    outcome: IoOutcome<usize, E>,
    r: Progress<(), CodecError<E>>,
)
    requires
        old(s).wf(),
        old(s)@ matches SinkModel::Writing(m) ==> m.writer is Some,
        old(s)@ matches SinkModel::Ending(m) ==> m.writer is Some,
        old(s)@ is Writing || old(s)@ is Ending,
        call_ensures(PSCodecSink::<W>::wrote::<E>, (s, outcome), r),
    ensures
        final(s).wf(),
        match outcome {
            IoOutcome::WouldBlock => r is NotReady && final(s)@ == old(s)@,
            IoOutcome::Interrupted => r is Continue && final(s)@ == old(s)@,
            IoOutcome::Failed(e) => {
                &&& r matches Progress::Failed(CodecError::Io(f)) && f == e
                &&& old(s)@ is Writing ==> (final(s)@ matches SinkModel::Writing(after)
                    && after.writer is None)
                &&& old(s)@ is Ending ==> (final(s)@ matches SinkModel::Ending(after)
                    && after.writer is None)
            },
            IoOutcome::Done(n) => match old(s)@ {
                SinkModel::Writing(m) => {
                    &&& n == 0 ==> {
                        &&& r matches Progress::Failed(CodecError::WriteZero(field)) && {
                            &&& field is Flags <==> m.written < 1
                            &&& field is Length <==> 1 <= m.written < 5
                            &&& field is Id <==> 5 <= m.written < 9
                            &&& field is Data <==> 9 <= m.written
                        }
                        &&& final(s)@ matches SinkModel::Writing(after) && after.writer is None
                    }
                    &&& n > 0 ==> r is Continue
                    &&& n > 0 && m.written + n == m.bytes.len() ==> (final(s)@
                        matches SinkModel::Waiting(w) && m.writer == Some(w))
                    &&& n > 0 && m.written + n < m.bytes.len() ==> (final(s)@
                        matches SinkModel::Writing(after) && {
                        &&& after.writer == m.writer
                        &&& after.kind == m.kind
                        &&& after.bytes == m.bytes
                        &&& after.written == m.written + n
                    })
                },
                SinkModel::Ending(m) => {
                    &&& n == 0 ==> {
                        &&& r is Failed
                        &&& r->Failed_0 is WriteZeroEnd
                        &&& final(s)@ matches SinkModel::Ending(after) && after.writer is None
                    }
                    &&& n > 0 ==> r is Continue
                    &&& n > 0 && m.written + n == m.bytes.len() ==> (final(s)@
                        matches SinkModel::ShuttingDown(w) && m.writer == Some(w))
                    &&& n > 0 && m.written + n < m.bytes.len() ==> (final(s)@
                        matches SinkModel::Ending(after) && {
                        &&& after.writer == m.writer
                        &&& after.kind == m.kind
                        &&& after.bytes == m.bytes
                        &&& after.written == m.written + n
                    })
                },
                _ => true,
            },
        },
{
    old(s).lemma_wf();
}

/// A sink accepts any outcome in which its writer took no more than it was offered.
pub proof fn law_sink_accepts<W, E>(s: &mut PSCodecSink<W>, outcome: IoOutcome<usize, E>)
    requires
        old(s).wf(),
        old(s)@ matches SinkModel::Writing(m) ==> m.writer is Some,
        old(s)@ matches SinkModel::Ending(m) ==> m.writer is Some,
        old(s)@ is Writing || old(s)@ is Ending,
        outcome matches IoOutcome::Done(n) ==> match old(s)@ {
            SinkModel::Writing(m) => {
                let end = m.written + n;
                &&& end <= m.bytes.len()
                &&& m.written < 1 ==> end <= 1
                &&& m.written < 5 ==> end <= 5
                &&& m.written < 9 ==> end <= 9
            },
            SinkModel::Ending(m) => m.written + n <= m.bytes.len(),
            _ => true,
        },
    ensures
        call_requires(PSCodecSink::<W>::wrote::<E>, (s, outcome)),
{
    old(s).lemma_wf();
}

/// What a sink reports when its writer was flushed or shut down: whether that is done,
/// has to wait, has to be done again, or failed.
pub proof fn law_sink_finishes<W, E>(
    s: PSCodecSink<W>,
    flush: IoOutcome<(), E>,
    flushed: Progress<(), CodecError<E>>,
    shutdown: Poll<(), E>,
    shut_down: Progress<(), CodecError<E>>,
)
    requires
        call_ensures(PSCodecSink::<W>::flushed::<E>, (&s, flush), flushed),
        call_ensures(PSCodecSink::<W>::shut_down::<E>, (&s, shutdown), shut_down),
    ensures
        s.wf() && s@ is Waiting ==> call_requires(PSCodecSink::<W>::flushed::<E>, (&s, flush)),
        s.wf() && s@ is ShuttingDown ==> call_requires(
            PSCodecSink::<W>::shut_down::<E>,
            (&s, shutdown),
        ),
        flushed is Ready <==> flush is Done,
        flushed is NotReady <==> flush is WouldBlock,
        flushed is Continue <==> flush is Interrupted,
        flush matches IoOutcome::Failed(e) ==> (flushed matches Progress::Failed(
            CodecError::Io(f),
        ) && f == e),
        shut_down is Ready <==> shutdown is Ok && shutdown->Ok_0 is Ready,
        shut_down is NotReady <==> shutdown is Ok && shutdown->Ok_0 is NotReady,
        !(shut_down is Continue),
        shutdown matches Err(e) ==> (shut_down matches Progress::Failed(CodecError::Io(f)) && f
            == e),
{
}

/// A new sink has everything written. What a sink tells of its writer and of its end.
pub proof fn law_sink_tells<W>(
    write: W,
    new: PSCodecSink<W>,
    s: PSCodecSink<W>,
    has: bool,
    closing: bool,
)
    requires
        call_ensures(PSCodecSink::<W>::new, (write,), new),
        call_ensures(PSCodecSink::<W>::has_writer, (&s,), has),
        call_ensures(PSCodecSink::<W>::is_closing, (&s,), closing),
    ensures
        new.wf(),
        new@ == SinkModel::Waiting(write),
        closing <==> s@ is Ending || s@ is ShuttingDown,
        match s@ {
            SinkModel::Writing(m) => has <==> m.writer is Some,
            SinkModel::Ending(m) => has <==> m.writer is Some,
            _ => has,
        },
{
}

/// A sink gives its writer back in every state, unless it has lost it.
pub proof fn law_sink_into_inner<W>(s: PSCodecSink<W>, w: W)
    requires
        s.wf(),
        s@ matches SinkModel::Writing(m) ==> m.writer is Some,
        s@ matches SinkModel::Ending(m) ==> m.writer is Some,
        call_ensures(PSCodecSink::<W>::into_inner, (s,), w),
    ensures
        call_requires(PSCodecSink::<W>::into_inner, (s,)),
        match s@ {
            SinkModel::Waiting(v) => v == w,
            SinkModel::Writing(m) => m.writer == Some(w),
            SinkModel::Ending(m) => m.writer == Some(w),
            SinkModel::ShuttingDown(v) => v == w,
        },
{
}

/// The reader is asked for exactly the bytes that are missing of the part that is being
/// read: of the flags, of the length, of the id, or of the data, whose length the header
/// says. Only the reader can change by that.
pub proof fn law_read_packet_asks<R>(s: &mut ReadPacket<R>, r: (&mut R, usize))
    requires
        old(s).wf(),
        old(s)@.reader is Some,
        call_ensures(ReadPacket::<R>::reader_and_wanted, (s,), r),
    ensures
        call_requires(ReadPacket::<R>::reader_and_wanted, (s,)),
        Some(*old(r.0)) == old(s)@.reader,
        r.1 > 0,
        ({
            let c = old(s)@.consumed;
            let end = c.len() + r.1;
            &&& c.len() < 1 ==> end == 1
            &&& 1 <= c.len() < 5 ==> end == 5
            &&& 5 <= c.len() < 9 ==> end == 9
            &&& 9 <= c.len() ==> end == 9 + c[1] * 0x100_0000 + c[2] * 0x1_0000 + c[3] * 0x100
                + c[4]
        }),
        final(s).wf(),
        final(s)@.reader == Some(*final(r.0)),
        final(s)@.consumed == old(s)@.consumed,
{
    let c = old(s)@.consumed;
    if 9 <= c.len() {
        let f = c.subrange(1, 5);
        assert(f[0] == c[1] && f[1] == c[2] && f[2] == c[3] && f[3] == c[4]);
    }
}

/// A stream asks its reader for exactly the bytes that are missing of the part of a packet
/// that is being read. Only the reader can change by that.
pub proof fn law_stream_asks<R>(s: &mut PSCodecStream<R>, r: (&mut R, usize))
    requires
        old(s).wf(),
        old(s)@.reader is Some,
        call_ensures(PSCodecStream::<R>::reader_and_wanted, (s,), r),
    ensures
        call_requires(PSCodecStream::<R>::reader_and_wanted, (s,)),
        Some(*old(r.0)) == old(s)@.reader,
        r.1 > 0,
        ({
            let c = old(s)@.consumed;
            let end = c.len() + r.1;
            &&& c.len() < 1 ==> end == 1
            &&& 1 <= c.len() < 5 ==> end == 5
            &&& 5 <= c.len() < 9 ==> end == 9
            &&& 9 <= c.len() ==> end == 9 + c[1] * 0x100_0000 + c[2] * 0x1_0000 + c[3] * 0x100
                + c[4]
        }),
        final(s).wf(),
        final(s)@.reader == Some(*final(r.0)),
        final(s)@.consumed == old(s)@.consumed,
{
    let c = old(s)@.consumed;
    if 9 <= c.len() {
        let f = c.subrange(1, 5);
        assert(f[0] == c[1] && f[1] == c[2] && f[2] == c[3] && f[3] == c[4]);
    }
}

/// What reading a packet reports, in every state. It waits if and only if the reader would
/// have blocked. It goes on after an interrupted call, and after one that gave some bytes
/// but not all of the packet. It fails if and only if the reader failed, ended, or gave
/// type flags that are not in use, and says so. With the last byte it emits the packet
/// that the bytes are those of, or that there is none if they are the end of the stream,
/// and gives the reader back.
pub proof fn law_read_packet_reports<R, E>(
    s: &mut ReadPacket<R>,
    outcome: IoOutcome<&[u8], E>,
    r: Progress<(Option<DecodedPacket>, R), CodecError<E>>,
)
    requires
        old(s)@.reader is Some,
        call_ensures(ReadPacket::<R>::poll::<E>, (s, outcome), r),
    ensures
        final(s).wf(),
        match outcome {
            IoOutcome::WouldBlock => r is NotReady && final(s)@ == old(s)@,
            IoOutcome::Interrupted => r is Continue && final(s)@ == old(s)@,
            IoOutcome::Failed(e) => {
                &&& r matches Progress::Failed(CodecError::Io(f)) && f == e
                &&& final(s)@.reader is None
            },
            IoOutcome::Done(data) => {
                let c = old(s)@.consumed;
                let all = c + data@;
                let length = all[1] * 0x100_0000 + all[2] * 0x1_0000 + all[3] * 0x100 + all[4];
                let id = all[5] * 0x100_0000 + all[6] * 0x1_0000 + all[7] * 0x100 + all[8];
                &&& data@.len() == 0 ==> {
                    &&& r matches Progress::Failed(CodecError::UnexpectedEof(field)) && {
                        &&& field is Flags <==> c.len() < 1
                        &&& field is Length <==> 1 <= c.len() < 5
                        &&& field is Id <==> 5 <= c.len() < 9
                        &&& field is Data <==> 9 <= c.len()
                    }
                    &&& final(s)@.reader is None
                }
                &&& data@.len() > 0 && all[0] % 4 == 3 ==> {
                    &&& r is Failed
                    &&& r->Failed_0 is InvalidType
                    &&& final(s)@.reader is None
                }
                &&& data@.len() > 0 && all[0] % 4 != 3 && (all.len() < 9 || all.len() < 9 + length)
                    ==> {
                    &&& r is Continue
                    &&& final(s)@.reader == old(s)@.reader
                    &&& final(s)@.consumed == all
                }
                &&& data@.len() > 0 && all[0] % 4 != 3 && all.len() >= 9 && all.len() >= 9 + length
                    ==> {
                    &&& r matches Progress::Ready((_, reader)) && old(s)@.reader == Some(reader)
                    &&& final(s)@.reader is None
                    &&& all[0] == 0 && length == 0 && id == 0 ==> (r matches Progress::Ready((None, _)))
                    &&& !(all[0] == 0 && length == 0 && id == 0) ==> (r matches Progress::Ready((Some(p), _)) && {
                        &&& p@.flags == all[0]
                        &&& p@.id as int % 0x1_0000_0000 == id
                        &&& p@.data == all.subrange(9, 9 + length)
                    })
                }
            },
        },
{
    if let IoOutcome::Done(data) = outcome {
        let all = old(s)@.consumed + data@;
        wire::law_parse_incomplete(all);
        wire::law_parse_invalid_type(all);
        if let Parsed::Packet(frame) = wire::parse(all) {
            wire::law_parse_packet(all, frame);
        }
        if all.len() >= 9 {
            wire::law_end_header(all);
            wire::law_end_header_bytes();
            if wire::parse(all) is End {
                assert forall|i: int| 0 <= i < 9 implies all[i] == 0 by {
                    assert(all[i] == all.take(9)[i]);
                }
            } else {
                if forall|i: int| 0 <= i < 9 ==> all[i] == 0 {
                    assert(all.take(9) =~= wire::end_header());
                }
            }
        }
    }
}

/// What a stream of packets reports, in every state: the same as reading a packet does.
/// With the last byte of a packet, or of an end, it starts over with the same reader.
pub proof fn law_stream_reports<R, E>(
    s: &mut PSCodecStream<R>,
    outcome: IoOutcome<&[u8], E>,
    r: Progress<Option<DecodedPacket>, CodecError<E>>,
)
    requires
        old(s)@.reader is Some,
        call_ensures(PSCodecStream::<R>::poll::<E>, (s, outcome), r),
    ensures
        final(s).wf(),
        match outcome {
            IoOutcome::WouldBlock => r is NotReady && final(s)@ == old(s)@,
            IoOutcome::Interrupted => r is Continue && final(s)@ == old(s)@,
            IoOutcome::Failed(e) => {
                &&& r matches Progress::Failed(CodecError::Io(f)) && f == e
                &&& final(s)@.reader is None
            },
            IoOutcome::Done(data) => {
                let c = old(s)@.consumed;
                let all = c + data@;
                let length = all[1] * 0x100_0000 + all[2] * 0x1_0000 + all[3] * 0x100 + all[4];
                let id = all[5] * 0x100_0000 + all[6] * 0x1_0000 + all[7] * 0x100 + all[8];
                &&& data@.len() == 0 ==> {
                    &&& r matches Progress::Failed(CodecError::UnexpectedEof(field)) && {
                        &&& field is Flags <==> c.len() < 1
                        &&& field is Length <==> 1 <= c.len() < 5
                        &&& field is Id <==> 5 <= c.len() < 9
                        &&& field is Data <==> 9 <= c.len()
                    }
                    &&& final(s)@.reader is None
                }
                &&& data@.len() > 0 && all[0] % 4 == 3 ==> {
                    &&& r is Failed
                    &&& r->Failed_0 is InvalidType
                    &&& final(s)@.reader is None
                }
                &&& data@.len() > 0 && all[0] % 4 != 3 && (all.len() < 9 || all.len() < 9 + length)
                    ==> {
                    &&& r is Continue
                    &&& final(s)@.reader == old(s)@.reader
                    &&& final(s)@.consumed == all
                }
                &&& data@.len() > 0 && all[0] % 4 != 3 && all.len() >= 9 && all.len() >= 9 + length
                    ==> {
                    &&& r is Ready
                    &&& final(s)@.reader == old(s)@.reader
                    &&& final(s)@.consumed.len() == 0
                    &&& all[0] == 0 && length == 0 && id == 0 ==> (r matches Progress::Ready(None))
                    &&& !(all[0] == 0 && length == 0 && id == 0) ==> (r matches Progress::Ready(Some(p)) && {
                        &&& p@.flags == all[0]
                        &&& p@.id as int % 0x1_0000_0000 == id
                        &&& p@.data == all.subrange(9, 9 + length)
                    })
                }
            },
        },
{
    if let IoOutcome::Done(data) = outcome {
        let all = old(s)@.consumed + data@;
        wire::law_parse_incomplete(all);
        wire::law_parse_invalid_type(all);
        if let Parsed::Packet(frame) = wire::parse(all) {
            wire::law_parse_packet(all, frame);
        }
        if all.len() >= 9 {
            wire::law_end_header(all);
            wire::law_end_header_bytes();
            if wire::parse(all) is End {
                assert forall|i: int| 0 <= i < 9 implies all[i] == 0 by {
                    assert(all[i] == all.take(9)[i]);
                }
            } else {
                if forall|i: int| 0 <= i < 9 ==> all[i] == 0 {
                    assert(all.take(9) =~= wire::end_header());
                }
            }
        }
    }
}

/// Reading starts with nothing read. Any outcome is accepted in which the reader gave no
/// more than it was asked for.
pub proof fn law_read_accepts<R, E>(
    read: R,
    new: ReadPacket<R>,
    new_stream: PSCodecStream<R>,
    packet: &mut ReadPacket<R>,
    asked: (&mut R, usize),
    stream: &mut PSCodecStream<R>,
    stream_asked: (&mut R, usize),
    outcome: IoOutcome<&[u8], E>,
)
    requires
        call_ensures(ReadPacket::<R>::new, (read,), new),
        call_ensures(PSCodecStream::<R>::new, (read,), new_stream),
        old(packet).wf(),
        old(packet)@.reader is Some,
        old(stream).wf(),
        old(stream)@.reader is Some,
        call_ensures(ReadPacket::<R>::reader_and_wanted, (packet,), asked),
        call_ensures(PSCodecStream::<R>::reader_and_wanted, (stream,), stream_asked),
    ensures
        new.wf(),
        new@.reader == Some(read),
        new@.consumed.len() == 0,
        new_stream.wf(),
        new_stream@.reader == Some(read),
        new_stream@.consumed.len() == 0,
        (outcome matches IoOutcome::Done(data) ==> data@.len() <= asked.1) ==> call_requires(
            ReadPacket::<R>::poll::<E>,
            (packet, outcome),
        ),
        (outcome matches IoOutcome::Done(data) ==> data@.len() <= stream_asked.1) ==> call_requires(
            PSCodecStream::<R>::poll::<E>,
            (stream, outcome),
        ),
{
}

/// Whether a reader is there.
pub proof fn law_read_has_reader<R>(
    packet: ReadPacket<R>,
    has: bool,
    stream: PSCodecStream<R>,
    stream_has: bool,
)
    requires
        call_ensures(ReadPacket::<R>::has_reader, (&packet,), has),
        call_ensures(PSCodecStream::<R>::has_reader, (&stream,), stream_has),
    ensures
        has <==> packet@.reader is Some,
        stream_has <==> stream@.reader is Some,
{
}

/// What a packet tells of its flags, bit by bit, and of the rest.
pub proof fn law_packet_tells(
    p: DecodedPacket,
    stream: bool,
    end: bool,
    buffer: bool,
    string: bool,
    json: bool,
    id: PacketId,
    data: &Vec<u8>,
    taken: Vec<u8>,
)
    requires
        call_ensures(DecodedPacket::is_stream_packet, (&p,), stream),
        call_ensures(DecodedPacket::is_end_packet, (&p,), end),
        call_ensures(DecodedPacket::is_buffer_packet, (&p,), buffer),
        call_ensures(DecodedPacket::is_string_packet, (&p,), string),
        call_ensures(DecodedPacket::is_json_packet, (&p,), json),
        call_ensures(DecodedPacket::id, (&p,), id),
        call_ensures(DecodedPacket::data, (&p,), data),
        call_ensures(DecodedPacket::into_data, (p,), taken),
    ensures
        stream <==> p@.flags / 8 % 2 == 1,
        end <==> p@.flags / 4 % 2 == 1,
        buffer <==> p@.flags % 4 == 0,
        string <==> p@.flags % 4 == 1,
        json <==> p@.flags % 4 == 2,
        id == p@.id,
        data@ == p@.data,
        taken@ == p@.data,
{
    let f = p@.flags;
    assert(f & 3 == f % 4) by (bit_vector);
    assert(f & 8 != 0 <==> f / 8 % 2 == 1) by (bit_vector);
    assert(f & 4 != 0 <==> f / 4 % 2 == 1) by (bit_vector);
}

/// Changing the data of a packet changes nothing else of it.
pub proof fn law_packet_data_mut(p: &mut DecodedPacket, r: &mut Vec<u8>)
    requires
        call_ensures(DecodedPacket::data_mut, (p,), r),
    ensures
        old(r)@ == old(p)@.data,
        final(p)@.data == final(r)@,
        final(p)@.flags == old(p)@.flags,
        final(p)@.id == old(p)@.id,
{
}

} // verus!
