//! What holds of any number of steps of the state machines.
use vstd::prelude::*;

use crate::codec::read::ReadModel;
use crate::codec::sink::SinkModel;
use crate::codec::write::{WriteKind, WriteModel};
use crate::io::{CodecError, IoOutcome, Progress};
use crate::wire;
use crate::wire::{Frame, Parsed};

verus! {

/// Something that happens to a sink. A call leaves the writer as some `W`.
pub enum SinkEvent<W, E> {
    /// A packet is taken.
    Send(Frame),
    /// Closing is asked for.
    Close,
    /// The writer is offered bytes.
    Wrote(W, IoOutcome<usize, E>),
    /// The writer is flushed.
    Flushed(W),
    /// The writer is shut down.
    ShutDown(W),
}

impl<W> SinkModel<W> {
    /// Whether this can happen to the sink.
    pub open spec fn can<E>(self, event: SinkEvent<W, E>) -> bool {
        match event {
            SinkEvent::Send(frame) => self is Waiting && frame.data.len() <= u32::MAX,
            SinkEvent::Close => true,
            SinkEvent::Wrote(w, outcome) => {
                &&& self.is_busy()
                &&& self.writer() is Some
                &&& self.with_writer(w).possible(outcome)
            },
            SinkEvent::Flushed(w) => self is Waiting,
            SinkEvent::ShutDown(w) => self is ShuttingDown,
        }
    }

    /// The state of the sink afterwards.
    pub open spec fn next<E>(self, event: SinkEvent<W, E>) -> Self {
        match event {
            SinkEvent::Send(frame) => self.after_send(frame),
            SinkEvent::Close => self.after_close(),
            SinkEvent::Wrote(w, outcome) => self.with_writer(w).after_wrote(outcome),
            SinkEvent::Flushed(w) => self.with_writer(w),
            SinkEvent::ShutDown(w) => self.with_writer(w),
        }
    }

    /// The bytes that the writer takes.
    pub open spec fn emits<E>(self, event: SinkEvent<W, E>) -> Seq<u8> {
        match event {
            SinkEvent::Wrote(_, IoOutcome::Done(n)) => self.chunk().take(n as int),
            _ => Seq::empty(),
        }
    }

    /// Whether all of this can happen to the sink, in order.
    pub open spec fn can_all<E>(self, events: Seq<SinkEvent<W, E>>) -> bool
        decreases events.len(),
    {
        events.len() == 0 || {
            &&& self.can_all(events.drop_last())
            &&& self.next_all(events.drop_last()).can(events.last())
        }
    }

    /// The state of the sink after all of this.
    pub open spec fn next_all<E>(self, events: Seq<SinkEvent<W, E>>) -> Self
        decreases events.len(),
    {
        if events.len() == 0 {
            self
        } else {
            self.next_all(events.drop_last()).next(events.last())
        }
    }

    /// The bytes that the writer takes in all of this.
    pub open spec fn emits_all<E>(self, events: Seq<SinkEvent<W, E>>) -> Seq<u8>
        decreases events.len(),
    {
        if events.len() == 0 {
            Seq::empty()
        } else {
            self.emits_all(events.drop_last()) + self.next_all(events.drop_last()).emits(
                events.last(),
            )
        }
    }
}

/// The packets that are taken, in order.
pub open spec fn sent<W, E>(events: Seq<SinkEvent<W, E>>) -> Seq<Frame>
    decreases events.len(),
{
    if events.len() == 0 {
        Seq::empty()
    } else {
        let before = sent(events.drop_last());
        match events.last() {
            SinkEvent::Send(frame) => before.push(frame),
            _ => before,
        }
    }
}

/// The bytes that a sink owes its writer for some packets: theirs, and those that
/// end the stream once that has begun.
pub open spec fn owed(frames: Seq<Frame>, closing: bool) -> Seq<u8> {
    if closing {
        wire::encode_all(frames) + wire::end_header()
    } else {
        wire::encode_all(frames)
    }
}

/// One step of `law_sink_emits`.
proof fn lemma_sink_step<W, E>(m: SinkModel<W>, event: SinkEvent<W, E>)
    requires
        m.reachable(),
        m.can(event),
    ensures
        m.next(event).reachable(),
        m.emits(event) + m.next(event).outstanding() == m.outstanding() + (match event {
            SinkEvent::Send(frame) => wire::encode(frame),
            SinkEvent::Close if m is Waiting => wire::end_header(),
            _ => Seq::empty(),
        }),
        m.next(event).is_closing() == (m.is_closing() || (event is Close && m is Waiting)),
{
    let left = m.emits(event) + m.next(event).outstanding();
    match event {
        SinkEvent::Send(frame) => {
            assert(left =~= wire::encode(frame));
            assert(m.outstanding() + wire::encode(frame) =~= wire::encode(frame));
        },
        SinkEvent::Close => {
            if m is Waiting {
                assert(left =~= wire::end_header());
                assert(m.outstanding() + wire::end_header() =~= wire::end_header());
            } else {
                assert(left =~= m.outstanding() + Seq::empty());
            }
        },
        SinkEvent::Wrote(w, outcome) => {
            assert(left =~= m.outstanding() + Seq::empty());
        },
        _ => {
            assert(left =~= m.outstanding() + Seq::empty());
        },
    }
}

/// Whatever happens to a sink, and however little its writer takes at a time: the
/// bytes that the writer has taken and those that are outstanding are the bytes of
/// the packets that were sent, followed by those that end the stream once that has
/// begun. Nothing is lost, repeated or reordered.
pub proof fn law_sink_emits<W, E>(start: W, events: Seq<SinkEvent<W, E>>)
    requires
        SinkModel::Waiting(start).can_all(events),
    ensures
        ({
            let end = SinkModel::Waiting(start).next_all(events);
            let emitted = SinkModel::Waiting(start).emits_all(events);
            &&& end.reachable()
            &&& emitted + end.outstanding() == owed(sent(events), end.is_closing())
            &&& !end.is_busy() ==> emitted == owed(sent(events), end.is_closing())
        }),
    decreases events.len(),
{
    let m = SinkModel::Waiting(start);
    let end = m.next_all(events);
    let emitted = m.emits_all(events);
    if events.len() == 0 {
        assert(emitted + end.outstanding() =~= owed(sent(events), false));
        assert(emitted =~= owed(sent(events), false));
    } else {
        let init = events.drop_last();
        let last = events.last();
        let mid = m.next_all(init);
        let before = m.emits_all(init);
        law_sink_emits(start, init);
        lemma_sink_step(mid, last);
        let step = mid.emits(last) + end.outstanding();
        assert(emitted + end.outstanding() =~= before + step);
        match last {
            SinkEvent::Send(frame) => {
                assert(sent(events).drop_last() =~= sent(init));
                assert(before + step =~= (before + mid.outstanding()) + wire::encode(frame));
            },
            SinkEvent::Close => {
                if mid is Waiting {
                    assert(before + step =~= (before + mid.outstanding()) + wire::end_header());
                } else {
                    assert(before + step =~= before + mid.outstanding());
                }
            },
            _ => {
                assert(before + step =~= before + mid.outstanding());
            },
        }
        if !end.is_busy() {
            assert(emitted + end.outstanding() =~= emitted);
        }
    }
}

/// Something that happens to a stream of packets: a call of the reader, which
/// leaves it as some `R`.
pub struct ReadEvent<R, E> {
    pub reader: R,
    pub outcome: IoOutcome<Seq<u8>, E>,
}

impl<R> ReadModel<R> {
    /// Whether this can happen to the stream.
    pub open spec fn can<E>(self, event: ReadEvent<R, E>) -> bool {
        &&& self.reader is Some
        &&& self.possible(event.outcome)
    }

    /// The state of the stream afterwards.
    pub open spec fn next<E>(self, event: ReadEvent<R, E>) -> Self {
        self.with_reader(event.reader).stream_after(event.outcome)
    }

    /// What the stream emits: `Some` for a packet, `None` for its end.
    pub open spec fn emits<E>(self, event: ReadEvent<R, E>) -> Seq<Option<Frame>> {
        match self.with_reader(event.reader).stream_progress(event.outcome) {
            Progress::Ready(item) => seq![item],
            _ => Seq::empty(),
        }
    }

    /// Whether all of this can happen to the stream, in order.
    pub open spec fn can_all<E>(self, events: Seq<ReadEvent<R, E>>) -> bool
        decreases events.len(),
    {
        events.len() == 0 || {
            &&& self.can(events.first())
            &&& self.next(events.first()).can_all(events.drop_first())
        }
    }

    /// All that the stream emits.
    pub open spec fn emits_all<E>(self, events: Seq<ReadEvent<R, E>>) -> Seq<Option<Frame>>
        decreases events.len(),
    {
        if events.len() == 0 {
            Seq::empty()
        } else {
            self.emits(events.first()) + self.next(events.first()).emits_all(events.drop_first())
        }
    }
}

/// The bytes that the reader gives.
pub open spec fn received<R, E>(events: Seq<ReadEvent<R, E>>) -> Seq<u8>
    decreases events.len(),
{
    if events.len() == 0 {
        Seq::empty()
    } else {
        (match events.first().outcome {
            IoOutcome::Done(data) => data,
            _ => Seq::empty(),
        }) + received(events.drop_first())
    }
}

/// A stream that asks for no more than it needs has nothing left over when it has
/// read a packet or an end.
proof fn lemma_nothing_left_over<R, E>(m: ReadModel<R>, data: Seq<u8>)
    requires
        wire::parse(m.consumed) == Parsed::Incomplete,
        m.possible::<E>(IoOutcome::Done(data)),
    ensures
        wire::parse(m.consumed + data) == Parsed::End ==> m.consumed.len() + data.len() == 9,
        wire::parse(m.consumed + data) matches Parsed::Packet(frame) ==> m.consumed.len()
            + data.len() == 9 + frame.data.len(),
{
    let all = m.consumed + data;
    if m.consumed.len() >= 9 {
        assert(all.subrange(1, 5) =~= m.consumed.subrange(1, 5));
        assert(all.subrange(5, 9) =~= m.consumed.subrange(5, 9));
    }
}

/// Nothing can happen to a stream without a reader.
proof fn lemma_lost_reader<R, E>(m: ReadModel<R>, events: Seq<ReadEvent<R, E>>)
    requires
        m.reader is None,
        m.can_all(events),
    ensures
        m.emits_all(events) == Seq::<Option<Frame>>::empty(),
        received(events) == Seq::<u8>::empty(),
{
}

/// However the bytes are cut into pieces by the calls of the reader, blocked and
/// interrupted ones among them: the stream emits what the bytes hold.
pub proof fn law_stream_emits<R, E>(m: ReadModel<R>, events: Seq<ReadEvent<R, E>>)
    requires
        wire::parse(m.consumed) == Parsed::Incomplete,
        m.can_all(events),
    ensures
        m.emits_all(events) == wire::parse_all(m.consumed + received(events)),
    decreases events.len(),
{
    if events.len() == 0 {
        assert(m.consumed + received(events) =~= m.consumed);
    } else {
        let event = events.first();
        let rest = events.drop_first();
        let next = m.next(event);
        match event.outcome {
            IoOutcome::Done(data) => {
                let all = m.consumed + data;
                let tail = received(rest);
                let whole = m.consumed + received(events);
                assert(whole =~= all + tail);
                if data.len() == 0 {
                    lemma_lost_reader(next, rest);
                    assert(whole =~= m.consumed);
                } else {
                    lemma_nothing_left_over::<R, E>(m, data);
                    match wire::parse(all) {
                        Parsed::Incomplete => {
                            law_stream_emits(next, rest);
                        },
                        Parsed::InvalidType => {
                            lemma_lost_reader(next, rest);
                            assert(whole =~= all);
                        },
                        Parsed::End => {
                            wire::law_parse_extend(all, tail);
                            law_stream_emits(next, rest);
                            assert(whole.skip(9) =~= next.consumed + tail);
                        },
                        Parsed::Packet(frame) => {
                            wire::law_parse_extend(all, tail);
                            law_stream_emits(next, rest);
                            assert(whole.skip((9 + frame.data.len()) as int) =~= next.consumed
                                + tail);
                        },
                    }
                }
            },
            IoOutcome::Failed(_) => {
                lemma_lost_reader(next, rest);
                assert(m.consumed + received(events) =~= m.consumed);
            },
            _ => {
                law_stream_emits(next, rest);
                assert(m.consumed + received(events) =~= next.consumed + received(rest));
            },
        }
        assert(m.emits_all(events) =~= wire::parse_all(m.consumed + received(events)));
    }
}

/// What was sent is received: once a sink has been closed, a stream that has read
/// all of its bytes has emitted the packets that were sent, in order, and then the
/// end of the stream. This holds however little the writer takes and the reader
/// gives at a time.
pub proof fn law_sink_to_stream<W, R, E, F>(
    w: W,
    writes: Seq<SinkEvent<W, E>>,
    r: R,
    reads: Seq<ReadEvent<R, F>>,
)
    requires
        SinkModel::Waiting(w).can_all(writes),
        SinkModel::Waiting(w).next_all(writes) is ShuttingDown,
        ReadModel::fresh(r).can_all(reads),
        received(reads) == SinkModel::Waiting(w).emits_all(writes),
        forall|i: int|
            0 <= i < sent(writes).len() ==> wire::representable(#[trigger] sent(writes)[i]),
    ensures
        ReadModel::fresh(r).emits_all(reads) == sent(writes).map_values(
            |f: Frame| Some(f),
        ).push(None),
{
    law_sink_emits(w, writes);
    law_stream_emits(ReadModel::fresh(r), reads);
    assert(ReadModel::fresh(r).consumed + received(reads) =~= received(reads));
    wire::law_encode_all_parse_all(sent(writes));
}

/// What is received at any time is what was sent first: as long as the stream has
/// only read bytes that the sink has written, in order, it has only emitted packets
/// that were sent, in order and from the first, and the end only after all of them.
pub proof fn law_sink_to_stream_in_flight<W, R, E, F>(
    w: W,
    writes: Seq<SinkEvent<W, E>>,
    r: R,
    reads: Seq<ReadEvent<R, F>>,
)
    requires
        SinkModel::Waiting(w).can_all(writes),
        ReadModel::fresh(r).can_all(reads),
        received(reads).is_prefix_of(SinkModel::Waiting(w).emits_all(writes)),
        forall|i: int|
            0 <= i < sent(writes).len() ==> wire::representable(#[trigger] sent(writes)[i]),
    ensures
        ReadModel::fresh(r).emits_all(reads).is_prefix_of(
            sent(writes).map_values(|f: Frame| Some(f)).push(None),
        ),
{
    let m = SinkModel::Waiting(w);
    let end = m.next_all(writes);
    let emitted = m.emits_all(writes);
    let whole = wire::encode_all(sent(writes)) + wire::end_header();
    law_sink_emits(w, writes);
    law_stream_emits(ReadModel::fresh(r), reads);
    let read = received(reads);
    assert(ReadModel::fresh(r).consumed + read =~= read);
    assert(emitted =~= owed(sent(writes), end.is_closing()).take(emitted.len() as int));
    assert(read =~= whole.take(read.len() as int));
    wire::law_encode_all_parse_all(sent(writes));
    wire::law_parse_all_prefix(whole, read.len() as int);
}

/// Something that happens to bytes on their way into a writer: a call of it, which
/// leaves it as some `W`.
pub struct WriteEvent<W, E> {
    pub writer: W,
    pub outcome: IoOutcome<usize, E>,
}

impl<W> WriteModel<W> {
    /// What every state has in common that writing can get into.
    pub open spec fn reachable(self) -> bool {
        &&& self.kind == WriteKind::Packet ==> 9 <= self.bytes.len()
        &&& self.written <= self.bytes.len()
        &&& self.writer is Some ==> self.written < self.bytes.len()
    }

    /// Whether this can happen.
    pub open spec fn can<E>(self, event: WriteEvent<W, E>) -> bool {
        &&& self.writer is Some
        &&& self.possible(event.outcome)
    }

    /// The state afterwards.
    pub open spec fn next<E>(self, event: WriteEvent<W, E>) -> Self {
        self.with_writer(event.writer).after(event.outcome)
    }

    /// The bytes that the writer takes.
    pub open spec fn emits<E>(self, event: WriteEvent<W, E>) -> Seq<u8> {
        match event.outcome {
            IoOutcome::Done(n) => self.chunk().take(n as int),
            _ => Seq::empty(),
        }
    }

    /// How writing stands afterwards.
    pub open spec fn result<E>(self, event: WriteEvent<W, E>) -> Progress<W, CodecError<E>> {
        self.with_writer(event.writer).progress(event.outcome)
    }

    /// Whether all of this can happen, in order.
    pub open spec fn can_all<E>(self, events: Seq<WriteEvent<W, E>>) -> bool
        decreases events.len(),
    {
        events.len() == 0 || {
            &&& self.can_all(events.drop_last())
            &&& self.next_all(events.drop_last()).can(events.last())
        }
    }

    /// The state after all of this.
    pub open spec fn next_all<E>(self, events: Seq<WriteEvent<W, E>>) -> Self
        decreases events.len(),
    {
        if events.len() == 0 {
            self
        } else {
            self.next_all(events.drop_last()).next(events.last())
        }
    }

    /// The bytes that the writer takes in all of this.
    pub open spec fn emits_all<E>(self, events: Seq<WriteEvent<W, E>>) -> Seq<u8>
        decreases events.len(),
    {
        if events.len() == 0 {
            Seq::empty()
        } else {
            self.emits_all(events.drop_last()) + self.next_all(events.drop_last()).emits(
                events.last(),
            )
        }
    }

    /// How writing stands after all of this.
    pub open spec fn result_all<E>(self, events: Seq<WriteEvent<W, E>>) -> Progress<
        W,
        CodecError<E>,
    > {
        if events.len() == 0 {
            Progress::Continue
        } else {
            self.next_all(events.drop_last()).result(events.last())
        }
    }
}

/// However little the writer takes at a time: what it has taken and what is
/// outstanding are the bytes that were to be written. Writing is done when the
/// writer has taken all of them, and no earlier.
pub proof fn law_write_emits<W, E>(m: WriteModel<W>, events: Seq<WriteEvent<W, E>>)
    requires
        m.reachable(),
        m.writer is Some,
        m.can_all(events),
    ensures
        m.next_all(events).reachable(),
        m.next_all(events).kind == m.kind,
        m.next_all(events).bytes == m.bytes,
        m.emits_all(events) + m.next_all(events).outstanding() == m.outstanding(),
        m.result_all(events) is Ready <==> m.emits_all(events) == m.outstanding(),
    decreases events.len(),
{
    if events.len() == 0 {
        assert(m.emits_all(events) + m.outstanding() =~= m.outstanding());
        assert(m.outstanding().len() > 0);
    } else {
        let init = events.drop_last();
        let last = events.last();
        let mid = m.next_all(init);
        let end = m.next_all(events);
        law_write_emits(m, init);
        assert(mid.emits(last) + end.outstanding() =~= mid.outstanding());
        assert(m.emits_all(events) + end.outstanding() =~= m.emits_all(init) + (mid.emits(last)
            + end.outstanding()));
        if m.result_all(events) is Ready {
            assert(m.emits_all(events) + end.outstanding() =~= m.emits_all(events));
        } else {
            assert(end.outstanding().len() > 0);
        }
    }
}

impl<R> ReadModel<R> {
    /// Whether all of this can happen to the reading of a packet, in order.
    pub open spec fn can_read_all<E>(self, events: Seq<ReadEvent<R, E>>) -> bool
        decreases events.len(),
    {
        events.len() == 0 || {
            &&& self.can_read_all(events.drop_last())
            &&& self.read_all(events.drop_last()).can(events.last())
        }
    }

    /// The state of the reading of a packet after all of this.
    pub open spec fn read_all<E>(self, events: Seq<ReadEvent<R, E>>) -> Self
        decreases events.len(),
    {
        if events.len() == 0 {
            self
        } else {
            self.read_all(events.drop_last()).with_reader(events.last().reader).after(
                events.last().outcome,
            )
        }
    }

    /// How the reading of a packet stands after all of this.
    pub open spec fn read_result<E>(self, events: Seq<ReadEvent<R, E>>) -> Progress<
        (Option<Frame>, R),
        CodecError<E>,
    > {
        if events.len() == 0 {
            Progress::Continue
        } else {
            self.read_all(events.drop_last()).with_reader(events.last().reader).progress(
                events.last().outcome,
            )
        }
    }
}

/// The last bytes come last.
proof fn lemma_received_last<R, E>(events: Seq<ReadEvent<R, E>>)
    requires
        events.len() > 0,
    ensures
        received(events) == received(events.drop_last()) + (match events.last().outcome {
            IoOutcome::Done(data) => data,
            _ => Seq::empty(),
        }),
    decreases events.len(),
{
    if events.len() == 1 {
        assert(received(events.drop_first()) =~= Seq::empty());
        assert(received(events.drop_last()) =~= Seq::empty());
    } else {
        lemma_received_last(events.drop_first());
        assert(events.drop_first().drop_last() =~= events.drop_last().drop_first());
    }
    assert(received(events) =~= received(events.drop_last()) + (match events.last().outcome {
        IoOutcome::Done(data) => data,
        _ => Seq::empty(),
    }));
}

/// While a packet is being read, no byte gets lost.
proof fn lemma_read_keeps_bytes<R, E>(r: R, events: Seq<ReadEvent<R, E>>)
    requires
        ReadModel::fresh(r).can_read_all(events),
        ReadModel::fresh(r).read_all(events).reader is Some,
    ensures
        ReadModel::fresh(r).read_all(events).consumed == received(events),
    decreases events.len(),
{
    let m = ReadModel::fresh(r);
    if events.len() == 0 {
        assert(received(events) =~= Seq::empty());
    } else {
        lemma_read_keeps_bytes(r, events.drop_last());
        lemma_received_last(events);
        assert(m.read_all(events).consumed =~= received(events));
    }
}

/// A packet that was written is read: once all of its bytes have been given by the
/// reader, in whatever pieces, reading emits the packet, and the reader.
pub proof fn law_read_emits<R, E>(r: R, events: Seq<ReadEvent<R, E>>, frame: Frame)
    requires
        wire::representable(frame),
        ReadModel::fresh(r).can_read_all(events),
        received(events) == wire::encode(frame),
        events.last().outcome matches IoOutcome::Done(data) && data.len() > 0,
    ensures
        ReadModel::fresh(r).read_result(events) == Progress::<
            (Option<Frame>, R),
            CodecError<E>,
        >::Ready((Some(frame), events.last().reader)),
{
    wire::law_encode_len(frame);
    lemma_read_keeps_bytes(r, events.drop_last());
    lemma_received_last(events);
    wire::law_encode_parse(frame, Seq::empty());
    assert(wire::encode(frame) + Seq::empty() =~= wire::encode(frame));
}

/// An end of the stream that was written is read: once all of its bytes have been
/// given by the reader, in whatever pieces, reading emits that there is no packet, and
/// the reader.
pub proof fn law_read_emits_end<R, E>(r: R, events: Seq<ReadEvent<R, E>>)
    requires
        ReadModel::fresh(r).can_read_all(events),
        received(events) == wire::end_header(),
        events.last().outcome matches IoOutcome::Done(data) && data.len() > 0,
    ensures
        ReadModel::fresh(r).read_result(events) == Progress::<
            (Option<Frame>, R),
            CodecError<E>,
        >::Ready((None, events.last().reader)),
{
    assert(wire::end_header().len() == 9);
    lemma_read_keeps_bytes(r, events.drop_last());
    lemma_received_last(events);
    wire::law_end_header(wire::end_header());
    assert(wire::end_header().take(9) =~= wire::end_header());
}

/// A packet survives the trip: when writing it is done and all that was written has
/// been read, in whatever pieces, reading emits it.
pub proof fn law_packet_round_trip<W, R, E, F>(
    w: W,
    frame: Frame,
    writes: Seq<WriteEvent<W, E>>,
    r: R,
    reads: Seq<ReadEvent<R, F>>,
)
    requires
        wire::representable(frame),
        WriteModel::packet(w, frame).can_all(writes),
        WriteModel::packet(w, frame).result_all(writes) is Ready,
        ReadModel::fresh(r).can_read_all(reads),
        received(reads) == WriteModel::packet(w, frame).emits_all(writes),
        reads.last().outcome matches IoOutcome::Done(data) && data.len() > 0,
    ensures
        ReadModel::fresh(r).read_result(reads) == Progress::<
            (Option<Frame>, R),
            CodecError<F>,
        >::Ready((Some(frame), reads.last().reader)),
{
    let m = WriteModel::packet(w, frame);
    wire::law_encode_len(frame);
    law_write_emits(m, writes);
    assert(m.outstanding() =~= wire::encode(frame));
    law_read_emits(r, reads, frame);
}

/// An end of the stream survives the trip: when writing it is done and all that was
/// written has been read, in whatever pieces, reading emits that there is no packet.
pub proof fn law_end_round_trip<W, R, E, F>(
    w: W,
    writes: Seq<WriteEvent<W, E>>,
    r: R,
    reads: Seq<ReadEvent<R, F>>,
)
    requires
        WriteModel::end(w).can_all(writes),
        WriteModel::end(w).result_all(writes) is Ready,
        ReadModel::fresh(r).can_read_all(reads),
        received(reads) == WriteModel::end(w).emits_all(writes),
        reads.last().outcome matches IoOutcome::Done(data) && data.len() > 0,
    ensures
        ReadModel::fresh(r).read_result(reads) == Progress::<
            (Option<Frame>, R),
            CodecError<F>,
        >::Ready((None, reads.last().reader)),
{
    let m = WriteModel::end(w);
    law_write_emits(m, writes);
    assert(m.outstanding() =~= wire::end_header());
    law_read_emits_end(r, reads);
}

} // verus!
