//! How the two sides of a packet-stream fit together.
use vstd::prelude::*;

use crate::codec::{DecodedPacket, MetaData};
use crate::ids;
use crate::io::{Async, AsyncSink, Poll, Progress, SendPoll};
use crate::ps;
use crate::ps::{
    InRequest, InResponse, Incoming, IncomingPacket, PsIn, PsOut, PsPacketType, PsSink, PsStream,
    SendRequest, SendResponse, SendResponseError, WaitError, Waiting,
};
use crate::wire;
use crate::wire::{
    Frame, PacketId, END, STREAM, TYPE, TYPE_BINARY, TYPE_INVALID, TYPE_JSON, TYPE_STRING,
};

verus! {

/// What the flags of a packet tell, by the methods of `DecodedPacket`.
pub open spec fn tell(flags: u8, t: PsPacketType, end: bool, stream: bool) -> bool {
    &&& (flags & TYPE == TYPE_BINARY) == (t is Binary)
    &&& (flags & TYPE == TYPE_STRING) == (t is String)
    &&& (flags & TYPE == TYPE_JSON) == (t is Json)
    &&& flags & TYPE != TYPE_INVALID
    &&& (flags & END != 0) == end
    &&& (flags & STREAM != 0) == stream
}

/// The flags of whatever is sent tell what it was sent with: its type, whether it is
/// an end or error, and whether it belongs to a duplex.
pub proof fn law_flags_tell(t: PsPacketType, end: bool)
    ensures
        tell(t.type_flags(), t, false, false),
        tell(t.type_flags() | END, t, true, false),
        tell(t.stream_flags(end), t, end, true),
{
    let f = t.type_flags();
    assert(f < 3 ==> {
        &&& f & 3 == f
        &&& (f | 8) & 3 == f
        &&& (f | 4) & 3 == f
        &&& (f | 8 | 4) & 3 == f
        &&& f & 4 == 0
        &&& (f | 8) & 4 == 0
        &&& (f | 4) & 4 != 0
        &&& (f | 8 | 4) & 4 != 0
        &&& f & 8 == 0
        &&& (f | 8) & 8 != 0
        &&& (f | 4) & 8 == 0
        &&& (f | 8 | 4) & 8 != 0
    }) by (bit_vector);
}

/// A packet to send as the bytes of its data and its metadata make it up.
pub open spec fn frame(data: Seq<u8>, metadata: MetaData) -> Frame {
    Frame { flags: metadata.flags, id: metadata.id, data }
}

/// Whatever is sent can be read back: neither a request nor a response nor an item
/// of a duplex, on either side of it, is taken for the end of the stream, or has
/// type flags that are not in use.
pub proof fn law_sent_is_representable(id: PacketId, t: PsPacketType, end: bool, data: Seq<u8>)
    requires
        1 <= id,
        data.len() <= u32::MAX,
    ensures
        wire::representable(frame(data, ps::request_packet(t, id))),
        wire::representable(frame(data, ps::response_packet(t, id))),
        wire::representable(frame(data, ps::error_packet(t, id))),
        wire::representable(frame(data, ps::item_packet(t, end, id))),
        wire::representable(frame(data, ps::item_packet(t, end, ids::answering(id)))),
{
    law_flags_tell(t, end);
}

/// A request gets its response. A request opens a request at the peer, who sees its
/// packet. The response to it, or the error, has the id that the sender waits for,
/// and tells its type and whether it is an error. It does not open anything.
pub proof fn law_request_and_response(
    id: PacketId,
    t: PsPacketType,
    data: Seq<u8>,
    u: PsPacketType,
    accepted: PacketId,
)
    requires
        1 <= id,
        1 <= accepted,
    ensures
        ({
            let request = frame(data, ps::request_packet(t, id));
            let response = ps::response_packet(u, request.id);
            let error = ps::error_packet(u, request.id);
            &&& request.id == id
            &&& ps::incoming(request) == Incoming::Request(request)
            &&& tell(request.flags, t, false, false)
            &&& response.id == ids::answering(id)
            &&& response.id != accepted
            &&& tell(response.flags, u, false, false)
            &&& error.id == ids::answering(id)
            &&& error.id != accepted
            &&& tell(error.flags, u, true, false)
        }),
{
    law_flags_tell(t, false);
    law_flags_tell(u, false);
}

/// A duplex connects both sides. The first item that is sent opens a duplex at the
/// peer, and is the first item that the peer gets. From then on each side waits for
/// the packets that the other one sends. What the peer sends does not open anything.
pub proof fn law_duplex_connects(
    id: PacketId,
    t: PsPacketType,
    end: bool,
    data: Seq<u8>,
    u: PsPacketType,
    last: bool,
    accepted: PacketId,
)
    requires
        1 <= id,
        1 <= accepted,
    ensures
        ({
            let item = frame(data, ps::item_packet(t, end, id));
            &&& item.id == id
            &&& tell(item.flags, t, end, true)
            &&& ps::incoming(item) matches Incoming::Duplex(sink, stream) && {
                let answer = ps::item_packet(u, last, sink);
                &&& stream == (Waiting { key: item.id, initial: Some(item) })
                &&& answer.id == ids::answering(id)
                &&& answer.id != accepted
                &&& tell(answer.flags, u, last, true)
            }
        }),
{
    law_flags_tell(t, end);
    law_flags_tell(u, last);
}

/// The id of the packet that opened something.
pub open spec fn opening_id(opened: Incoming) -> PacketId {
    match opened {
        Incoming::Request(packet) => packet.id,
        Incoming::Duplex(_, stream) => stream.key,
    }
}

/// The id that is accepted next, after some packets.
pub open spec fn accepted_after(accepted: PacketId, packets: Seq<Frame>) -> PacketId
    decreases packets.len(),
{
    if packets.len() == 0 {
        accepted
    } else {
        let before = accepted_after(accepted, packets.drop_last());
        if packets.last().id == before {
            ids::following(before)
        } else {
            before
        }
    }
}

/// What some packets open.
pub open spec fn opened(accepted: PacketId, packets: Seq<Frame>) -> Seq<Incoming>
    decreases packets.len(),
{
    if packets.len() == 0 {
        Seq::empty()
    } else {
        let before = opened(accepted, packets.drop_last());
        if packets.last().id == accepted_after(accepted, packets.drop_last()) {
            before.push(ps::incoming(packets.last()))
        } else {
            before
        }
    }
}

/// The two sides stay in step: when all that one side opens arrives in order, the
/// other side accepts all of it, and then accepts the id that the first one uses
/// next.
pub proof fn law_sides_stay_in_step(id: PacketId, packets: Seq<Frame>)
    requires
        forall|k: int|
            0 <= k < packets.len() ==> (#[trigger] packets[k]).id == ids::nth_after(id, k as nat),
    ensures
        accepted_after(id, packets) == ids::nth_after(id, packets.len()),
        opened(id, packets) == packets.map_values(|f: Frame| ps::incoming(f)),
    decreases packets.len(),
{
    if packets.len() > 0 {
        law_sides_stay_in_step(id, packets.drop_last());
    }
    assert(opened(id, packets) =~= packets.map_values(|f: Frame| ps::incoming(f)));
}

/// Whatever arrives, in whatever order: what is opened has the ids that the peer
/// uses, in order, none of them left out and none of them twice.
pub proof fn law_opened_in_order(accepted: PacketId, packets: Seq<Frame>, k: int)
    requires
        0 <= k < opened(accepted, packets).len(),
    ensures
        accepted_after(accepted, packets) == ids::nth_after(
            accepted,
            opened(accepted, packets).len(),
        ),
        opening_id(opened(accepted, packets)[k]) == ids::nth_after(accepted, k as nat),
    decreases packets.len(),
{
    let init = packets.drop_last();
    lemma_accepted_after(accepted, init);
    lemma_accepted_after(accepted, packets);
    if k < opened(accepted, init).len() {
        law_opened_in_order(accepted, init, k);
    }
}

/// The id that is accepted next only depends on how many were.
proof fn lemma_accepted_after(accepted: PacketId, packets: Seq<Frame>)
    ensures
        accepted_after(accepted, packets) == ids::nth_after(
            accepted,
            opened(accepted, packets).len(),
        ),
    decreases packets.len(),
{
    if packets.len() > 0 {
        lemma_accepted_after(accepted, packets.drop_last());
    }
}

/// Nobody waits for the same id twice: not two of the last `i32::MAX` things that
/// were opened here, nor one of them and a duplex that the peer opened.
pub proof fn law_waiting_ids_distinct(n: nat, m: nat, packet: Frame)
    requires
        n < m < n + i32::MAX,
        1 <= packet.id,
        packet.flags & STREAM != 0,
    ensures
        ids::answering(ids::nth_after(1, n)) != ids::answering(ids::nth_after(1, m)),
        ps::incoming(packet) matches Incoming::Duplex(_, stream) && stream.key
            != ids::answering(ids::nth_after(1, n)),
{
    ids::law_ids_distinct(n, m);
    ids::law_ids_count(n);
    ids::law_ids_count(m);
}

/// Setting a flag that is not set adds its value.
proof fn lemma_flags_add_up(t: PsPacketType, end: bool)
    ensures
        t.type_flags() == (match t {
            PsPacketType::Binary => 0int,
            PsPacketType::String => 1,
            PsPacketType::Json => 2,
        }),
        t.type_flags() | END == t.type_flags() + 4,
        t.stream_flags(end) == t.type_flags() + 8 + (if end { 4int } else { 0 }),
{
    let f = t.type_flags();
    assert(f < 3 ==> {
        &&& f | 4 == f + 4
        &&& f | 8 == f + 8
        &&& f | 8 | 4 == f + 12
    }) by (bit_vector);
}

/// What is sent, in numbers. A request has its own id, and its type for flags. A response
/// has an id that adds up to zero with that of the request, and its type for flags, an
/// error the end flag as well. An item of a duplex, on either side of it, has the id that
/// it is sent with, and its type, its end and the stream flag for flags: 0, 1 and 2 for the
/// types, 4 for an end or error and 8 for the stream flag. So items, and nothing else, carry
/// the stream flag.
pub proof fn law_packets(t: PsPacketType, end: bool, id: PacketId, item_id: PacketId)
    requires
        1 <= id,
    ensures
        ps::request_packet(t, id).id == id,
        ps::request_packet(t, id).flags == (match t {
            PsPacketType::Binary => 0int,
            PsPacketType::String => 1,
            PsPacketType::Json => 2,
        }),
        ps::response_packet(t, id).id + id == 0,
        ps::response_packet(t, id).flags == (match t {
            PsPacketType::Binary => 0int,
            PsPacketType::String => 1,
            PsPacketType::Json => 2,
        }),
        ps::error_packet(t, id).id + id == 0,
        ps::error_packet(t, id).flags == (match t {
            PsPacketType::Binary => 0int,
            PsPacketType::String => 1,
            PsPacketType::Json => 2,
        }) + 4,
        ps::item_packet(t, end, item_id).id == item_id,
        ps::item_packet(t, end, item_id).flags == (match t {
            PsPacketType::Binary => 0int,
            PsPacketType::String => 1,
            PsPacketType::Json => 2,
        }) + (if end { 4int } else { 0 }) + 8,
        ps::request_packet(t, id).flags & STREAM == 0,
        ps::response_packet(t, id).flags & STREAM == 0,
        ps::error_packet(t, id).flags & STREAM == 0,
        ps::item_packet(t, end, item_id).flags & STREAM != 0,
{
    lemma_flags_add_up(t, end);
    law_flags_tell(t, end);
}

/// Both sides of a new packet-stream start with the id 1. The flags that types are given.
pub proof fn law_packet_stream(r: (PsIn, PsOut), t: PsPacketType, flags: u8)
    requires
        call_ensures(ps::packet_stream, (), r),
        call_ensures(PsPacketType::flags, (&t,), flags),
    ensures
        r.0.wf() && r.0@ == 1,
        r.1.wf() && r.1@ == 1,
        flags == (match t {
            PsPacketType::Binary => 0int,
            PsPacketType::String => 1,
            PsPacketType::Json => 2,
        }),
{
}

/// A request sends its data with the next id and with its type for flags, and waits for
/// the id that adds up to zero with that one. The id after the largest one is 1, the one
/// after any other is one more.
pub proof fn law_request<B>(
    s: &mut PsOut,
    data: B,
    t: PsPacketType,
    r: (SendRequest<B>, InResponse),
    packet: (B, MetaData),
    key: PacketId,
)
    requires
        old(s).wf(),
        call_ensures(PsOut::request::<B>, (s, data, t), r),
        call_ensures(SendRequest::<B>::into_packet, (r.0,), packet),
        call_ensures(InResponse::key, (&r.1,), key),
    ensures
        call_requires(PsOut::request::<B>, (s, data, t)),
        final(s).wf(),
        packet.0 == data,
        packet.1.id == old(s)@,
        packet.1.flags == (match t {
            PsPacketType::Binary => 0int,
            PsPacketType::String => 1,
            PsPacketType::Json => 2,
        }),
        key + old(s)@ == 0,
        r.1@ == key,
        final(s)@ == (if old(s)@ == 0x7fff_ffff { 1 } else { old(s)@ + 1 }),
{
    law_packets(t, false, old(s)@, 0);
}

/// A duplex sends with the next id, and waits for the one that adds up to zero with it.
/// There is no packet to emit before those that it waits for. The id after the largest one
/// is 1, the one after any other is one more.
pub proof fn law_duplex(s: &mut PsOut, r: (PsSink, PsStream), key: PacketId)
    requires
        old(s).wf(),
        call_ensures(PsOut::duplex, (s,), r),
        call_ensures(PsStream::key, (&r.1,), key),
    ensures
        call_requires(PsOut::duplex, (s,)),
        final(s).wf(),
        r.0@ == old(s)@,
        key + old(s)@ == 0,
        r.1@.key == key,
        r.1@.initial is None,
        final(s)@ == (if old(s)@ == 0x7fff_ffff { 1 } else { old(s)@ + 1 }),
{
}

/// A sink sends an item with its id, whichever that is, and with the type, the end and the
/// stream flag for flags. An item that was not taken is given back as it was.
pub proof fn law_sink_sends<B, E>(
    s: PsSink,
    item: (B, PsPacketType, bool),
    packet: (B, MetaData),
    outcome: SendPoll<(B, MetaData), E>,
    r: SendPoll<(B, PsPacketType, bool), E>,
)
    requires
        call_ensures(PsSink::start_send::<B>, (&s, item), packet),
        call_ensures(PsSink::finish_send::<B, E>, (&s, item.1, item.2, outcome), r),
    ensures
        packet.0 == item.0,
        packet.1.id == s@,
        packet.1.flags == (match item.1 {
            PsPacketType::Binary => 0int,
            PsPacketType::String => 1,
            PsPacketType::Json => 2,
        }) + (if item.2 { 4int } else { 0 }) + 8,
        outcome matches Ok(AsyncSink::NotReady(p)) ==> (r matches Ok(AsyncSink::NotReady(q)) && q.0
            == p.0 && q.1 == item.1 && q.2 == item.2),
        r is Ok && r->Ok_0 is Ready <==> outcome is Ok && outcome->Ok_0 is Ready,
        outcome matches Err(e) ==> (r matches Err(f) && f == e),
{
    law_packets(item.1, item.2, 1, s@);
}

/// A response sends its data with the id that adds up to zero with that of the request,
/// and with its type for flags. An error has the end flag set as well. The packet of the
/// request can be looked at before.
pub proof fn law_respond<B>(
    s: InRequest,
    seen: &DecodedPacket,
    data: B,
    t: PsPacketType,
    r: SendResponse<B>,
    packet: (B, MetaData),
    e: SendResponseError<B>,
    error: (B, MetaData),
)
    requires
        s.wf(),
        call_ensures(InRequest::packet, (&s,), seen),
        call_ensures(InRequest::respond::<B>, (s, data, t), r),
        call_ensures(SendResponse::<B>::into_packet, (r,), packet),
        call_ensures(InRequest::respond_error::<B>, (s, data, t), e),
        call_ensures(SendResponseError::<B>::into_packet, (e,), error),
    ensures
        call_requires(InRequest::respond::<B>, (s, data, t)),
        call_requires(InRequest::respond_error::<B>, (s, data, t)),
        seen@ == s@,
        packet.0 == data,
        packet.1.id + s@.id == 0,
        packet.1.flags == (match t {
            PsPacketType::Binary => 0int,
            PsPacketType::String => 1,
            PsPacketType::Json => 2,
        }),
        error.0 == data,
        error.1.id + s@.id == 0,
        error.1.flags == (match t {
            PsPacketType::Binary => 0int,
            PsPacketType::String => 1,
            PsPacketType::Json => 2,
        }) + 4,
{
    law_packets(t, false, s@.id, 0);
}

/// Whoever waits gets the packet that arrives as it is, and an error if and only if the
/// stream ended or failed. Until then it waits. No end is ever emitted as an item.
pub proof fn law_waiting<E>(
    response: InResponse,
    stream: PsStream,
    outcome: Poll<Option<DecodedPacket>, E>,
    r: Poll<DecodedPacket, WaitError<E>>,
    item: Poll<Option<DecodedPacket>, WaitError<E>>,
)
    requires
        stream@.initial is None,
        call_ensures(InResponse::poll::<E>, (&response, outcome), r),
        call_ensures(PsStream::poll::<E>, (&stream, outcome), item),
    ensures
        call_requires(InResponse::poll::<E>, (&response, outcome)),
        call_requires(PsStream::poll::<E>, (&stream, outcome)),
        match outcome {
            Ok(Async::Ready(Some(packet))) => {
                &&& r matches Ok(Async::Ready(got)) && got@ == packet@
                &&& item matches Ok(Async::Ready(Some(got))) && got@ == packet@
            },
            Ok(Async::Ready(None)) => {
                &&& r is Err && r->Err_0 is NoResponse
                &&& item is Err && item->Err_0 is StreamEnded
            },
            Ok(Async::NotReady) => {
                &&& r is Ok && r->Ok_0 is NotReady
                &&& item is Ok && item->Ok_0 is NotReady
            },
            Err(e) => {
                &&& r matches Err(WaitError::Io(f)) && f == e
                &&& item matches Err(WaitError::Io(f)) && f == e
            },
        },
{
}

/// The packet that opened a duplex is emitted first, and once.
pub proof fn law_take_initial(s: &mut PsStream, r: Option<DecodedPacket>)
    requires
        call_ensures(PsStream::take_initial, (s,), r),
    ensures
        r is Some <==> old(s)@.initial is Some,
        r matches Some(packet) ==> old(s)@.initial == Some(packet@),
        final(s)@.initial is None,
        final(s)@.key == old(s)@.key,
{
}

/// A packet opens something if and only if it has the id that is accepted next, and then
/// the one after that is accepted next. It opens a duplex if and only if it carries the
/// stream flag, and a request otherwise. The request has the packet. The duplex emits it
/// first, waits for its id, and sends with the one that adds up to zero with that. Any
/// other packet is ignored, and everything else is passed on.
pub proof fn law_incoming<E>(
    s: &mut PsIn,
    outcome: Poll<Option<DecodedPacket>, E>,
    r: Progress<Option<IncomingPacket>, E>,
)
    requires
        old(s).wf(),
        call_ensures(PsIn::poll::<E>, (s, outcome), r),
    ensures
        call_requires(PsIn::poll::<E>, (s, outcome)),
        final(s).wf(),
        match outcome {
            Ok(Async::Ready(Some(packet))) => {
                &&& packet@.id == old(s)@ ==> {
                    &&& final(s)@ == (if old(s)@ == 0x7fff_ffff { 1 } else { old(s)@ + 1 })
                    &&& r matches Progress::Ready(Some(got)) && match got {
                        IncomingPacket::Request(request) => {
                            &&& packet@.flags / 8 % 2 == 0
                            &&& request.wf()
                            &&& request@ == packet@
                        },
                        IncomingPacket::Duplex(sink, stream) => {
                            &&& packet@.flags / 8 % 2 == 1
                            &&& sink@ + packet@.id == 0
                            &&& stream@.key == packet@.id
                            &&& stream@.initial == Some(packet@)
                        },
                    }
                }
                &&& packet@.id != old(s)@ ==> r is Continue && final(s)@ == old(s)@
            },
            Ok(Async::Ready(None)) => {
                &&& r is Ready && r->Ready_0 is None
                &&& final(s)@ == old(s)@
            },
            Ok(Async::NotReady) => r is NotReady && final(s)@ == old(s)@,
            Err(e) => (r matches Progress::Failed(f) && f == e) && final(s)@ == old(s)@,
        },
{
    if let Ok(Async::Ready(Some(packet))) = outcome {
        let f = packet@.flags;
        assert(f & 8 != 0 <==> f / 8 % 2 == 1) by (bit_vector);
        if packet@.id == old(s)@ {
            ids::law_answering(packet@.id);
        }
    }
}

/// A request gets its response, through both sides: when its packet arrives, the peer gets
/// it as a request, and what it responds with, or the error, has the id that is waited for.
pub proof fn law_request_round_trip<B, E>(
    here: &mut PsOut,
    there: &mut PsIn,
    data: B,
    t: PsPacketType,
    sent: (SendRequest<B>, InResponse),
    packet: (B, MetaData),
    arrived: DecodedPacket,
    got: Progress<Option<IncomingPacket>, E>,
    answer: B,
    u: PsPacketType,
    response: SendResponse<B>,
    reply: (B, MetaData),
    failure: SendResponseError<B>,
    error: (B, MetaData),
    key: PacketId,
)
    requires
        old(here).wf(),
        old(there).wf(),
        old(there)@ == old(here)@,
        call_ensures(PsOut::request::<B>, (here, data, t), sent),
        call_ensures(SendRequest::<B>::into_packet, (sent.0,), packet),
        arrived@.flags == packet.1.flags,
        arrived@.id == packet.1.id,
        call_ensures(PsIn::poll::<E>, (there, Ok(Async::Ready(Some(arrived)))), got),
        call_ensures(InRequest::respond::<B>, (got->Ready_0->Some_0->Request_0, answer, u), response),
        call_ensures(SendResponse::<B>::into_packet, (response,), reply),
        call_ensures(
            InRequest::respond_error::<B>,
            (got->Ready_0->Some_0->Request_0, answer, u),
            failure,
        ),
        call_ensures(SendResponseError::<B>::into_packet, (failure,), error),
        call_ensures(InResponse::key, (&sent.1,), key),
    ensures
        got matches Progress::Ready(Some(IncomingPacket::Request(request))) && request@ == arrived@,
        reply.0 == answer,
        reply.1.id == key,
        reply.1.flags == (match u {
            PsPacketType::Binary => 0int,
            PsPacketType::String => 1,
            PsPacketType::Json => 2,
        }),
        error.0 == answer,
        error.1.id == key,
        error.1.flags == (match u {
            PsPacketType::Binary => 0int,
            PsPacketType::String => 1,
            PsPacketType::Json => 2,
        }) + 4,
        final(there)@ == final(here)@,
{
    law_packets(t, false, old(here)@, 0);
    law_packets(u, false, old(here)@, 0);
    law_flags_tell(t, false);
}

/// A duplex connects both sides: when the first item arrives, it opens a duplex at the peer,
/// and is the first one that the peer gets. From then on each side waits for the id that
/// the other one sends with.
pub proof fn law_duplex_round_trip<B, E>(
    here: &mut PsOut,
    there: &mut PsIn,
    mine: (PsSink, PsStream),
    first: (B, PsPacketType, bool),
    packet: (B, MetaData),
    arrived: DecodedPacket,
    got: Progress<Option<IncomingPacket>, E>,
    next: (B, PsPacketType, bool),
    next_packet: (B, MetaData),
    back: (B, PsPacketType, bool),
    back_packet: (B, MetaData),
)
    requires
        old(here).wf(),
        old(there).wf(),
        old(there)@ == old(here)@,
        call_ensures(PsOut::duplex, (here,), mine),
        call_ensures(PsSink::start_send::<B>, (&mine.0, first), packet),
        arrived@.flags == packet.1.flags,
        arrived@.id == packet.1.id,
        call_ensures(PsIn::poll::<E>, (there, Ok(Async::Ready(Some(arrived)))), got),
        call_ensures(PsSink::start_send::<B>, (&mine.0, next), next_packet),
        call_ensures(
            PsSink::start_send::<B>,
            (&got->Ready_0->Some_0->Duplex_0, back),
            back_packet,
        ),
    ensures
        got matches Progress::Ready(Some(IncomingPacket::Duplex(_, stream))) && {
            &&& stream@.initial == Some(arrived@)
            &&& stream@.key == next_packet.1.id
        },
        next_packet.0 == next.0,
        back_packet.0 == back.0,
        back_packet.1.id == mine.1@.key,
        final(there)@ == final(here)@,
{
    law_packets(first.1, first.2, old(here)@, old(here)@);
    law_flags_tell(first.1, first.2);
}

} // verus!
