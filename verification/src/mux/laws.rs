//! How the two sides of a packet-stream fit together.
use vstd::prelude::*;

use crate::codec::MetaData;
use crate::ids;
use crate::io::{Async, AsyncSink, Poll, Progress, SendPoll};
use crate::mux;
use crate::mux::{
    ConnectionError, InRequest, InResponse, Incoming, IncomingPacket, Metadata, OutRequest,
    OutResponse, PacketType, PsIn, PsOut, PsSink, PsStream,
};
use crate::wire;
use crate::wire::{Frame, PacketId, STREAM, TYPE, TYPE_INVALID};

verus! {

/// The metadata of a packet survives the trip through its flags, with and without
/// the stream flag, which is only there if it was set. The type flags are always
/// in use.
pub proof fn law_metadata_round_trip(m: Metadata)
    ensures
        Metadata::of_flags(m.all_flags()) == m,
        Metadata::of_flags(m.all_flags() | STREAM) == m,
        m.all_flags() & STREAM == 0,
        (m.all_flags() | STREAM) & STREAM != 0,
        m.all_flags() & TYPE != TYPE_INVALID,
        (m.all_flags() | STREAM) & TYPE != TYPE_INVALID,
{
    let t = m.packet_type.type_flags();
    assert(t < 3 ==> {
        &&& t & 3 == t
        &&& (t | 8) & 3 == t
        &&& (t | 4) & 3 == t
        &&& (t | 4 | 8) & 3 == t
        &&& t & 4 == 0
        &&& (t | 8) & 4 == 0
        &&& (t | 4) & 4 != 0
        &&& (t | 4 | 8) & 4 != 0
        &&& t & 8 == 0
        &&& (t | 8) & 8 != 0
        &&& (t | 4) & 8 == 0
        &&& (t | 4 | 8) & 8 != 0
    }) by (bit_vector);
}

/// Packets with different metadata have different flags.
pub proof fn law_flags_distinct(a: Metadata, b: Metadata)
    requires
        a.all_flags() == b.all_flags(),
    ensures
        a == b,
{
    law_metadata_round_trip(a);
    law_metadata_round_trip(b);
}

/// A packet to send as the bytes of its data and its metadata make it up.
pub open spec fn frame(data: Seq<u8>, metadata: MetaData) -> Frame {
    Frame { flags: metadata.flags, id: metadata.id, data }
}

/// Whatever is sent can be read back: neither a request nor a response nor an item
/// of a duplex, on either side of it, is taken for the end of the stream, or has
/// type flags that are not in use.
pub proof fn law_sent_is_representable(id: PacketId, t: PacketType, m: Metadata, data: Seq<u8>)
    requires
        1 <= id,
        data.len() <= u32::MAX,
    ensures
        wire::representable(frame(data, mux::request_packet(t, id))),
        wire::representable(frame(data, mux::response_packet(m, id))),
        wire::representable(frame(data, mux::item_packet(m, id))),
        wire::representable(frame(data, mux::item_packet(m, ids::answering(id)))),
{
    law_metadata_round_trip(Metadata { packet_type: t, is_end: false });
    law_metadata_round_trip(m);
}

/// A request gets its response. A request opens a request at the peer, who sees its
/// type. The response to it has the id that the sender waits for, and brings the
/// metadata that it was given. It does not open anything.
pub proof fn law_request_and_response(id: PacketId, t: PacketType, m: Metadata, accepted: PacketId)
    requires
        1 <= id,
        1 <= accepted,
    ensures
        ({
            let request = mux::request_packet(t, id);
            let response = mux::response_packet(m, id);
            &&& request.id == id
            &&& mux::incoming(request) == Incoming::Request(id)
            &&& Metadata::of_flags(request.flags) == (Metadata { packet_type: t, is_end: false })
            &&& response.id == ids::answering(id)
            &&& response.id != accepted
            &&& Metadata::of_flags(response.flags) == m
        }),
{
    law_metadata_round_trip(Metadata { packet_type: t, is_end: false });
    law_metadata_round_trip(m);
}

/// A duplex connects both sides. The first item that is sent opens a duplex at the
/// peer. From then on each side waits for the packets that the other one sends, and
/// the items bring the metadata that they were sent with. What the peer sends does
/// not open anything.
pub proof fn law_duplex_connects(id: PacketId, there: Metadata, back: Metadata, accepted: PacketId)
    requires
        1 <= id,
        1 <= accepted,
    ensures
        ({
            let item = mux::item_packet(there, id);
            &&& item.id == id
            &&& Metadata::of_flags(item.flags) == there
            &&& mux::incoming(item) matches Incoming::Duplex(sink, stream) && {
                let answer = mux::item_packet(back, sink);
                &&& stream == item.id
                &&& answer.id == ids::answering(id)
                &&& answer.id != accepted
                &&& Metadata::of_flags(answer.flags) == back
            }
        }),
{
    law_metadata_round_trip(there);
    law_metadata_round_trip(back);
}

/// The id of the packet that opened something.
pub open spec fn opening_id(opened: Incoming) -> PacketId {
    match opened {
        Incoming::Request(id) => id,
        Incoming::Duplex(_, id) => id,
    }
}

/// The id that is accepted next, after some packets.
pub open spec fn accepted_after(accepted: PacketId, packets: Seq<MetaData>) -> PacketId
    decreases packets.len(),
{
    if packets.len() == 0 {
        accepted
    } else {
        let before = accepted_after(accepted, packets.drop_last());
        if packets.last().id == before {
            ids::following(before)
        } else {
            before
        }
    }
}

/// What some packets open.
pub open spec fn opened(accepted: PacketId, packets: Seq<MetaData>) -> Seq<Incoming>
    decreases packets.len(),
{
    if packets.len() == 0 {
        Seq::empty()
    } else {
        let before = opened(accepted, packets.drop_last());
        if packets.last().id == accepted_after(accepted, packets.drop_last()) {
            before.push(mux::incoming(packets.last()))
        } else {
            before
        }
    }
}

/// The two sides stay in step: when all that one side opens arrives in order, the
/// other side accepts all of it, and then accepts the id that the first one uses
/// next.
pub proof fn law_sides_stay_in_step(id: PacketId, packets: Seq<MetaData>)
    requires
        forall|k: int|
            0 <= k < packets.len() ==> (#[trigger] packets[k]).id == ids::nth_after(id, k as nat),
    ensures
        accepted_after(id, packets) == ids::nth_after(id, packets.len()),
        opened(id, packets) == packets.map_values(|m: MetaData| mux::incoming(m)),
    decreases packets.len(),
{
    if packets.len() > 0 {
        law_sides_stay_in_step(id, packets.drop_last());
    }
    assert(opened(id, packets) =~= packets.map_values(|m: MetaData| mux::incoming(m)));
}

/// Whatever arrives, in whatever order: what is opened has the ids that the peer
/// uses, in order, none of them left out and none of them twice.
pub proof fn law_opened_in_order(accepted: PacketId, packets: Seq<MetaData>, k: int)
    requires
        0 <= k < opened(accepted, packets).len(),
    ensures
        accepted_after(accepted, packets) == ids::nth_after(
            accepted,
            opened(accepted, packets).len(),
        ),
        opening_id(opened(accepted, packets)[k]) == ids::nth_after(accepted, k as nat),
    decreases packets.len(),
{
    let init = packets.drop_last();
    lemma_accepted_after(accepted, init);
    lemma_accepted_after(accepted, packets);
    if k < opened(accepted, init).len() {
        law_opened_in_order(accepted, init, k);
    }
}

/// The id that is accepted next only depends on how many were.
proof fn lemma_accepted_after(accepted: PacketId, packets: Seq<MetaData>)
    ensures
        accepted_after(accepted, packets) == ids::nth_after(
            accepted,
            opened(accepted, packets).len(),
        ),
    decreases packets.len(),
{
    if packets.len() > 0 {
        lemma_accepted_after(accepted, packets.drop_last());
    }
}

/// Nobody waits for the same id twice: not two of the last `i32::MAX` things that
/// were opened here, nor one of them and a duplex that the peer opened.
pub proof fn law_waiting_ids_distinct(n: nat, m: nat, metadata: MetaData)
    requires
        n < m < n + i32::MAX,
        1 <= metadata.id,
        metadata.flags & STREAM != 0,
    ensures
        ids::answering(ids::nth_after(1, n)) != ids::answering(ids::nth_after(1, m)),
        mux::incoming(metadata) matches Incoming::Duplex(_, stream) && stream
            != ids::answering(ids::nth_after(1, n)),
{
    ids::law_ids_distinct(n, m);
    ids::law_ids_count(n);
    ids::law_ids_count(m);
}

/// Setting a flag that is not set adds its value.
proof fn lemma_flags_add_up(t: PacketType, m: Metadata)
    ensures
        t.type_flags() == (match t {
            PacketType::Binary => 0int,
            PacketType::String => 1,
            PacketType::Json => 2,
        }),
        m.all_flags() == m.packet_type.type_flags() + (if m.is_end { 4int } else { 0 }),
        m.all_flags() | STREAM == m.all_flags() + 8,
{
    let f = m.packet_type.type_flags();
    assert(f < 3 ==> {
        &&& f | 4 == f + 4
        &&& f | 8 == f + 8
        &&& (f | 4) | 8 == f + 12
    }) by (bit_vector);
}

/// What is sent, in numbers. A request has its own id, and its type for flags. A response
/// has an id that adds up to zero with that of the request, and its type and end for
/// flags. An item of a duplex, on either side of it, has the id that it is sent with, and
/// its type, its end and the stream flag for flags: 0, 1 and 2 for the types, 4 for an end
/// and 8 for the stream flag. So items, and nothing else, carry the stream flag.
pub proof fn law_packets(t: PacketType, m: Metadata, id: PacketId, item_id: PacketId)
    requires
        1 <= id,
    ensures
        mux::request_packet(t, id).id == id,
        mux::request_packet(t, id).flags == (match t {
            PacketType::Binary => 0int,
            PacketType::String => 1,
            PacketType::Json => 2,
        }),
        mux::response_packet(m, id).id + id == 0,
        mux::response_packet(m, id).flags == (match m.packet_type {
            PacketType::Binary => 0int,
            PacketType::String => 1,
            PacketType::Json => 2,
        }) + (if m.is_end { 4int } else { 0 }),
        mux::item_packet(m, item_id).id == item_id,
        mux::item_packet(m, item_id).flags == (match m.packet_type {
            PacketType::Binary => 0int,
            PacketType::String => 1,
            PacketType::Json => 2,
        }) + (if m.is_end { 4int } else { 0 }) + 8,
        mux::request_packet(t, id).flags & STREAM == 0,
        mux::response_packet(m, id).flags & STREAM == 0,
        mux::item_packet(m, item_id).flags & STREAM != 0,
{
    lemma_flags_add_up(t, m);
    lemma_flags_add_up(m.packet_type, m);
    law_metadata_round_trip(m);
    law_metadata_round_trip(Metadata { packet_type: t, is_end: false });
}

/// The flags that types and metadata are given.
pub proof fn law_flags(
    t: PacketType,
    type_flags: u8,
    is_end: bool,
    m: Metadata,
    flags: u8,
    id: PacketId,
    codec: MetaData,
)
    requires
        call_ensures(PacketType::flags, (&t,), type_flags),
        call_ensures(Metadata::new, (t, is_end), m),
        call_ensures(Metadata::flags, (&m,), flags),
        call_ensures(Metadata::to_codec_metadata, (m, id), codec),
    ensures
        type_flags == (match t {
            PacketType::Binary => 0int,
            PacketType::String => 1,
            PacketType::Json => 2,
        }),
        m.packet_type == t,
        m.is_end == is_end,
        flags == type_flags + (if is_end { 4int } else { 0 }),
        codec.id == id,
        codec.flags == flags,
{
    lemma_flags_add_up(t, m);
}

/// The metadata that a packet is given by its flags, bit by bit.
pub proof fn law_from_decoded_metadata(metadata: MetaData, r: Metadata)
    requires
        metadata.flags % 4 != 3,
        call_ensures(Metadata::from_decoded_metadata, (metadata,), r),
    ensures
        call_requires(Metadata::from_decoded_metadata, (metadata,)),
        r.packet_type is Binary <==> metadata.flags % 4 == 0,
        r.packet_type is String <==> metadata.flags % 4 == 1,
        r.packet_type is Json <==> metadata.flags % 4 == 2,
        r.is_end <==> metadata.flags / 4 % 2 == 1,
{
    lemma_of_flags(metadata.flags);
}

/// The metadata that flags stand for, bit by bit.
proof fn lemma_of_flags(f: u8)
    ensures
        f & TYPE == f % 4,
        f & STREAM != 0 <==> f / 8 % 2 == 1,
        f % 4 != 3 ==> {
            let m = Metadata::of_flags(f);
            &&& m.packet_type is Binary <==> f % 4 == 0
            &&& m.packet_type is String <==> f % 4 == 1
            &&& m.packet_type is Json <==> f % 4 == 2
            &&& m.is_end <==> f / 4 % 2 == 1
        },
{
    assert(f & 3 == f % 4) by (bit_vector);
    assert(f & 4 != 0 <==> f / 4 % 2 == 1) by (bit_vector);
    assert(f & 8 != 0 <==> f / 8 % 2 == 1) by (bit_vector);
}

/// Both sides of a new packet-stream start with the id 1. A packet is found by its id.
pub proof fn law_packet_stream<D>(r: (PsIn, PsOut), item: (D, MetaData), id: PacketId)
    requires
        call_ensures(mux::packet_stream, (), r),
        call_ensures(mux::get_id::<D>, (&item,), id),
    ensures
        r.0.wf() && r.0@ == 1,
        r.1.wf() && r.1@ == 1,
        id == item.1.id,
{
}

/// A request sends its data with the next id and with its type for flags, and waits for
/// the id that adds up to zero with that one. The id after the largest one is 1, the one
/// after any other is one more.
pub proof fn law_request<B>(
    s: &mut PsOut,
    data: B,
    t: PacketType,
    r: (OutRequest<B>, InResponse),
    packet: (B, MetaData),
    key: PacketId,
)
    requires
        old(s).wf(),
        call_ensures(PsOut::request::<B>, (s, data, t), r),
        call_ensures(OutRequest::<B>::into_packet, (r.0,), packet),
        call_ensures(InResponse::key, (&r.1,), key),
    ensures
        call_requires(PsOut::request::<B>, (s, data, t)),
        final(s).wf(),
        packet.0 == data,
        packet.1.id == old(s)@,
        packet.1.flags == (match t {
            PacketType::Binary => 0int,
            PacketType::String => 1,
            PacketType::Json => 2,
        }),
        key + old(s)@ == 0,
        r.1@ == key,
        final(s)@ == (if old(s)@ == 0x7fff_ffff { 1 } else { old(s)@ + 1 }),
{
    law_packets(t, Metadata { packet_type: t, is_end: false }, old(s)@, 0);
}

/// A duplex sends with the next id, and waits for the one that adds up to zero with it.
/// The id after the largest one is 1, the one after any other is one more.
pub proof fn law_duplex(s: &mut PsOut, r: (PsSink, PsStream), key: PacketId)
    requires
        old(s).wf(),
        call_ensures(PsOut::duplex, (s,), r),
        call_ensures(PsStream::key, (&r.1,), key),
    ensures
        call_requires(PsOut::duplex, (s,)),
        final(s).wf(),
        r.0@ == old(s)@,
        key + old(s)@ == 0,
        r.1@ == key,
        final(s)@ == (if old(s)@ == 0x7fff_ffff { 1 } else { old(s)@ + 1 }),
{
}

/// A sink sends an item with its id, whichever that is, and with the type, the end and the
/// stream flag for flags. An item that was not taken is given back as it was.
pub proof fn law_sink_sends<B, E>(
    s: PsSink,
    item: (B, Metadata),
    packet: (B, MetaData),
    outcome: SendPoll<(B, MetaData), E>,
    r: SendPoll<(B, Metadata), E>,
)
    requires
        call_ensures(PsSink::start_send::<B>, (&s, item), packet),
        call_ensures(PsSink::finish_send::<B, E>, (&s, item.1, outcome), r),
    ensures
        packet.0 == item.0,
        packet.1.id == s@,
        packet.1.flags == (match item.1.packet_type {
            PacketType::Binary => 0int,
            PacketType::String => 1,
            PacketType::Json => 2,
        }) + (if item.1.is_end { 4int } else { 0 }) + 8,
        outcome matches Ok(AsyncSink::NotReady(p)) ==> (r matches Ok(AsyncSink::NotReady(q)) && q.0
            == p.0 && q.1 == item.1),
        r is Ok && r->Ok_0 is Ready <==> outcome is Ok && outcome->Ok_0 is Ready,
        outcome matches Err(e) ==> (r matches Err(f) && f == e),
{
    law_packets(item.1.packet_type, item.1, 1, s@);
}

/// A response sends its data with the id that adds up to zero with that of the request,
/// and with its type and its end for flags.
pub proof fn law_respond<B>(
    s: InRequest,
    data: B,
    m: Metadata,
    r: OutResponse<B>,
    packet: (B, MetaData),
)
    requires
        s.wf(),
        call_ensures(InRequest::respond::<B>, (s, data, m), r),
        call_ensures(OutResponse::<B>::into_packet, (r,), packet),
    ensures
        call_requires(InRequest::respond::<B>, (s, data, m)),
        packet.0 == data,
        packet.1.id + s@ == 0,
        packet.1.flags == (match m.packet_type {
            PacketType::Binary => 0int,
            PacketType::String => 1,
            PacketType::Json => 2,
        }) + (if m.is_end { 4int } else { 0 }),
{
    law_packets(m.packet_type, m, s@, 0);
}

/// Whoever waits gets the data of the packet that arrives, with the metadata that its
/// flags say, and an error if and only if the stream ended or failed. Until then it waits.
/// No end is ever emitted as an item.
pub proof fn law_waiting<D>(
    response: InResponse,
    stream: PsStream,
    outcome: Poll<Option<(D, MetaData)>, ()>,
    r: Poll<(D, Metadata), ConnectionError>,
    item: Poll<Option<(D, Metadata)>, ConnectionError>,
)
    requires
        outcome matches Ok(Async::Ready(Some(packet))) ==> packet.1.flags % 4 != 3,
        call_ensures(InResponse::poll::<D>, (&response, outcome), r),
        call_ensures(PsStream::poll::<D>, (&stream, outcome), item),
    ensures
        call_requires(InResponse::poll::<D>, (&response, outcome)),
        call_requires(PsStream::poll::<D>, (&stream, outcome)),
        match outcome {
            Ok(Async::Ready(Some(packet))) => {
                &&& r matches Ok(Async::Ready(got)) && {
                    &&& got.0 == packet.0
                    &&& got.1.packet_type is Binary <==> packet.1.flags % 4 == 0
                    &&& got.1.packet_type is String <==> packet.1.flags % 4 == 1
                    &&& got.1.packet_type is Json <==> packet.1.flags % 4 == 2
                    &&& got.1.is_end <==> packet.1.flags / 4 % 2 == 1
                }
                &&& item matches Ok(Async::Ready(Some(got))) && {
                    &&& got.0 == packet.0
                    &&& got.1.packet_type is Binary <==> packet.1.flags % 4 == 0
                    &&& got.1.packet_type is String <==> packet.1.flags % 4 == 1
                    &&& got.1.packet_type is Json <==> packet.1.flags % 4 == 2
                    &&& got.1.is_end <==> packet.1.flags / 4 % 2 == 1
                }
            },
            Ok(Async::Ready(None)) => {
                &&& r is Err && r->Err_0 is Closed
                &&& item is Err && item->Err_0 is Closed
            },
            Ok(Async::NotReady) => {
                &&& r is Ok && r->Ok_0 is NotReady
                &&& item is Ok && item->Ok_0 is NotReady
            },
            Err(_) => {
                &&& r is Err && r->Err_0 is Errored
                &&& item is Err && item->Err_0 is Errored
            },
        },
{
    if let Ok(Async::Ready(Some(packet))) = outcome {
        lemma_of_flags(packet.1.flags);
    }
}

/// A packet opens something if and only if it has the id that is accepted next, and then
/// the one after that is accepted next. It opens a duplex if and only if it carries the
/// stream flag, and a request otherwise. The request has the id of the packet. The duplex
/// waits for that id, and sends with the one that adds up to zero with it. The data comes
/// with the metadata that the flags say. Any other packet is ignored, and everything else
/// is passed on.
pub proof fn law_incoming<D, E>(
    s: &mut PsIn,
    outcome: Poll<Option<(D, MetaData)>, E>,
    r: Progress<Option<(D, Metadata, IncomingPacket)>, E>,
)
    requires
        old(s).wf(),
        outcome matches Ok(Async::Ready(Some(packet))) ==> packet.1.id == old(s)@
            ==> packet.1.flags % 4 != 3,
        call_ensures(PsIn::poll::<D, E>, (s, outcome), r),
    ensures
        call_requires(PsIn::poll::<D, E>, (s, outcome)),
        final(s).wf(),
        match outcome {
            Ok(Async::Ready(Some(packet))) => {
                &&& packet.1.id == old(s)@ ==> {
                    &&& final(s)@ == (if old(s)@ == 0x7fff_ffff { 1 } else { old(s)@ + 1 })
                    &&& r matches Progress::Ready(Some(got)) && {
                        &&& got.0 == packet.0
                        &&& got.1.packet_type is Binary <==> packet.1.flags % 4 == 0
                        &&& got.1.packet_type is String <==> packet.1.flags % 4 == 1
                        &&& got.1.packet_type is Json <==> packet.1.flags % 4 == 2
                        &&& got.1.is_end <==> packet.1.flags / 4 % 2 == 1
                        &&& match got.2 {
                            IncomingPacket::Request(request) => {
                                &&& packet.1.flags / 8 % 2 == 0
                                &&& request.wf()
                                &&& request@ == packet.1.id
                            },
                            IncomingPacket::Duplex(sink, stream) => {
                                &&& packet.1.flags / 8 % 2 == 1
                                &&& sink@ + packet.1.id == 0
                                &&& stream@ == packet.1.id
                            },
                        }
                    }
                }
                &&& packet.1.id != old(s)@ ==> r is Continue && final(s)@ == old(s)@
            },
            Ok(Async::Ready(None)) => {
                &&& r is Ready && r->Ready_0 is None
                &&& final(s)@ == old(s)@
            },
            Ok(Async::NotReady) => r is NotReady && final(s)@ == old(s)@,
            Err(e) => (r matches Progress::Failed(f) && f == e) && final(s)@ == old(s)@,
        },
{
    if let Ok(Async::Ready(Some(packet))) = outcome {
        lemma_of_flags(packet.1.flags);
        if packet.1.id == old(s)@ {
            ids::law_answering(packet.1.id);
        }
    }
}

/// A request gets its response, through both sides: the peer gets the data and the type of
/// the request, and what it responds with arrives at the id that is waited for, with the
/// data and the metadata that it was given.
pub proof fn law_request_round_trip<B, E>(
    here: &mut PsOut,
    there: &mut PsIn,
    data: B,
    t: PacketType,
    sent: (OutRequest<B>, InResponse),
    packet: (B, MetaData),
    got: Progress<Option<(B, Metadata, IncomingPacket)>, E>,
    answer: B,
    m: Metadata,
    response: OutResponse<B>,
    reply: (B, MetaData),
    key: PacketId,
    received: Poll<(B, Metadata), ConnectionError>,
)
    requires
        old(here).wf(),
        old(there).wf(),
        old(there)@ == old(here)@,
        call_ensures(PsOut::request::<B>, (here, data, t), sent),
        call_ensures(OutRequest::<B>::into_packet, (sent.0,), packet),
        call_ensures(PsIn::poll::<B, E>, (there, Ok(Async::Ready(Some(packet)))), got),
        call_ensures(
            InRequest::respond::<B>,
            (got->Ready_0->Some_0.2->Request_0, answer, m),
            response,
        ),
        call_ensures(OutResponse::<B>::into_packet, (response,), reply),
        call_ensures(InResponse::key, (&sent.1,), key),
        call_ensures(InResponse::poll::<B>, (&sent.1, Ok(Async::Ready(Some(reply)))), received),
    ensures
        got matches Progress::Ready(Some(opened)) && {
            &&& opened.0 == data
            &&& opened.1.packet_type == t
            &&& !opened.1.is_end
            &&& opened.2 is Request
        },
        reply.1.id == key,
        received matches Ok(Async::Ready(r)) && r.0 == answer && r.1 == m,
        final(there)@ == final(here)@,
{
    law_request_and_response(old(here)@, t, m, old(there)@);
    law_packets(t, m, old(here)@, 0);
}

/// A duplex connects both sides: the first item opens a duplex at the peer, who gets the
/// data and the metadata of it. From then on each side waits for the id that the other one
/// sends with, and gets the data and the metadata that were sent.
pub proof fn law_duplex_round_trip<B, E>(
    here: &mut PsOut,
    there: &mut PsIn,
    mine: (PsSink, PsStream),
    first: (B, Metadata),
    packet: (B, MetaData),
    got: Progress<Option<(B, Metadata, IncomingPacket)>, E>,
    next: (B, Metadata),
    next_packet: (B, MetaData),
    next_got: Poll<Option<(B, Metadata)>, ConnectionError>,
    back: (B, Metadata),
    back_packet: (B, MetaData),
    back_got: Poll<Option<(B, Metadata)>, ConnectionError>,
)
    requires
        old(here).wf(),
        old(there).wf(),
        old(there)@ == old(here)@,
        call_ensures(PsOut::duplex, (here,), mine),
        call_ensures(PsSink::start_send::<B>, (&mine.0, first), packet),
        call_ensures(PsIn::poll::<B, E>, (there, Ok(Async::Ready(Some(packet)))), got),
        call_ensures(PsSink::start_send::<B>, (&mine.0, next), next_packet),
        call_ensures(
            PsStream::poll::<B>,
            (&got->Ready_0->Some_0.2->Duplex_1, Ok(Async::Ready(Some(next_packet)))),
            next_got,
        ),
        call_ensures(
            PsSink::start_send::<B>,
            (&got->Ready_0->Some_0.2->Duplex_0, back),
            back_packet,
        ),
        call_ensures(
            PsStream::poll::<B>,
            (&mine.1, Ok(Async::Ready(Some(back_packet)))),
            back_got,
        ),
    ensures
        got matches Progress::Ready(Some(opened)) && {
            &&& opened.0 == first.0
            &&& opened.1 == first.1
            &&& opened.2 matches IncomingPacket::Duplex(_, stream) && stream@ == next_packet.1.id
        },
        next_got matches Ok(Async::Ready(Some(item))) && item.0 == next.0 && item.1 == next.1,
        back_packet.1.id == mine.1@,
        back_got matches Ok(Async::Ready(Some(item))) && item.0 == back.0 && item.1 == back.1,
        final(there)@ == final(here)@,
{
    law_duplex_connects(old(here)@, first.1, back.1, old(there)@);
    law_metadata_round_trip(first.1);
    law_metadata_round_trip(next.1);
    law_metadata_round_trip(back.1);
}

} // verus!
