//! The byte format of a packet-stream.
//!
//! A packet is a nine byte header followed by its data: one byte of flags, the
//! length of the data and the id of the packet, the latter two as four bytes
//! each, most significant byte first. Nine zero bytes end the stream.
use vstd::prelude::*;

use crate::io::Field;

verus! {

/// The ids of packets.
pub type PacketId = i32;

/// Bitmask for the stream flag.
pub const STREAM: u8 = 0b0000_1000;

/// Bitmask for the end flag.
pub const END: u8 = 0b0000_0100;

/// Bitmask for the type flags.
pub const TYPE: u8 = 0b0000_0011;

/// Value of the type flags of raw binary data.
pub const TYPE_BINARY: u8 = 0;

/// Value of the type flags of a string.
pub const TYPE_STRING: u8 = 1;

/// Value of the type flags of a piece of json.
pub const TYPE_JSON: u8 = 2;

/// The fourth possible value of the type flags, which no packet may have.
pub const TYPE_INVALID: u8 = 3;

/// What a packet carries.
#[verifier::ext_equal]
pub struct Frame {
    pub flags: u8,
    pub id: PacketId,
    pub data: Seq<u8>,
}

/// The four bytes of `x`, most significant first.
pub open spec fn be32(x: u32) -> Seq<u8> {
    seq![
        (x / 0x100_0000) as u8,
        (x / 0x1_0000 % 0x100) as u8,
        (x / 0x100 % 0x100) as u8,
        (x % 0x100) as u8,
    ]
}

/// The number whose four bytes, most significant first, are those at the front
/// of `s`.
pub open spec fn be32_value(s: Seq<u8>) -> u32 {
    (s[0] * 0x100_0000 + s[1] * 0x1_0000 + s[2] * 0x100 + s[3]) as u32
}

/// The two's complement of an id.
pub open spec fn id_bits(id: PacketId) -> u32 {
    if id >= 0 {
        id as u32
    } else {
        (id + 0x1_0000_0000) as u32
    }
}

/// The id whose two's complement is `bits`.
pub open spec fn id_of_bits(bits: u32) -> PacketId {
    if bits < 0x8000_0000 {
        bits as i32
    } else {
        (bits - 0x1_0000_0000) as i32
    }
}

/// The header of a packet with the given flags, length of data and id.
pub open spec fn header(flags: u8, length: u32, id: PacketId) -> Seq<u8> {
    seq![flags] + be32(length) + be32(id_bits(id))
}

/// The bytes of a packet.
pub open spec fn encode(frame: Frame) -> Seq<u8> {
    header(frame.flags, frame.data.len() as u32, frame.id) + frame.data
}

/// The bytes that end a stream.
pub open spec fn end_header() -> Seq<u8> {
    Seq::new(9, |i: int| 0u8)
}

/// Whether a reader gets `frame` back from its bytes: the type flags are in use,
/// the length of the data fits its field, and the bytes are not those that end
/// the stream.
pub open spec fn representable(frame: Frame) -> bool {
    &&& frame.flags & TYPE != TYPE_INVALID
    &&& frame.data.len() <= u32::MAX
    &&& !(frame.flags == 0 && frame.id == 0 && frame.data.len() == 0)
}

/// What stands at the front of some bytes.
#[verifier::ext_equal]
pub enum Parsed {
    /// More bytes are needed to tell.
    Incomplete,
    /// A packet with the type flags that are not in use.
    InvalidType,
    /// The end of the stream.
    End,
    /// A whole packet.
    Packet(Frame),
}

/// Reads the front of `s`.
pub open spec fn parse(s: Seq<u8>) -> Parsed {
    if s.len() == 0 {
        Parsed::Incomplete
    } else if s[0] & TYPE == TYPE_INVALID {
        Parsed::InvalidType
    } else if s.len() < 9 {
        Parsed::Incomplete
    } else {
        let length = be32_value(s.subrange(1, 5));
        let id = id_of_bits(be32_value(s.subrange(5, 9)));
        if s[0] == 0 && length == 0 && id == 0 {
            Parsed::End
        } else if s.len() < 9 + length {
            Parsed::Incomplete
        } else {
            Parsed::Packet(Frame { flags: s[0], id, data: s.subrange(9, 9 + length) })
        }
    }
}

/// The part of a packet that the byte at `pos` belongs to.
pub open spec fn field_at(pos: nat) -> Field {
    if pos < 1 {
        Field::Flags
    } else if pos < 5 {
        Field::Length
    } else if pos < 9 {
        Field::Id
    } else {
        Field::Data
    }
}

/// Where the part of a packet ends that the byte at `pos` belongs to, in a packet
/// of `total` bytes.
pub open spec fn field_end(pos: nat, total: nat) -> nat {
    match field_at(pos) {
        Field::Flags => 1,
        Field::Length => 5,
        Field::Id => 9,
        Field::Data => total,
    }
}

/// The bytes of the packets of `frames`, one after the other.
pub open spec fn encode_all(frames: Seq<Frame>) -> Seq<u8>
    decreases frames.len(),
{
    if frames.len() == 0 {
        Seq::empty()
    } else {
        encode_all(frames.drop_last()) + encode(frames.last())
    }
}

/// Everything that whole headers and packets at the front of `s` hold: `Some`
/// for a packet, `None` for an end of the stream.
pub open spec fn parse_all(s: Seq<u8>) -> Seq<Option<Frame>>
    decreases s.len(),
{
    match parse(s) {
        Parsed::Incomplete => Seq::empty(),
        Parsed::InvalidType => Seq::empty(),
        Parsed::End => seq![None] + parse_all(s.skip(9)),
        Parsed::Packet(frame) => seq![Some(frame)] + parse_all(
            s.skip((9 + frame.data.len()) as int),
        ),
    }
}

/// `be32_value` undoes `be32`, whatever follows the four bytes.
pub proof fn law_be32_round_trip(x: u32, rest: Seq<u8>)
    ensures
        be32_value(be32(x) + rest) == x,
{
    let s = be32(x) + rest;
    assert(s[0] == (x / 0x100_0000) as u8);
    assert(s[1] == (x / 0x1_0000 % 0x100) as u8);
    assert(s[2] == (x / 0x100 % 0x100) as u8);
    assert(s[3] == (x % 0x100) as u8);
}

/// `be32` undoes `be32_value` on four bytes.
pub proof fn law_be32_value_round_trip(s: Seq<u8>)
    requires
        s.len() == 4,
    ensures
        be32(be32_value(s)) == s,
{
    let (a, b, c, d) = (s[0], s[1], s[2], s[3]);
    let x = be32_value(s);
    assert(x == a * 0x100_0000 + b * 0x1_0000 + c * 0x100 + d);
    lemma_digits(a, b, c, d);
    assert(be32(x) =~= s);
}

/// Division takes a number of four bytes apart.
proof fn lemma_digits(a: u8, b: u8, c: u8, d: u8)
    ensures
        ({
            let x = (a * 0x100_0000 + b * 0x1_0000 + c * 0x100 + d) as u32;
            &&& x / 0x100_0000 == a
            &&& x / 0x1_0000 % 0x100 == b
            &&& x / 0x100 % 0x100 == c
            &&& x % 0x100 == d
        }),
{
    let x = (a * 0x100_0000 + b * 0x1_0000 + c * 0x100 + d) as u32;
    assert(x == a * 0x100_0000 + b * 0x1_0000 + c * 0x100 + d);
    assert(x / 0x100_0000 == a);
    assert(x / 0x1_0000 == a * 0x100 + b);
    assert(x / 0x100 == a * 0x1_0000 + b * 0x100 + c);
}

/// An id and its two's complement determine each other.
pub proof fn law_id_bits_round_trip(id: PacketId, bits: u32)
    ensures
        id_of_bits(id_bits(id)) == id,
        id_bits(id_of_bits(bits)) == bits,
{
}

/// The fields of a header stand where `parse` looks for them.
proof fn lemma_header_fields(flags: u8, length: u32, id: PacketId, rest: Seq<u8>)
    ensures
        header(flags, length, id).len() == 9,
        (header(flags, length, id) + rest)[0] == flags,
        be32_value((header(flags, length, id) + rest).subrange(1, 5)) == length,
        id_of_bits(be32_value((header(flags, length, id) + rest).subrange(5, 9))) == id,
{
    let s = header(flags, length, id) + rest;
    assert(s.subrange(1, 5) =~= be32(length) + Seq::empty());
    assert(s.subrange(5, 9) =~= be32(id_bits(id)) + Seq::empty());
    law_be32_round_trip(length, Seq::empty());
    law_be32_round_trip(id_bits(id), Seq::empty());
    law_id_bits_round_trip(id, 0);
}

/// A packet takes nine bytes more than its data.
pub proof fn law_encode_len(frame: Frame)
    ensures
        encode(frame).len() == 9 + frame.data.len(),
{
}

/// What was written is read back: the bytes of a packet, whatever follows them,
/// are read as that packet.
pub proof fn law_encode_parse(frame: Frame, rest: Seq<u8>)
    requires
        representable(frame),
    ensures
        parse(encode(frame) + rest) == Parsed::Packet(frame),
{
    let length = frame.data.len() as u32;
    let s = encode(frame) + rest;
    assert(s =~= header(frame.flags, length, frame.id) + (frame.data + rest));
    lemma_header_fields(frame.flags, length, frame.id, frame.data + rest);
    assert(s.subrange(9, 9 + length) =~= frame.data);
}

/// What was read is what was written: a packet is only read from its own bytes.
pub proof fn law_parse_encode(s: Seq<u8>, frame: Frame)
    requires
        parse(s) == Parsed::Packet(frame),
    ensures
        representable(frame),
        9 + frame.data.len() <= s.len(),
        s.take((9 + frame.data.len()) as int) == encode(frame),
{
    let length = be32_value(s.subrange(1, 5));
    let bits = be32_value(s.subrange(5, 9));
    law_be32_value_round_trip(s.subrange(1, 5));
    law_be32_value_round_trip(s.subrange(5, 9));
    law_id_bits_round_trip(0, bits);
    assert(frame.data.len() == length);
    let e = encode(frame);
    let t = s.take((9 + frame.data.len()) as int);
    assert(e.len() == t.len());
    assert forall|i: int| 0 <= i < e.len() implies e[i] == t[i] by {
        if 1 <= i < 5 {
            assert(e[i] == be32(length)[i - 1]);
            assert(s.subrange(1, 5)[i - 1] == s[i]);
        } else if 5 <= i < 9 {
            assert(e[i] == be32(bits)[i - 5]);
            assert(s.subrange(5, 9)[i - 5] == s[i]);
        }
    }
    assert(t =~= e);
}

/// The bytes that end a stream, and they alone, are read as its end.
pub proof fn law_end_header(s: Seq<u8>)
    ensures
        parse(s) == Parsed::End <==> s.len() >= 9 && s.take(9) == end_header(),
{
    if s.len() >= 9 {
        let length = be32_value(s.subrange(1, 5));
        let bits = be32_value(s.subrange(5, 9));
        if parse(s) == Parsed::End {
            assert(bits == 0);
            law_be32_value_round_trip(s.subrange(1, 5));
            law_be32_value_round_trip(s.subrange(5, 9));
            assert forall|i: int| 0 <= i < 9 implies s[i] == 0 by {
                if 1 <= i < 5 {
                    assert(s[i] == s.subrange(1, 5)[i - 1]);
                } else if 5 <= i {
                    assert(s[i] == s.subrange(5, 9)[i - 5]);
                }
            }
            assert(s.take(9) =~= end_header());
        }
        if s.take(9) == end_header() {
            assert forall|i: int| 0 <= i < 9 implies s[i] == 0 by {
                assert(s[i] == s.take(9)[i]);
            }
            assert(0u8 & TYPE != TYPE_INVALID) by (bit_vector);
        }
    }
}

/// More bytes do not change what was read from the ones before them.
pub proof fn law_parse_extend(s: Seq<u8>, t: Seq<u8>)
    requires
        parse(s) != Parsed::Incomplete,
    ensures
        parse(s + t) == parse(s),
{
    if s.len() >= 9 {
        assert((s + t).subrange(1, 5) =~= s.subrange(1, 5));
        assert((s + t).subrange(5, 9) =~= s.subrange(5, 9));
        let length = be32_value(s.subrange(1, 5));
        if s.len() >= 9 + length {
            assert((s + t).subrange(9, 9 + length) =~= s.subrange(9, 9 + length));
        }
    }
}

/// A packet is only read once its last byte is there.
pub proof fn law_prefix_incomplete(frame: Frame, n: int)
    requires
        representable(frame),
        0 <= n < encode(frame).len(),
    ensures
        parse(encode(frame).take(n)) == Parsed::Incomplete,
{
    let s = encode(frame).take(n);
    let t = encode(frame).skip(n);
    assert(s + t =~= encode(frame) + Seq::empty());
    law_encode_parse(frame, Seq::empty());
    if parse(s) != Parsed::Incomplete {
        law_parse_extend(s, t);
        law_parse_encode(s, frame);
    }
}

/// The front of some bytes holds the front of what they hold.
pub proof fn law_parse_all_prefix(s: Seq<u8>, n: int)
    requires
        0 <= n <= s.len(),
    ensures
        parse_all(s.take(n)).is_prefix_of(parse_all(s)),
    decreases s.len(),
{
    let front = s.take(n);
    let back = s.skip(n);
    assert(front + back =~= s);
    if parse(front) != Parsed::Incomplete {
        law_parse_extend(front, back);
    }
    match parse(front) {
        Parsed::End => {
            law_parse_all_prefix(s.skip(9), n - 9);
            assert(front.skip(9) =~= s.skip(9).take(n - 9));
        },
        Parsed::Packet(frame) => {
            let k = (9 + frame.data.len()) as int;
            law_parse_all_prefix(s.skip(k), n - k);
            assert(front.skip(k) =~= s.skip(k).take(n - k));
        },
        _ => {},
    }
}

/// The bytes of the first packet come first.
proof fn lemma_encode_all_first(frames: Seq<Frame>)
    requires
        frames.len() > 0,
    ensures
        encode_all(frames) == encode(frames.first()) + encode_all(frames.drop_first()),
    decreases frames.len(),
{
    if frames.len() == 1 {
        assert(frames.drop_last() =~= Seq::empty());
        assert(frames.drop_first() =~= Seq::empty());
        assert(encode_all(frames.drop_last()) =~= Seq::empty());
        assert(encode_all(frames) =~= encode(frames.first()) + encode_all(frames.drop_first()));
    } else {
        lemma_encode_all_first(frames.drop_last());
        assert(frames.drop_last().drop_first() =~= frames.drop_first().drop_last());
        assert(encode_all(frames) =~= encode(frames.first()) + encode_all(frames.drop_first()));
    }
}

/// The bytes of a packet, one by one: the flags, the length of the data and the id as
/// numbers with the most significant byte first, an id below zero modulo two to the
/// power of 32, and then the data.
pub proof fn law_encode_bytes(frame: Frame)
    requires
        frame.data.len() <= 0xffff_ffff,
    ensures
        encode(frame).len() == 9 + frame.data.len(),
        encode(frame)[0] == frame.flags,
        encode(frame)[1] * 0x100_0000 + encode(frame)[2] * 0x1_0000 + encode(frame)[3] * 0x100
            + encode(frame)[4] == frame.data.len(),
        encode(frame)[5] * 0x100_0000 + encode(frame)[6] * 0x1_0000 + encode(frame)[7] * 0x100
            + encode(frame)[8] == frame.id as int % 0x1_0000_0000,
        forall|i: int|
            0 <= i < frame.data.len() ==> #[trigger] encode(frame)[9 + i] == frame.data[i],
{
    let length = frame.data.len() as u32;
    let bits = id_bits(frame.id);
    let e = encode(frame);
    assert(forall|i: int| 0 <= i < 4 ==> e[1 + i] == be32(length)[i]);
    assert(forall|i: int| 0 <= i < 4 ==> e[5 + i] == be32(bits)[i]);
    assert(e[1] == be32(length)[0] && e[2] == be32(length)[1] && e[3] == be32(length)[2] && e[4]
        == be32(length)[3]);
    assert(e[5] == be32(bits)[0] && e[6] == be32(bits)[1] && e[7] == be32(bits)[2] && e[8]
        == be32(bits)[3]);
    lemma_sum(length);
    lemma_sum(bits);
}

/// The four bytes of a number add up to it.
proof fn lemma_sum(x: u32)
    ensures
        be32(x)[0] * 0x100_0000 + be32(x)[1] * 0x1_0000 + be32(x)[2] * 0x100 + be32(x)[3] == x,
{
}

/// The bytes that end a stream: nine zeros.
pub proof fn law_end_header_bytes()
    ensures
        end_header().len() == 9,
        forall|i: int| 0 <= i < 9 ==> #[trigger] end_header()[i] == 0,
{
}

/// Exactly these packets can be read back: those whose type flags are not both set and
/// whose data has a length of at most 32 bits, with one exception, the packet without
/// data whose flags and id are zero.
pub proof fn law_representable(frame: Frame)
    ensures
        representable(frame) <==> frame.flags % 4 != 3 && frame.data.len() <= 0xffff_ffff && (
        frame.flags != 0 || frame.id != 0 || frame.data.len() != 0),
{
    let f = frame.flags;
    assert(f & 3 == f % 4) by (bit_vector);
}

/// What is read, byte by byte. A packet is read if and only if the bytes start with
/// its flags, the length of its data, its id and its data, its type flags are in use,
/// and it is not the end.
pub proof fn law_parse_packet(s: Seq<u8>, frame: Frame)
    ensures
        parse(s) == Parsed::Packet(frame) <==> {
            &&& s.len() >= 9 + frame.data.len()
            &&& s[0] == frame.flags
            &&& frame.flags % 4 != 3
            &&& s[1] * 0x100_0000 + s[2] * 0x1_0000 + s[3] * 0x100 + s[4] == frame.data.len()
            &&& s[5] * 0x100_0000 + s[6] * 0x1_0000 + s[7] * 0x100 + s[8] == frame.id as int
                % 0x1_0000_0000
            &&& s.subrange(9, 9 + frame.data.len() as int) == frame.data
            &&& frame.flags != 0 || frame.id != 0 || frame.data.len() != 0
        },
{
    let f = s[0];
    assert(f & 3 == f % 4) by (bit_vector);
    if s.len() >= 9 {
        lemma_field_values(s);
        law_id_bits_round_trip(frame.id, be32_value(s.subrange(5, 9)));
        if s.len() >= 9 + frame.data.len() && parse(s) is Packet {
            assert(parse(s)->0.data =~= s.subrange(9, 9 + parse(s)->0.data.len() as int));
        }
    }
}

/// The bytes hold a packet whose type flags are not in use if and only if both of the
/// lowest two bits of the first byte are set.
pub proof fn law_parse_invalid_type(s: Seq<u8>)
    ensures
        parse(s) == Parsed::InvalidType <==> s.len() > 0 && s[0] % 4 == 3,
{
    let f = s[0];
    assert(f & 3 == f % 4) by (bit_vector);
}

/// More bytes are needed if and only if there is none, or if the type flags are in use
/// and either the header or the data, by its length in the header, is not all there.
pub proof fn law_parse_incomplete(s: Seq<u8>)
    ensures
        parse(s) == Parsed::Incomplete <==> s.len() == 0 || (s[0] % 4 != 3 && (s.len() < 9
            || s.len() < 9 + s[1] * 0x100_0000 + s[2] * 0x1_0000 + s[3] * 0x100 + s[4])),
{
    let f = s[0];
    assert(f & 3 == f % 4) by (bit_vector);
    if s.len() >= 9 {
        lemma_field_values(s);
    }
}

/// The numbers in a header.
proof fn lemma_field_values(s: Seq<u8>)
    requires
        s.len() >= 9,
    ensures
        be32_value(s.subrange(1, 5)) == s[1] * 0x100_0000 + s[2] * 0x1_0000 + s[3] * 0x100 + s[4],
        be32_value(s.subrange(5, 9)) == s[5] * 0x100_0000 + s[6] * 0x1_0000 + s[7] * 0x100 + s[8],
{
    let a = s.subrange(1, 5);
    let b = s.subrange(5, 9);
    assert(a[0] == s[1] && a[1] == s[2] && a[2] == s[3] && a[3] == s[4]);
    assert(b[0] == s[5] && b[1] == s[6] && b[2] == s[7] && b[3] == s[8]);
}

/// The bytes of some packets and then of others are those of all of them. There is
/// nothing before, between or after the bytes of the packets.
pub proof fn law_encode_all_joins(first: Seq<Frame>, second: Seq<Frame>, frame: Frame)
    ensures
        encode_all(Seq::empty()) == Seq::<u8>::empty(),
        encode_all(seq![frame]) == encode(frame),
        encode_all(first + second) == encode_all(first) + encode_all(second),
    decreases second.len(),
{
    let one = seq![frame];
    assert(one.drop_last() =~= Seq::empty());
    assert(encode_all(one.drop_last()) =~= Seq::empty());
    assert(encode_all(one) =~= encode(frame));
    if second.len() == 0 {
        assert(first + second =~= first);
        assert(encode_all(first) + encode_all(second) =~= encode_all(first));
    } else {
        law_encode_all_joins(first, second.drop_last(), frame);
        assert((first + second).drop_last() =~= first + second.drop_last());
        assert(encode_all(first + second) =~= encode_all(first) + encode_all(second));
    }
}

/// What was written is read back, for a whole stream: the bytes of any number of
/// packets and of the end of the stream are read as those packets, in order, and
/// the end.
pub proof fn law_encode_all_parse_all(frames: Seq<Frame>)
    requires
        forall|i: int| 0 <= i < frames.len() ==> representable(#[trigger] frames[i]),
    ensures
        parse_all(encode_all(frames) + end_header()) == frames.map_values(|f: Frame| Some(f)).push(
            None,
        ),
    decreases frames.len(),
{
    let s = encode_all(frames) + end_header();
    let items = frames.map_values(|f: Frame| Some(f)).push(None);
    if frames.len() == 0 {
        assert(s.take(9) =~= end_header());
        law_end_header(s);
        assert(s.skip(9) =~= Seq::empty());
        assert(parse_all(s.skip(9)) =~= Seq::empty());
        assert(parse_all(s) =~= items);
    } else {
        let first = frames.first();
        let tail = encode_all(frames.drop_first()) + end_header();
        lemma_encode_all_first(frames);
        assert(s =~= encode(first) + tail);
        assert(representable(frames[0]));
        law_encode_parse(first, tail);
        law_encode_len(first);
        assert(s.skip((9 + first.data.len()) as int) =~= tail);
        assert forall|i: int| 0 <= i < frames.drop_first().len() implies representable(
            #[trigger] frames.drop_first()[i],
        ) by {
            assert(representable(frames[i + 1]));
        }
        law_encode_all_parse_all(frames.drop_first());
        assert(parse_all(s) =~= items);
    }
}

} // verus!
