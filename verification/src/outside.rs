//! What comes from the `packet_stream_codec` crate: the values of the flags, and
//! what they say about a packet.
use vstd::prelude::*;

use crate::codec::MetaData;
use crate::wire::{END, STREAM, TYPE, TYPE_BINARY, TYPE_JSON, TYPE_STRING};

verus! {

/// `packet_stream_codec::TYPE_BINARY`, the type flags of raw binary data.
#[verifier::external_body]
pub(crate) fn type_binary() -> (r: u8)
    ensures
        r == TYPE_BINARY,
{
    packet_stream_codec::TYPE_BINARY
}

/// `packet_stream_codec::TYPE_STRING`, the type flags of a string.
#[verifier::external_body]
pub(crate) fn type_string() -> (r: u8)
    ensures
        r == TYPE_STRING,
{
    packet_stream_codec::TYPE_STRING
}

/// `packet_stream_codec::TYPE_JSON`, the type flags of a piece of json.
#[verifier::external_body]
pub(crate) fn type_json() -> (r: u8)
    ensures
        r == TYPE_JSON,
{
    packet_stream_codec::TYPE_JSON
}

/// `packet_stream_codec::END`, the bitmask for the end flag.
#[verifier::external_body]
pub(crate) fn end() -> (r: u8)
    ensures
        r == END,
{
    packet_stream_codec::END
}

/// `packet_stream_codec::STREAM`, the bitmask for the stream flag.
#[verifier::external_body]
pub(crate) fn stream() -> (r: u8)
    ensures
        r == STREAM,
{
    packet_stream_codec::STREAM
}

/// `packet_stream_codec::Metadata::is_buffer_packet`: whether the type flags are
/// those of raw binary data.
#[verifier::external_body]
pub(crate) fn is_buffer_packet(metadata: MetaData) -> (r: bool)
    ensures
        r == (metadata.flags & TYPE == TYPE_BINARY),
{
    packet_stream_codec::Metadata { flags: metadata.flags, id: metadata.id }.is_buffer_packet()
}

/// `packet_stream_codec::Metadata::is_string_packet`: whether the type flags are
/// those of a string.
#[verifier::external_body]
pub(crate) fn is_string_packet(metadata: MetaData) -> (r: bool)
    ensures
        r == (metadata.flags & TYPE == TYPE_STRING),
{
    packet_stream_codec::Metadata { flags: metadata.flags, id: metadata.id }.is_string_packet()
}

/// `packet_stream_codec::Metadata::is_json_packet`: whether the type flags are
/// those of a piece of json.
#[verifier::external_body]
pub(crate) fn is_json_packet(metadata: MetaData) -> (r: bool)
    ensures
        r == (metadata.flags & TYPE == TYPE_JSON),
{
    packet_stream_codec::Metadata { flags: metadata.flags, id: metadata.id }.is_json_packet()
}

/// `packet_stream_codec::Metadata::is_end_packet`: whether the end flag is set.
#[verifier::external_body]
pub(crate) fn is_end_packet(metadata: MetaData) -> (r: bool)
    ensures
        r == (metadata.flags & END != 0),
{
    packet_stream_codec::Metadata { flags: metadata.flags, id: metadata.id }.is_end_packet()
}

/// `packet_stream_codec::Metadata::is_stream_packet`: whether the stream flag is
/// set.
#[verifier::external_body]
pub(crate) fn is_stream_packet(metadata: MetaData) -> (r: bool)
    ensures
        r == (metadata.flags & STREAM != 0),
{
    packet_stream_codec::Metadata { flags: metadata.flags, id: metadata.id }.is_stream_packet()
}

} // verus!
