//! What goes in and out of the state machines: the outcome of a single I/O call
//! goes in, what to do next comes out.
use vstd::prelude::*;

verus! {

/// A value that may not be there yet.
#[derive(Debug, PartialEq, Eq)]
pub enum Async<T> {
    /// The value is there.
    Ready(T),
    /// The value is not there yet.
    NotReady,
}

/// What polling for a value gives.
pub type Poll<T, E> = Result<Async<T>, E>;

/// Whether a sink took an item.
#[derive(Debug, PartialEq, Eq)]
pub enum AsyncSink<T> {
    /// The item was taken.
    Ready,
    /// The item was not taken, and is given back.
    NotReady(T),
}

/// What polling to send an item of type `T` gives.
pub type SendPoll<T, E> = Result<AsyncSink<T>, E>;

/// Forgets the value that polling gave.
pub fn discard<T, E>(outcome: Poll<T, E>) -> (r: Poll<(), E>)
    ensures
        r == (match outcome {
            Ok(Async::Ready(_)) => Ok(Async::Ready(())),
            Ok(Async::NotReady) => Ok(Async::NotReady),
            Err(e) => Err(e),
        }),
{
    match outcome {
        Ok(Async::Ready(_)) => Ok(Async::Ready(())),
        Ok(Async::NotReady) => Ok(Async::NotReady),
        Err(e) => Err(e),
    }
}

/// Only the value is forgotten: whether there is one, and any error, stay.
pub proof fn law_discard<T, E>(outcome: Poll<T, E>, r: Poll<(), E>)
    requires
        call_ensures(discard::<T, E>, (outcome,), r),
    ensures
        r is Ok <==> outcome is Ok,
        r is Ok ==> (r->Ok_0 is Ready <==> outcome->Ok_0 is Ready),
        outcome matches Err(e) ==> (r matches Err(f) && f == e),
{
}

/// How a single nonblocking call of a reader or writer went.
#[derive(Debug, PartialEq, Eq)]
pub enum IoOutcome<T, E> {
    /// The call succeeded.
    Done(T),
    /// The call would have blocked.
    WouldBlock,
    /// The call was interrupted and can be made again.
    Interrupted,
    /// The call failed in any other way.
    Failed(E),
}

/// How an operation stands after the outcome of an I/O call.
#[derive(Debug, PartialEq, Eq)]
pub enum Progress<T, E> {
    /// Another I/O call is due right away.
    Continue,
    /// The operation waits until its reader or writer is ready again.
    NotReady,
    /// The operation is done.
    Ready(T),
    /// The operation failed.
    Failed(E),
}

/// The parts of a packet, each of which is read and written by calls of its own.
#[derive(Debug, Clone, Copy, PartialEq, Eq)]
pub enum Field {
    Flags,
    Length,
    Id,
    Data,
}

/// The kinds of errors that reading and writing packets can add to those of the
/// reader or writer.
#[derive(Debug, Clone, Copy, PartialEq, Eq)]
pub enum ErrorKind {
    WriteZero,
    UnexpectedEof,
    InvalidData,
}

/// An error of reading or writing packets. `E` is the error of the underlying
/// reader or writer.
#[derive(Debug, PartialEq, Eq)]
pub enum CodecError<E> {
    /// The writer took none of the bytes of this part of a packet.
    WriteZero(Field),
    /// The writer took none of the bytes that end the stream.
    WriteZeroEnd,
    /// The reader ended within this part of a packet.
    UnexpectedEof(Field),
    /// The type flags of a packet are those that are not in use.
    InvalidType,
    /// The reader or writer failed.
    Io(E),
}

impl<E> CodecError<E> {
    /// The kind and the message of the error, if it is not that of the reader or
    /// writer.
    pub open spec fn description(self) -> Option<(ErrorKind, Seq<char>)> {
        match self {
            CodecError::WriteZero(Field::Flags) => Some(
                (ErrorKind::WriteZero, "failed to write packet flags"@),
            ),
            CodecError::WriteZero(Field::Length) => Some(
                (ErrorKind::WriteZero, "failed to write packet length"@),
            ),
            CodecError::WriteZero(Field::Id) => Some(
                (ErrorKind::WriteZero, "failed to write packet id"@),
            ),
            CodecError::WriteZero(Field::Data) => Some(
                (ErrorKind::WriteZero, "failed to write packet data"@),
            ),
            CodecError::WriteZeroEnd => Some(
                (ErrorKind::WriteZero, "failed to write end-of-stream header"@),
            ),
            CodecError::UnexpectedEof(Field::Flags) => Some(
                (ErrorKind::UnexpectedEof, "failed to read packet flags"@),
            ),
            CodecError::UnexpectedEof(Field::Length) => Some(
                (ErrorKind::UnexpectedEof, "failed to read packet length"@),
            ),
            CodecError::UnexpectedEof(Field::Id) => Some(
                (ErrorKind::UnexpectedEof, "failed to read packet id"@),
            ),
            CodecError::UnexpectedEof(Field::Data) => Some(
                (ErrorKind::UnexpectedEof, "failed to read whole packet content"@),
            ),
            CodecError::InvalidType => Some(
                (ErrorKind::InvalidData, "read packet with invalid type flag"@),
            ),
            CodecError::Io(_) => None,
        }
    }

    /// Returns the kind and the message of the error, or `None` for an error of
    /// the reader or writer.
    pub fn describe(&self) -> (r: Option<(ErrorKind, &'static str)>)
        ensures
            match r {
                Some((kind, message)) => self.description() == Some((kind, message@)),
                None => self.description() is None,
            },
    {
        match self {
            CodecError::WriteZero(field) => {
                let message = match field {
                    Field::Flags => "failed to write packet flags",
                    Field::Length => "failed to write packet length",
                    Field::Id => "failed to write packet id",
                    Field::Data => "failed to write packet data",
                };
                Some((ErrorKind::WriteZero, message))
            },
            CodecError::WriteZeroEnd => Some(
                (ErrorKind::WriteZero, "failed to write end-of-stream header"),
            ),
            CodecError::UnexpectedEof(field) => {
                let message = match field {
                    Field::Flags => "failed to read packet flags",
                    Field::Length => "failed to read packet length",
                    Field::Id => "failed to read packet id",
                    Field::Data => "failed to read whole packet content",
                };
                Some((ErrorKind::UnexpectedEof, message))
            },
            CodecError::InvalidType => Some(
                (ErrorKind::InvalidData, "read packet with invalid type flag"),
            ),
            CodecError::Io(_) => None,
        }
    }
}

} // verus!
