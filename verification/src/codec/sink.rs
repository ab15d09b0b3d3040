//! Writing a stream of packets.
use vstd::prelude::*;

use crate::codec::write::{WriteKind, WriteModel, WritePacket, WriteZeros};
use crate::codec::MetaData;
use crate::io::{Async, CodecError, IoOutcome, Poll, Progress};
use crate::wire;
use crate::wire::Frame;

verus! {

/// Whether a packet was taken.
#[derive(Debug, PartialEq, Eq)]
pub enum StartSend {
    /// The packet was taken and is the next to be written.
    Ready,
    /// The packet before is still being written. It has to be, before this one can
    /// be taken.
    Busy((Vec<u8>, MetaData)),
}

/// The I/O call that is due.
#[derive(Debug, Clone, Copy, PartialEq, Eq)]
pub enum SinkIo {
    /// Offer the writer some bytes, and report with `wrote`.
    Write,
    /// Flush the writer, and report with `flushed`.
    Flush,
    /// Shut the writer down, and report with `shut_down`.
    Shutdown,
}

/// A stream of packets on its way into a writer.
#[verifier::ext_equal]
pub enum SinkModel<W> {
    /// All packets so far have been written.
    Waiting(W),
    /// A packet is being written.
    Writing(WriteModel<W>),
    /// The end of the stream is being written.
    Ending(WriteModel<W>),
    /// Everything has been written, including the end of the stream.
    ShuttingDown(W),
}

impl<W> SinkModel<W> {
    /// The writer, unless it was lost to an error.
    pub open spec fn writer(self) -> Option<W> {
        match self {
            SinkModel::Waiting(w) => Some(w),
            SinkModel::Writing(m) => m.writer,
            SinkModel::Ending(m) => m.writer,
            SinkModel::ShuttingDown(w) => Some(w),
        }
    }

    /// The same with the writer as a call left it.
    pub open spec fn with_writer(self, writer: W) -> Self {
        match self {
            SinkModel::Waiting(_) => SinkModel::Waiting(writer),
            SinkModel::Writing(m) => SinkModel::Writing(m.with_writer(writer)),
            SinkModel::Ending(m) => SinkModel::Ending(m.with_writer(writer)),
            SinkModel::ShuttingDown(_) => SinkModel::ShuttingDown(writer),
        }
    }

    /// Whether bytes are being written.
    pub open spec fn is_busy(self) -> bool {
        self is Writing || self is Ending
    }

    /// Whether the stream has begun to end.
    pub open spec fn is_closing(self) -> bool {
        self is Ending || self is ShuttingDown
    }

    /// The bytes that the next call of the writer is offered.
    pub open spec fn chunk(self) -> Seq<u8> {
        match self {
            SinkModel::Writing(m) => m.chunk(),
            SinkModel::Ending(m) => m.chunk(),
            _ => Seq::empty(),
        }
    }

    /// The bytes that have been accepted for writing, and that the writer has not
    /// taken yet.
    pub open spec fn outstanding(self) -> Seq<u8> {
        match self {
            SinkModel::Writing(m) => m.outstanding(),
            SinkModel::Ending(m) => m.outstanding(),
            _ => Seq::empty(),
        }
    }

    /// Whether a call of the writer can have gone this way.
    pub open spec fn possible<E>(self, outcome: IoOutcome<usize, E>) -> bool {
        outcome matches IoOutcome::Done(n) ==> n <= self.chunk().len()
    }

    /// The state once a packet has been taken.
    pub open spec fn after_send(self, frame: Frame) -> Self {
        match self {
            SinkModel::Waiting(w) => SinkModel::Writing(WriteModel::packet(w, frame)),
            _ => self,
        }
    }

    /// The state once closing has been asked for.
    pub open spec fn after_close(self) -> Self {
        match self {
            SinkModel::Waiting(w) => SinkModel::Ending(WriteModel::end(w)),
            _ => self,
        }
    }

    /// The state after a call of the writer that went this way.
    pub open spec fn after_wrote<E>(self, outcome: IoOutcome<usize, E>) -> Self {
        match self {
            SinkModel::Writing(m) => match m.progress(outcome) {
                Progress::Ready(w) => SinkModel::Waiting(w),
                _ => SinkModel::Writing(m.after(outcome)),
            },
            SinkModel::Ending(m) => match m.progress(outcome) {
                Progress::Ready(w) => SinkModel::ShuttingDown(w),
                _ => SinkModel::Ending(m.after(outcome)),
            },
            _ => self,
        }
    }

    /// How the sink stands after a call of the writer that went this way.
    pub open spec fn progress_wrote<E>(self, outcome: IoOutcome<usize, E>) -> Progress<
        (),
        CodecError<E>,
    > {
        let inner = match self {
            SinkModel::Writing(m) => m.progress(outcome),
            SinkModel::Ending(m) => m.progress(outcome),
            _ => Progress::Continue,
        };
        match inner {
            Progress::Ready(_) => Progress::Continue,
            Progress::Continue => Progress::Continue,
            Progress::NotReady => Progress::NotReady,
            Progress::Failed(e) => Progress::Failed(e),
        }
    }

    /// What every state has in common that a sink can get into.
    pub open spec fn reachable(self) -> bool {
        match self {
            SinkModel::Writing(m) => {
                &&& m.kind == WriteKind::Packet
                &&& 9 <= m.bytes.len()
                &&& m.written <= m.bytes.len()
                &&& m.writer is Some ==> m.written < m.bytes.len()
            },
            SinkModel::Ending(m) => {
                &&& m.kind == WriteKind::EndHeader
                &&& m.bytes == wire::end_header()
                &&& m.written <= m.bytes.len()
                &&& m.writer is Some ==> m.written < m.bytes.len()
            },
            _ => true,
        }
    }
}

enum SinkState<W> {
    Waiting(W),
    Writing(WritePacket<W>),
    Ending(WriteZeros<W>),
    ShuttingDown(W),
}

/// Writes packets into a writer, one after the other.
pub struct PSCodecSink<W> {
    state: Option<SinkState<W>>,
}

impl<W> View for PSCodecSink<W> {
    type V = SinkModel<W>;

    closed spec fn view(&self) -> SinkModel<W> {
        match self.state->0 {
            SinkState::Waiting(w) => SinkModel::Waiting(w),
            SinkState::Writing(wp) => SinkModel::Writing(wp@),
            SinkState::Ending(wz) => SinkModel::Ending(wz@),
            SinkState::ShuttingDown(w) => SinkModel::ShuttingDown(w),
        }
    }
}

impl<W> PSCodecSink<W> {
    /// The state machine is between two I/O calls.
    pub closed spec fn wf(&self) -> bool {
        &&& self.state is Some
        &&& match self.state->0 {
            SinkState::Writing(wp) => wp.wf(),
            SinkState::Ending(wz) => wz.wf(),
            _ => true,
        }
    }

    /// What `wf` says about the state.
    pub proof fn lemma_wf(&self)
        requires
            self.wf(),
        ensures
            self@.reachable(),
    {
        match self.state->0 {
            SinkState::Writing(wp) => wp.lemma_wf(),
            SinkState::Ending(wz) => wz.lemma_wf(),
            _ => {},
        }
    }

    /// Creates a sink that writes into the given writer.
    pub fn new(write: W) -> (r: PSCodecSink<W>)
        ensures
            r.wf(),
            r@ == SinkModel::Waiting(write),
    {
        PSCodecSink { state: Some(SinkState::Waiting(write)) }
    }

    /// Whether the writer has not been lost to an error.
    pub fn has_writer(&self) -> (r: bool)
        requires
            self.wf(),
        ensures
            r == (self@.writer() is Some),
    {
        match self.state.as_ref().unwrap() {
            SinkState::Waiting(_) => true,
            SinkState::Writing(wp) => wp.has_writer(),
            SinkState::Ending(wz) => wz.has_writer(),
            SinkState::ShuttingDown(_) => true,
        }
    }

    /// Whether the stream has begun to end.
    pub fn is_closing(&self) -> (r: bool)
        requires
            self.wf(),
        ensures
            r == self@.is_closing(),
    {
        match self.state.as_ref().unwrap() {
            SinkState::Waiting(_) => false,
            SinkState::Writing(_) => false,
            SinkState::Ending(_) => true,
            SinkState::ShuttingDown(_) => true,
        }
    }

    /// Gives the writer back. It must not have been lost to an error.
    pub fn into_inner(self) -> (r: W)
        requires
            self.wf(),
            self@.writer() is Some,
        ensures
            Some(r) == self@.writer(),
    {
        match self.state.unwrap() {
            SinkState::Waiting(w) => w,
            SinkState::Writing(wp) => wp.into_inner(),
            SinkState::Ending(wz) => wz.into_inner(),
            SinkState::ShuttingDown(w) => w,
        }
    }

    fn waiting(&mut self, w: W)
        ensures
            final(self).wf(),
            final(self)@ == SinkModel::Waiting(w),
    {
        self.state = Some(SinkState::Waiting(w));
    }

    fn writing(&mut self, wp: WritePacket<W>)
        requires
            wp.wf(),
        ensures
            final(self).wf(),
            final(self)@ == SinkModel::Writing(wp@),
    {
        self.state = Some(SinkState::Writing(wp));
    }

    fn ending(&mut self, wz: WriteZeros<W>)
        requires
            wz.wf(),
        ensures
            final(self).wf(),
            final(self)@ == SinkModel::Ending(wz@),
    {
        self.state = Some(SinkState::Ending(wz));
    }

    fn shutting_down(&mut self, w: W)
        ensures
            final(self).wf(),
            final(self)@ == SinkModel::ShuttingDown(w),
    {
        self.state = Some(SinkState::ShuttingDown(w));
    }

    /// Takes a packet, unless the one before is still being written. No packet can
    /// be sent once the stream has begun to end, nor after an error.
    pub fn start_send(&mut self, item: (Vec<u8>, MetaData)) -> (r: StartSend)
        requires
            old(self).wf(),
            !old(self)@.is_closing(),
            old(self)@.writer() is Some,
            old(self)@ is Waiting ==> item.0@.len() <= u32::MAX,
        ensures
            final(self).wf(),
            final(self)@ == old(self)@.after_send(
                Frame { flags: item.1.flags, id: item.1.id, data: item.0@ },
            ),
            r == (if old(self)@ is Waiting {
                StartSend::Ready
            } else {
                StartSend::Busy(item)
            }),
    {
        match self.state.take().unwrap() {
            SinkState::Waiting(w) => {
                self.writing(WritePacket::new(w, item.0, item.1.id, item.1.flags));
                StartSend::Ready
            },
            state => {
                self.state = Some(state);
                StartSend::Busy(item)
            },
        }
    }

    /// Returns the I/O call that brings the sink closer to having written and
    /// flushed everything.
    pub fn poll_complete(&self) -> (r: SinkIo)
        requires
            self.wf(),
        ensures
            r == (match self@ {
                SinkModel::Waiting(_) => SinkIo::Flush,
                SinkModel::ShuttingDown(_) => SinkIo::Shutdown,
                _ => SinkIo::Write,
            }),
    {
        match self.state.as_ref().unwrap() {
            SinkState::Waiting(_) => SinkIo::Flush,
            SinkState::Writing(_) => SinkIo::Write,
            SinkState::Ending(_) => SinkIo::Write,
            SinkState::ShuttingDown(_) => SinkIo::Shutdown,
        }
    }

    /// Begins to end the stream, once the last packet has been written, and
    /// returns the I/O call that brings the sink closer to being closed.
    pub fn close(&mut self) -> (r: SinkIo)
        requires
            old(self).wf(),
        ensures
            final(self).wf(),
            final(self)@ == old(self)@.after_close(),
            r == (if old(self)@ is ShuttingDown {
                SinkIo::Shutdown
            } else {
                SinkIo::Write
            }),
    {
        match self.state.take().unwrap() {
            SinkState::Waiting(w) => {
                self.ending(WriteZeros::new(w));
                SinkIo::Write
            },
            SinkState::Writing(wp) => {
                self.writing(wp);
                SinkIo::Write
            },
            SinkState::Ending(wz) => {
                self.ending(wz);
                SinkIo::Write
            },
            SinkState::ShuttingDown(w) => {
                self.shutting_down(w);
                SinkIo::Shutdown
            },
        }
    }

    /// Returns the writer and the bytes to offer it in the next call.
    pub fn writer_and_chunk(&mut self) -> (r: (&mut W, &[u8]))
        requires
            old(self).wf(),
            old(self)@.is_busy(),
            old(self)@.writer() is Some,
        ensures
            Some(*r.0) == old(self)@.writer(),
            r.1@ == old(self)@.chunk(),
            r.1@.len() > 0,
            final(self).wf(),
            final(self)@ == old(self)@.with_writer(*final(r.0)),
    {
        match self.state.as_mut().unwrap() {
            SinkState::Writing(wp) => wp.writer_and_chunk(),
            SinkState::Ending(wz) => wz.writer_and_chunk(),
            _ => vstd::pervasive::unreached(),
        }
    }

    /// Returns the writer, to be flushed or shut down.
    pub fn writer(&mut self) -> (r: &mut W)
        requires
            old(self).wf(),
            !old(self)@.is_busy(),
        ensures
            Some(*r) == old(self)@.writer(),
            final(self).wf(),
            final(self)@ == old(self)@.with_writer(*final(r)),
    {
        match self.state.as_mut().unwrap() {
            SinkState::Waiting(w) => w,
            SinkState::ShuttingDown(w) => w,
            _ => vstd::pervasive::unreached(),
        }
    }

    /// Takes the outcome of a call of the writer with the bytes that it was to be
    /// offered.
    pub fn wrote<E>(&mut self, outcome: IoOutcome<usize, E>) -> (r: Progress<(), CodecError<E>>)
        requires
            old(self).wf(),
            old(self)@.is_busy(),
            old(self)@.writer() is Some,
            old(self)@.possible(outcome),
        ensures
            final(self).wf(),
            final(self)@ == old(self)@.after_wrote(outcome),
            r == old(self)@.progress_wrote(outcome),
    {
        match self.state.take().unwrap() {
            SinkState::Writing(mut wp) => match wp.poll(outcome) {
                Progress::Ready(w) => {
                    self.waiting(w);
                    Progress::Continue
                },
                Progress::Continue => {
                    self.writing(wp);
                    Progress::Continue
                },
                Progress::NotReady => {
                    self.writing(wp);
                    Progress::NotReady
                },
                Progress::Failed(e) => {
                    self.writing(wp);
                    Progress::Failed(e)
                },
            },
            SinkState::Ending(mut wz) => match wz.poll(outcome) {
                Progress::Ready(w) => {
                    self.shutting_down(w);
                    Progress::Continue
                },
                Progress::Continue => {
                    self.ending(wz);
                    Progress::Continue
                },
                Progress::NotReady => {
                    self.ending(wz);
                    Progress::NotReady
                },
                Progress::Failed(e) => {
                    self.ending(wz);
                    Progress::Failed(e)
                },
            },
            state => {
                self.state = Some(state);
                Progress::Continue
            },
        }
    }

    /// Takes the outcome of flushing the writer.
    pub fn flushed<E>(&self, outcome: IoOutcome<(), E>) -> (r: Progress<(), CodecError<E>>)
        requires
            self.wf(),
            self@ is Waiting,
        ensures
            r == (match outcome {
                IoOutcome::Done(()) => Progress::Ready(()),
                IoOutcome::WouldBlock => Progress::NotReady,
                IoOutcome::Interrupted => Progress::Continue,
                IoOutcome::Failed(e) => Progress::Failed(CodecError::Io(e)),
            }),
    {
        match outcome {
            IoOutcome::Done(()) => Progress::Ready(()),
            IoOutcome::WouldBlock => Progress::NotReady,
            IoOutcome::Interrupted => Progress::Continue,
            IoOutcome::Failed(e) => Progress::Failed(CodecError::Io(e)),
        }
    }

    /// Takes what shutting the writer down gave.
    pub fn shut_down<E>(&self, outcome: Poll<(), E>) -> (r: Progress<(), CodecError<E>>)
        requires
            self.wf(),
            self@ is ShuttingDown,
        ensures
            r == (match outcome {
                Ok(Async::Ready(())) => Progress::Ready(()),
                Ok(Async::NotReady) => Progress::NotReady,
                Err(e) => Progress::Failed(CodecError::Io(e)),
            }),
    {
        match outcome {
            Ok(Async::Ready(())) => Progress::Ready(()),
            Ok(Async::NotReady) => Progress::NotReady,
            Err(e) => Progress::Failed(CodecError::Io(e)),
        }
    }
}

} // verus!
