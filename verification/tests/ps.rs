//! Requests and duplexes between two endpoints over pipes that split, block and
//! interrupt reads and writes.
use std::cell::RefCell;
use std::collections::VecDeque;
use std::io;
use std::io::{Read, Write};
use std::marker::PhantomData;
use std::rc::Rc;

use atm_async_utils::sink_futures::SendClose;
use futures::future::{ok, poll_fn};
use futures::stream::{iter_ok, Fuse};
use futures::task::{current, Task};
use futures::{Async, AsyncSink, Future, Poll, Sink, StartSend, Stream};
use multi_consumer_stream::{mcs, KeyMCS, MCS};
use multi_producer_sink::{mps, MPS};
use partial_io::quickcheck_types::GenInterruptedWouldBlock;
use partial_io::{PartialAsyncRead, PartialAsyncWrite, PartialWithErrors};
use quickcheck::{QuickCheck, StdGen};
use tokio_io::{AsyncRead, AsyncWrite};

use packet_stream::codec;
use packet_stream::codec::{DecodedPacket, MetaData, SinkIo, StartSend as Started};
use packet_stream::io::{
    discard, Async as Polled, AsyncSink as Sent, CodecError, ErrorKind, IoOutcome,
    Poll as LibraryPoll, Progress, SendPoll,
};
use packet_stream::ps;
use packet_stream::ps::{PsPacketType, WaitError};
use packet_stream::wire::PacketId;

/// A bounded pipe between two futures of one task.
struct Pipe {
    data: VecDeque<u8>,
    capacity: usize,
    task: Option<Task>,
    did_shutdown: bool,
}

impl Pipe {
    fn park(&mut self) -> io::Error {
        self.task = Some(current());
        io::Error::new(io::ErrorKind::WouldBlock, "")
    }

    fn unpark(&mut self) {
        if let Some(task) = self.task.take() {
            task.notify();
        }
    }
}

struct Writer(Rc<RefCell<Pipe>>);

struct Reader(Rc<RefCell<Pipe>>);

fn ring_buffer(capacity: usize) -> (Writer, Reader) {
    let pipe = Rc::new(RefCell::new(Pipe {
        data: VecDeque::new(),
        capacity,
        task: None,
        did_shutdown: false,
    }));
    (Writer(Rc::clone(&pipe)), Reader(pipe))
}

impl Drop for Writer {
    fn drop(&mut self) {
        self.0.borrow_mut().unpark();
    }
}

impl Drop for Reader {
    fn drop(&mut self) {
        self.0.borrow_mut().unpark();
    }
}

impl Write for Writer {
    fn write(&mut self, buf: &[u8]) -> io::Result<usize> {
        let mut pipe = self.0.borrow_mut();
        if buf.is_empty() || pipe.did_shutdown {
            return Ok(0);
        }
        if pipe.data.len() == pipe.capacity {
            if Rc::strong_count(&self.0) == 1 {
                return Ok(0);
            }
            return Err(pipe.park());
        }
        let total = buf.len().min(pipe.capacity - pipe.data.len());
        pipe.data.extend(&buf[..total]);
        pipe.unpark();
        Ok(total)
    }

    fn flush(&mut self) -> io::Result<()> {
        Ok(())
    }
}

impl AsyncWrite for Writer {
    fn shutdown(&mut self) -> Poll<(), io::Error> {
        let mut pipe = self.0.borrow_mut();
        if !pipe.did_shutdown {
            pipe.unpark();
        }
        pipe.did_shutdown = true;
        Ok(Async::Ready(()))
    }
}

impl Read for Reader {
    fn read(&mut self, buf: &mut [u8]) -> io::Result<usize> {
        let mut pipe = self.0.borrow_mut();
        if buf.is_empty() {
            return Ok(0);
        }
        if pipe.data.is_empty() {
            if Rc::strong_count(&self.0) == 1 || pipe.did_shutdown {
                return Ok(0);
            }
            return Err(pipe.park());
        }
        let total = buf.len().min(pipe.data.len());
        for slot in buf[..total].iter_mut() {
            *slot = pipe.data.pop_front().unwrap();
        }
        pipe.unpark();
        Ok(total)
    }
}

impl AsyncRead for Reader {}

type Ops = PartialWithErrors<GenInterruptedWouldBlock>;

/// How an I/O call went.
fn outcome<T>(result: io::Result<T>) -> IoOutcome<T, io::Error> {
    match result {
        Ok(t) => IoOutcome::Done(t),
        Err(ref e) if e.kind() == io::ErrorKind::WouldBlock => IoOutcome::WouldBlock,
        Err(ref e) if e.kind() == io::ErrorKind::Interrupted => IoOutcome::Interrupted,
        Err(e) => IoOutcome::Failed(e),
    }
}

fn io_error(kind: ErrorKind, message: &'static str) -> io::Error {
    let kind = match kind {
        ErrorKind::WriteZero => io::ErrorKind::WriteZero,
        ErrorKind::UnexpectedEof => io::ErrorKind::UnexpectedEof,
        ErrorKind::InvalidData => io::ErrorKind::InvalidData,
    };
    io::Error::new(kind, message)
}

fn codec_error(error: CodecError<io::Error>) -> io::Error {
    match (error.describe(), error) {
        (_, CodecError::Io(e)) => e,
        (Some((kind, message)), _) => io_error(kind, message),
        (None, _) => unreachable!(),
    }
}

fn poll_in<T, E>(poll: Poll<T, E>) -> LibraryPoll<T, E> {
    match poll {
        Ok(Async::Ready(t)) => Ok(Polled::Ready(t)),
        Ok(Async::NotReady) => Ok(Polled::NotReady),
        Err(e) => Err(e),
    }
}

fn poll_out<T, E>(poll: LibraryPoll<T, E>) -> Poll<T, E> {
    match poll {
        Ok(Polled::Ready(t)) => Ok(Async::Ready(t)),
        Ok(Polled::NotReady) => Ok(Async::NotReady),
        Err(e) => Err(e),
    }
}

fn send_in<T, E>(poll: StartSend<T, E>) -> SendPoll<T, E> {
    match poll {
        Ok(AsyncSink::Ready) => Ok(Sent::Ready),
        Ok(AsyncSink::NotReady(t)) => Ok(Sent::NotReady(t)),
        Err(e) => Err(e),
    }
}

fn send_out<T, E>(poll: SendPoll<T, E>) -> StartSend<T, E> {
    match poll {
        Ok(Sent::Ready) => Ok(AsyncSink::Ready),
        Ok(Sent::NotReady(t)) => Ok(AsyncSink::NotReady(t)),
        Err(e) => Err(e),
    }
}

/// A reader is never asked for more than this at a time.
const READ_SIZE: usize = 64 * 1024;

fn write<W: AsyncWrite>(writer: &mut W, chunk: &[u8]) -> IoOutcome<usize, io::Error> {
    let result = writer.write(chunk);
    if let Ok(n) = result {
        assert!(n <= chunk.len(), "the writer took more than it was offered");
    }
    outcome(result)
}

fn read<'a, R: AsyncRead>(reader: &mut R, buf: &'a mut [u8]) -> IoOutcome<&'a [u8], io::Error> {
    match outcome(reader.read(buf)) {
        IoOutcome::Done(n) => IoOutcome::Done(&buf[..n]),
        IoOutcome::WouldBlock => IoOutcome::WouldBlock,
        IoOutcome::Interrupted => IoOutcome::Interrupted,
        IoOutcome::Failed(e) => IoOutcome::Failed(e),
    }
}

/// Makes sure that a packet is not too large.
fn bytes<B: AsRef<[u8]>>(packet: &B) -> Vec<u8> {
    if packet.as_ref().len() > u32::MAX as usize {
        panic!("Packet too large for packet-stream");
    }
    packet.as_ref().to_vec()
}

/// From AsyncWrite to Sink<(B, MetaData)>
struct PSCodecSink<W, B> {
    sink: codec::PSCodecSink<W>,
    items: PhantomData<B>,
}

impl<W, B: AsRef<[u8]>> PSCodecSink<W, B> {
    /// Create a sink that writes into the given AsyncWrite.
    fn new(write: W) -> PSCodecSink<W, B> {
        PSCodecSink { sink: codec::PSCodecSink::new(write), items: PhantomData }
    }
}

impl<W: AsyncWrite, B> PSCodecSink<W, B> {
    /// Makes an I/O call and reports its outcome.
    fn perform(&mut self, io: SinkIo) -> Progress<(), io::Error> {
        let progress = match io {
            SinkIo::Write => {
                if !self.sink.has_writer() {
                    panic!("Polled PSCodecSink after an error");
                }
                let wrote = {
                    let (w, chunk) = self.sink.writer_and_chunk();
                    write(w, chunk)
                };
                self.sink.wrote(wrote)
            }
            SinkIo::Flush => {
                let flushed = outcome(self.sink.writer().flush());
                self.sink.flushed(flushed)
            }
            SinkIo::Shutdown => {
                let shut_down = poll_in(self.sink.writer().shutdown());
                self.sink.shut_down(shut_down)
            }
        };
        match progress {
            Progress::Continue => Progress::Continue,
            Progress::NotReady => Progress::NotReady,
            Progress::Ready(()) => Progress::Ready(()),
            Progress::Failed(e) => Progress::Failed(codec_error(e)),
        }
    }
}

impl<W: AsyncWrite, B: AsRef<[u8]>> Sink for PSCodecSink<W, B> {
    type SinkItem = (B, MetaData);
    type SinkError = io::Error;

    fn start_send(&mut self, item: Self::SinkItem) -> StartSend<Self::SinkItem, Self::SinkError> {
        if self.sink.is_closing() {
            panic!("Wrote to packet-stream after closing");
        }
        while self.sink.poll_complete() == SinkIo::Write {
            match self.perform(SinkIo::Write) {
                Progress::NotReady => return Ok(AsyncSink::NotReady(item)),
                Progress::Failed(e) => return Err(e),
                _ => {}
            }
        }
        match self.sink.start_send((bytes(&item.0), item.1)) {
            Started::Ready => Ok(AsyncSink::Ready),
            Started::Busy(_) => unreachable!(),
        }
    }

    fn poll_complete(&mut self) -> Poll<(), Self::SinkError> {
        loop {
            let io = self.sink.poll_complete();
            match self.perform(io) {
                Progress::Continue => {}
                Progress::NotReady => return Ok(Async::NotReady),
                Progress::Ready(()) => return Ok(Async::Ready(())),
                Progress::Failed(e) => return Err(e),
            }
        }
    }

    fn close(&mut self) -> Poll<(), Self::SinkError> {
        loop {
            let io = self.sink.close();
            match self.perform(io) {
                Progress::Continue => {}
                Progress::NotReady => return Ok(Async::NotReady),
                Progress::Ready(()) => return Ok(Async::Ready(())),
                Progress::Failed(e) => return Err(e),
            }
        }
    }
}

/// From AsyncRead to Stream<DecodedPacket>
struct PSCodecStream<R>(codec::PSCodecStream<R>);

impl<R> PSCodecStream<R> {
    /// Create a stream that reads from the given AsyncRead.
    fn new(read: R) -> PSCodecStream<R> {
        PSCodecStream(codec::PSCodecStream::new(read))
    }
}

impl<R: AsyncRead> Stream for PSCodecStream<R> {
    type Item = DecodedPacket;
    type Error = io::Error;

    fn poll(&mut self) -> Poll<Option<Self::Item>, Self::Error> {
        if !self.0.has_reader() {
            panic!("Polled ReadPacket after completion");
        }
        let mut buf = Vec::new();
        loop {
            let got = {
                let (r, wanted) = self.0.reader_and_wanted();
                buf.resize(wanted.min(READ_SIZE), 0);
                read(r, &mut buf)
            };
            match self.0.poll(got) {
                Progress::Continue => {}
                Progress::NotReady => return Ok(Async::NotReady),
                Progress::Ready(item) => return Ok(Async::Ready(item)),
                Progress::Failed(e) => return Err(codec_error(e)),
            }
        }
    }
}

/// Take ownership of an AsyncRead and an AsyncWrite to create the two halves of
/// a packet-stream.
///
/// `R` is the `AsyncRead` for reading bytes from the peer, `W` is the
/// `AsyncWrite` for writing bytes to the peer, and `B` is the type that is used
/// as input for sending data.
///
/// Note that the AsyncRead may be polled for data even after it has signalled
/// end of data. Only use AsyncReads that can correctly handle this.
fn packet_stream<R: AsyncRead, W: AsyncWrite, B: AsRef<[u8]>>(
    r: R,
    w: W,
) -> (PsIn<R, W, B>, PsOut<R, W, B>) {
    let shared = Rc::new(RefCell::new(PS::new(r, w)));

    (PsIn(Rc::clone(&shared)), PsOut(shared))
}

type KeyFn = fn(&DecodedPacket) -> PacketId;

/// Shared state between a PsIn, PsOut and requests, duplexes, etc.
struct PS<R: AsyncRead, W, B> {
    sink: MPS<PSCodecSink<W, B>>,
    stream: MCS<Fuse<PSCodecStream<R>>, PacketId, KeyFn>,
    incoming: ps::PsIn,
    outgoing: ps::PsOut,
}

impl<R, W, B> PS<R, W, B>
where
    R: AsyncRead,
    W: AsyncWrite,
    B: AsRef<[u8]>,
{
    fn new(r: R, w: W) -> PS<R, W, B> {
        let (sink, _) = mps(PSCodecSink::new(w));
        let (incoming, outgoing) = ps::packet_stream();
        let key_fn: KeyFn = DecodedPacket::id;
        PS { sink, stream: mcs(PSCodecStream::new(r).fuse(), key_fn), incoming, outgoing }
    }

    fn poll(&mut self) -> Poll<Option<IncomingPacket<R, W, B>>, io::Error> {
        loop {
            let next = poll_in(self.stream.poll());
            match self.incoming.poll(next) {
                Progress::Continue => {}
                Progress::NotReady => return Ok(Async::NotReady),
                Progress::Ready(None) => return Ok(Async::Ready(None)),
                Progress::Ready(Some(ps::IncomingPacket::Request(request))) => {
                    let request = InRequest { request, sink: self.sink.clone() };
                    return Ok(Async::Ready(Some(IncomingPacket::Request(request))));
                }
                Progress::Ready(Some(ps::IncomingPacket::Duplex(sink, stream))) => {
                    let sink = PsSink { sink: self.sink.clone(), duplex: sink };
                    let stream = PsStream {
                        stream: self.stream.key_handle(stream.key()),
                        duplex: stream,
                    };
                    return Ok(Async::Ready(Some(IncomingPacket::Duplex(sink, stream))));
                }
                Progress::Failed(e) => return Err(e),
            }
        }
    }
}

/// Allows sending packets to the peer.
struct PsOut<R: AsyncRead, W, B>(Rc<RefCell<PS<R, W, B>>>);

impl<R, W, B> PsOut<R, W, B>
where
    R: AsyncRead,
    W: AsyncWrite,
    B: AsRef<[u8]>,
{
    /// Send a request to the peer.
    ///
    /// The `SendRequest` Future must be polled to actually start sending the
    /// request. The `InResponse` Future can be polled to receive the response.
    fn request(&self, data: B, t: PsPacketType) -> (SendRequest<W, B>, InResponse<R>) {
        let mut shared = self.0.borrow_mut();
        let (request, response) = shared.outgoing.request(data, t);
        (
            SendRequest(SendClose::new(shared.sink.clone(), request.into_packet())),
            InResponse { stream: shared.stream.key_handle(response.key()), response },
        )
    }

    /// Create a bidirectional channel multiplexed over the underlying
    /// sink/stream pair.
    fn duplex(&self) -> (PsSink<W, B>, PsStream<R>) {
        let mut shared = self.0.borrow_mut();
        let (sink, stream) = shared.outgoing.duplex();
        (
            PsSink { sink: shared.sink.clone(), duplex: sink },
            PsStream { stream: shared.stream.key_handle(stream.key()), duplex: stream },
        )
    }

    /// Close the packet-stream, indicating that no more packets will be sent.
    ///
    /// This does not immediately close if there are still unsent requests or
    /// active duplexes. In that case, the closing happens when the last
    /// request is sent or the last duplex is closed.
    ///
    /// The error contains a `None` if another handle errored previously.
    fn close(&mut self) -> Poll<(), Option<io::Error>> {
        self.0.borrow_mut().sink.close()
    }
}

/// A request initated by this packet-stream.
///
/// Poll it to actually start sending the request.
struct SendRequest<W: AsyncWrite, B: AsRef<[u8]>>(SendClose<MPS<PSCodecSink<W, B>>>);

impl<W: AsyncWrite, B: AsRef<[u8]>> Future for SendRequest<W, B> {
    type Item = ();
    type Error = Option<io::Error>;

    fn poll(&mut self) -> Poll<Self::Item, Self::Error> {
        poll_out(discard(poll_in(self.0.poll())))
    }
}

type StreamHandle<R> = KeyMCS<Fuse<PSCodecStream<R>>, PacketId, KeyFn>;

/// The error of waiting for a packet, `None` if the stream of packets failed: `PsIn`
/// emits the error itself.
fn wait_error(error: WaitError<()>) -> Option<io::Error> {
    error.describe().map(|(kind, message)| io_error(kind, message))
}

/// A response that will be received from the peer.
struct InResponse<R: AsyncRead> {
    stream: StreamHandle<R>,
    response: ps::InResponse,
}

impl<R: AsyncRead> Future for InResponse<R> {
    type Item = DecodedPacket;
    type Error = Option<io::Error>;

    fn poll(&mut self) -> Poll<Self::Item, Self::Error> {
        let next = poll_in(self.stream.poll());
        poll_out(self.response.poll(next)).map_err(wait_error)
    }
}

/// The sink half of a duplex multiplexed over the packet-stream.
struct PsSink<W: AsyncWrite, B: AsRef<[u8]>> {
    sink: MPS<PSCodecSink<W, B>>,
    duplex: ps::PsSink,
}

impl<W, B> Sink for PsSink<W, B>
where
    W: AsyncWrite,
    B: AsRef<[u8]>,
{
    /// If the `bool` is true, the end/error flag gets set.
    type SinkItem = (B, PsPacketType, bool);
    type SinkError = Option<io::Error>;

    fn start_send(&mut self, item: Self::SinkItem) -> StartSend<Self::SinkItem, Self::SinkError> {
        let (t, end) = (item.1, item.2);
        let packet: (B, MetaData) = self.duplex.start_send(item);
        let sent = send_in(self.sink.start_send(packet));
        send_out(self.duplex.finish_send(t, end, sent))
    }

    fn poll_complete(&mut self) -> Poll<(), Self::SinkError> {
        self.sink.poll_complete()
    }

    /// This only closes the packet-stream if necessary, but it does not
    /// automatically send a packet signalling the end of the substream.
    fn close(&mut self) -> Poll<(), Self::SinkError> {
        self.sink.close()
    }
}

/// The stream half of a duplex multiplexed over the packet-stream.
struct PsStream<R: AsyncRead> {
    stream: StreamHandle<R>,
    duplex: ps::PsStream,
}

/// Note that the stream never emits `Ok(Async::Ready(None))`, this needs to be
/// implemented on top of it.
impl<R: AsyncRead> Stream for PsStream<R> {
    type Item = DecodedPacket;
    type Error = Option<io::Error>;

    /// Note that the stream never emits `Ok(Async::Ready(None))`, this needs to be
    /// implemented on top of it.
    fn poll(&mut self) -> Poll<Option<Self::Item>, Self::Error> {
        match self.duplex.take_initial() {
            Some(packet) => Ok(Async::Ready(Some(packet))),
            None => {
                let next = poll_in(self.stream.poll());
                poll_out(self.duplex.poll(next)).map_err(wait_error)
            }
        }
    }
}

/// A stream of incoming requests from the peer.
struct PsIn<R: AsyncRead, W, B>(Rc<RefCell<PS<R, W, B>>>);

impl<R: AsyncRead, W: AsyncWrite, B: AsRef<[u8]>> Stream for PsIn<R, W, B> {
    type Item = IncomingPacket<R, W, B>;
    type Error = io::Error;

    fn poll(&mut self) -> Poll<Option<Self::Item>, Self::Error> {
        self.0.borrow_mut().poll()
    }
}

/// An incoming packet, initiated by the peer.
enum IncomingPacket<R: AsyncRead, W: AsyncWrite, B: AsRef<[u8]>> {
    /// An incoming request.
    Request(InRequest<W, B>),
    /// A duplex connection initiated by the peer.
    Duplex(PsSink<W, B>, PsStream<R>),
}

/// A request initated by the peer. Drop to ignore it, or use `respond` to send
/// a response.
struct InRequest<W, B> {
    request: ps::InRequest,
    sink: MPS<PSCodecSink<W, B>>,
}

impl<W, B> InRequest<W, B> {
    /// Returns the packet corresponding to this incoming request.
    fn packet(&self) -> &DecodedPacket {
        self.request.packet()
    }
}

impl<W: AsyncWrite, B: AsRef<[u8]>> InRequest<W, B> {
    /// Returns a Future which completes once the given packet has been sent to
    /// the peer.
    fn respond(self, bytes: B, t: PsPacketType) -> SendResponse<W, B> {
        let response = self.request.respond(bytes, t);
        SendResponse(SendClose::new(self.sink, response.into_packet()))
    }

    /// Returns a Future which completes once the given packet has been sent to
    /// the peer. The error flag is set in the header.
    fn respond_error(self, bytes: B, t: PsPacketType) -> SendResponseError<W, B> {
        let response = self.request.respond_error(bytes, t);
        SendResponseError(SendClose::new(self.sink, response.into_packet()))
    }
}

/// Future that completes when the given bytes have been sent as a response to
/// the peer.
struct SendResponse<W: AsyncWrite, B: AsRef<[u8]>>(SendClose<MPS<PSCodecSink<W, B>>>);

impl<W: AsyncWrite, B: AsRef<[u8]>> Future for SendResponse<W, B> {
    type Item = ();
    type Error = Option<io::Error>;

    fn poll(&mut self) -> Poll<Self::Item, Self::Error> {
        poll_out(discard(poll_in(self.0.poll())))
    }
}

/// Future that completes when the given bytes have been sent as a response to
/// the peer, with the error flag set.
struct SendResponseError<W: AsyncWrite, B: AsRef<[u8]>>(SendClose<MPS<PSCodecSink<W, B>>>);

impl<W: AsyncWrite, B: AsRef<[u8]>> Future for SendResponseError<W, B> {
    type Item = ();
    type Error = Option<io::Error>;

    fn poll(&mut self) -> Poll<Self::Item, Self::Error> {
        poll_out(discard(poll_in(self.0.poll())))
    }
}

#[test]
fn ps_requests() {
    let rng = StdGen::new(rand::thread_rng(), 20);
    let mut quickcheck = QuickCheck::new().gen(rng).tests(100);
    quickcheck.quickcheck(test_requests as fn(usize, usize, Ops, Ops, Ops, Ops) -> bool);
}

fn test_requests(
    buf_size_a: usize,
    buf_size_b: usize,
    write_ops_a: Ops,
    read_ops_a: Ops,
    write_ops_b: Ops,
    read_ops_b: Ops,
) -> bool {
    let (writer_a, reader_a) = ring_buffer(buf_size_a + 1);
    let writer_a = PartialAsyncWrite::new(writer_a, write_ops_a);
    let reader_a = PartialAsyncRead::new(reader_a, read_ops_a);

    let (writer_b, reader_b) = ring_buffer(buf_size_b + 1);
    let writer_b = PartialAsyncWrite::new(writer_b, write_ops_b);
    let reader_b = PartialAsyncRead::new(reader_b, read_ops_b);

    let (a_in, mut a_out) = packet_stream(reader_a, writer_b);
    let (b_in, mut b_out) = packet_stream(reader_b, writer_a);

    let echo = b_in
        .map_err(Some)
        .for_each(|incoming_packet| match incoming_packet {
            IncomingPacket::Request(in_request) => {
                let data = in_request.packet().data().clone();
                in_request.respond(data, PsPacketType::Binary)
            }
            IncomingPacket::Duplex(_, _) => unreachable!(),
        })
        .and_then(|_| poll_fn(|| b_out.close()));

    let consume_a = a_in.map_err(Some).for_each(|_| ok(()));

    let (req0, res0) = a_out.request([0], PsPacketType::Binary);
    let (req1, res1) = a_out.request([1], PsPacketType::Binary);
    let (req2, res2) = a_out.request([2], PsPacketType::Binary);

    let send_all = req0.join3(req1, req2).and_then(|_| poll_fn(|| a_out.close()));

    let receive_all = res0.join3(res1, res2).map(|(r0, r1, r2)| {
        r0.data() == &vec![0u8]
            && r0.is_buffer_packet()
            && r1.data() == &vec![1u8]
            && r1.is_buffer_packet()
            && r2.data() == &vec![2u8]
            && r2.is_buffer_packet()
    });

    echo.join4(consume_a, send_all, receive_all)
        .map(|(_, _, _, worked)| worked)
        .wait()
        .unwrap()
}

#[test]
fn ps_duplexes() {
    let rng = StdGen::new(rand::thread_rng(), 20);
    let mut quickcheck = QuickCheck::new().gen(rng).tests(100);
    quickcheck.quickcheck(test_duplexes as fn(usize, usize, Ops, Ops, Ops, Ops) -> bool);
}

fn test_duplexes(
    buf_size_a: usize,
    buf_size_b: usize,
    write_ops_a: Ops,
    read_ops_a: Ops,
    write_ops_b: Ops,
    read_ops_b: Ops,
) -> bool {
    let (writer_a, reader_a) = ring_buffer(buf_size_a + 1);
    let writer_a = PartialAsyncWrite::new(writer_a, write_ops_a);
    let reader_a = PartialAsyncRead::new(reader_a, read_ops_a);

    let (writer_b, reader_b) = ring_buffer(buf_size_b + 1);
    let writer_b = PartialAsyncWrite::new(writer_b, write_ops_b);
    let reader_b = PartialAsyncRead::new(reader_b, read_ops_b);

    let (a_in, mut a_out) = packet_stream(reader_a, writer_b);
    let (b_in, mut b_out) = packet_stream(reader_b, writer_a);

    let echo = b_in
        .map_err(Some)
        .for_each(|incoming_packet| match incoming_packet {
            IncomingPacket::Request(_) => unreachable!(),
            IncomingPacket::Duplex(sink, stream) => stream
                .take_while(|packet| ok(!packet.is_end_packet()))
                .map(|packet| (packet.into_data(), PsPacketType::Binary, false))
                .forward(sink)
                .map(|_| ()),
        })
        .and_then(move |_| poll_fn(move || b_out.close()));

    let consume_a = a_in.map_err(Some).for_each(|_| ok(()));

    let (sink0_a, stream0_a) = a_out.duplex();
    let (sink1_a, stream1_a) = a_out.duplex();
    let (sink2_a, stream2_a) = a_out.duplex();

    let send_0 = sink0_a.send_all(iter_ok::<_, io::Error>(vec![
        (vec![0], PsPacketType::Binary, false),
        (vec![42], PsPacketType::Binary, true),
    ]));
    let send_1 = sink1_a.send_all(iter_ok::<_, io::Error>(vec![
        (vec![1], PsPacketType::Binary, false),
        (vec![1], PsPacketType::Binary, false),
        (vec![43], PsPacketType::Binary, true),
    ]));
    let send_2 = sink2_a.send_all(iter_ok::<_, io::Error>(vec![
        (vec![2], PsPacketType::Binary, false),
        (vec![2], PsPacketType::Binary, false),
        (vec![2], PsPacketType::Binary, false),
        (vec![44], PsPacketType::Binary, true),
    ]));
    let send_all =
        send_0.join3(send_1, send_2).and_then(move |_| poll_fn(move || a_out.close()));

    let receive_0 = stream0_a
        .take(1)
        .fold(false, |_, packet| ok::<_, Option<io::Error>>(packet.into_data() == vec![0]));
    let receive_1 = stream1_a
        .take(2)
        .fold(true, |acc, packet| ok::<_, Option<io::Error>>(acc && packet.into_data() == vec![1]));
    let receive_2 = stream2_a
        .take(3)
        .fold(true, |acc, packet| ok::<_, Option<io::Error>>(acc && packet.into_data() == vec![2]));
    let receive_all = receive_0.join3(receive_1, receive_2).map(|(a, b, c)| a && b && c);

    echo.join4(consume_a, send_all, receive_all)
        .map(|(_, _, _, worked)| worked)
        .wait()
        .unwrap()
}
