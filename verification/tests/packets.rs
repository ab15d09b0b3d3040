//! The codec's state machines on plain values: exact bytes, every error, and what a
//! reader gets of what a writer was given.
use packet_stream::codec::{
    DecodedPacket, MetaData, PSCodecSink, PSCodecStream, ReadPacket, SinkIo, StartSend,
    WritePacket, WriteZeros,
};
use packet_stream::io::{discard, Async, CodecError, ErrorKind, Field, IoOutcome, Poll, Progress};
use packet_stream::wire::{
    PacketId, END, STREAM, TYPE, TYPE_BINARY, TYPE_INVALID, TYPE_JSON, TYPE_STRING,
};

type Failure = &'static str;

/// Drives a packet into a `Vec`, at most `step` bytes a call.
fn written(data: Vec<u8>, id: PacketId, flags: u8, step: usize) -> Vec<u8> {
    let mut write = WritePacket::new(Vec::new(), data, id, flags);
    loop {
        let n = {
            let (w, chunk) = write.writer_and_chunk();
            let n = chunk.len().min(step);
            w.extend_from_slice(&chunk[..n]);
            n
        };
        match write.poll::<Failure>(IoOutcome::Done(n)) {
            Progress::Continue => assert!(write.has_writer()),
            Progress::Ready(w) => {
                assert!(!write.has_writer());
                return w;
            }
            other => panic!("{:?}", other),
        }
    }
}

/// What a `ReadPacket` makes of some bytes, at most `step` of them a call.
fn read_packet(bytes: &[u8], step: usize) -> Result<(Option<DecodedPacket>, usize), CodecError<Failure>> {
    let mut read = ReadPacket::new(0usize);
    loop {
        let got = {
            let (pos, wanted) = read.reader_and_wanted();
            let n = wanted.min(step).min(bytes.len() - *pos);
            let got = &bytes[*pos..*pos + n];
            *pos += n;
            got
        };
        match read.poll(IoOutcome::Done(got)) {
            Progress::Continue => {}
            Progress::Ready(item) => return Ok(item),
            Progress::Failed(e) => {
                assert!(!read.has_reader());
                return Err(e);
            }
            Progress::NotReady => unreachable!(),
        }
    }
}

/// All that a `PSCodecStream` emits of some bytes, at most `step` of them a call, and
/// the error that it ends with.
fn read_all(bytes: &[u8], step: usize) -> (Vec<Option<(u8, PacketId, Vec<u8>)>>, CodecError<Failure>) {
    let mut stream = PSCodecStream::new(0usize);
    let mut items = Vec::new();
    loop {
        let got = {
            let (pos, wanted) = stream.reader_and_wanted();
            let n = wanted.min(step).min(bytes.len() - *pos);
            let got = &bytes[*pos..*pos + n];
            *pos += n;
            got
        };
        match stream.poll(IoOutcome::Done(got)) {
            Progress::Continue => {}
            Progress::Ready(None) => items.push(None),
            Progress::Ready(Some(packet)) => {
                let mut flags = 0;
                if packet.is_stream_packet() {
                    flags |= STREAM;
                }
                if packet.is_end_packet() {
                    flags |= END;
                }
                if packet.is_string_packet() {
                    flags |= TYPE_STRING;
                }
                if packet.is_json_packet() {
                    flags |= TYPE_JSON;
                }
                items.push(Some((flags, packet.id(), packet.into_data())));
            }
            Progress::Failed(e) => {
                assert!(!stream.has_reader());
                return (items, e);
            }
            Progress::NotReady => unreachable!(),
        }
    }
}

/// Makes all the I/O calls that are due until the sink is flushed or shut down.
fn drive(sink: &mut PSCodecSink<Vec<u8>>, step: usize, close: bool) {
    loop {
        let io = if close { sink.close() } else { sink.poll_complete() };
        let progress: Progress<(), CodecError<Failure>> = match io {
            SinkIo::Write => {
                let n = {
                    let (w, chunk) = sink.writer_and_chunk();
                    let n = chunk.len().min(step);
                    w.extend_from_slice(&chunk[..n]);
                    n
                };
                sink.wrote(IoOutcome::Done(n))
            }
            SinkIo::Flush => {
                let _ = sink.writer();
                sink.flushed(IoOutcome::Done(()))
            }
            SinkIo::Shutdown => {
                let _ = sink.writer();
                sink.shut_down(Ok(Async::Ready(())))
            }
        };
        match progress {
            Progress::Continue => {}
            Progress::Ready(()) => return,
            other => panic!("{:?}", other),
        }
    }
}

#[test]
fn flag_values() {
    assert_eq!([STREAM, END, TYPE], [8, 4, 3]);
    assert_eq!([TYPE_BINARY, TYPE_STRING, TYPE_JSON, TYPE_INVALID], [0, 1, 2, 3]);
}

#[test]
fn exact_bytes_of_a_packet() {
    let expected = vec![9, 0, 0, 0, 3, 1, 2, 3, 4, 7, 8, 9];
    assert_eq!(written(vec![7, 8, 9], 0x0102_0304, 9, usize::MAX), expected);
    assert_eq!(written(vec![7, 8, 9], 0x0102_0304, 9, 1), expected);
    assert_eq!(written(vec![7, 8, 9], 0x0102_0304, 9, 2), expected);
}

#[test]
fn exact_bytes_of_extreme_ids() {
    assert_eq!(&written(vec![], 0, 1, 9)[5..], &[0, 0, 0, 0]);
    assert_eq!(&written(vec![], -1, 1, 9)[5..], &[255, 255, 255, 255]);
    assert_eq!(&written(vec![], i32::MAX, 1, 9)[5..], &[127, 255, 255, 255]);
    assert_eq!(&written(vec![], i32::MIN, 1, 9)[5..], &[128, 0, 0, 0]);
}

#[test]
fn exact_bytes_of_a_length() {
    let bytes = written(vec![5; 0x1_0203], 1, 0, usize::MAX);
    assert_eq!(&bytes[..9], &[0, 0, 1, 2, 3, 0, 0, 0, 1]);
    assert_eq!(bytes.len(), 9 + 0x1_0203);
}

#[test]
fn chunks_stop_at_the_parts_of_a_packet() {
    let mut write = WritePacket::new((), vec![7, 8], 1, 0);
    let mut lengths = Vec::new();
    loop {
        let n = write.writer_and_chunk().1.len();
        lengths.push(n);
        match write.poll::<Failure>(IoOutcome::Done(n)) {
            Progress::Continue => {}
            Progress::Ready(()) => break,
            other => panic!("{:?}", other),
        }
    }
    assert_eq!(lengths, vec![1, 4, 4, 2]);
}

#[test]
fn packets_are_read_back() {
    for id in [0, 1, -1, 255, 256, -256, 65536, i32::MAX, i32::MIN] {
        for flags in [0, 1, 2, 4, 8, 9, 14, 0xf0] {
            for data in [vec![], vec![0], vec![1, 2, 3], vec![9; 300]] {
                if id == 0 && flags == 0 && data.is_empty() {
                    continue;
                }
                for step in [1, 3, 1000] {
                    let bytes = written(data.clone(), id, flags, step);
                    assert_eq!(bytes.len(), 9 + data.len());
                    let (packet, consumed) = read_packet(&bytes, step).unwrap();
                    let packet = packet.unwrap();
                    assert_eq!(packet.id(), id);
                    assert_eq!(packet.data(), &data);
                    assert_eq!(packet.is_stream_packet(), flags & STREAM != 0);
                    assert_eq!(packet.is_end_packet(), flags & END != 0);
                    assert_eq!(packet.is_buffer_packet(), flags & TYPE == 0);
                    assert_eq!(packet.is_string_packet(), flags & TYPE == 1);
                    assert_eq!(packet.is_json_packet(), flags & TYPE == 2);
                    assert_eq!(consumed, bytes.len());
                }
            }
        }
    }
}

#[test]
fn the_one_packet_that_reads_as_the_end() {
    let bytes = written(vec![], 0, 0, 9);
    assert_eq!(bytes, vec![0; 9]);
    assert!(read_packet(&bytes, 9).unwrap().0.is_none());
}

#[test]
fn no_more_is_read_than_the_packet() {
    let mut bytes = written(vec![1, 2], 3, 0, 9);
    bytes.extend_from_slice(&[3, 3, 3]);
    assert_eq!(read_packet(&bytes, 1000).unwrap().1, 11);
}

#[test]
fn no_prefix_of_a_packet_is_a_packet() {
    let bytes = written(vec![1, 2, 3], 5, 10, 9);
    let field = |n| match n {
        0 => Field::Flags,
        1..=4 => Field::Length,
        5..=8 => Field::Id,
        _ => Field::Data,
    };
    for n in 0..bytes.len() {
        assert_eq!(
            read_packet(&bytes[..n], 2).err().unwrap(),
            CodecError::UnexpectedEof(field(n))
        );
    }
}

#[test]
fn invalid_type_is_told_from_the_flags_alone() {
    for flags in [3, 7, 11, 15, 0xff] {
        assert_eq!(read_packet(&[flags], 1).err().unwrap(), CodecError::InvalidType);
    }
}

#[test]
fn data_can_be_changed_and_taken() {
    let bytes = written(vec![1, 2, 3], 4, 2, 9);
    let mut packet = read_packet(&bytes, 9).unwrap().0.unwrap();
    packet.data_mut().push(4);
    packet.data_mut()[0] = 0;
    assert_eq!(packet.data(), &vec![0, 2, 3, 4]);
    assert_eq!(packet.id(), 4);
    assert!(packet.is_json_packet());
    assert_eq!(packet.into_data(), vec![0, 2, 3, 4]);
}

#[test]
fn writing_waits_and_retries_without_loss() {
    let mut write = WritePacket::new('w', vec![7], 1, 0);
    assert_eq!(write.poll::<Failure>(IoOutcome::WouldBlock), Progress::NotReady);
    assert_eq!(write.poll::<Failure>(IoOutcome::Interrupted), Progress::Continue);
    assert_eq!(write.writer_and_chunk().1, &[0]);
    assert_eq!(write.poll::<Failure>(IoOutcome::Done(1)), Progress::Continue);
    assert_eq!(write.writer_and_chunk().1, &[0, 0, 0, 1]);
    assert_eq!(write.poll::<Failure>(IoOutcome::Done(3)), Progress::Continue);
    assert_eq!(write.poll::<Failure>(IoOutcome::WouldBlock), Progress::NotReady);
    assert_eq!(write.writer_and_chunk().1, &[1]);
    assert_eq!(write.into_inner(), 'w');
}

#[test]
fn the_writer_is_handed_out_to_be_changed() {
    let mut write = WritePacket::new(1, vec![], 1, 0);
    *write.writer_and_chunk().0 = 2;
    assert_eq!(write.into_inner(), 2);
    let mut write = WriteZeros::new(1);
    *write.writer_and_chunk().0 = 3;
    assert_eq!(write.into_inner(), 3);
}

#[test]
fn writer_that_takes_nothing() {
    let takes = [
        (vec![], Field::Flags),
        (vec![1], Field::Length),
        (vec![1, 3], Field::Length),
        (vec![1, 4], Field::Id),
        (vec![1, 4, 4], Field::Data),
        (vec![1, 4, 4, 1], Field::Data),
    ];
    for (before, field) in takes {
        let mut write = WritePacket::new((), vec![1, 2], 1, 0);
        for n in before {
            assert_eq!(write.poll::<Failure>(IoOutcome::Done(n)), Progress::Continue);
        }
        assert_eq!(
            write.poll::<Failure>(IoOutcome::Done(0)),
            Progress::Failed(CodecError::WriteZero(field))
        );
        assert!(!write.has_writer());
    }
}

#[test]
fn failures_of_reader_and_writer_are_passed_on() {
    let mut write = WritePacket::new((), vec![], 1, 0);
    assert_eq!(
        write.poll(IoOutcome::Failed("broken")),
        Progress::Failed(CodecError::Io("broken"))
    );
    assert!(!write.has_writer());
    let mut zeros = WriteZeros::new(());
    assert_eq!(
        zeros.poll(IoOutcome::Failed("broken")),
        Progress::Failed(CodecError::Io("broken"))
    );
    assert!(!zeros.has_writer());
    let mut read = ReadPacket::new(());
    assert!(matches!(
        read.poll(IoOutcome::Failed("broken")),
        Progress::Failed(CodecError::Io("broken"))
    ));
    assert!(!read.has_reader());
    let mut stream = PSCodecStream::new(());
    assert!(matches!(
        stream.poll(IoOutcome::Failed("broken")),
        Progress::Failed(CodecError::Io("broken"))
    ));
    assert!(!stream.has_reader());
}

#[test]
fn exact_bytes_of_the_end() {
    for step in 1..10 {
        let mut zeros = WriteZeros::new(Vec::new());
        assert_eq!(zeros.poll::<Failure>(IoOutcome::WouldBlock), Progress::NotReady);
        assert_eq!(zeros.poll::<Failure>(IoOutcome::Interrupted), Progress::Continue);
        let bytes = loop {
            let n = {
                let (w, chunk) = zeros.writer_and_chunk();
                assert_eq!(chunk.len(), 9 - w.len());
                let n = chunk.len().min(step);
                w.extend_from_slice(&chunk[..n]);
                n
            };
            match zeros.poll::<Failure>(IoOutcome::Done(n)) {
                Progress::Continue => assert!(zeros.has_writer()),
                Progress::Ready(w) => break w,
                other => panic!("{:?}", other),
            }
        };
        assert_eq!(bytes, vec![0; 9]);
        assert!(read_packet(&bytes, step).unwrap().0.is_none());
    }
}

#[test]
fn writer_that_takes_nothing_of_the_end() {
    let mut zeros = WriteZeros::new(());
    assert_eq!(zeros.poll::<Failure>(IoOutcome::Done(8)), Progress::Continue);
    assert_eq!(
        zeros.poll::<Failure>(IoOutcome::Done(0)),
        Progress::Failed(CodecError::WriteZeroEnd)
    );
    assert!(!zeros.has_writer());
}

#[test]
fn reading_waits_and_retries_without_loss() {
    let bytes = written(vec![1, 2, 3], 4, 0, 9);
    let mut read = ReadPacket::new('r');
    let mut pos = 0;
    let packet = loop {
        assert!(matches!(read.poll::<Failure>(IoOutcome::WouldBlock), Progress::NotReady));
        assert!(matches!(read.poll::<Failure>(IoOutcome::Interrupted), Progress::Continue));
        let (r, wanted) = read.reader_and_wanted();
        assert_eq!(*r, 'r');
        assert!(pos + wanted <= bytes.len());
        pos += 1;
        match read.poll::<Failure>(IoOutcome::Done(&bytes[pos - 1..pos])) {
            Progress::Continue => {}
            Progress::Ready((packet, r)) => {
                assert_eq!(r, 'r');
                break packet.unwrap();
            }
            other => panic!("{:?}", other),
        }
    };
    assert_eq!(pos, bytes.len());
    assert_eq!(packet.into_data(), vec![1, 2, 3]);
}

#[test]
fn a_stream_emits_what_the_bytes_hold() {
    let mut bytes = written(vec![1], 1, 8, 9);
    bytes.extend(written(vec![], -1, 5, 9));
    bytes.extend(vec![0; 9]);
    bytes.extend(written(vec![2, 3], 2, 2, 9));
    bytes.push(8);
    let expected = vec![
        Some((8, 1, vec![1])),
        Some((5, -1, vec![])),
        None,
        Some((2, 2, vec![2, 3])),
    ];
    for step in [1, 2, 5, 1000] {
        let (items, error) = read_all(&bytes, step);
        assert_eq!(items, expected);
        assert_eq!(error, CodecError::UnexpectedEof(Field::Length));
    }
    let (items, error) = read_all(&bytes[..19], 4);
    assert_eq!(items, expected[..2].to_vec());
    assert_eq!(error, CodecError::UnexpectedEof(Field::Flags));
}

#[test]
fn what_a_sink_writes_a_stream_emits() {
    for step in [1, 4, 1000] {
        let mut sink = PSCodecSink::new(Vec::new());
        let mut expected = Vec::new();
        for (i, flags) in [0, 1, 2, 4, 8, 12].into_iter().enumerate() {
            let data = vec![i as u8; i];
            let id = i as PacketId - 2;
            expected.push(Some((flags, id, data.clone())));
            assert_eq!(sink.start_send((data, MetaData { flags, id })), StartSend::Ready);
            drive(&mut sink, step, false);
        }
        assert!(!sink.is_closing());
        drive(&mut sink, step, true);
        assert!(sink.is_closing());
        expected.push(None);
        let bytes = sink.into_inner();
        let (items, _) = read_all(&bytes, step);
        assert_eq!(items, expected);
        for n in 0..bytes.len() {
            let (items, _) = read_all(&bytes[..n], step);
            assert_eq!(items[..], expected[..items.len()]);
        }
    }
}

#[test]
fn a_sink_takes_one_packet_at_a_time() {
    let mut sink = PSCodecSink::new(Vec::new());
    assert_eq!(sink.poll_complete(), SinkIo::Flush);
    let metadata = MetaData { flags: 1, id: 2 };
    assert_eq!(sink.start_send((vec![1], metadata)), StartSend::Ready);
    assert_eq!(sink.poll_complete(), SinkIo::Write);
    assert_eq!(sink.start_send((vec![2], metadata)), StartSend::Busy((vec![2], metadata)));
    drive(&mut sink, 1000, false);
    assert_eq!(sink.start_send((vec![2], metadata)), StartSend::Ready);
    drive(&mut sink, 1000, false);
    assert_eq!(
        sink.into_inner(),
        vec![1, 0, 0, 0, 1, 0, 0, 0, 2, 1, 1, 0, 0, 0, 1, 0, 0, 0, 2, 2]
    );
}

#[test]
fn closing_a_sink() {
    let mut sink = PSCodecSink::new(Vec::new());
    assert_eq!(sink.start_send((vec![], MetaData { flags: 0, id: 1 })), StartSend::Ready);
    // The packet comes before the end.
    assert_eq!(sink.close(), SinkIo::Write);
    assert!(!sink.is_closing());
    drive(&mut sink, 1000, false);
    assert_eq!(sink.close(), SinkIo::Write);
    assert!(sink.is_closing());
    assert_eq!(sink.poll_complete(), SinkIo::Write);
    assert_eq!(sink.wrote::<Failure>(IoOutcome::WouldBlock), Progress::NotReady);
    assert_eq!(sink.wrote::<Failure>(IoOutcome::Interrupted), Progress::Continue);
    assert_eq!(sink.writer_and_chunk().1, &[0; 9]);
    assert_eq!(sink.wrote::<Failure>(IoOutcome::Done(9)), Progress::Continue);
    assert_eq!(sink.close(), SinkIo::Shutdown);
    assert_eq!(sink.poll_complete(), SinkIo::Shutdown);
    assert_eq!(sink.shut_down::<Failure>(Ok(Async::NotReady)), Progress::NotReady);
    assert_eq!(sink.shut_down(Err("stuck")), Progress::Failed(CodecError::Io("stuck")));
    assert_eq!(sink.shut_down::<Failure>(Ok(Async::Ready(()))), Progress::Ready(()));
}

#[test]
fn flushing_a_sink() {
    let sink = PSCodecSink::new(());
    assert_eq!(sink.flushed::<Failure>(IoOutcome::Done(())), Progress::Ready(()));
    assert_eq!(sink.flushed::<Failure>(IoOutcome::WouldBlock), Progress::NotReady);
    assert_eq!(sink.flushed::<Failure>(IoOutcome::Interrupted), Progress::Continue);
    assert_eq!(sink.flushed(IoOutcome::Failed("x")), Progress::Failed(CodecError::Io("x")));
    assert!(sink.has_writer());
}

#[test]
fn failures_of_a_sink() {
    let mut sink = PSCodecSink::new(());
    assert_eq!(sink.start_send((vec![], MetaData { flags: 0, id: 1 })), StartSend::Ready);
    assert_eq!(
        sink.wrote::<Failure>(IoOutcome::Done(0)),
        Progress::Failed(CodecError::WriteZero(Field::Flags))
    );
    assert!(!sink.has_writer());
    let mut sink = PSCodecSink::new(());
    assert_eq!(sink.close(), SinkIo::Write);
    assert_eq!(sink.wrote(IoOutcome::Failed("x")), Progress::Failed(CodecError::Io("x")));
    assert!(!sink.has_writer());
}

#[test]
fn messages_of_errors() {
    let expected = [
        (CodecError::WriteZero(Field::Flags), ErrorKind::WriteZero, "failed to write packet flags"),
        (CodecError::WriteZero(Field::Length), ErrorKind::WriteZero, "failed to write packet length"),
        (CodecError::WriteZero(Field::Id), ErrorKind::WriteZero, "failed to write packet id"),
        (CodecError::WriteZero(Field::Data), ErrorKind::WriteZero, "failed to write packet data"),
        (CodecError::WriteZeroEnd, ErrorKind::WriteZero, "failed to write end-of-stream header"),
        (
            CodecError::UnexpectedEof(Field::Flags),
            ErrorKind::UnexpectedEof,
            "failed to read packet flags",
        ),
        (
            CodecError::UnexpectedEof(Field::Length),
            ErrorKind::UnexpectedEof,
            "failed to read packet length",
        ),
        (
            CodecError::UnexpectedEof(Field::Id),
            ErrorKind::UnexpectedEof,
            "failed to read packet id",
        ),
        (
            CodecError::UnexpectedEof(Field::Data),
            ErrorKind::UnexpectedEof,
            "failed to read whole packet content",
        ),
        (CodecError::InvalidType, ErrorKind::InvalidData, "read packet with invalid type flag"),
    ];
    for (error, kind, message) in expected {
        let error: CodecError<Failure> = error;
        assert_eq!(error.describe(), Some((kind, message)));
    }
    assert_eq!(CodecError::Io("x").describe(), None);
}

#[test]
fn discarding_keeps_everything_but_the_value() {
    let ready: Poll<u8, Failure> = Ok(Async::Ready(1));
    let not_ready: Poll<u8, Failure> = Ok(Async::NotReady);
    assert_eq!(discard(ready), Ok(Async::Ready(())));
    assert_eq!(discard(not_ready), Ok(Async::NotReady));
    assert_eq!(discard::<u8, Failure>(Err("x")), Err("x"));
}
