//! In-memory pipes.

use kimojio::buffer_pipe::BufferPipe;
use kimojio::buffer_pipe::BufferReadStream;
use kimojio::buffer_pipe::BufferStream;
use kimojio::buffer_pipe::BufferWriteStream;
use kimojio::buffer_pipe::CrossedStreams;
use kimojio::buffer_pipe::Progress;
use kimojio::buffer_pipe::ReadStep;
use kimojio::buffer_pipe::StreamId;
use kimojio::errno::Errno;
use kimojio::errno::EPIPE;

fn done(progress: Progress) -> Result<(), Errno> {
    match progress {
        Progress::Done => Ok(()),
        Progress::Refused(error) => Err(error),
        Progress::Wait(count) => panic!("would wait after {count} bytes"),
    }
}

fn some(step: ReadStep) -> Result<usize, Errno> {
    match step {
        ReadStep::Read(count) => Ok(count),
        ReadStep::Refused(error) => Err(error),
        ReadStep::Wait => panic!("would wait"),
    }
}

fn write(stream: &mut BufferStream, bytes: &[u8]) -> Result<(), Errno> {
    done(stream.write(bytes, 0, false))
}

fn read(stream: &mut BufferStream, buffer: &mut [u8]) -> Result<(), Errno> {
    done(stream.read(buffer, 0, false))
}

fn try_read(stream: &mut BufferStream, buffer: &mut [u8]) -> Result<usize, Errno> {
    some(stream.try_read(buffer, false))
}

fn at(streams: &mut CrossedStreams, id: StreamId) -> &mut BufferStream {
    match id {
        StreamId::First => &mut streams.first,
        StreamId::Second => &mut streams.second,
    }
}

/// Writes and reads in turns until both are done, as two tasks would.
fn transfer(stream: &mut BufferStream, bytes: &[u8], buffer: &mut [u8]) {
    let mut written = 0;
    let mut filled = 0;
    let mut writer_woken = false;
    let mut reader_woken = false;
    let mut sent = false;
    let mut received = false;
    while !sent || !received {
        if !sent {
            match stream.write(bytes, written, writer_woken) {
                Progress::Wait(count) => {
                    written = count;
                    writer_woken = true;
                }
                Progress::Done => sent = true,
                Progress::Refused(error) => panic!("{error:?}"),
            }
        }
        if !received {
            match stream.read(buffer, filled, reader_woken) {
                Progress::Wait(count) => {
                    filled = count;
                    reader_woken = true;
                }
                Progress::Done => received = true,
                Progress::Refused(error) => panic!("{error:?}"),
            }
        }
    }
}

#[test]
fn buffer_stream_test_write_larger_than_internal_buffer() {
    let mut stream = BufferStream::new();
    let mut data = vec![0u8; 4096];
    transfer(&mut stream, &[42u8; 4096], &mut data);
    stream.shutdown();
    assert!(stream.read(&mut [0; 1024], 0, false) == Progress::Refused(Errno::pipe()));
    assert_eq!(&[42u8; 4096], &data[0..]);
}

#[test]
fn buffer_stream_contiguous_full_buffer_test() {
    let mut stream = BufferStream::new();
    let data = [7u8; 1024];
    write(&mut stream, &data).unwrap();

    let mut read_buf = [0u8; 1024];
    read(&mut stream, &mut read_buf).unwrap();
    assert_eq!(data, read_buf);
}

#[test]
fn buffer_stream_interleaved_read_write_test() {
    let mut stream = BufferStream::new();
    write(&mut stream, b"abc").unwrap();
    let mut buf = [0u8; 2];
    let amount = try_read(&mut stream, &mut buf).unwrap();
    assert_eq!(amount, 2);
    assert_eq!(&buf, b"ab");

    write(&mut stream, b"defgh").unwrap();

    let mut buf2 = [0u8; 6];
    read(&mut stream, &mut buf2).unwrap();
    assert_eq!(&buf2, b"cdefgh");
}

#[test]
fn buffer_stream_close_and_error_test() {
    let mut stream = BufferStream::new();
    write(&mut stream, b"data").unwrap();

    stream.shutdown();

    let res2 = write(&mut stream, b"more");
    assert!(res2.is_err());

    let mut buf = [0u8; 4];
    read(&mut stream, &mut buf).unwrap();
    assert_eq!(&buf, b"data");

    let res = read(&mut stream, &mut buf);
    assert!(res.is_err());
    let res3 = try_read(&mut stream, &mut buf);
    assert!(res3.is_err());
}

#[test]
fn buffer_stream_multiple_small_writes_test() {
    let mut stream = BufferStream::new();

    let data: [&'static [u8]; 4] = [b"hello", b" ", b"world", b"!"];
    for chunk in data {
        write(&mut stream, chunk).unwrap();
    }

    let mut result = vec![0u8; 12];
    read(&mut stream, &mut result).unwrap();
    assert_eq!(&result, b"hello world!");
}

#[test]
fn buffer_stream_tests() {
    let mut buffer_stream = BufferStream::new();
    let mut buffer1 = [1; 1024];

    fn write_read(stream: &mut BufferStream, buffer: &[u8]) {
        write(stream, buffer).unwrap();
        let mut result_buffer = vec![0; buffer.len()];
        read(stream, &mut result_buffer).unwrap();
        assert_eq!(buffer, &result_buffer[..]);
    }

    write_read(&mut buffer_stream, &[1; 1024]);
    write_read(&mut buffer_stream, &[2; 512]);
    write_read(&mut buffer_stream, &[3; 512]);

    write_read(&mut buffer_stream, &[4; 512]);
    write_read(&mut buffer_stream, &[5; 1024]);

    write(&mut buffer_stream, b"hello").unwrap();
    let amount = try_read(&mut buffer_stream, &mut buffer1).unwrap();
    assert_eq!(amount, 5);
    assert_eq!(&buffer1[0..5], b"hello");

    write(&mut buffer_stream, b"world").unwrap();
    let amount = try_read(&mut buffer_stream, &mut buffer1).unwrap();
    assert_eq!(amount, 5);
    assert_eq!(&buffer1[0..5], b"world");

    write(&mut buffer_stream, b"hello").unwrap();
    write(&mut buffer_stream, b"world").unwrap();
    let mut buffer = [0; 10];
    read(&mut buffer_stream, &mut buffer).unwrap();
    assert_eq!(&buffer, b"helloworld");

    buffer_stream.shutdown();
    let result = read(&mut buffer_stream, &mut buffer);
    assert!(result.is_err());
    let result = write(&mut buffer_stream, b"test");
    assert!(result.is_err());

    buffer_stream.shutdown();
    buffer_stream.close();
}

fn halves() -> (BufferStream, BufferReadStream, BufferWriteStream) {
    let buffer_stream = BufferStream::new();
    let (read_stream, write_stream) = buffer_stream.split();
    (buffer_stream, read_stream, write_stream)
}

#[test]
fn buffer_stream_split_test() {
    let (mut stream, read_stream, write_stream) = halves();

    done(write_stream.write(&mut stream, b"hello world", 0, false)).unwrap();

    let mut buffer = [0u8; 11];
    done(read_stream.read(&mut stream, &mut buffer, 0, false)).unwrap();
    assert_eq!(&buffer, b"hello world");
}

#[test]
fn buffer_read_stream_try_read_test() {
    let (mut stream, read_stream, write_stream) = halves();

    done(write_stream.write(&mut stream, b"test data", 0, false)).unwrap();

    let mut buffer = [0u8; 5];
    let amount = some(read_stream.try_read(&mut stream, &mut buffer, false)).unwrap();
    assert_eq!(amount, 5);
    assert_eq!(&buffer, b"test ");

    let mut remaining = [0u8; 4];
    let remaining_amount = some(read_stream.try_read(&mut stream, &mut remaining, false)).unwrap();
    assert_eq!(remaining_amount, 4);
    assert_eq!(&remaining, b"data");
}

#[test]
fn buffer_read_stream_read_test() {
    let (mut stream, read_stream, write_stream) = halves();

    done(write_stream.write(&mut stream, b"exact", 0, false)).unwrap();
    let mut buffer = [0u8; 5];
    done(read_stream.read(&mut stream, &mut buffer, 0, false)).unwrap();
    assert_eq!(&buffer, b"exact");

    let mut large_buffer = [0u8; 10];
    assert_eq!(
        read_stream.read(&mut stream, &mut large_buffer, 0, false),
        Progress::Wait(0)
    );
    done(write_stream.write(&mut stream, b"part1", 0, false)).unwrap();
    assert_eq!(
        read_stream.read(&mut stream, &mut large_buffer, 0, true),
        Progress::Wait(5)
    );
    done(write_stream.write(&mut stream, b"part2", 0, false)).unwrap();
    done(read_stream.read(&mut stream, &mut large_buffer, 5, true)).unwrap();
    assert_eq!(&large_buffer, b"part1part2");
}

#[test]
fn buffer_write_stream_write_test() {
    let (mut stream, read_stream, write_stream) = halves();

    done(write_stream.write(&mut stream, b"small", 0, false)).unwrap();
    done(write_stream.write(&mut stream, b" medium sized text ", 0, false)).unwrap();

    let large_data = [42u8; 2048];
    let written = match write_stream.write(&mut stream, &large_data, 0, false) {
        Progress::Wait(count) => count,
        other => panic!("{other:?}"),
    };
    assert_eq!(written, 1000);

    let mut buffer1 = [0u8; 24];
    done(read_stream.read(&mut stream, &mut buffer1, 0, false)).unwrap();
    let mut buffer2 = vec![0u8; 2048];
    transfer(&mut stream, &large_data[written..], &mut buffer2);
    assert_eq!(&buffer1, b"small medium sized text ");
    assert_eq!(&buffer2, &large_data);
}

#[test]
fn buffer_write_stream_shutdown_test() {
    let (mut stream, read_stream, write_stream) = halves();

    done(write_stream.write(&mut stream, b"before shutdown", 0, false)).unwrap();

    write_stream.shutdown(&mut stream);

    let mut buffer = [0u8; 15];
    done(read_stream.read(&mut stream, &mut buffer, 0, false)).unwrap();
    assert_eq!(&buffer, b"before shutdown");

    let result = done(write_stream.write(&mut stream, b"after shutdown", 0, false));
    assert!(result.is_err());

    let mut empty_buffer = [0u8; 1];
    let result = done(read_stream.read(&mut stream, &mut empty_buffer, 0, false));
    assert!(result.is_err());
}

#[test]
fn buffer_write_stream_close_test() {
    let (mut stream, read_stream, write_stream) = halves();

    done(write_stream.write(&mut stream, b"before close", 0, false)).unwrap();

    write_stream.close(&mut stream);

    let mut buffer = [0u8; 12];
    done(read_stream.read(&mut stream, &mut buffer, 0, false)).unwrap();
    assert_eq!(&buffer, b"before close");

    let result = done(write_stream.write(&mut stream, b"after close", 0, false));
    assert!(result.is_err());

    let mut empty_buffer = [0u8; 1];
    let result = done(read_stream.read(&mut stream, &mut empty_buffer, 0, false));
    assert!(result.is_err());
}

#[test]
fn buffer_split_streams_concurrent_operations_test() {
    let (mut stream, read_stream, write_stream) = halves();

    let chunks: [&[u8]; 3] = [b"chunk1____", b"chunk2____", b"chunk3____"];
    let mut result = Vec::new();
    for chunk in chunks {
        let mut buffer = [0u8; 10];
        assert_eq!(
            read_stream.read(&mut stream, &mut buffer, 0, false),
            Progress::Wait(0)
        );
        done(write_stream.write(&mut stream, chunk, 0, false)).unwrap();
        done(read_stream.read(&mut stream, &mut buffer, 0, true)).unwrap();
        result.extend_from_slice(&buffer);
    }
    write_stream.shutdown(&mut stream);

    assert_eq!(&result, b"chunk1____chunk2____chunk3____");
}

#[test]
fn buffer_split_streams_partial_reads_test() {
    let (mut stream, read_stream, write_stream) = halves();

    done(write_stream.write(&mut stream, b"abcdefgh", 0, false)).unwrap();

    let mut buffer1 = [0u8; 3];
    let amount1 = some(read_stream.try_read(&mut stream, &mut buffer1, false)).unwrap();
    assert_eq!(amount1, 3);
    assert_eq!(&buffer1, b"abc");

    let mut buffer2 = [0u8; 2];
    let amount2 = some(read_stream.try_read(&mut stream, &mut buffer2, false)).unwrap();
    assert_eq!(amount2, 2);
    assert_eq!(&buffer2, b"de");

    let mut buffer3 = [0u8; 3];
    done(read_stream.read(&mut stream, &mut buffer3, 0, false)).unwrap();
    assert_eq!(&buffer3, b"fgh");
}

#[test]
fn buffer_pipe_split_test() {
    let (mut streams, pipe1, pipe2) = BufferPipe::new();
    let (read_stream, write_stream) = pipe1.split();

    let there = at(&mut streams, write_stream.stream);
    done(write_stream.write(there, b"pipe data", 0, false)).unwrap();

    let mut buffer = [0u8; 9];
    let (other_read, other_write) = pipe2.split();
    let there = at(&mut streams, other_read.stream);
    done(other_read.read(there, &mut buffer, 0, false)).unwrap();
    assert_eq!(&buffer, b"pipe data");

    let back = at(&mut streams, other_write.stream);
    done(other_write.write(back, b"reverse", 0, false)).unwrap();

    let mut reverse_buffer = [0u8; 7];
    let back = at(&mut streams, read_stream.stream);
    done(read_stream.read(back, &mut reverse_buffer, 0, false)).unwrap();
    assert_eq!(&reverse_buffer, b"reverse");
}

#[test]
fn buffer_pipe_try_read_test() {
    let (mut streams, pipe1, pipe2) = BufferPipe::new();

    done(pipe2.write(&mut streams, b"test data for try_read", 0, false)).unwrap();

    let mut buffer1 = [0u8; 4];
    let amount1 = some(pipe1.try_read(&mut streams, &mut buffer1, false)).unwrap();
    assert_eq!(amount1, 4);
    assert_eq!(&buffer1, b"test");

    let mut buffer2 = [0u8; 18];
    let amount2 = some(pipe1.try_read(&mut streams, &mut buffer2, false)).unwrap();
    assert_eq!(amount2, 18);
    assert_eq!(&buffer2, b" data for try_read");
}

#[test]
fn buffer_pipe_read_test() {
    let (mut streams, pipe1, pipe2) = BufferPipe::new();

    done(pipe2.write(&mut streams, b"exact", 0, false)).unwrap();
    let mut buffer = [0u8; 5];
    done(pipe1.read(&mut streams, &mut buffer, 0, false)).unwrap();
    assert_eq!(&buffer, b"exact");

    let mut large_buffer = [0u8; 10];
    assert_eq!(
        pipe1.read(&mut streams, &mut large_buffer, 0, false),
        Progress::Wait(0)
    );
    done(pipe2.write(&mut streams, b"hello", 0, false)).unwrap();
    done(pipe2.write(&mut streams, b"world", 0, false)).unwrap();
    done(pipe1.read(&mut streams, &mut large_buffer, 0, true)).unwrap();
    assert_eq!(&large_buffer, b"helloworld");
}

#[test]
fn buffer_pipe_write_test() {
    let (mut streams, pipe1, pipe2) = BufferPipe::new();

    done(pipe1.write(&mut streams, b"small", 0, false)).unwrap();
    done(pipe1.write(&mut streams, b" medium sized text ", 0, false)).unwrap();

    let large_data = [42u8; 2048];
    let written = match pipe1.write(&mut streams, &large_data, 0, false) {
        Progress::Wait(count) => count,
        other => panic!("{other:?}"),
    };
    let mut buffer1 = [0u8; 24];
    done(pipe2.read(&mut streams, &mut buffer1, 0, false)).unwrap();
    let mut buffer2 = vec![0u8; 2048];
    transfer(
        at(&mut streams, pipe1.write),
        &large_data[written..],
        &mut buffer2,
    );
    assert_eq!(&buffer1, b"small medium sized text ");
    assert_eq!(&buffer2, &large_data);
}

#[test]
fn buffer_pipe_shutdown_test() {
    let (mut streams, pipe1, pipe2) = BufferPipe::new();

    done(pipe1.write(&mut streams, b"before shutdown", 0, false)).unwrap();

    pipe1.shutdown(&mut streams);

    let mut buffer = [0u8; 15];
    done(pipe2.read(&mut streams, &mut buffer, 0, false)).unwrap();
    assert_eq!(&buffer, b"before shutdown");

    let result = done(pipe1.write(&mut streams, b"after shutdown", 0, false));
    assert!(result.is_err());

    let mut empty_buffer = [0u8; 1];
    let result = done(pipe2.read(&mut streams, &mut empty_buffer, 0, false));
    assert!(result.is_err());
}

#[test]
fn buffer_pipe_close_test() {
    let (mut streams, pipe1, pipe2) = BufferPipe::new();

    done(pipe1.write(&mut streams, b"before close", 0, false)).unwrap();

    pipe1.close(&mut streams);

    let mut buffer = [0u8; 12];
    done(pipe2.read(&mut streams, &mut buffer, 0, false)).unwrap();
    assert_eq!(&buffer, b"before close");

    let result = done(pipe1.write(&mut streams, b"after close", 0, false));
    assert!(result.is_err());

    let mut empty_buffer = [0u8; 1];
    let result = done(pipe2.read(&mut streams, &mut empty_buffer, 0, false));
    assert!(result.is_err());
}

#[test]
fn buffer_stream_default_test() {
    let mut stream = BufferStream::default();

    write(&mut stream, b"default test").unwrap();

    let mut buffer = [0u8; 12];
    read(&mut stream, &mut buffer).unwrap();
    assert_eq!(&buffer, b"default test");
}

#[test]
fn buffer_stream_shutdown_test() {
    let mut buffer_stream = BufferStream::new();

    write(&mut buffer_stream, b"before shutdown").unwrap();

    buffer_stream.shutdown();
    assert!(buffer_stream.is_closed());

    let mut buffer = [0u8; 15];
    read(&mut buffer_stream, &mut buffer).unwrap();
    assert_eq!(&buffer, b"before shutdown");

    let result = write(&mut buffer_stream, b"after shutdown");
    assert!(result.is_err());

    let mut empty_buffer = [0u8; 1];
    let result = read(&mut buffer_stream, &mut empty_buffer);
    assert!(result.is_err());

    let result = try_read(&mut buffer_stream, &mut empty_buffer);
    assert!(result.is_err());
}

#[test]
fn buffer_stream_close_test() {
    let mut buffer_stream = BufferStream::new();

    write(&mut buffer_stream, b"before close").unwrap();

    buffer_stream.close();

    let mut buffer = [0u8; 12];
    read(&mut buffer_stream, &mut buffer).unwrap();
    assert_eq!(&buffer, b"before close");

    let result = write(&mut buffer_stream, b"after close");
    assert!(result.is_err());

    let mut empty_buffer = [0u8; 1];
    let result = read(&mut buffer_stream, &mut empty_buffer);
    assert!(result.is_err());

    let result = try_read(&mut buffer_stream, &mut empty_buffer);
    assert!(result.is_err());
}

#[test]
fn reads_stop_at_the_end_of_the_ring() {
    let mut stream = BufferStream::new();
    write(&mut stream, &[1; 1020]).unwrap();
    read(&mut stream, &mut [0; 1020]).unwrap();
    write(&mut stream, b"abcdefgh").unwrap();
    let mut buffer = [0u8; 8];
    assert_eq!(try_read(&mut stream, &mut buffer), Ok(4));
    assert_eq!(&buffer[..4], b"abcd");
    assert_eq!(try_read(&mut stream, &mut buffer), Ok(4));
    assert_eq!(&buffer[..4], b"efgh");
    assert!(!stream.is_available());
    assert!(stream.is_not_full());
}

#[test]
fn closing_wakes_a_waiting_reader() {
    let mut stream = BufferStream::new();
    let mut buffer = [0u8; 4];
    assert_eq!(stream.read(&mut buffer, 0, false), Progress::Wait(0));
    stream.close();
    assert_eq!(
        stream.read(&mut buffer, 0, true),
        Progress::Refused(Errno::from_raw_os_error(EPIPE))
    );
}

#[test]
fn closed_streams_without_bytes_refuse_reads() {
    for woken in [false, true] {
        let mut stream = BufferStream::new();
        stream.shutdown();
        let mut buffer = [0u8; 1];
        assert_eq!(
            stream.try_read(&mut buffer, woken),
            ReadStep::Refused(Errno::from_raw_os_error(EPIPE))
        );
        assert_eq!(buffer, [0]);
        assert!(stream.is_closed());
    }
}
