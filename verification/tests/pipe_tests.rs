use wapojs::pipe::{
    DownloadAction, PipeState, Pipes, ReadOutcome, UploadAction, WriteOutcome, STREAM_BUF_SIZE,
};

fn accepted(r: WriteOutcome) -> usize {
    match r {
        WriteOutcome::Accepted(n) => n,
        WriteOutcome::BrokenPipe => panic!("write must not fail here"),
    }
}

fn data(r: ReadOutcome) -> Vec<u8> {
    match r {
        ReadOutcome::Data(c) => c,
        ReadOutcome::WouldBlock => panic!("read must yield data, not block"),
        ReadOutcome::Eof => panic!("read must yield data, not end-of-stream"),
    }
}

#[test]
fn backpressure_suspends_writer_until_drained() {
    // Writing capacity + 1 bytes without an active reader buffers exactly
    // the capacity: the writer holds one byte and suspends.
    let capacity: usize = 4;
    let mut pipe = PipeState::new(capacity);
    let payload = vec![1u8, 2, 3, 4, 5];
    let n = accepted(pipe.write(&payload));
    assert_eq!(n, capacity);
    // Draining one byte lets the writer deliver the held byte.
    let got = data(pipe.read(1));
    assert_eq!(got, vec![1u8]);
    let n2 = accepted(pipe.write(&payload[n..]));
    assert_eq!(n2, 1);
    // The buffered bytes come out in order.
    assert_eq!(data(pipe.read(16)), vec![2u8, 3, 4, 5]);
}

#[test]
fn close_drains_then_eof_forever() {
    let mut pipe = PipeState::new(8);
    assert_eq!(accepted(pipe.write(b"abc")), 3);
    pipe.close_write();
    assert_eq!(data(pipe.read(2)), b"ab".to_vec());
    assert_eq!(data(pipe.read(2)), b"c".to_vec());
    assert!(matches!(pipe.read(2), ReadOutcome::Eof));
    // It never resumes after end-of-stream.
    assert!(matches!(pipe.read(2), ReadOutcome::Eof));
    assert!(matches!(pipe.read(1), ReadOutcome::Eof));
}

#[test]
fn empty_open_pipe_blocks_reader() {
    let mut pipe = PipeState::new(8);
    assert!(matches!(pipe.read(4), ReadOutcome::WouldBlock));
}

#[test]
fn write_fails_after_reader_drops() {
    // Cooperative cancellation: the reader drops its half, so the next
    // write fails immediately and the relay task exits its loop.
    let mut pipe = PipeState::new(8);
    pipe.drop_reader();
    assert!(matches!(pipe.write(b"xy"), WriteOutcome::BrokenPipe));
}

#[test]
fn upload_relay_forwards_one_chunk_then_terminates() {
    // The script writes b"hello", closes its upload handle; the relay
    // forwards exactly one 5-byte chunk and terminates without any event.
    let mut pipes = Pipes::create();
    assert_eq!(accepted(pipes.duplex_up.write(b"hello")), 5);
    pipes.duplex_up.close_write();
    let chunks = wapojs::pipe::run_upload_relay(&mut pipes.duplex_up);
    assert_eq!(chunks.len(), 1);
    assert_eq!(chunks[0], b"hello".to_vec());
    assert!(matches!(
        wapojs::pipe::upload_relay_step(&mut pipes.duplex_up),
        UploadAction::Finish
    ));
}

#[test]
fn upload_relay_waits_on_open_empty_pipe() {
    let mut pipe = PipeState::new(8);
    let chunks = wapojs::pipe::run_upload_relay(&mut pipe);
    assert!(chunks.is_empty());
    assert!(matches!(wapojs::pipe::upload_relay_step(&mut pipe), UploadAction::Wait));
}

#[test]
fn download_relay_delivers_then_closes() {
    let mut down = PipeState::new(STREAM_BUF_SIZE);
    let chunk = b"response bytes".to_vec();
    match wapojs::pipe::download_relay_step(&mut down, Some(&chunk)) {
        DownloadAction::Progress(n) => assert_eq!(n, chunk.len()),
        _ => panic!("the chunk must be buffered"),
    }
    // Natural exhaustion closes the write half: the reader sees the bytes,
    // then end-of-stream.
    assert!(matches!(
        wapojs::pipe::download_relay_step(&mut down, None),
        DownloadAction::Finished
    ));
    assert_eq!(data(down.read(STREAM_BUF_SIZE)), chunk);
    assert!(matches!(down.read(1), ReadOutcome::Eof));
}

#[test]
fn download_relay_stops_when_reader_gone() {
    let mut down = PipeState::new(8);
    down.drop_reader();
    let chunk = b"zz".to_vec();
    assert!(matches!(
        wapojs::pipe::download_relay_step(&mut down, Some(&chunk)),
        DownloadAction::ReaderGone
    ));
}

#[test]
fn pipes_are_created_empty_and_open() {
    let mut pipes = Pipes::create();
    assert!(matches!(pipes.duplex_up.read(1), ReadOutcome::WouldBlock));
    assert!(matches!(pipes.duplex_down.read(1), ReadOutcome::WouldBlock));
}

#[test]
fn large_upload_is_chunked_in_order() {
    let mut pipe = PipeState::new(STREAM_BUF_SIZE);
    let payload: Vec<u8> = (0..STREAM_BUF_SIZE).map(|i| (i % 251) as u8).collect();
    assert_eq!(accepted(pipe.write(&payload)), STREAM_BUF_SIZE);
    pipe.close_write();
    let chunks = wapojs::pipe::run_upload_relay(&mut pipe);
    let flat: Vec<u8> = chunks.into_iter().flatten().collect();
    assert_eq!(flat, payload);
}

#[test]
fn reading_after_close_yields_exact_bytes_then_eof() {
    let mut down = PipeState::new(16);
    assert_eq!(accepted(down.write(b"first ")), 6);
    assert_eq!(accepted(down.write(b"second")), 6);
    down.close_write();
    assert_eq!(down.read_to_end(), b"first second".to_vec());
    assert!(matches!(down.read(1), ReadOutcome::Eof));
}
