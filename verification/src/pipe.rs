//! Bounded duplex byte-pipe model: backpressure, end-of-stream and
//! cooperative cancellation, plus the body-relay stepping built on it.
//!
//! The host runs each direction on an asynchronous transport; this module
//! is the exact state machine of one direction. A `write` that accepts
//! fewer bytes than offered means the writer suspends until the reader
//! drains; a `read` that would block means the reader suspends until data
//! arrives or the write half closes.
use vstd::prelude::*;

verus! {

/// Fixed capacity of each direction of a duplex pipe pair, in bytes.
pub const STREAM_BUF_SIZE: usize = 8192;

/// One direction of a duplex pipe: a bounded byte buffer between exactly
/// one writer and exactly one reader.
pub struct PipeState {
    buf: Vec<u8>,
    capacity: usize,
    write_closed: bool,
    reader_open: bool,
}

/// What one write attempt did.
pub enum WriteOutcome {
    /// This many leading bytes were buffered; if fewer than offered, the
    /// writer suspends until the reader drains some of the buffer.
    Accepted(usize),
    /// The peer read half was dropped; the write fails immediately. This is
    /// how a relay task observes cooperative cancellation.
    BrokenPipe,
}

/// What one read attempt did.
pub enum ReadOutcome {
    /// The next buffered bytes, in order.
    Data(Vec<u8>),
    /// Nothing buffered and the write half is still open: the reader
    /// suspends until data arrives or the writer closes.
    WouldBlock,
    /// Nothing buffered and the write half is closed: end-of-stream.
    Eof,
}

impl PipeState {
    /// The bytes currently buffered, oldest first.
    pub closed spec fn bytes(&self) -> Seq<u8> {
        self.buf@
    }

    pub closed spec fn cap(&self) -> usize {
        self.capacity
    }

    /// Whether the write half has signalled end-of-stream.
    pub closed spec fn is_closed(&self) -> bool {
        self.write_closed
    }

    /// Whether the read half is still held by its owner.
    pub closed spec fn reader_live(&self) -> bool {
        self.reader_open
    }

    pub open spec fn wf(&self) -> bool {
        self.bytes().len() <= self.cap()
    }

    pub fn new(capacity: usize) -> (p: PipeState)
        requires
            capacity > 0,
        ensures
            p.wf(),
            p.cap() == capacity,
            p.bytes() == Seq::<u8>::empty(),
            !p.is_closed(),
            p.reader_live(),
    {
        PipeState { buf: Vec::new(), capacity, write_closed: false, reader_open: true }
    }

    /// Buffers as many leading bytes of `data` as the capacity allows. The
    /// caller owns the write half, so the half is not yet closed.
    pub fn write(&mut self, data: &[u8]) -> (r: WriteOutcome)
        requires
            old(self).wf(),
            !old(self).is_closed(),
        ensures
            final(self).wf(),
            write_post(*old(self), *final(self), data@, r),
    {
        if !self.reader_open {
            return WriteOutcome::BrokenPipe;
        }
        let space = self.capacity - self.buf.len();
        let n = if data.len() < space {
            data.len()
        } else {
            space
        };
        let mut i: usize = 0;
        while i < n
            invariant
                i <= n,
                n <= data@.len(),
                self.capacity == old(self).capacity,
                self.write_closed == old(self).write_closed,
                self.reader_open == old(self).reader_open,
                old(self).buf@.len() + n <= self.capacity,
                self.buf@ == old(self).buf@ + data@.take(i as int),
            decreases n - i,
        {
            self.buf.push(data[i]);
            proof {
                assert(self.buf@ =~= old(self).buf@ + data@.take(i + 1));
            }
            i += 1;
        }
        WriteOutcome::Accepted(n)
    }

    /// Hands out up to `max` buffered bytes, oldest first; on an empty
    /// buffer, reports end-of-stream exactly when the write half is closed.
    pub fn read(&mut self, max: usize) -> (r: ReadOutcome)
        requires
            old(self).wf(),
            max > 0,
        ensures
            final(self).wf(),
            read_post(*old(self), *final(self), max as int, r),
    {
        let len = self.buf.len();
        if len == 0 {
            if self.write_closed {
                return ReadOutcome::Eof;
            } else {
                return ReadOutcome::WouldBlock;
            }
        }
        let n = if max < len {
            max
        } else {
            len
        };
        let mut chunk: Vec<u8> = Vec::new();
        let mut j: usize = 0;
        while j < n
            invariant
                j <= n,
                n <= self.buf@.len(),
                *self == *old(self),
                chunk@ == self.buf@.take(j as int),
            decreases n - j,
        {
            chunk.push(self.buf[j]);
            proof {
                assert(chunk@ =~= self.buf@.take(j + 1));
            }
            j += 1;
        }
        let mut rest: Vec<u8> = Vec::new();
        let mut k: usize = n;
        while k < len
            invariant
                n <= k <= len,
                len == self.buf@.len(),
                *self == *old(self),
                rest@ == self.buf@.subrange(n as int, k as int),
            decreases len - k,
        {
            rest.push(self.buf[k]);
            proof {
                assert(rest@ =~= self.buf@.subrange(n as int, k + 1));
            }
            k += 1;
        }
        self.buf = rest;
        proof {
            assert(self.bytes() =~= old(self).bytes().skip(n as int));
            assert(chunk@ =~= old(self).bytes().take(n as int));
        }
        ReadOutcome::Data(chunk)
    }

    /// Whether nothing is buffered right now.
    pub fn buf_is_empty(&self) -> (r: bool)
        ensures
            r == (self.bytes().len() == 0),
    {
        self.buf.len() == 0
    }

    /// Drains a pipe whose write half has closed: every remaining buffered
    /// byte comes out, in order; afterwards only end-of-stream is left.
    pub fn read_to_end(&mut self) -> (out: Vec<u8>)
        requires
            old(self).wf(),
            old(self).is_closed(),
        ensures
            final(self).wf(),
            final(self).is_closed(),
            final(self).bytes().len() == 0,
            out@ == old(self).bytes(),
    {
        let mut out: Vec<u8> = Vec::new();
        loop
            invariant
                self.wf(),
                self.is_closed(),
                out@ + self.bytes() == old(self).bytes(),
            decreases self.bytes().len(),
        {
            if self.buf_is_empty() {
                proof {
                    assert(out@ =~= old(self).bytes());
                }
                return out;
            }
            let ghost before = self.bytes();
            let ghost done = out@;
            match self.read(STREAM_BUF_SIZE) {
                ReadOutcome::Data(mut c) => {
                    proof {
                        assert(c@ + self.bytes() =~= before);
                    }
                    out.append(&mut c);
                    proof {
                        assert(out@ + self.bytes() =~= done + before);
                    }
                },
                ReadOutcome::WouldBlock => {
                    return out;
                },
                ReadOutcome::Eof => {
                    return out;
                },
            }
        }
    }

    /// The writer signals end-of-stream: remaining buffered bytes stay
    /// readable, then reads yield `Eof`.
    pub fn close_write(&mut self)
        requires
            old(self).wf(),
        ensures
            final(self).wf(),
            final(self).is_closed(),
            final(self).bytes() == old(self).bytes(),
            final(self).cap() == old(self).cap(),
            final(self).reader_live() == old(self).reader_live(),
    {
        self.write_closed = true;
    }

    /// The reader abandons its half; every later write fails immediately.
    /// This is the cooperative-cancellation signal.
    pub fn drop_reader(&mut self)
        requires
            old(self).wf(),
        ensures
            final(self).wf(),
            !final(self).reader_live(),
            final(self).bytes() == old(self).bytes(),
            final(self).cap() == old(self).cap(),
            final(self).is_closed() == old(self).is_closed(),
    {
        self.reader_open = false;
    }
}

/// How many of `len` offered bytes one write attempt buffers: all of them,
/// or exactly as many as fit.
pub open spec fn accept_count(s: PipeState, len: int) -> int {
    let space = s.cap() - s.bytes().len();
    if len <= space {
        len
    } else {
        space
    }
}

/// What `write` guarantees.
pub open spec fn write_post(pre: PipeState, post: PipeState, data: Seq<u8>, r: WriteOutcome) -> bool {
    &&& post.cap() == pre.cap()
    &&& post.is_closed() == pre.is_closed()
    &&& post.reader_live() == pre.reader_live()
    &&& if !pre.reader_live() {
        r is BrokenPipe && post.bytes() == pre.bytes()
    } else {
        r matches WriteOutcome::Accepted(n) && n == accept_count(pre, data.len() as int)
            && post.bytes() == pre.bytes() + data.take(accept_count(pre, data.len() as int))
    }
}

/// What `read` guarantees.
pub open spec fn read_post(pre: PipeState, post: PipeState, max: int, r: ReadOutcome) -> bool {
    &&& post.cap() == pre.cap()
    &&& post.is_closed() == pre.is_closed()
    &&& post.reader_live() == pre.reader_live()
    &&& if pre.bytes().len() > 0 {
        let n = if max <= pre.bytes().len() {
            max
        } else {
            pre.bytes().len() as int
        };
        r matches ReadOutcome::Data(c) && c@ == pre.bytes().take(n) && post.bytes()
            == pre.bytes().skip(n)
    } else if pre.is_closed() {
        r is Eof && post.bytes() == pre.bytes()
    } else {
        r is WouldBlock && post.bytes() == pre.bytes()
    }
}

/// Backpressure: offering one byte more than the capacity to an empty pipe
/// buffers exactly the capacity and leaves the writer with one byte still
/// to deliver, so the writer suspends.
pub proof fn law_backpressure_suspends_writer(
    pre: PipeState,
    post: PipeState,
    data: Seq<u8>,
    r: WriteOutcome,
)
    requires
        pre.wf(),
        pre.reader_live(),
        pre.bytes().len() == 0,
        data.len() == pre.cap() + 1,
        write_post(pre, post, data, r),
    ensures
        r matches WriteOutcome::Accepted(n) && n == pre.cap() && n < data.len(),
        post.bytes() == data.take(pre.cap() as int),
        post.bytes().len() == post.cap(),
{
    assert(post.bytes() =~= data.take(pre.cap() as int));
}

/// Backpressure: draining at least one byte from a full pipe lets a
/// suspended writer make progress again with the byte it still holds.
pub proof fn law_drain_resumes_writer(
    full: PipeState,
    drained: PipeState,
    resumed: PipeState,
    max: int,
    rr: ReadOutcome,
    pending: Seq<u8>,
    wr: WriteOutcome,
)
    requires
        full.wf(),
        full.bytes().len() == full.cap(),
        full.cap() > 0,
        max > 0,
        read_post(full, drained, max, rr),
        drained.reader_live(),
        pending.len() == 1,
        write_post(drained, resumed, pending, wr),
    ensures
        wr matches WriteOutcome::Accepted(n) && n == 1,
{
}

/// End-of-stream: after the write half is closed, reads still drain the
/// buffered bytes, in order.
pub proof fn law_closed_pipe_drains(pre: PipeState, post: PipeState, max: int, r: ReadOutcome)
    requires
        pre.wf(),
        pre.is_closed(),
        pre.bytes().len() > 0,
        max > 0,
        read_post(pre, post, max, r),
    ensures
        r matches ReadOutcome::Data(c) && c@ == pre.bytes().take(
            if max <= pre.bytes().len() {
                max
            } else {
                pre.bytes().len() as int
            },
        ),
        post.is_closed(),
{
}

/// End-of-stream: a closed and drained pipe yields `Eof`, stays unchanged,
/// and therefore never yields data again.
pub proof fn law_eof_is_final(pre: PipeState, post: PipeState, max: int, r: ReadOutcome)
    requires
        pre.wf(),
        pre.is_closed(),
        pre.bytes().len() == 0,
        read_post(pre, post, max, r),
    ensures
        r is Eof,
        post.bytes() == pre.bytes(),
        post.is_closed(),
        post.bytes().len() == 0,
{
}

/// Cooperative cancellation: once the read half is dropped, every write
/// fails immediately and buffers nothing, so a relay task exits its loop on
/// the next operation.
pub proof fn law_write_fails_after_reader_drop(
    pre: PipeState,
    post: PipeState,
    data: Seq<u8>,
    r: WriteOutcome,
)
    requires
        pre.wf(),
        !pre.reader_live(),
        write_post(pre, post, data, r),
    ensures
        r is BrokenPipe,
        post.bytes() == pre.bytes(),
{
}

/// Bytes travel in order: a chunk that fits an empty pipe is buffered
/// whole, and a following large-enough read hands back exactly that chunk.
pub proof fn law_pipe_round_trip(
    pre: PipeState,
    mid: PipeState,
    post: PipeState,
    data: Seq<u8>,
    wr: WriteOutcome,
    max: int,
    rr: ReadOutcome,
)
    requires
        pre.wf(),
        pre.reader_live(),
        pre.bytes().len() == 0,
        0 < data.len() <= pre.cap(),
        write_post(pre, mid, data, wr),
        max >= data.len(),
        read_post(mid, post, max, rr),
    ensures
        rr matches ReadOutcome::Data(c) && c@ == data,
        post.bytes().len() == 0,
{
    assert(mid.bytes() =~= data);
    assert(mid.bytes().take(mid.bytes().len() as int) =~= mid.bytes());
}

/// What one iteration of the request-body relay decides.
pub enum UploadAction {
    /// Forward this non-empty chunk to the network body producer.
    Forward(Vec<u8>),
    /// Nothing buffered yet; suspend until the script writes or closes.
    Wait,
    /// The script closed its upload handle and the buffer is drained: the
    /// relay terminates, without emitting any event.
    Finish,
}

/// One iteration of the upload relay: take the next chunk of at most
/// `STREAM_BUF_SIZE` bytes out of the upstream pipe, or decide to suspend
/// or to terminate. A forwarding failure is handled by the caller simply
/// stopping; no decision of this function depends on it.
pub fn upload_relay_step(pipe: &mut PipeState) -> (a: UploadAction)
    requires
        old(pipe).wf(),
    ensures
        final(pipe).wf(),
        old(pipe).bytes().len() > 0 ==> (a matches UploadAction::Forward(c) && c@ == old(
            pipe,
        ).bytes().take(
            if STREAM_BUF_SIZE as int <= old(pipe).bytes().len() {
                STREAM_BUF_SIZE as int
            } else {
                old(pipe).bytes().len() as int
            },
        ) && final(pipe).bytes() == old(pipe).bytes().skip(c@.len() as int)),
        old(pipe).bytes().len() == 0 && old(pipe).is_closed() ==> a is Finish && final(pipe).bytes()
            == old(pipe).bytes(),
        old(pipe).bytes().len() == 0 && !old(pipe).is_closed() ==> a is Wait && final(pipe).bytes()
            == old(pipe).bytes(),
        final(pipe).is_closed() == old(pipe).is_closed(),
        final(pipe).reader_live() == old(pipe).reader_live(),
        final(pipe).cap() == old(pipe).cap(),
{
    match pipe.read(STREAM_BUF_SIZE) {
        ReadOutcome::Data(c) => UploadAction::Forward(c),
        ReadOutcome::WouldBlock => UploadAction::Wait,
        ReadOutcome::Eof => UploadAction::Finish,
    }
}

/// The chunks a relay forwarded, flattened back into one byte sequence.
pub open spec fn forwarded_bytes(chunks: Seq<Seq<u8>>) -> Seq<u8> {
    chunks.flatten()
}

/// Drains everything currently buffered in the upstream pipe into the
/// chunks the relay forwards: exactly the buffered bytes, in order, in
/// non-empty chunks of at most `STREAM_BUF_SIZE` bytes. The relay then
/// either terminates (upload handle closed) or suspends for more input.
pub fn run_upload_relay(pipe: &mut PipeState) -> (chunks: Vec<Vec<u8>>)
    requires
        old(pipe).wf(),
    ensures
        final(pipe).wf(),
        final(pipe).bytes().len() == 0,
        forwarded_bytes(chunks@.map_values(|c: Vec<u8>| c@)) == old(pipe).bytes(),
        forall|i: int|
            0 <= i < chunks@.len() ==> 0 < (#[trigger] chunks@[i])@.len() <= STREAM_BUF_SIZE,
        final(pipe).is_closed() == old(pipe).is_closed(),
        final(pipe).reader_live() == old(pipe).reader_live(),
{
    let mut chunks: Vec<Vec<u8>> = Vec::new();
    proof {
        assert(chunks@.map_values(|c: Vec<u8>| c@).flatten() =~= Seq::<u8>::empty());
    }
    loop
        invariant
            pipe.wf(),
            pipe.is_closed() == old(pipe).is_closed(),
            pipe.reader_live() == old(pipe).reader_live(),
            chunks@.map_values(|c: Vec<u8>| c@).flatten() + pipe.bytes() == old(pipe).bytes(),
            forall|i: int|
                0 <= i < chunks@.len() ==> 0 < (#[trigger] chunks@[i])@.len()
                    <= STREAM_BUF_SIZE,
        decreases pipe.bytes().len(),
    {
        if pipe.buf_is_empty() {
            proof {
                assert(chunks@.map_values(|c: Vec<u8>| c@).flatten() =~= old(pipe).bytes());
            }
            return chunks;
        }
        let ghost before = pipe.bytes();
        match upload_relay_step(pipe) {
            UploadAction::Forward(c) => {
                proof {
                    let prev = chunks@.map_values(|cc: Vec<u8>| cc@);
                    prev.lemma_flatten_push(c@);
                    assert(chunks@.push(c).map_values(|cc: Vec<u8>| cc@) =~= prev.push(c@));
                    assert(c@ + pipe.bytes() =~= before);
                    assert(prev.flatten() + c@ + pipe.bytes() =~= prev.flatten() + before);
                }
                chunks.push(c);
            },
            UploadAction::Wait => {
                return chunks;
            },
            UploadAction::Finish => {
                return chunks;
            },
        }
    }
}

/// What one iteration of the response relay decides.
pub enum DownloadAction {
    /// This many leading bytes of the chunk were buffered downstream; if
    /// fewer than the chunk's length, the relay suspends until the script
    /// reader drains the pipe, then continues with the rest of the chunk.
    Progress(usize),
    /// The script dropped its read handle: stop forwarding immediately.
    ReaderGone,
    /// The response body is exhausted: the write half is closed so the
    /// script reader sees end-of-stream, and the relay terminates.
    Finished,
}

/// One iteration of the response relay: forward the next network chunk
/// into the downstream pipe, or close the pipe on natural exhaustion of
/// the response body. No event is emitted for normal completion.
pub fn download_relay_step(pipe: &mut PipeState, chunk: Option<&Vec<u8>>) -> (a: DownloadAction)
    requires
        old(pipe).wf(),
        !old(pipe).is_closed(),
    ensures
        final(pipe).wf(),
        chunk is None ==> a is Finished && final(pipe).is_closed() && final(pipe).bytes() == old(
            pipe,
        ).bytes(),
        chunk matches Some(c) ==> (if old(pipe).reader_live() {
            a matches DownloadAction::Progress(n) && n == accept_count(*old(pipe), c@.len() as int)
                && final(pipe).bytes() == old(pipe).bytes() + c@.take(
                accept_count(*old(pipe), c@.len() as int),
            ) && !final(pipe).is_closed()
        } else {
            a is ReaderGone && final(pipe).bytes() == old(pipe).bytes()
                && final(pipe).is_closed() == old(pipe).is_closed() && final(pipe).reader_live()
                == old(pipe).reader_live()
        }),
{
    match chunk {
        None => {
            pipe.close_write();
            DownloadAction::Finished
        },
        Some(c) => match pipe.write(c.as_slice()) {
            WriteOutcome::Accepted(n) => DownloadAction::Progress(n),
            WriteOutcome::BrokenPipe => DownloadAction::ReaderGone,
        },
    }
}

/// The duplex pipe pair of one request: `duplex_up` carries bytes from
/// script to network (the streamed request body), `duplex_down` carries the
/// response body from network back to script. The host hands the matching
/// halves to the script-visible stream objects and to the network task.
pub struct Pipes {
    pub duplex_up: PipeState,
    pub duplex_down: PipeState,
}

impl Pipes {
    pub fn create() -> (p: Pipes)
        ensures
            p.duplex_up.wf(),
            p.duplex_down.wf(),
            p.duplex_up.cap() == STREAM_BUF_SIZE,
            p.duplex_down.cap() == STREAM_BUF_SIZE,
            p.duplex_up.bytes().len() == 0,
            p.duplex_down.bytes().len() == 0,
            !p.duplex_up.is_closed(),
            !p.duplex_down.is_closed(),
            p.duplex_up.reader_live(),
            p.duplex_down.reader_live(),
    {
        Pipes { duplex_up: PipeState::new(STREAM_BUF_SIZE), duplex_down: PipeState::new(STREAM_BUF_SIZE) }
    }
}

} // verus!
