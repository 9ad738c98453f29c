//! The output streams of a command and the bytes captured from them.

use vstd::prelude::*;
use vstd::slice::slice_subrange;

verus! {

/// One of the two output streams of a command.
#[derive(Clone, Copy, Debug, PartialEq, Eq, Structural)]
pub enum Stream {
    Stdout,
    Stderr,
}

/// What has been captured from a stream.
#[derive(Debug)]
pub struct StreamState {
    /// Whether more may come.
    pub open: bool,
    /// The bytes read so far.
    pub buffer: Vec<u8>,
}

pub struct StreamView {
    pub open: bool,
    pub bytes: Seq<u8>,
}

impl View for StreamState {
    type V = StreamView;

    open spec fn view(&self) -> StreamView {
        StreamView { open: self.open, bytes: self.buffer@ }
    }
}

impl StreamView {
    /// A stream from which nothing has been read.
    pub open spec fn fresh() -> StreamView {
        StreamView { open: true, bytes: Seq::empty() }
    }

    /// The stream with `bytes` read from it.
    pub open spec fn with_bytes(self, bytes: Seq<u8>) -> StreamView {
        StreamView { bytes: self.bytes + bytes, ..self }
    }

    /// The stream once it has ended.
    pub open spec fn closed(self) -> StreamView {
        StreamView { open: false, ..self }
    }

    /// The stream after a read that put `n` bytes at the start of `chunk`; no
    /// bytes at all are the end of the stream.
    pub open spec fn after_read(self, chunk: Seq<u8>, n: usize) -> StreamView {
        if n == 0 {
            self.closed()
        } else {
            self.with_bytes(chunk.take(n as int))
        }
    }

    /// The stream after a read while it is being drained: an error ends it too.
    pub open spec fn after_drain_read(
        self,
        chunk: Seq<u8>,
        result: Result<usize, std::io::Error>,
    ) -> StreamView {
        match result {
            Ok(n) => self.after_read(chunk, n),
            Err(_) => self.closed(),
        }
    }
}

/// A stream starts out open and empty. A read that brings bytes puts them behind
/// those that were there and leaves the stream open; one that brings none ends
/// it, and so does one that fails while the stream is drained, and neither
/// touches the bytes.
pub proof fn law_what_a_read_does(
    s: StreamView,
    chunk: Seq<u8>,
    n: usize,
    e: std::io::Error,
    i: int,
)
    requires
        n <= chunk.len(),
    ensures
        StreamView::fresh().open,
        StreamView::fresh().bytes.len() == 0,
        s.after_drain_read(chunk, Ok(n)) == s.after_read(chunk, n),
        s.after_read(chunk, n).bytes.len() == s.bytes.len() + n,
        0 <= i < s.bytes.len() ==> s.after_read(chunk, n).bytes[i] == s.bytes[i],
        0 <= i < n ==> s.after_read(chunk, n).bytes[s.bytes.len() + i] == chunk[i],
        n > 0 ==> s.after_read(chunk, n).open == s.open,
        n == 0 ==> !s.after_read(chunk, n).open,
        !s.after_drain_read(chunk, Err(e)).open,
        s.after_drain_read(chunk, Err(e)).bytes == s.bytes,
        !s.closed().open,
        s.closed().bytes == s.bytes,
        s.with_bytes(chunk).open == s.open,
        s.with_bytes(chunk).bytes.len() == s.bytes.len() + chunk.len(),
        0 <= i < s.bytes.len() ==> s.with_bytes(chunk).bytes[i] == s.bytes[i],
        0 <= i < chunk.len() ==> s.with_bytes(chunk).bytes[s.bytes.len() + i] == chunk[i],
{
}

/// It makes no difference whether bytes come in one read or in two.
pub proof fn law_reads_can_be_split(s: StreamView, first: Seq<u8>, second: Seq<u8>)
    ensures
        s.with_bytes(first).with_bytes(second) == s.with_bytes(first + second),
{
    assert((s.bytes + first) + second =~= s.bytes + (first + second));
}

/// Reads the outcome of a read: a read of no bytes is the end of the stream.
pub fn read_stream_chunk(result: Result<usize, std::io::Error>) -> (r: Result<
    Option<usize>,
    std::io::Error,
>)
    ensures
        r == match result {
            Ok(0) => Ok(None),
            Ok(n) => Ok(Some(n)),
            Err(e) => Err(e),
        },
{
    match result {
        Ok(0) => Ok(None),
        Ok(n) => Ok(Some(n)),
        Err(e) => Err(e),
    }
}

impl StreamState {
    /// A stream from which nothing has been read.
    pub fn fresh() -> (s: StreamState)
        ensures
            s@ == StreamView::fresh(),
            s.open,
            s.buffer@.len() == 0,
    {
        StreamState { open: true, buffer: Vec::new() }
    }

    /// Appends the first `n` bytes of `chunk`.
    pub fn append(&mut self, chunk: &Vec<u8>, n: usize)
        requires
            n <= chunk@.len(),
        ensures
            final(self)@ == old(self)@.with_bytes(chunk@.take(n as int)),
            final(self).open == old(self).open,
            final(self).buffer@ == old(self).buffer@ + chunk@.take(n as int),
    {
        let part = slice_subrange(chunk.as_slice(), 0, n);
        self.buffer.extend_from_slice(part);
        assert(self.buffer@ =~= old(self).buffer@ + chunk@.take(n as int));
    }

    /// Takes in the outcome of a read into `chunk`. Returns how many bytes came,
    /// `None` at the end of the stream.
    pub fn on_read(&mut self, chunk: &Vec<u8>, result: Result<usize, std::io::Error>) -> (r: Result<
        Option<usize>,
        std::io::Error,
    >)
        requires
            result matches Ok(n) ==> n <= chunk@.len(),
        ensures
            match result {
                Ok(n) => {
                    &&& final(self)@ == old(self)@.after_read(chunk@, n)
                    &&& r == Ok::<Option<usize>, std::io::Error>(
                        if n == 0 {
                            None
                        } else {
                            Some(n)
                        },
                    )
                },
                Err(e) => final(self)@ == old(self)@ && r == Err::<Option<usize>, _>(e),
            },
            result matches Ok(n) ==> {
                &&& final(self).open <==> old(self).open && n > 0
                &&& final(self).buffer@ == old(self).buffer@ + chunk@.take(n as int)
            },
    {
        match read_stream_chunk(result) {
            Ok(Some(n)) => {
                self.append(chunk, n);
                Ok(Some(n))
            },
            Ok(None) => {
                self.open = false;
                Ok(None)
            },
            Err(e) => Err(e),
        }
    }

    /// Takes in the outcome of a read into `chunk` while the stream is being
    /// drained, where an error only ends the draining. Returns whether to read
    /// on.
    pub fn drain_reader(&mut self, chunk: &Vec<u8>, result: Result<usize, std::io::Error>) -> (more:
        bool)
        requires
            result matches Ok(n) ==> n <= chunk@.len(),
        ensures
            final(self)@ == old(self)@.after_drain_read(chunk@, result),
            more == (result matches Ok(n) && n > 0),
            final(self).open <==> old(self).open && more,
            result matches Ok(n) ==> final(self).buffer@ == old(self).buffer@ + chunk@.take(
                n as int,
            ),
            result is Err ==> final(self).buffer@ == old(self).buffer@,
    {
        match self.on_read(chunk, result) {
            Ok(Some(_)) => true,
            Ok(None) => false,
            Err(_) => {
                self.open = false;
                false
            },
        }
    }
}

} // verus!
