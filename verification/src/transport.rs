//! The transport abstraction: a blocking byte stream that can be read,
//! written and duplicated, and a listener that accepts such streams.
//!
//! A stream may carry a model of its bytes. The model is two byte
//! sequences: `incoming` holds the bytes that reads of the handle deliver
//! from now on, up to the end of the stream; `sent` holds the bytes that
//! were written through the handle. Of a stream that says it is `modeled`,
//! the contracts of `read` and `write_all` say how a call moves the two,
//! and everything that drives such a stream says in its own contract which
//! bytes it took and which it wrote. `ScriptedStream` is such a stream.
//!
//! A stream that leaves `modeled` at its default promises only what every
//! reader promises: never to report more bytes than the buffer holds. A
//! socket is of this kind, for nobody knows what it will deliver.

use vstd::prelude::*;

verus! {

/// Where a responder listens on a local domain socket, unless told
/// otherwise.
pub const DEFAULT_SOCK_FILE: &'static str = "/tmp/nspt.sock";

/// The TCP port on which a responder listens, unless told otherwise.
pub const SERVER_PORT: u16 = 12845;

/// `SERVER_PORT` as text.
pub const SERVER_PORT_S: &'static str = "12845";

/// Failure of the underlying byte stream.
#[derive(Debug)]
pub struct TransportError {
    /// What the transport reported.
    pub message: String,
}

/// A full-duplex byte stream.
pub trait ReadWriteStream: Sized {
    /// Whether the stream carries a model of its bytes: whether `incoming`
    /// and `sent` say what it delivers and what was written to it.
    open spec fn modeled(&self) -> bool {
        false
    }

    /// The bytes that reads of this handle deliver from now on, in order, up
    /// to the end of the stream.
    open spec fn incoming(&self) -> Seq<u8> {
        Seq::empty()
    }

    /// The bytes written through this handle so far.
    open spec fn sent(&self) -> Seq<u8> {
        Seq::empty()
    }

    /// Blocks until bytes are available and moves up to `buf.len()` of them
    /// into the front of `buf`. Returns how many were moved: zero only at
    /// the end of the stream, or for an empty `buf`. A read that fails
    /// takes nothing from the stream.
    fn read(&mut self, buf: &mut [u8]) -> (r: Result<usize, TransportError>)
        ensures
            final(buf)@.len() == old(buf)@.len(),
            r matches Ok(n) ==> n <= old(buf)@.len(),
            old(self).modeled() ==> final(self).modeled() && final(self).sent() == old(self).sent(),
            r matches Ok(n) ==> old(self).modeled() ==> {
                &&& n <= old(self).incoming().len()
                &&& n == 0 ==> old(buf)@.len() == 0 || old(self).incoming().len() == 0
                &&& final(buf)@.subrange(0, n as int) == old(self).incoming().subrange(0, n as int)
                &&& final(self).incoming() == old(self).incoming().skip(n as int)
            },
            old(self).modeled() ==> r is Err ==> final(self).incoming() == old(self).incoming(),
    ;

    /// Writes all of `data`, blocking as long as it takes. A write that
    /// fails has written a front of `data`, and nothing else.
    fn write_all(&mut self, data: &[u8]) -> (r: Result<(), TransportError>)
        ensures
            old(self).modeled() ==> final(self).modeled() && final(self).incoming() == old(
                self,
            ).incoming(),
            old(self).modeled() ==> old(self).sent().is_prefix_of(final(self).sent()),
            old(self).modeled() ==> r is Ok ==> final(self).sent() == old(self).sent() + data@,
            old(self).modeled() ==> r is Err ==> exists|written: int|
                0 <= written <= data@.len() && final(self).sent() == old(self).sent()
                    + #[trigger] data@.take(written),
    ;

    /// A second handle on the same connection, to be driven independently
    /// of this one: one of the two carries the messages of a session, the
    /// other its bulk data.
    fn try_clone(&self) -> (r: Result<Self, TransportError>);
}

/// A source of inbound connections.
pub trait Listener {
    /// The streams that this listener yields.
    type Stream: ReadWriteStream;

    /// Blocks until a peer connects; yields the stream and a name for the
    /// peer.
    fn accept(&self) -> (r: Result<(Self::Stream, String), TransportError>);
}

/// A stream in memory: it delivers a prepared input and records what is
/// written. Each read delivers at most `chunk` bytes. A duplicate starts
/// where the stream stands and goes its own way from there.
pub struct ScriptedStream {
    input: Vec<u8>,
    cursor: usize,
    output: Vec<u8>,
    chunk: usize,
}

impl ScriptedStream {
    /// A stream that delivers `input`, at most `chunk` bytes a read (one
    /// byte a read where `chunk` is zero).
    pub fn new(input: Vec<u8>, chunk: usize) -> (stream: Self)
        ensures
            stream.modeled(),
            stream.incoming() == input@,
            stream.sent() == Seq::<u8>::empty(),
    {
        ScriptedStream {
            input,
            cursor: 0,
            output: Vec::new(),
            chunk,
        }
    }

    /// What was written to the stream so far.
    pub fn written(&self) -> (bytes: &Vec<u8>)
        ensures
            bytes@ == self.sent(),
    {
        &self.output
    }

    /// How many bytes of the input were not read yet.
    pub fn unread(&self) -> (n: usize)
        ensures
            n == self.incoming().len(),
    {
        if self.cursor <= self.input.len() {
            self.input.len() - self.cursor
        } else {
            0
        }
    }
}

impl ReadWriteStream for ScriptedStream {
    open spec fn modeled(&self) -> bool {
        true
    }

    closed spec fn incoming(&self) -> Seq<u8> {
        if self.cursor <= self.input@.len() {
            self.input@.skip(self.cursor as int)
        } else {
            Seq::empty()
        }
    }

    closed spec fn sent(&self) -> Seq<u8> {
        self.output@
    }

    fn read(&mut self, buf: &mut [u8]) -> (r: Result<usize, TransportError>)
        ensures
            r is Ok,
    {
        let left: usize = self.unread();
        let mut want: usize = buf.len();
        if want > left {
            want = left;
        }
        if want > self.chunk && want > 1 {
            want = if self.chunk == 0 { 1 } else { self.chunk };
        }
        let mut moved: usize = 0;
        while moved < want
            invariant
                moved <= want <= buf.len(),
                self.cursor + want <= self.input.len() || want == 0,
                self.cursor == old(self).cursor,
                self.input == old(self).input,
                self.output == old(self).output,
                self.chunk == old(self).chunk,
                buf@.len() == old(buf)@.len(),
                forall|i: int| 0 <= i < moved ==> buf@[i] == self.input@[self.cursor + i],
            decreases want - moved,
        {
            buf[moved] = self.input[self.cursor + moved];
            moved = moved + 1;
        }
        let ghost before = self.incoming();
        if want > 0 {
            self.cursor = self.cursor + want;
        }
        Ok(want)
    }

    fn write_all(&mut self, data: &[u8]) -> (r: Result<(), TransportError>)
        ensures
            r is Ok,
    {
        let mut done: usize = 0;
        while done < data.len()
            invariant
                done <= data.len(),
                self.cursor == old(self).cursor,
                self.input == old(self).input,
                self.chunk == old(self).chunk,
                self.output@ == old(self).output@ + data@.subrange(0, done as int),
            decreases data.len() - done,
        {
            self.output.push(data[done]);
            done = done + 1;
        }
        Ok(())
    }

    fn try_clone(&self) -> (r: Result<Self, TransportError>)
        ensures
            r matches Ok(copy) && copy.incoming() == self.incoming() && copy.sent() == self.sent(),
    {
        Ok(
            ScriptedStream {
                input: self.input.clone(),
                cursor: self.cursor,
                output: self.output.clone(),
                chunk: self.chunk,
            },
        )
    }
}

} // verus!
