//! A transport without a socket.
use vstd::prelude::*;

use crate::error::error_kind;
use crate::error::error_of_kind;
use crate::error::kind_of;
use crate::traits::Transport;

verus! {

/// What a fake transport has been told so far.
pub struct TransportAssertions {
    pub spawned: bool,
    pub closed: bool,
    pub error_kind: Option<std::io::ErrorKind>,
    pub writable: bool,
}

impl TransportAssertions {
    /// A record of a transport that has been told nothing.
    pub fn new() -> (a: TransportAssertions)
        ensures
            !a.spawned,
            !a.closed,
            a.error_kind is None,
            !a.writable,
    {
        TransportAssertions { spawned: false, closed: false, error_kind: None, writable: false }
    }
}

/// A transport that reads from and writes to one and the same byte buffer.
/// Consuming empties the buffer, however little was used. A transport made
/// with a kind of error fails every read with an error of that kind.
pub struct FakeTransport {
    pub buf: Vec<u8>,
    pub assertions: TransportAssertions,
    pub read_error: Option<std::io::ErrorKind>,
}

impl FakeTransport {
    /// A transport over the buffer.
    pub fn new(
        buf: Vec<u8>,
        assertions: TransportAssertions,
        read_error: Option<std::io::ErrorKind>,
    ) -> (t: FakeTransport)
        ensures
            t.buf == buf,
            t.assertions == assertions,
            t.read_error == read_error,
    {
        FakeTransport { buf, assertions, read_error }
    }
}

impl Transport for FakeTransport {
    type Buffer = Vec<u8>;

    /// The buffer is lent out as it is and kept as it comes back.
    open spec fn lends(&self, lent: &Vec<u8>, returned: &Vec<u8>, after: &Self) -> bool {
        &&& *lent == self.buf
        &&& after.buf == *returned
        &&& after.assertions == self.assertions
        &&& after.read_error == self.read_error
    }

    open spec fn spawns(&self, after: &Self) -> bool {
        &&& after.buf == self.buf
        &&& after.read_error == self.read_error
        &&& after.assertions == (TransportAssertions { spawned: true, ..self.assertions })
    }

    /// The transport notes that it was closed, and the kind of the error
    /// if one came with it.
    open spec fn closes(&self, err: Option<&std::io::Error>, after: &Self) -> bool {
        &&& after.buf == self.buf
        &&& after.read_error == self.read_error
        &&& after.assertions == (TransportAssertions {
            closed: true,
            error_kind: match err {
                Some(e) => Some(kind_of(*e)),
                None => self.assertions.error_kind,
            },
            ..self.assertions
        })
    }

    /// A read changes nothing. It gives the whole buffer, or fails with an
    /// error of the kind that the transport was made with.
    open spec fn reads(&self, after: &Self, r: Result<Seq<u8>, std::io::Error>) -> bool {
        &&& *after == *self
        &&& match self.read_error {
            None => r == Ok::<Seq<u8>, std::io::Error>(self.buf@),
            Some(kind) => r matches Err(e) && kind_of(e) == kind,
        }
    }

    open spec fn consumes(&self, bytes: usize, after: &Self) -> bool {
        &&& after.buf@.len() == 0
        &&& after.read_error == self.read_error
        &&& after.assertions == self.assertions
    }

    open spec fn flushes(&self, after: &Self) -> bool {
        &&& after.buf == self.buf
        &&& after.read_error == self.read_error
        &&& after.assertions == (TransportAssertions { writable: true, ..self.assertions })
    }

    fn buffer(&mut self) -> (b: &mut Vec<u8>) {
        &mut self.buf
    }

    fn spawned(&mut self) {
        self.assertions.spawned = true;
    }

    fn closed(&mut self, err: Option<&std::io::Error>) {
        self.assertions.closed = true;
        match err {
            Some(e) => {
                self.assertions.error_kind = Some(error_kind(e));
            },
            None => {},
        }
    }

    fn read(&mut self) -> (r: Result<&[u8], std::io::Error>) {
        match self.read_error {
            None => Ok(self.buf.as_slice()),
            Some(kind) => Err(error_of_kind(kind, "test error")),
        }
    }

    fn consume(&mut self, _bytes: usize) {
        self.buf.clear();
    }

    fn writable(&mut self) {
        self.assertions.writable = true;
    }
}

} // verus!
