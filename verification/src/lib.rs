use vstd::prelude::*;

pub mod memorystream;

pub use memorystream::MemoryStreamReader;
pub use memorystream::MemoryStreamWriter;

verus! {

/// The closed set of semantic error kinds a stream operation can report.
#[derive(Clone, Copy, PartialEq, Eq, Structural, Debug)]
pub enum ErrorKind {
    NotFound,
    PermissionDenied,
    ConnectionRefused,
    ConnectionReset,
    ConnectionAborted,
    NotConnected,
    AddrInUse,
    AddrNotAvailable,
    BrokenPipe,
    AlreadyExists,
    WouldBlock,
    InvalidInput,
    InvalidData,
    TimedOut,
    WriteZero,
    Interrupted,
    Other,
    UnexpectedEof,
}

impl ErrorKind {
    /// The human-readable description of each error kind.
    pub open spec fn spec_as_str(&self) -> Seq<char> {
        match *self {
            ErrorKind::NotFound => "entity not found"@,
            ErrorKind::PermissionDenied => "permission denied"@,
            ErrorKind::ConnectionRefused => "connection refused"@,
            ErrorKind::ConnectionReset => "connection reset"@,
            ErrorKind::ConnectionAborted => "connection aborted"@,
            ErrorKind::NotConnected => "not connected"@,
            ErrorKind::AddrInUse => "address in use"@,
            ErrorKind::AddrNotAvailable => "address not available"@,
            ErrorKind::BrokenPipe => "broken pipe"@,
            ErrorKind::AlreadyExists => "entity already exists"@,
            ErrorKind::WouldBlock => "operation would block"@,
            ErrorKind::InvalidInput => "invalid input parameter"@,
            ErrorKind::InvalidData => "invalid data"@,
            ErrorKind::TimedOut => "timed out"@,
            ErrorKind::WriteZero => "write zero"@,
            ErrorKind::Interrupted => "operation interrupted"@,
            ErrorKind::Other => "other os error"@,
            ErrorKind::UnexpectedEof => "unexpected end of file"@,
        }
    }

    pub fn as_str(&self) -> (r: &'static str)
        ensures
            r@ == self.spec_as_str(),
    {
        match *self {
            ErrorKind::NotFound => "entity not found",
            ErrorKind::PermissionDenied => "permission denied",
            ErrorKind::ConnectionRefused => "connection refused",
            ErrorKind::ConnectionReset => "connection reset",
            ErrorKind::ConnectionAborted => "connection aborted",
            ErrorKind::NotConnected => "not connected",
            ErrorKind::AddrInUse => "address in use",
            ErrorKind::AddrNotAvailable => "address not available",
            ErrorKind::BrokenPipe => "broken pipe",
            ErrorKind::AlreadyExists => "entity already exists",
            ErrorKind::WouldBlock => "operation would block",
            ErrorKind::InvalidInput => "invalid input parameter",
            ErrorKind::InvalidData => "invalid data",
            ErrorKind::TimedOut => "timed out",
            ErrorKind::WriteZero => "write zero",
            ErrorKind::Interrupted => "operation interrupted",
            ErrorKind::Other => "other os error",
            ErrorKind::UnexpectedEof => "unexpected end of file",
        }
    }
}

/// An error is either a semantic kind or a raw platform error code captured
/// at the moment of an external failure.
#[derive(Clone, Copy, PartialEq, Eq, Structural, Debug)]
pub enum Repr {
    Os(i32),
    Simple(ErrorKind),
}

/// The error value reported by stream operations.
#[derive(Clone, Copy, PartialEq, Eq, Structural, Debug)]
pub struct Error {
    pub repr: Repr,
}

impl From<ErrorKind> for Error {
    /// Converts an `ErrorKind` into an `Error` with the simple representation.
    fn from(kind: ErrorKind) -> (r: Error) {
        Error { repr: Repr::Simple(kind) }
    }
}

impl vstd::std_specs::convert::FromSpecImpl<ErrorKind> for Error {
    open spec fn obeys_from_spec() -> bool {
        true
    }

    open spec fn from_spec(kind: ErrorKind) -> Error {
        (Error { repr: Repr::Simple(kind) })
    }
}

impl Error {
    /// Wraps a raw platform error code, as captured after a failed OS call.
    pub fn from_raw_os_error(code: i32) -> (r: Error)
        ensures
            r == (Error { repr: Repr::Os(code) }),
    {
        Error { repr: Repr::Os(code) }
    }
}

/// A stream: anything with a byte position and a byte size. The position
/// never passes the size at any observable point.
pub trait Stream {
    /// The abstract well-formedness of the stream.
    spec fn wf(&self) -> bool;

    /// The byte offset at which the next read or write begins.
    spec fn spec_position(&self) -> nat;

    /// The current extent of the stream in bytes.
    spec fn spec_size(&self) -> nat;

    /// Every well-formed stream keeps its position within its size.
    proof fn lemma_position_in_bounds(&self)
        requires
            self.wf(),
        ensures
            self.spec_position() <= self.spec_size(),
    ;

    fn tell(&self) -> (r: usize)
        requires
            self.wf(),
        ensures
            r == self.spec_position(),
    ;

    fn size(&self) -> (r: usize)
        requires
            self.wf(),
        ensures
            r == self.spec_size(),
    ;
}

/// A stream that can produce bytes at its cursor.
pub trait StreamReader: Stream {
    /// Fills up to `buff.len()` bytes from the current position, advances the
    /// position by the count actually produced, and reports that count. A
    /// short read is not an error: it happens exactly at end-of-data.
    fn read(&mut self, buff: &mut [u8]) -> (r: Result<usize, ()>)
        requires
            old(self).wf(),
        ensures
            final(self).wf(),
            final(buff)@.len() == old(buff)@.len(),
            (r matches Ok(n) ==> n <= old(buff)@.len()
                && final(self).spec_position() == old(self).spec_position() + n
                && final(self).spec_size() == old(self).spec_size()),
    ;

    /// True exactly when the position has reached the end of available data.
    fn is_eof(&self) -> (r: bool)
        requires
            self.wf(),
        ensures
            r == (self.spec_position() == self.spec_size()),
    ;
}

/// A stream that can consume bytes at its cursor.
pub trait StreamWriter: Stream {
    /// Consumes bytes of `buff`, advances the position by the count consumed,
    /// and reports that count. A count short of `buff.len()` can come only
    /// from an underlying failure, never from the stream's own policy.
    fn write(&mut self, buff: &[u8]) -> (r: Result<usize, ()>)
        requires
            old(self).wf(),
        ensures
            final(self).wf(),
            (r matches Ok(n) ==> n <= buff@.len()
                && final(self).spec_position() == old(self).spec_position() + n
                && final(self).spec_size() >= old(self).spec_size()),
    ;
}

/// A stream whose cursor can be repositioned.
pub trait StreamSeek: Stream {
    /// Repositions the cursor and reports the resulting position.
    fn seek(&mut self, cursor: usize) -> (r: Result<usize, ()>)
        requires
            old(self).wf(),
        ensures
            final(self).wf(),
            (r matches Ok(p) ==> p == final(self).spec_position()),
    ;
}

} // verus!
