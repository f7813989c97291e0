//! Stream and file system errors, and the `Read`, `Seek` and `Write` traits
//! with their provided methods.

use vstd::prelude::*;

verus! {

/// How many bytes to read at a time.
/// This is kept small as the buffer is often stack allocated.
pub const DEFAULT_BUF_SIZE: usize = 64;

/// File system error code of the firmware (`FS_Error`): no error.
pub const FSE_OK: u8 = 0;
/// File system error code: FS not ready.
pub const FSE_NOT_READY: u8 = 1;
/// File system error code: file/dir already exists.
pub const FSE_EXIST: u8 = 2;
/// File system error code: file/dir does not exist.
pub const FSE_NOT_EXIST: u8 = 3;
/// File system error code: invalid API parameter.
pub const FSE_INVALID_PARAMETER: u8 = 4;
/// File system error code: access denied.
pub const FSE_DENIED: u8 = 5;
/// File system error code: invalid name/path.
pub const FSE_INVALID_NAME: u8 = 6;
/// File system error code: internal error.
pub const FSE_INTERNAL: u8 = 7;
/// File system error code: function not implemented.
pub const FSE_NOT_IMPLEMENTED: u8 = 8;
/// File system error code: file/dir already opened.
pub const FSE_ALREADY_OPEN: u8 = 9;

/// Stream and file system related error kinds.
///
/// This list may grow over time, and it is not recommended to exhaustively
/// match against it.
#[derive(Debug, Clone, Copy)]
#[non_exhaustive]
pub enum Error {
    NotReady,
    Exists,
    NotExists,
    InvalidParameter,
    Denied,
    InvalidName,
    Internal,
    NotImplemented,
    AlreadyOpen,
    /// The case a call to `write` returned `Ok(0)`, meaning that the
    /// operation could not be completed.
    WriteZero,
    /// Any I/O error from the Flipper Zero SDK that's not part of this list.
    #[non_exhaustive]
    Uncategorized(u8),
}

/// A specialized `Result` type for I/O operations.
pub type Result<T> = core::result::Result<T, Error>;

/// Firmware error code of `e`, if it has one.
pub open spec fn error_code(e: Error) -> Option<u8> {
    match e {
        Error::NotReady => Some(FSE_NOT_READY),
        Error::Exists => Some(FSE_EXIST),
        Error::NotExists => Some(FSE_NOT_EXIST),
        Error::InvalidParameter => Some(FSE_INVALID_PARAMETER),
        Error::Denied => Some(FSE_DENIED),
        Error::InvalidName => Some(FSE_INVALID_NAME),
        Error::Internal => Some(FSE_INTERNAL),
        Error::NotImplemented => Some(FSE_NOT_IMPLEMENTED),
        Error::AlreadyOpen => Some(FSE_ALREADY_OPEN),
        Error::Uncategorized(code) => Some(code),
        Error::WriteZero => None,
    }
}

/// Error that the firmware code `code` stands for; none for `FSE_OK`.
pub open spec fn error_of_code(code: u8) -> Option<Error> {
    if code == FSE_OK {
        None
    } else if code == FSE_NOT_READY {
        Some(Error::NotReady)
    } else if code == FSE_EXIST {
        Some(Error::Exists)
    } else if code == FSE_NOT_EXIST {
        Some(Error::NotExists)
    } else if code == FSE_INVALID_PARAMETER {
        Some(Error::InvalidParameter)
    } else if code == FSE_DENIED {
        Some(Error::Denied)
    } else if code == FSE_INVALID_NAME {
        Some(Error::InvalidName)
    } else if code == FSE_INTERNAL {
        Some(Error::Internal)
    } else if code == FSE_NOT_IMPLEMENTED {
        Some(Error::NotImplemented)
    } else if code == FSE_ALREADY_OPEN {
        Some(Error::AlreadyOpen)
    } else {
        Some(Error::Uncategorized(code))
    }
}

impl Error {
    /// Firmware error code of this error; `WriteZero` has none.
    pub fn to_sys(&self) -> (r: Option<u8>)
        ensures
            r == error_code(*self),
    {
        match self {
            Error::NotReady => Some(FSE_NOT_READY),
            Error::Exists => Some(FSE_EXIST),
            Error::NotExists => Some(FSE_NOT_EXIST),
            Error::InvalidParameter => Some(FSE_INVALID_PARAMETER),
            Error::Denied => Some(FSE_DENIED),
            Error::InvalidName => Some(FSE_INVALID_NAME),
            Error::Internal => Some(FSE_INTERNAL),
            Error::NotImplemented => Some(FSE_NOT_IMPLEMENTED),
            Error::AlreadyOpen => Some(FSE_ALREADY_OPEN),
            Error::Uncategorized(error_code) => Some(*error_code),
            Error::WriteZero => None,
        }
    }

    /// Error of a firmware error code; `None` for `FSE_OK`.
    pub fn from_sys(err: u8) -> (r: Option<Error>)
        ensures
            r == error_of_code(err),
    {
        if err == FSE_OK {
            None
        } else if err == FSE_NOT_READY {
            Some(Error::NotReady)
        } else if err == FSE_EXIST {
            Some(Error::Exists)
        } else if err == FSE_NOT_EXIST {
            Some(Error::NotExists)
        } else if err == FSE_INVALID_PARAMETER {
            Some(Error::InvalidParameter)
        } else if err == FSE_DENIED {
            Some(Error::Denied)
        } else if err == FSE_INVALID_NAME {
            Some(Error::InvalidName)
        } else if err == FSE_INTERNAL {
            Some(Error::Internal)
        } else if err == FSE_NOT_IMPLEMENTED {
            Some(Error::NotImplemented)
        } else if err == FSE_ALREADY_OPEN {
            Some(Error::AlreadyOpen)
        } else {
            Some(Error::Uncategorized(err))
        }
    }
}

/// Only `WriteZero` lacks a firmware code.
pub proof fn lemma_code_exists(e: Error)
    ensures
        (error_code(e) is None) == (e is WriteZero),
{
}

/// Every firmware code but `FSE_OK` stands for an error, and converting that
/// error back gives the same code.
pub proof fn lemma_code_round_trip(code: u8)
    ensures
        (error_of_code(code) is None) == (code == FSE_OK),
        code != FSE_OK ==> error_code(error_of_code(code).unwrap()) == Some(code),
{
}

/// Converting an error to its code and back gives the same error, for every
/// error that has a code, except an `Uncategorized` one whose code is `FSE_OK`
/// or one of the named errors (which come back under their name).
pub proof fn lemma_error_round_trip(e: Error)
    requires
        !(e is WriteZero),
        e is Uncategorized ==> e->Uncategorized_0 > FSE_ALREADY_OPEN,
    ensures
        error_of_code(error_code(e).unwrap()) == Some(e),
{
}

/// What reading to the end does with the outcome of one `read` call.
#[derive(Debug, Clone, Copy)]
pub enum ReadStep {
    /// The source is at its end: stop with the bytes counted so far.
    End,
    /// `n` bytes (`n > 0`) were read: append them and read again.
    Append(usize),
    /// The read failed: stop with its error.
    Fail(Error),
}

/// Step of [`Read::read_to_string`] for the outcome `read` of one `read`
/// call: `Ok(0)` ends, `Ok(n)` appends `n` bytes, `Err(e)` fails with `e`.
pub fn read_step(read: Result<usize>) -> (s: ReadStep)
    ensures
        match read {
            Ok(n) => if n == 0 { s is End } else { s == ReadStep::Append(n) },
            Err(e) => s == ReadStep::Fail(e),
        },
{
    match read {
        Ok(0) => ReadStep::End,
        Ok(n) => ReadStep::Append(n),
        Err(e) => ReadStep::Fail(e),
    }
}

/// Trait comparable to `std::io::Read` for the Flipper Zero API.
///
/// A reader is seen as the sequence of bytes that it has left to give.
pub trait Read {
    /// The bytes this source has left to give, in order.
    spec fn remaining(&self) -> Seq<u8>;

    /// Where this source fails, if it does: `Some((k, e))` when, after giving
    /// `k` more bytes, every read fails with `e`. A source is taken to be one
    /// whose reads all succeed unless it says otherwise.
    open spec fn read_fault(&self) -> Option<(nat, Error)> {
        None
    }

    /// Reads some bytes from this source into the given buffer, returning how
    /// many bytes were read. The bytes read are the next ones of the source;
    /// a non-empty buffer gets at least one byte unless the source is at its
    /// end, and an error reads nothing. Reads succeed, without going past the
    /// source's fault, until that fault is reached; from then on they fail
    /// with its error.
    fn read(&mut self, buf: &mut [u8]) -> (r: Result<usize>)
        ensures
            final(buf)@.len() == old(buf)@.len(),
            match r {
                Ok(n) => {
                    &&& n <= old(buf)@.len()
                    &&& n <= old(self).remaining().len()
                    &&& final(buf)@.take(n as int) == old(self).remaining().take(n as int)
                    &&& final(self).remaining() == old(self).remaining().skip(n as int)
                    &&& (old(buf)@.len() > 0 && old(self).remaining().len() > 0 ==> n > 0)
                },
                Err(_) => final(self).remaining() == old(self).remaining(),
            },
            match old(self).read_fault() {
                None => r is Ok && final(self).read_fault() is None,
                Some((k, e)) => if k == 0 {
                    r == Err::<usize, Error>(e) && final(self).read_fault() == old(self).read_fault()
                } else {
                    r matches Ok(n) && n <= k && final(self).read_fault() == Some(((k - n) as nat, e))
                },
            },
    ;

    /// Reads all bytes until EOF in this source, appending them to `string`.
    ///
    /// The source is read in chunks of [`DEFAULT_BUF_SIZE`] bytes until a read
    /// gives none (see [`read_step`]). If successful, this function returns the
    /// number of bytes which were read and appended to `string`. On an error,
    /// the bytes read before it have been appended.
    fn read_to_string(&mut self, string: &mut Vec<u8>) -> (r: Result<usize>)
        requires
            old(self).remaining().len() <= usize::MAX,
        ensures
            read_appended(old(self).remaining(), final(self).remaining(), old(string)@, final(string)@),
            r matches Ok(total) ==> total == old(self).remaining().len() && final(self).remaining().len() == 0,
            // A source that fails before its end gives its error, after
            // exactly the bytes it gave before failing were appended; any
            // other source is read to its end.
            match old(self).read_fault() {
                Some((k, e)) if k <= old(self).remaining().len() =>
                    r == Err::<usize, Error>(e)
                    && final(string)@ == old(string)@ + old(self).remaining().take(k as int),
                _ =>
                    r == Ok::<usize, Error>(old(self).remaining().len() as usize)
                    && final(string)@ == old(string)@ + old(self).remaining(),
            },
    {
        let ghost start = self.remaining();
        let ghost fault = self.read_fault();
        let ghost s_start = string@;
        let mut total_bytes_read: usize = 0;

        let mut buf = [0u8; DEFAULT_BUF_SIZE];
        loop
            invariant
                total_bytes_read as int + self.remaining().len() == start.len(),
                self.remaining() == start.skip(total_bytes_read as int),
                string@ == s_start + start.take(total_bytes_read as int),
                start.len() <= usize::MAX,
                start == old(self).remaining(),
                s_start == old(string)@,
                buf@.len() == DEFAULT_BUF_SIZE,
                fault == old(self).read_fault(),
                match fault {
                    None => self.read_fault() is None,
                    Some((k, e)) => total_bytes_read <= k && self.read_fault() == Some(((k - total_bytes_read) as nat, e)),
                },
            ensures
                match fault {
                    Some((k, _)) => k > start.len(),
                    None => true,
                },
                self.remaining().len() == 0,
                total_bytes_read == start.len(),
                string@ == s_start + start,
            decreases self.remaining().len(),
        {
            let bytes_read = match read_step(self.read(&mut buf)) {
                ReadStep::End => break,
                ReadStep::Append(n) => n,
                ReadStep::Fail(e) => {
                    assert(read_appended(start, self.remaining(), s_start, string@));
                    return Err(e);
                },
            };

            let ghost s_before = string@;
            let mut i: usize = 0;
            while i < bytes_read
                invariant
                    0 <= i <= bytes_read <= buf@.len(),
                    string@ == s_before + buf@.take(i as int),
                decreases bytes_read - i,
            {
                string.push(buf[i]);
                i = i + 1;
                assert(buf@.take(i as int) == buf@.take(i - 1).push(buf@[i - 1]));
            }
            total_bytes_read = total_bytes_read + bytes_read;
            assert(start.take(total_bytes_read as int) == start.take(total_bytes_read - bytes_read) + buf@.take(bytes_read as int));
        }

        assert(start.take(start.len() as int) == start);
        assert(start.skip(start.len() as int) == self.remaining());
        Ok(total_bytes_read)
    }
}

/// A reader went from `before` to `after` bytes left, and exactly the bytes
/// it gave up were appended to a string that went from `s_before` to `s_after`.
pub open spec fn read_appended(before: Seq<u8>, after: Seq<u8>, s_before: Seq<u8>, s_after: Seq<u8>) -> bool {
    let consumed = before.len() - after.len();
    &&& after.len() <= before.len()
    &&& after == before.skip(consumed)
    &&& s_after == s_before + before.take(consumed)
}

/// Enumeration of possible methods to seek within an I/O object.
///
/// It is used by the [`Seek`] trait.
pub enum SeekFrom {
    /// An offset from the start of the stream.
    Start(u64),
    /// An offset from the end of the stream.
    End(i64),
    /// An offset from the current position.
    Current(i64),
}

/// Position that seeking to `pos` aims at, in a stream at `position` whose
/// end is at `length`.
pub open spec fn seek_target(pos: SeekFrom, position: int, length: int) -> int {
    match pos {
        SeekFrom::Start(offset) => offset as int,
        SeekFrom::End(offset) => length + offset,
        SeekFrom::Current(offset) => position + offset,
    }
}

/// What `stream_len` does once it knows the stream's end.
#[derive(Debug, Clone, Copy)]
pub enum StreamLenStep {
    /// The cursor was already at the end: the length is the result.
    Done(usize),
    /// Seek back to `to`; the length `len` is the result if that succeeds.
    SeekBack { to: u64, len: usize },
    /// Seeking to the end failed: stop with its error.
    Fail(Error),
}

/// Step of [`Seek::stream_len`] for a stream whose cursor was at `old_pos`,
/// given the outcome `end` of seeking to its end: the cursor is taken back
/// only when it moved.
pub fn stream_len_step(old_pos: usize, end: Result<usize>) -> (s: StreamLenStep)
    ensures
        match end {
            Ok(len) => if len == old_pos {
                s == StreamLenStep::Done(len)
            } else {
                s == StreamLenStep::SeekBack { to: old_pos as u64, len }
            },
            Err(e) => s == StreamLenStep::Fail(e),
        },
{
    match end {
        Ok(len) => {
            // Avoid seeking a third time when we were already at the end of
            // the stream. The branch is usually way cheaper than a seek.
            if len == old_pos {
                StreamLenStep::Done(len)
            } else {
                StreamLenStep::SeekBack { to: old_pos as u64, len }
            }
        },
        Err(e) => StreamLenStep::Fail(e),
    }
}

/// Result of [`Seek::stream_len`] given the outcome `back` of seeking back:
/// the length `len` if that succeeded, its error otherwise.
pub fn stream_len_finish(back: Result<usize>, len: usize) -> (r: Result<usize>)
    ensures
        match back {
            Ok(_) => r == Ok::<usize, Error>(len),
            Err(e) => r == Err::<usize, Error>(e),
        },
{
    match back {
        Ok(_) => Ok(len),
        Err(e) => Err(e),
    }
}

/// Trait comparable to `std::io::Seek` for the Flipper Zero API.
///
/// A seekable stream is seen as a cursor position and the position of its end.
pub trait Seek {
    /// Current position, from the start of the stream.
    spec fn position(&self) -> usize;

    /// Position of the end of the stream (its length).
    spec fn length(&self) -> usize;

    /// Where this stream fails, if it does: `Some((k, e))` when, after `k`
    /// more successful seeks, every seek fails with `e`. A stream is taken to
    /// be one whose seeks to reachable positions all succeed unless it says
    /// otherwise.
    open spec fn seek_fault(&self) -> Option<(nat, Error)> {
        None
    }

    /// Seeks to an offset, in bytes, in the stream. On success the cursor is
    /// at the target and that position is returned; seeking does not change
    /// where the stream ends. A seek to a position from 0 to `usize::MAX`
    /// succeeds, unless the stream has reached its fault.
    fn seek(&mut self, pos: SeekFrom) -> (r: Result<usize>)
        ensures
            r matches Ok(p) ==> {
                &&& p == seek_target(pos, old(self).position() as int, old(self).length() as int)
                &&& final(self).position() == p
                &&& final(self).length() == old(self).length()
            },
            match old(self).seek_fault() {
                Some((k, e)) if k == 0 =>
                    r == Err::<usize, Error>(e) && final(self).seek_fault() == old(self).seek_fault(),
                fault =>
                    0 <= seek_target(pos, old(self).position() as int, old(self).length() as int) <= usize::MAX ==> {
                        &&& r is Ok
                        &&& final(self).seek_fault() == fault_after_seek(fault)
                    },
            },
    ;

    /// Rewinds to the start of the stream. It fails only if the seek to the
    /// start fails, with that seek's error.
    fn rewind(&mut self) -> (r: Result<()>)
        ensures
            r is Ok ==> final(self).position() == 0 && final(self).length() == old(self).length(),
            match old(self).seek_fault() {
                Some((k, e)) if k == 0 => r == Err::<(), Error>(e),
                _ => r == Ok::<(), Error>(()),
            },
    {
        match self.seek(SeekFrom::Start(0)) {
            Ok(_) => Ok(()),
            Err(e) => Err(e),
        }
    }

    /// Length of the stream; the cursor ends where it was. It seeks to the
    /// current position, then to the end, then back if the cursor moved (see
    /// [`stream_len_step`], [`stream_len_finish`]); the first failing seek's
    /// error is the result.
    fn stream_len(&mut self) -> (r: Result<usize>)
        ensures
            r matches Ok(len) ==> {
                &&& len == old(self).length()
                &&& final(self).position() == old(self).position()
                &&& final(self).length() == old(self).length()
            },
            // The stream fails within the two or three seeks needed (three
            // when the cursor is not at the end): its error is the result.
            // Otherwise the result is the length.
            match old(self).seek_fault() {
                Some((k, e)) if k < (if old(self).position() == old(self).length() { 2nat } else { 3nat }) =>
                    r == Err::<usize, Error>(e),
                _ => r == Ok::<usize, Error>(old(self).length()),
            },
    {
        let old_pos = match self.stream_position() {
            Ok(p) => p,
            Err(e) => return Err(e),
        };
        match stream_len_step(old_pos, self.seek(SeekFrom::End(0))) {
            StreamLenStep::Done(len) => Ok(len),
            StreamLenStep::SeekBack { to, len } => stream_len_finish(self.seek(SeekFrom::Start(to)), len),
            StreamLenStep::Fail(e) => Err(e),
        }
    }

    /// Current position, from the start of the stream; the cursor stays. Its
    /// result is that of seeking to the current position.
    fn stream_position(&mut self) -> (r: Result<usize>)
        ensures
            r matches Ok(p) ==> {
                &&& p == old(self).position()
                &&& final(self).position() == old(self).position()
                &&& final(self).length() == old(self).length()
                &&& final(self).seek_fault() == fault_after_seek(old(self).seek_fault())
            },
            match old(self).seek_fault() {
                Some((k, e)) if k == 0 => r == Err::<usize, Error>(e),
                _ => r == Ok::<usize, Error>(old(self).position()),
            },
    {
        self.seek(SeekFrom::Current(0))
    }
}

/// Where a stream fails after one more successful seek, given where it
/// failed before.
pub open spec fn fault_after_seek(fault: Option<(nat, Error)>) -> Option<(nat, Error)> {
    match fault {
        None => None,
        Some((k, e)) => Some(((k - 1) as nat, e)),
    }
}

/// What writing a whole buffer does with the outcome of one `write` call.
#[derive(Debug, Clone, Copy)]
pub enum WriteStep {
    /// `n` bytes (`n > 0`) were accepted: go on after them.
    Advance(usize),
    /// Stop with this error.
    Fail(Error),
}

/// Step of [`Write::write_all`] for the outcome `written` of one `write`
/// call: a write that accepted nothing fails with [`Error::WriteZero`], a
/// failed write with its own error, and otherwise the buffer advances.
pub fn write_step(written: Result<usize>) -> (s: WriteStep)
    ensures
        match written {
            Ok(n) => if n == 0 { s == WriteStep::Fail(Error::WriteZero) } else { s == WriteStep::Advance(n) },
            Err(e) => s == WriteStep::Fail(e),
        },
{
    match written {
        Ok(0) => WriteStep::Fail(Error::WriteZero),
        Ok(n) => WriteStep::Advance(n),
        Err(e) => WriteStep::Fail(e),
    }
}

/// Trait comparable to `std::io::Write` for the Flipper Zero API.
///
/// A writer is seen as the sequence of bytes that it has accepted so far.
pub trait Write {
    /// The bytes this writer has accepted, in order.
    spec fn accepted(&self) -> Seq<u8>;

    /// Where this writer stops, if it does: `Some((k, f))` when, after
    /// accepting `k` more bytes, every write of a non-empty buffer accepts
    /// nothing (`f` is `None`) or fails with the error in `f`. A writer is
    /// taken to be one that always accepts bytes unless it says otherwise.
    open spec fn write_fault(&self) -> Option<(nat, Option<Error>)> {
        None
    }

    /// Writes some prefix of `buf`, returning its length; an error writes
    /// nothing. A non-empty buffer gets at least one byte in, up to where the
    /// writer stops.
    fn write(&mut self, buf: &[u8]) -> (r: Result<usize>)
        ensures
            match r {
                Ok(n) => n <= buf@.len() && final(self).accepted() == old(self).accepted() + buf@.take(n as int),
                Err(_) => final(self).accepted() == old(self).accepted(),
            },
            buf@.len() > 0 ==> match old(self).write_fault() {
                None => r matches Ok(n) && n > 0 && final(self).write_fault() is None,
                Some((k, f)) => if k == 0 {
                    r == (match f {
                        None => Ok::<usize, Error>(0),
                        Some(e) => Err::<usize, Error>(e),
                    }) && final(self).write_fault() == old(self).write_fault()
                } else {
                    r matches Ok(n) && 0 < n <= k && final(self).write_fault() == Some(((k - n) as nat, f))
                },
            },
    ;

    /// Flushes buffered data to its destination.
    fn flush(&mut self) -> (r: Result<()>);

    /// Writes all of `buf`, one `write` call after the other, each given what
    /// is left (see [`write_step`]). It fails with [`Error::WriteZero`] if a
    /// write accepts nothing, or with the error of a failed write; the bytes
    /// written before the failure are a proper prefix of `buf`.
    fn write_all(&mut self, buf: &[u8]) -> (r: Result<()>)
        ensures
            r is Ok ==> final(self).accepted() == old(self).accepted() + buf@,
            r is Err ==> exists|k: int| 0 <= k < buf@.len()
                && final(self).accepted() == old(self).accepted() + buf@.take(k),
            // A writer that stops before the end of `buf` makes it fail, after
            // exactly the bytes it accepts before stopping; with `WriteZero`
            // when it stops by accepting nothing, with its error otherwise.
            // Any other writer takes all of `buf`.
            match old(self).write_fault() {
                Some((k, f)) if k < buf@.len() =>
                    r == (match f {
                        None => Err::<(), Error>(Error::WriteZero),
                        Some(e) => Err::<(), Error>(e),
                    }) && final(self).accepted() == old(self).accepted() + buf@.take(k as int),
                _ => r == Ok::<(), Error>(()),
            },
    {
        let mut rest: &[u8] = buf;
        let ghost mut done: int = 0;
        let ghost fault = self.write_fault();
        while !rest.is_empty()
            invariant
                0 <= done <= buf@.len(),
                rest@ == buf@.skip(done),
                self.accepted() == old(self).accepted() + buf@.take(done),
                fault == old(self).write_fault(),
                match fault {
                    None => self.write_fault() is None,
                    Some((k, f)) => done <= k && self.write_fault() == Some(((k - done) as nat, f)),
                },
            ensures
                done == buf@.len(),
                match fault {
                    Some((k, _)) => k >= buf@.len(),
                    None => true,
                },
            decreases rest@.len(),
        {
            match write_step(self.write(rest)) {
                WriteStep::Advance(n) => {
                    let ghost prev = done;
                    rest = &rest[n..rest.len()];
                    proof {
                        done = done + n;
                        assert(buf@.skip(prev).take(n as int) == buf@.subrange(prev, done));
                        assert(buf@.take(prev) + buf@.subrange(prev, done) == buf@.take(done));
                        assert(buf@.skip(prev).subrange(n as int, buf@.len() - prev) == buf@.skip(done));
                    }
                },
                WriteStep::Fail(e) => {
                    assert(done < buf@.len());
                    return Err(e);
                },
            }
        }
        assert(buf@.take(done) == buf@);
        Ok(())
    }
}

} // verus!
