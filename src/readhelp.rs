//! Reading an exact number of bytes from a stream.
use vstd::prelude::*;

verus! {

/// What one read from a stream gave.
#[derive(Debug)]
pub enum ReadResult {
    /// The read delivered this many bytes.
    Bytes(usize),
    /// The read was interrupted before it delivered anything.
    Interrupted(std::io::Error),
    /// The read failed.
    Failed(std::io::Error),
}

/// What to do after a read.
#[derive(Debug)]
pub enum ReadStep {
    /// Count this many more bytes as read.
    Advance(usize),
    /// Read again.
    Retry,
    /// The stream ended before all bytes came.
    EndOfStream,
    /// The reader claims more bytes than it was given room for.
    Overrun,
    /// Give up with this error.
    Fail(std::io::Error),
}

/// Relies on std::io::Read::read: it is handed the part of `buf` from `from`
/// on, so it can change neither the length of `buf` nor the bytes before
/// `from`. Its error is told apart by `std::io::Error::kind`.
#[verifier::external_body]
fn read_into<R: std::io::Read + ?Sized>(rdr: &mut R, buf: &mut Vec<u8>, from: usize) -> (r:
    ReadResult)
    requires
        from <= old(buf)@.len(),
    ensures
        final(buf)@.len() == old(buf)@.len(),
        final(buf)@.subrange(0, from as int) == old(buf)@.subrange(0, from as int),
{
    match rdr.read(&mut buf[from..]) {
        Ok(n) => ReadResult::Bytes(n),
        Err(e) if e.kind() == std::io::ErrorKind::Interrupted => ReadResult::Interrupted(e),
        Err(e) => ReadResult::Failed(e),
    }
}

/// Relies on std::io::Error::new: an error of kind `Other` with the given message.
#[verifier::external_body]
pub(crate) fn other_error(msg: &str) -> std::io::Error {
    std::io::Error::new(std::io::ErrorKind::Other, msg)
}

/// Decides what follows a read while `remaining` bytes are still owed and
/// after `interrupted` interruptions in a row: no bytes mean the stream
/// ended, more bytes than owed are an overrun, an interruption is retried
/// (up to `u64::MAX` times in a row), and any other error ends the reading.
pub fn read_step(res: ReadResult, remaining: usize, interrupted: u64) -> (r: ReadStep)
    ensures
        match res {
            ReadResult::Bytes(n) => if n == 0 {
                r is EndOfStream
            } else if n > remaining {
                r is Overrun
            } else {
                r == ReadStep::Advance(n)
            },
            ReadResult::Interrupted(e) => if interrupted < u64::MAX {
                r is Retry
            } else {
                r == ReadStep::Fail(e)
            },
            ReadResult::Failed(e) => r == ReadStep::Fail(e),
        },
{
    match res {
        ReadResult::Bytes(n) => if n == 0 {
            ReadStep::EndOfStream
        } else if n > remaining {
            ReadStep::Overrun
        } else {
            ReadStep::Advance(n)
        },
        ReadResult::Interrupted(e) => if interrupted < u64::MAX {
            ReadStep::Retry
        } else {
            ReadStep::Fail(e)
        },
        ReadResult::Failed(e) => ReadStep::Fail(e),
    }
}

/// Reads exactly `sz` bytes. An interrupted read is tried again (giving up
/// only after `u64::MAX` interruptions in a row); a stream that ends early is
/// an error. Nothing is read where `sz` is 0.
pub fn read_exact<R: std::io::Read + ?Sized>(rdr: &mut R, sz: usize) -> (r: std::io::Result<
    Vec<u8>,
>)
    ensures
        r matches Ok(v) ==> v@.len() == sz,
        sz == 0 ==> (r matches Ok(v) && v@.len() == 0),
{
    let mut vec: Vec<u8> = vec![0u8; sz];
    let mut nread: usize = 0;
    let mut interrupted: u64 = 0;
    while nread < sz
        invariant
            vec@.len() == sz,
            nread <= sz,
        decreases sz - nread, u64::MAX - interrupted,
    {
        let res = read_into(rdr, &mut vec, nread);
        match read_step(res, sz - nread, interrupted) {
            ReadStep::Advance(n) => {
                nread = nread + n;
                interrupted = 0;
            },
            ReadStep::Retry => {
                interrupted = interrupted + 1;
            },
            ReadStep::EndOfStream => {
                return Err(other_error("Unexpected end of file."));
            },
            ReadStep::Overrun => {
                return Err(other_error("The reader claimed more bytes than it was given room for."));
            },
            ReadStep::Fail(e) => {
                return Err(e);
            },
        }
    }
    Ok(vec)
}

} // verus!
