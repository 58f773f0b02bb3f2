use vstd::prelude::*;
use vstd::string::StrSliceExecFns;
use vstd::string::StringSliceAdditionalSpecFns;

verus! {

/// Wraps an inner error type with the failures that the composite
/// operations themselves can produce: formatted text production failing,
/// a read starving before the destination is full, or a retrying write
/// running out of time.
#[derive(Debug, Copy, Clone, Eq, PartialEq)]
pub enum IoWrappedErr<E> {
    FmtError,
    UnexpectedEof,
    Timeout,
    Other(E),
}

/// A position to seek to.
#[derive(Debug, Copy, Clone, Eq, PartialEq, Structural)]
pub enum SeekFrom {
    /// Sets the offset to the provided number of bytes.
    Start(u64),
    /// Sets the offset to the size of this object plus the specified number of bytes.
    End(i64),
    /// Sets the offset to the current position plus the specified number of bytes.
    Current(i64),
}

/// A synchronous byte source.
///
/// The abstract model is the sequence of bytes this source has
/// delivered so far, in order: one read appends between zero and `buf`
/// length bytes to it, and what it appends is exactly what it put at
/// the front of the destination, so a consumer can account for every
/// byte and its position.
pub trait Read {
    type ReadError;

    /// The bytes this source has delivered to its consumers so far, in
    /// order. An implementation with a real account of its deliveries
    /// overrides this model.
    open spec fn delivered(&self) -> Seq<u8> {
        Seq::empty()
    }

    /// True when the source has nothing more to deliver: every further
    /// read returns zero bytes. An implementation that can run out
    /// overrides this model.
    open spec fn exhausted(&self) -> bool {
        false
    }

    /// Reads into the front of `buf`, returning how many bytes were
    /// delivered. The destination keeps its length, the bytes past the
    /// delivered count keep their values, and the delivered prefix is
    /// exactly what the source's delivery record grows by.
    fn read(&mut self, buf: &mut Vec<u8>) -> (r: Result<usize, Self::ReadError>)
        ensures
            final(buf)@.len() == old(buf)@.len(),
            r matches Ok(n) ==> n <= old(buf)@.len() && final(self).delivered() == old(self).delivered() + final(buf)@.take(n as int) && final(buf)@.skip(n as int) == old(buf)@.skip(n as int),
            r matches Err(_) ==> final(self).delivered() == old(self).delivered(),
            old(self).exhausted() ==> (r matches Ok(n) && n == 0) && final(self).exhausted(),
    ;

    /// Reads until the destination is full. A read that delivers zero
    /// bytes before that starves the operation: it fails with
    /// `UnexpectedEof` and never reports success for a partially filled
    /// destination — success means the destination holds, in order,
    /// exactly the bytes the source delivered during the call. An inner
    /// read error is passed on wrapped as `Other`. Even on failure,
    /// whatever was delivered sits at the destination's front, in
    /// order. An exhausted source always starves a nonempty
    /// destination.
    #[verifier::loop_isolation(false)]
    fn read_exact(&mut self, buf: &mut Vec<u8>) -> (r: Result<(), IoWrappedErr<Self::ReadError>>)
        ensures
            final(buf)@.len() == old(buf)@.len(),
            old(self).delivered().is_prefix_of(final(self).delivered()),
            r matches Ok(_) ==> final(self).delivered() == old(self).delivered() + final(buf)@,
            r matches Err(e) ==> (e is UnexpectedEof || e is Other) && final(self).delivered().len() < old(self).delivered().len() + old(buf)@.len(),
            final(self).delivered() == old(self).delivered() + final(buf)@.take(
                final(self).delivered().len() - old(self).delivered().len(),
            ),
            old(self).exhausted() && old(buf)@.len() > 0 ==> (r matches Err(e)
                && e is UnexpectedEof),
    {
        let ghost delivered0 = self.delivered();
        let len = buf.len();
        let mut filled: usize = 0;
        while filled < len
            invariant
                filled <= len,
                buf@.len() == len,
                self.delivered() == delivered0 + buf@.take(filled as int),
                old(self).exhausted() ==> self.exhausted() && filled == 0,
            decreases len - filled,
        {
            let mut tmp: Vec<u8> = Vec::new();
            tmp.resize(len - filled, 0u8);
            match self.read(&mut tmp) {
                Ok(n) => {
                    if n == 0 {
                        return Err(IoWrappedErr::UnexpectedEof);
                    }
                    let ghost buf_before = buf@;
                    let mut i: usize = 0;
                    while i < n
                        invariant
                            i <= n,
                            n <= tmp@.len(),
                            filled + n <= len,
                            buf@.len() == len,
                            tmp@.len() == len - filled,
                            buf@ == buf_before.take(filled as int) + tmp@.take(i as int)
                                + buf_before.skip((filled + i) as int),
                        decreases n - i,
                    {
                        let b = tmp[i];
                        buf.set(filled + i, b);
                        proof {
                            assert(buf@ =~= buf_before.take(filled as int) + tmp@.take(i + 1)
                                + buf_before.skip(filled + i + 1));
                        }
                        i += 1;
                    }
                    proof {
                        assert(buf@.take((filled + n) as int) =~= buf_before.take(filled as int)
                            + tmp@.take(n as int));
                        assert(self.delivered() =~= delivered0 + buf@.take((filled + n) as int));
                    }
                    filled += n;
                },
                Err(e) => {
                    return Err(IoWrappedErr::Other(e));
                },
            }
        }
        Ok(())
    }
}

/// A synchronous byte sink.
///
/// The abstract model is the sequence of bytes this sink has accepted
/// so far, in order: one write appends between zero and `buf` length
/// bytes to it, and what it appends is exactly the buffer's prefix of
/// the returned count. A sink whose writes are known never to accept
/// zero bytes of a nonempty buffer reports so through
/// `strictly_progressing`; `write_all` demands that, because a
/// zero-byte write inside it is a fatal contract violation of the inner
/// implementation, not a recoverable condition.
pub trait Write {
    type WriteError;

    /// The bytes this sink has accepted so far, in order. An
    /// implementation with a real account of what it accepts overrides
    /// this model.
    open spec fn accepted(&self) -> Seq<u8> {
        Seq::empty()
    }

    /// True of a sink that never accepts zero bytes of a nonempty
    /// buffer. An implementation that guarantees progress overrides
    /// this model; without the guarantee, `write_all` cannot be relied
    /// on.
    open spec fn strictly_progressing(&self) -> bool {
        false
    }

    /// Performs a single write attempt and returns the byte count the
    /// sink actually accepted: the sink's acceptance record grows by
    /// exactly that prefix of the buffer.
    fn write(&mut self, buf: &Vec<u8>) -> (r: Result<usize, Self::WriteError>)
        ensures
            r matches Ok(n) ==> n <= buf@.len() && final(self).accepted() == old(self).accepted() + buf@.take(n as int),
            r matches Err(_) ==> final(self).accepted() == old(self).accepted(),
            old(self).strictly_progressing() ==> final(self).strictly_progressing(),
            old(self).strictly_progressing() && buf@.len() > 0 ==> (r matches Ok(n) ==> n > 0),
    ;

    fn flush(&mut self) -> Result<(), Self::WriteError>;

    /// Writes the whole buffer, looping single writes over the remainder
    /// until the source is exhausted. Success means the sink accepted
    /// every byte, in order; even on failure, what the sink accepted is
    /// a prefix of the buffer, in order.
    #[verifier::loop_isolation(false)]
    fn write_all(&mut self, buf: &Vec<u8>) -> (r: Result<(), Self::WriteError>)
        requires
            old(self).strictly_progressing(),
        ensures
            old(self).accepted().is_prefix_of(final(self).accepted()),
            r matches Ok(_) ==> final(self).accepted() == old(self).accepted() + buf@,
            r matches Err(_) ==> final(self).accepted().len() < old(self).accepted().len()
                + buf@.len(),
            final(self).accepted() == old(self).accepted() + buf@.take(
                final(self).accepted().len() - old(self).accepted().len(),
            ),
            final(self).strictly_progressing(),
    {
        let ghost accepted0 = self.accepted();
        let len = buf.len();
        let mut written: usize = 0;
        while written < len
            invariant
                written <= len,
                buf@.len() == len,
                self.accepted() == accepted0 + buf@.take(written as int),
                self.strictly_progressing(),
            decreases len - written,
        {
            let mut rest: Vec<u8> = Vec::new();
            let mut i: usize = written;
            while i < len
                invariant
                    written <= i <= len,
                    buf@.len() == len,
                    rest@ == buf@.subrange(written as int, i as int),
                decreases len - i,
            {
                let b = buf[i];
                rest.push(b);
                proof {
                    assert(rest@ =~= buf@.subrange(written as int, i + 1));
                }
                i += 1;
            }
            match self.write(&rest) {
                Ok(n) => {
                    proof {
                        assert(buf@.take((written + n) as int) =~= buf@.take(written as int)
                            + rest@.take(n as int));
                        assert(self.accepted() =~= accepted0 + buf@.take((written + n) as int));
                    }
                    written += n;
                },
                Err(e) => {
                    return Err(e);
                },
            }
        }
        proof {
            assert(buf@.take(len as int) =~= buf@);
        }
        Ok(())
    }

    /// Writes a piece of already-produced text in full, wrapping the
    /// sink's error. The text production itself (formatting) happens
    /// outside; this is the writing half of formatted output.
    fn write_str_all(&mut self, text: &str) -> (r: Result<(), IoWrappedErr<Self::WriteError>>)
        requires
            old(self).strictly_progressing(),
        ensures
            old(self).accepted().is_prefix_of(final(self).accepted()),
            r matches Ok(_) ==> final(self).accepted() == old(self).accepted()
                + text.spec_bytes(),
            r matches Err(e) ==> e is Other,
            final(self).strictly_progressing(),
    {
        let bytes = text.as_bytes_vec();
        match self.write_all(&bytes) {
            Ok(()) => Ok(()),
            Err(e) => Err(IoWrappedErr::Other(e)),
        }
    }
}

/// A capability to move the stream position.
pub trait Seek {
    type SeekError;

    /// The stream position this seeker currently reports. An
    /// implementation with a real position overrides this model.
    open spec fn stream_pos(&self) -> u64 {
        0
    }

    /// Moves the stream position and returns the resulting absolute offset.
    fn seek(&mut self, pos: SeekFrom) -> (r: Result<u64, Self::SeekError>)
        ensures
            r matches Ok(p) ==> p == final(self).stream_pos(),
            pos matches SeekFrom::Start(off) ==> (r matches Ok(p) ==> p == off),
            pos == SeekFrom::Current(0i64) && r is Ok ==> final(self).stream_pos() == old(self).stream_pos(),
    ;

    /// Seeks back to the start of the stream.
    fn rewind(&mut self) -> (r: Result<(), Self::SeekError>)
        ensures
            r matches Ok(_) ==> final(self).stream_pos() == 0,
    {
        match self.seek(SeekFrom::Start(0)) {
            Ok(_) => Ok(()),
            Err(e) => Err(e),
        }
    }

    /// Reports the current position without moving it.
    fn stream_position(&mut self) -> (r: Result<u64, Self::SeekError>)
        ensures
            r matches Ok(p) ==> p == old(self).stream_pos() && final(self).stream_pos() == old(self).stream_pos(),
    {
        self.seek(SeekFrom::Current(0))
    }
}

/// One step of a retrying write: either the operation is finished with
/// an outcome, or no progress was made and the caller should sleep for
/// the configured interval and try again.
pub enum RetryStep<E> {
    Done(Result<usize, IoWrappedErr<E>>),
    SleepThenRetry,
}

/// A wrapper around a `Write` implementer that retries writes which make
/// no progress until a deadline, sleeping between attempts.
///
/// Useful for non-blocking facilities, or for creating failure-resistant
/// structures in failure-prone environments. The clock and the sleeping
/// are the surrounding program's: it measures the time elapsed since the
/// call began and feeds each attempt through `write`, sleeping whenever
/// the step asks it to.
pub struct RetryWrite<W> {
    timeout: u64,
    sleep_for: u32,
    inner: W,
}

impl<W: Write> RetryWrite<W> {
    /// The deadline for one retried write, in seconds.
    pub closed spec fn timeout_secs(&self) -> u64 {
        self.timeout
    }

    /// The pause between attempts, in milliseconds.
    pub closed spec fn sleep_between(&self) -> u32 {
        self.sleep_for
    }

    /// The wrapped sink.
    pub closed spec fn spec_inner(&self) -> W {
        self.inner
    }

    /// Creates a new wrapper.
    ///
    /// # Arguments
    ///
    /// - `w` is the `Write` implementer.
    /// - `timeout_secs` is the amount of time to try to write for, in seconds.
    /// - `sleep_between` is the amount of time to sleep between tries, in milliseconds.
    pub fn new(w: W, timeout_secs: u64, sleep_between: u32) -> (r: Self)
        ensures
            r.timeout_secs() == timeout_secs,
            r.sleep_between() == sleep_between,
            r.spec_inner() == w,
    {
        Self { timeout: timeout_secs, inner: w, sleep_for: sleep_between }
    }

    /// The pause between attempts, in milliseconds, for the driving loop.
    pub fn sleep_interval(&self) -> (ms: u32)
        ensures
            ms == self.sleep_between(),
    {
        self.sleep_for
    }

    /// One attempt of the retrying write, given the time elapsed since
    /// the whole operation began.
    ///
    /// At or after the deadline the operation finishes with `Timeout`,
    /// and `Timeout` is reported in no other circumstance. Before the
    /// deadline, one inner write is attempted: a nonzero count finishes
    /// the operation with that count at once — no sleep — an inner error
    /// finishes it with that error, and a zero-byte write asks the caller
    /// to sleep and retry.
    pub fn write(&mut self, buf: &Vec<u8>, elapsed_secs: u64) -> (step: RetryStep<W::WriteError>)
        ensures
            elapsed_secs >= old(self).timeout_secs() ==> (step matches RetryStep::Done(res)
                && res matches Err(e) && e is Timeout) && *final(self) == *old(self),
            (step matches RetryStep::Done(res) && res matches Err(e) && e is Timeout)
                ==> elapsed_secs >= old(self).timeout_secs(),
            step matches RetryStep::Done(res) ==> (res matches Ok(n) ==> n > 0 && n <= buf@.len()
                && final(self).spec_inner().accepted() == old(self).spec_inner().accepted()
                + buf@.take(n as int)),
            step matches RetryStep::Done(res) ==> ((res matches Err(e) && e is Other) ==> final(self).spec_inner().accepted() == old(self).spec_inner().accepted()),
            step is SleepThenRetry ==> elapsed_secs < old(self).timeout_secs() && final(self).spec_inner().accepted() == old(self).spec_inner().accepted(),
            final(self).timeout_secs() == old(self).timeout_secs(),
            final(self).sleep_between() == old(self).sleep_between(),
    {
        if elapsed_secs >= self.timeout {
            return RetryStep::Done(Err(IoWrappedErr::Timeout));
        }
        match self.inner.write(buf) {
            Ok(n) => {
                if n == 0 {
                    RetryStep::SleepThenRetry
                } else {
                    RetryStep::Done(Ok(n))
                }
            },
            Err(e) => RetryStep::Done(Err(IoWrappedErr::Other(e))),
        }
    }
}

} // verus!
