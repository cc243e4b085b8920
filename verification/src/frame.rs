//! Reading a number of bytes within a deadline.
//!
//! A transport hands over bytes in pieces, and a single read on it may time
//! out with nothing. A `FrameReader` gathers the pieces of one bounded read:
//! the host asks it what to do, reads once from the transport if it says
//! so, and tells it what came. Time is the host's: it passes the time that
//! has gone by since the read began, in the unit of the deadline.
//!
//! ```text
//! let mut frame = FrameReader::new(count, timeout);
//! while let Poll::Fetch(most) = frame.poll(elapsed(&started)) {
//!     match port.read(&mut buffer[..most]) {
//!         Ok(n) => frame.accept(&buffer[..n]),
//!         Err(e) if e.kind() == ErrorKind::TimedOut => {}
//!         Err(_) => frame.fail(),
//!     }
//! }
//! let event = frame.into_event();
//! ```

use vstd::prelude::*;
use crate::message::{Event, EventView};

verus! {

/// The most bytes asked of the transport in one read.
pub const READ_BUFFER: usize = 255;

/// What the host is to do next for a read in progress.
#[derive(Clone, Copy, Debug, PartialEq, Eq)]
pub enum Poll {
    /// Read once from the transport, at most this many bytes.
    Fetch(usize),
    /// The read is over.
    Stop,
}

/// A read that ended because the transport failed, with the bytes that had
/// arrived until then.
#[derive(Clone, Debug, PartialEq, Eq)]
pub struct IoError {
    pub partial: Vec<u8>,
}

/// A read in progress as a mathematical value: the number of bytes asked
/// for, the deadline (zero for none), the bytes gathered so far, and
/// whether the transport has failed.
pub struct FrameView {
    pub wanted: nat,
    pub timeout: u64,
    pub bytes: Seq<u8>,
    pub failed: bool,
}

impl FrameView {
    /// No more bytes are gathered than were asked for.
    pub open spec fn wf(self) -> bool {
        self.bytes.len() <= self.wanted
    }

    /// The number of bytes still missing.
    pub open spec fn missing(self) -> nat {
        if self.bytes.len() <= self.wanted {
            (self.wanted - self.bytes.len()) as nat
        } else {
            0
        }
    }

    /// Whether the read goes on once `elapsed` time has gone by: bytes are
    /// missing, the transport has not failed, and the deadline, if there is
    /// one, has not been reached.
    pub open spec fn goes_on(self, elapsed: u64) -> bool {
        &&& !self.failed
        &&& self.missing() > 0
        &&& (self.timeout == 0 || elapsed < self.timeout)
    }

    /// What the host is told to do once `elapsed` time has gone by.
    pub open spec fn poll(self, elapsed: u64) -> Poll {
        if self.goes_on(elapsed) {
            if self.missing() < READ_BUFFER {
                Poll::Fetch(self.missing() as usize)
            } else {
                Poll::Fetch(READ_BUFFER)
            }
        } else {
            Poll::Stop
        }
    }

    /// The read after `chunk` has arrived: the chunk is put behind what was
    /// there, and what goes beyond the number of bytes asked for is left
    /// out.
    pub open spec fn accept(self, chunk: Seq<u8>) -> FrameView {
        let all = self.bytes + chunk;
        FrameView {
            bytes: if all.len() <= self.wanted {
                all
            } else {
                all.take(self.wanted as int)
            },
            ..self
        }
    }

    /// The read after the transport has failed.
    pub open spec fn fail(self) -> FrameView {
        FrameView { failed: true, ..self }
    }

    /// How the read is reported to a session.
    pub open spec fn event(self) -> EventView {
        if self.failed {
            EventView::Failed
        } else {
            EventView::Received(self.bytes)
        }
    }
}

/// One bounded read in progress.
pub struct FrameReader {
    wanted: usize,
    timeout: u64,
    bytes: Vec<u8>,
    failed: bool,
}

impl View for FrameReader {
    type V = FrameView;

    closed spec fn view(&self) -> FrameView {
        FrameView {
            wanted: self.wanted as nat,
            timeout: self.timeout,
            bytes: self.bytes@,
            failed: self.failed,
        }
    }
}

impl FrameReader {
    /// The invariant of a read in progress.
    pub open spec fn wf(&self) -> bool {
        self@.wf()
    }

    /// Begins a read of `count` bytes that gives up once `timeout` has gone
    /// by, or never if `timeout` is zero.
    pub fn new(count: usize, timeout: u64) -> (frame: FrameReader)
        ensures
            frame.wf(),
            frame@ == (FrameView {
                wanted: count as nat,
                timeout,
                bytes: Seq::empty(),
                failed: false,
            }),
    {
        FrameReader { wanted: count, timeout, bytes: Vec::new(), failed: false }
    }

    /// Says what to do now that `elapsed` has gone by since the read began:
    /// read again, for at most the bytes that are missing, or stop.
    pub fn poll(&self, elapsed: u64) -> (poll: Poll)
        requires
            self.wf(),
        ensures
            poll == self@.poll(elapsed),
    {
        let missing: usize = self.wanted - self.bytes.len();
        if self.failed || missing == 0 || (self.timeout != 0 && elapsed >= self.timeout) {
            Poll::Stop
        } else if missing < READ_BUFFER {
            Poll::Fetch(missing)
        } else {
            Poll::Fetch(READ_BUFFER)
        }
    }

    /// Takes the bytes of one read on the transport, in the order in which
    /// they arrived.
    pub fn accept(&mut self, chunk: &[u8])
        requires
            old(self).wf(),
        ensures
            final(self).wf(),
            final(self)@ == old(self)@.accept(chunk@),
    {
        let missing: usize = self.wanted - self.bytes.len();
        let taken: usize = if chunk.len() <= missing {
            chunk.len()
        } else {
            missing
        };
        let mut i: usize = 0;
        while i < taken
            invariant
                i <= taken,
                taken <= chunk@.len(),
                self.wanted == old(self).wanted,
                self.timeout == old(self).timeout,
                self.failed == old(self).failed,
                self.bytes@ == old(self).bytes@ + chunk@.take(i as int),
            decreases taken - i,
        {
            self.bytes.push(chunk[i]);
            i = i + 1;
            assert(self.bytes@ =~= old(self).bytes@ + chunk@.take(i as int));
        }
        assert(self.bytes@ =~= old(self)@.accept(chunk@).bytes);
    }

    /// Records that the transport failed with something other than a
    /// timeout. The read stops, and keeps the bytes it has.
    pub fn fail(&mut self)
        requires
            old(self).wf(),
        ensures
            final(self).wf(),
            final(self)@ == old(self)@.fail(),
    {
        self.failed = true;
    }

    /// Ends the read: the bytes that arrived, which are fewer than were
    /// asked for if the deadline passed, or the failure of the transport
    /// with the bytes that had arrived.
    pub fn finish(self) -> (result: Result<Vec<u8>, IoError>)
        ensures
            match result {
                Ok(bytes) => !self@.failed && bytes@ == self@.bytes,
                Err(error) => self@.failed && error.partial@ == self@.bytes,
            },
    {
        if self.failed {
            Err(IoError { partial: self.bytes })
        } else {
            Ok(self.bytes)
        }
    }

    /// Ends the read and reports it as the event a session waits for.
    pub fn into_event(self) -> (event: Event)
        ensures
            event@ == self@.event(),
    {
        if self.failed {
            Event::Failed
        } else {
            Event::Received(self.bytes)
        }
    }
}

/// A read stops at its deadline: once the time gone by has reached a
/// deadline other than zero, the host is told to stop, whatever arrived.
pub proof fn lemma_deadline_stops(frame: FrameView, elapsed: u64)
    requires
        frame.timeout != 0,
        elapsed >= frame.timeout,
    ensures
        frame.poll(elapsed) == Poll::Stop,
{
}

/// A read without a deadline that nothing has failed goes on until every
/// byte is there, however much time goes by.
pub proof fn lemma_no_deadline_waits(frame: FrameView, elapsed: u64)
    requires
        frame.wf(),
        frame.timeout == 0,
        !frame.failed,
    ensures
        frame.poll(elapsed) == Poll::Stop <==> frame.bytes.len() == frame.wanted,
{
}

/// The host is never asked for more bytes than are missing, nor for none.
pub proof fn lemma_fetch_is_bounded(frame: FrameView, elapsed: u64)
    requires
        frame.wf(),
    ensures
        frame.poll(elapsed) matches Poll::Fetch(most) ==> 0 < most <= frame.missing() && most
            <= READ_BUFFER,
{
}

/// Chunks are gathered in the order in which they arrive: as long as they
/// fit, the bytes are those of the first chunk followed by those of the
/// second, and taking them one after the other is the same as taking them
/// joined.
pub proof fn lemma_accept_in_order(frame: FrameView, first: Seq<u8>, second: Seq<u8>)
    requires
        frame.wf(),
    ensures
        frame.accept(first).wf(),
        frame.accept(first).accept(second) == frame.accept(first + second),
        frame.bytes.len() + first.len() + second.len() <= frame.wanted ==> frame.accept(
            first,
        ).accept(second).bytes == frame.bytes + first + second,
{
    let a = frame.accept(first).accept(second);
    let b = frame.accept(first + second);
    assert(a.bytes =~= b.bytes);
    if frame.bytes.len() + first.len() + second.len() <= frame.wanted {
        assert(a.bytes =~= frame.bytes + first + second);
    }
}

} // verus!
