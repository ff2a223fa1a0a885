//! An in-memory transport that records every byte, for tests and for
//! exercising the encoder's failure semantics.

use vstd::prelude::*;
use crate::transport::Transport;

verus! {

/// The error a [`MockTransport`] reports when it is told to fail.
#[derive(Clone, Copy, Debug, PartialEq, Eq, Structural)]
pub struct MockError;

/// A transport that appends every accepted byte to an in-memory log and counts
/// flushes. It can be told to refuse bytes from a given position on, and to
/// refuse flushes, so callers can observe exactly where a multi-byte command
/// was cut off.
///
/// The flush count is tracked exactly in ghost state; the observable counter
/// saturates at `u64::MAX` instead of failing, so a mock that was not told to
/// fail never does.
pub struct MockTransport {
    log: Vec<u8>,
    flush_count: u64,
    flush_count_all: Ghost<nat>,
    fail_from: Option<u64>,
    fail_flush: bool,
}

impl MockTransport {
    #[verifier::type_invariant]
    spec fn counters_agree(self) -> bool {
        self.flush_count as nat == if self.flush_count_all@ < u64::MAX as nat {
            self.flush_count_all@
        } else {
            u64::MAX as nat
        }
    }

    /// A transport that accepts everything.
    pub fn new() -> (r: MockTransport)
        ensures
            r.bytes_written() == Seq::<u8>::empty(),
            r.flushes() == 0,
            r.write_capacity() is None,
            r.flush_ready(),
    {
        MockTransport {
            log: Vec::new(),
            flush_count: 0,
            flush_count_all: Ghost(0),
            fail_from: None,
            fail_flush: false,
        }
    }

    /// A transport that accepts the first `n` bytes and refuses every byte
    /// after them (flushes still succeed).
    pub fn failing_from(n: u64) -> (r: MockTransport)
        ensures
            r.bytes_written() == Seq::<u8>::empty(),
            r.flushes() == 0,
            r.write_capacity() == Some(n as nat),
            r.flush_ready(),
    {
        MockTransport {
            log: Vec::new(),
            flush_count: 0,
            flush_count_all: Ghost(0),
            fail_from: Some(n),
            fail_flush: false,
        }
    }

    /// A transport that accepts every byte but refuses to flush.
    pub fn failing_flush() -> (r: MockTransport)
        ensures
            r.bytes_written() == Seq::<u8>::empty(),
            r.flushes() == 0,
            r.write_capacity() is None,
            !r.flush_ready(),
    {
        MockTransport {
            log: Vec::new(),
            flush_count: 0,
            flush_count_all: Ghost(0),
            fail_from: None,
            fail_flush: true,
        }
    }

    /// The log of accepted bytes.
    pub fn written(&self) -> (r: &Vec<u8>)
        ensures
            r@ == self.bytes_written(),
    {
        &self.log
    }

    /// How many flushes have completed: exact below `u64::MAX`, saturated
    /// there.
    pub fn flush_total(&self) -> (r: u64)
        ensures
            self.flushes() <= u64::MAX ==> r as nat == self.flushes(),
            self.flushes() > u64::MAX ==> r == u64::MAX,
    {
        proof {
            use_type_invariant(&*self);
        }
        self.flush_count
    }
}

impl Transport for MockTransport {
    type Error = MockError;

    closed spec fn bytes_written(&self) -> Seq<u8> {
        self.log@
    }

    closed spec fn flushes(&self) -> nat {
        self.flush_count_all@
    }

    closed spec fn write_capacity(&self) -> Option<nat> {
        match self.fail_from {
            Some(n) => Some(
                if self.log@.len() < n {
                    (n - self.log@.len()) as nat
                } else {
                    0
                },
            ),
            None => None,
        }
    }

    closed spec fn flush_ready(&self) -> bool {
        !self.fail_flush
    }

    fn write_byte(&mut self, byte: u8) -> (r: Result<(), MockError>) {
        match self.fail_from {
            Some(n) => {
                if self.log.len() as u64 >= n {
                    return Err(MockError);
                }
            }
            None => {}
        }
        proof {
            use_type_invariant(&*self);
        }
        // The type invariant forbids lending a field to a call that may
        // unwind, so the log is swapped out, grown, and swapped back.
        let mut log: Vec<u8> = Vec::new();
        core::mem::swap(&mut self.log, &mut log);
        log.push(byte);
        core::mem::swap(&mut self.log, &mut log);
        Ok(())
    }

    fn flush(&mut self) -> (r: Result<(), MockError>) {
        if self.fail_flush {
            return Err(MockError);
        }
        proof {
            use_type_invariant(&*self);
        }
        let new_count: u64 = if self.flush_count < u64::MAX {
            self.flush_count + 1
        } else {
            self.flush_count
        };
        let mut log: Vec<u8> = Vec::new();
        core::mem::swap(&mut self.log, &mut log);
        *self = MockTransport {
            log,
            flush_count: new_count,
            flush_count_all: Ghost(self.flush_count_all@ + 1),
            fail_from: self.fail_from,
            fail_flush: self.fail_flush,
        };
        Ok(())
    }
}

} // verus!
