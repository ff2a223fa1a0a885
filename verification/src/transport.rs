//! The byte-transport capability the encoder writes through.

use vstd::prelude::*;

verus! {

/// A capacity lowered by `n` accepted writes: a bounded capacity shrinks
/// (never below zero), an unbounded one stays unbounded.
pub open spec fn cap_minus(cap: Option<nat>, n: nat) -> Option<nat> {
    match cap {
        Some(k) => Some(if n <= k { (k - n) as nat } else { 0 }),
        None => None,
    }
}

/// Whether a transport with this capacity will accept `n` more writes.
pub open spec fn accepts_writes<T: Transport>(t: T, n: nat) -> bool {
    match t.write_capacity() {
        Some(k) => n <= k,
        None => true,
    }
}

/// How many bytes of an `n`-byte burst this transport will accept: all of
/// them, or its remaining capacity, whichever is smaller.
pub open spec fn accepted_prefix_len<T: Transport>(t: T, n: nat) -> nat {
    match t.write_capacity() {
        Some(k) => if k < n {
            k
        } else {
            n
        },
        None => n,
    }
}

/// Whether a whole `n`-byte command, including its trailing flush, will go
/// through this transport.
pub open spec fn takes_command<T: Transport>(t: T, n: nat) -> bool {
    accepts_writes(t, n) && t.flush_ready()
}

/// A fallible byte sink: "write one byte" and "flush", each of which may fail
/// with a transport-specific error. The trait knows nothing of printer
/// semantics; any test double or serial-port model satisfies it.
///
/// Two ghost views describe a transport's observable history: `bytes_written`
/// is the sequence of bytes accepted so far, and `flushes` counts the flushes
/// that completed. A failed `write_byte` accepts nothing, so a multi-byte
/// command aborted mid-way leaves exactly the bytes written before the failure.
///
/// Two more ghost views make an implementation's failures a function of its
/// modeled state, so callers can conclude when calls succeed and where a burst
/// is cut off: `write_capacity` is how many more writes will be accepted
/// (`None` for all of them), and `flush_ready` says whether flushes succeed.
/// A test double schedules its failures through them.
pub trait Transport: Sized {
    /// The transport's own error type, reported upward unchanged.
    type Error;

    /// Every byte this transport has accepted, in order.
    spec fn bytes_written(&self) -> Seq<u8>;

    /// How many flushes have completed.
    spec fn flushes(&self) -> nat;

    /// How many more writes this transport will accept before refusing every
    /// later one; `None` means every write is accepted.
    spec fn write_capacity(&self) -> Option<nat>;

    /// Whether flushes succeed on this transport.
    spec fn flush_ready(&self) -> bool;

    /// Write one byte. It is accepted exactly when capacity remains: then the
    /// byte is appended to the transport's history and the capacity drops by
    /// one; otherwise nothing changes.
    fn write_byte(&mut self, byte: u8) -> (r: Result<(), Self::Error>)
        ensures
            final(self).flushes() == old(self).flushes(),
            final(self).flush_ready() == old(self).flush_ready(),
            r is Ok <==> (old(self).write_capacity() matches Some(k) ==> k > 0),
            r is Ok ==> final(self).bytes_written() == old(self).bytes_written().push(byte),
            r is Ok ==> final(self).write_capacity() == cap_minus(old(self).write_capacity(), 1),
            r is Err ==> final(self).bytes_written() == old(self).bytes_written(),
            r is Err ==> final(self).write_capacity() == old(self).write_capacity(),
    ;

    /// Flush the transport. It succeeds exactly when the transport is ready to
    /// flush; flushing never alters the byte history or the write capacity,
    /// and on success exactly one flush is recorded, on failure none.
    fn flush(&mut self) -> (r: Result<(), Self::Error>)
        ensures
            final(self).bytes_written() == old(self).bytes_written(),
            final(self).write_capacity() == old(self).write_capacity(),
            final(self).flush_ready() == old(self).flush_ready(),
            r is Ok <==> old(self).flush_ready(),
            r is Ok ==> final(self).flushes() == old(self).flushes() + 1,
            r is Err ==> final(self).flushes() == old(self).flushes(),
    ;
}

} // verus!
