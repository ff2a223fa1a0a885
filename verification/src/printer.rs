//! The command encoder: owns a transport, translates printer operations into
//! byte sequences, and writes them through it.

use vstd::prelude::*;
use crate::commands::{
    bold_bytes, configure_bytes, encode_bold, encode_configure, encode_feed, encode_justify,
    encode_self_test_tail, encode_underline, feed_bytes, justify_bytes, self_test_bytes,
    underline_bytes, Dialect, Justification,
};
use crate::transport::{accepted_prefix_len, accepts_writes, cap_minus, takes_command, Transport};

verus! {

/// The encoder before and after an operation that only writes bytes: its own
/// settings (feed dialect and the two timing defaults) are untouched.
pub open spec fn same_settings<T: Transport>(
    pre: ThermalPrinter<T>,
    post: ThermalPrinter<T>,
) -> bool {
    &&& post.spec_dialect() == pre.spec_dialect()
    &&& post.spec_dot_print_time() == pre.spec_dot_print_time()
    &&& post.spec_dot_feed_time() == pre.spec_dot_feed_time()
}

/// A successful operation: the whole command went on the wire, in order and
/// with nothing interleaved, and exactly one flush followed it.
pub open spec fn sent_exactly<T: Transport>(
    pre: ThermalPrinter<T>,
    post: ThermalPrinter<T>,
    cmd: Seq<u8>,
) -> bool {
    &&& post.bytes_written() == pre.bytes_written() + cmd
    &&& post.flushes() == pre.flushes() + 1
}

/// A failed operation: it stopped at the failing byte, so the transcript grew
/// by exactly the bytes of the command the transport would still accept (all
/// of them, when only the flush failed), and no flush was recorded.
pub open spec fn aborted_exactly<T: Transport>(
    pre: ThermalPrinter<T>,
    post: ThermalPrinter<T>,
    cmd: Seq<u8>,
) -> bool {
    &&& post.bytes_written() == pre.bytes_written()
        + cmd.take(accepted_prefix_len(pre, cmd.len()) as int)
    &&& post.flushes() == pre.flushes()
}

/// Law: a failed operation leaves the earlier transcript untouched and adds
/// only bytes of the current command, in order, up to the failure: no byte
/// past the failing one, and nothing foreign, reaches the wire.
pub proof fn lemma_aborted_operation_writes_a_command_prefix<T: Transport>(
    pre: ThermalPrinter<T>,
    post: ThermalPrinter<T>,
    cmd: Seq<u8>,
)
    requires
        aborted_exactly(pre, post, cmd),
    ensures
        pre.bytes_written().len() <= post.bytes_written().len() <= pre.bytes_written().len()
            + cmd.len(),
        post.bytes_written().take(pre.bytes_written().len() as int) == pre.bytes_written(),
        forall|j: int|
            pre.bytes_written().len() <= j < post.bytes_written().len()
                ==> post.bytes_written()[j] == cmd[j - pre.bytes_written().len()],
{
    assert(post.bytes_written().take(pre.bytes_written().len() as int) =~= pre.bytes_written());
}

/// Law: when callers are serialized per whole operation (as a lock held for
/// one logical operation gives), the byte stream is the concatenation of
/// complete commands in the serial order — no half-command stands between or
/// inside two successful operations.
pub proof fn lemma_serialized_operations_concatenate<T: Transport>(
    first: ThermalPrinter<T>,
    second: ThermalPrinter<T>,
    third: ThermalPrinter<T>,
    cmd_a: Seq<u8>,
    cmd_b: Seq<u8>,
)
    requires
        sent_exactly(first, second, cmd_a),
        sent_exactly(second, third, cmd_b),
    ensures
        third.bytes_written() == first.bytes_written() + cmd_a + cmd_b,
        third.flushes() == first.flushes() + 2,
{
    assert(third.bytes_written() =~= first.bytes_written() + cmd_a + cmd_b);
}

/// Where the self-test operation is cut off by a transport that will not take
/// all of it: at the transport's write capacity, or — when only its flush
/// fails — at the end of the centering command, whose flush comes first.
pub open spec fn self_test_cut<T: Transport>(t: ThermalPrinter<T>) -> nat {
    if t.flush_ready() {
        accepted_prefix_len(t, self_test_bytes().len())
    } else {
        accepted_prefix_len(t, justify_bytes(Justification::Center).len())
    }
}

/// A thermal-printer command encoder over a byte transport. Every operation
/// builds one fixed-layout command, writes it byte by byte, then flushes; a
/// transport failure aborts the rest of the current command and is returned
/// unchanged.
#[derive(Clone)]
pub struct ThermalPrinter<T: Transport> {
    port: T,
    dialect: Dialect,
    dot_print_time: u64,
    dot_feed_time: u64,
}

impl<T: Transport> ThermalPrinter<T> {
    /// The transport this encoder owns.
    pub closed spec fn spec_port(&self) -> T {
        self.port
    }

    /// The feed dialect this encoder targets.
    pub closed spec fn spec_dialect(&self) -> Dialect {
        self.dialect
    }

    /// Dwell time per printed dot, in microseconds. Advisory default; sent to
    /// the printer only through an explicit `configure`.
    pub closed spec fn spec_dot_print_time(&self) -> u64 {
        self.dot_print_time
    }

    /// Dwell time per feed step, in microseconds. Advisory default; sent to
    /// the printer only through an explicit `configure`.
    pub closed spec fn spec_dot_feed_time(&self) -> u64 {
        self.dot_feed_time
    }

    /// The feed dialect this encoder targets.
    pub fn dialect(&self) -> (r: Dialect)
        ensures
            r == self.spec_dialect(),
    {
        self.dialect
    }

    /// Dwell time per printed dot, in microseconds.
    pub fn dot_print_time(&self) -> (r: u64)
        ensures
            r == self.spec_dot_print_time(),
    {
        self.dot_print_time
    }

    /// Dwell time per feed step, in microseconds.
    pub fn dot_feed_time(&self) -> (r: u64)
        ensures
            r == self.spec_dot_feed_time(),
    {
        self.dot_feed_time
    }

    /// Take ownership of an already-opened transport. The default timing
    /// constants follow the common firmware defaults; the feed dialect
    /// defaults to the parameterized command.
    pub fn new(port: T) -> (r: ThermalPrinter<T>)
        ensures
            r.spec_port() == port,
            r.bytes_written() == port.bytes_written(),
            r.flushes() == port.flushes(),
            r.write_capacity() == port.write_capacity(),
            r.flush_ready() == port.flush_ready(),
            r.spec_dialect() == Dialect::Parameterized,
            r.spec_dot_print_time() == 30000u64,
            r.spec_dot_feed_time() == 2100u64,
    {
        ThermalPrinter {
            port,
            dialect: Dialect::Parameterized,
            dot_print_time: 30000,
            dot_feed_time: 2100,
        }
    }

    /// Select the firmware dialect used for multi-line feeds. No bytes are
    /// sent.
    pub fn set_dialect(&mut self, dialect: Dialect)
        ensures
            final(self).spec_dialect() == dialect,
            final(self).spec_port() == old(self).spec_port(),
            final(self).bytes_written() == old(self).bytes_written(),
            final(self).flushes() == old(self).flushes(),
            final(self).write_capacity() == old(self).write_capacity(),
            final(self).flush_ready() == old(self).flush_ready(),
            final(self).spec_dot_print_time() == old(self).spec_dot_print_time(),
            final(self).spec_dot_feed_time() == old(self).spec_dot_feed_time(),
    {
        self.dialect = dialect;
    }

    /// Write every byte of `buffer` through the transport, in order, stopping
    /// at the first failure. No flush is performed. The call succeeds exactly
    /// when the transport will accept the whole buffer; otherwise exactly the
    /// bytes within its capacity are written.
    pub fn write_all(&mut self, buffer: &Vec<u8>) -> (r: Result<(), T::Error>)
        ensures
            same_settings(*old(self), *final(self)),
            final(self).flushes() == old(self).flushes(),
            final(self).flush_ready() == old(self).flush_ready(),
            final(self).write_capacity() == cap_minus(
                old(self).write_capacity(),
                accepted_prefix_len(*old(self), buffer@.len()),
            ),
            r is Ok <==> accepts_writes(*old(self), buffer@.len()),
            r is Ok ==> final(self).bytes_written() == old(self).bytes_written() + buffer@,
            r is Err ==> final(self).bytes_written() == old(self).bytes_written()
                + buffer@.take(accepted_prefix_len(*old(self), buffer@.len()) as int),
    {
        let mut k: usize = 0;
        while k < buffer.len()
            invariant
                k <= buffer@.len(),
                same_settings(*old(self), *self),
                self.flushes() == old(self).flushes(),
                self.flush_ready() == old(self).flush_ready(),
                accepts_writes(*old(self), k as nat),
                self.write_capacity() == cap_minus(old(self).write_capacity(), k as nat),
                self.bytes_written() == old(self).bytes_written() + buffer@.take(k as int),
            decreases buffer@.len() - k,
        {
            match self.port.write_byte(buffer[k]) {
                Ok(()) => {}
                Err(e) => {
                    proof {
                        assert(accepted_prefix_len(*old(self), buffer@.len()) == k as nat);
                    }
                    return Err(e);
                }
            }
            k = k + 1;
            proof {
                assert(old(self).bytes_written() + buffer@.take(k - 1).push(buffer@[k - 1])
                    =~= old(self).bytes_written() + buffer@.take(k as int));
            }
        }
        proof {
            assert(buffer@.take(buffer@.len() as int) =~= buffer@);
        }
        Ok(())
    }

    /// Write one whole command, then flush: the shared tail of every printer
    /// operation.
    fn send_command(&mut self, cmd: &Vec<u8>) -> (r: Result<(), T::Error>)
        ensures
            same_settings(*old(self), *final(self)),
            final(self).flush_ready() == old(self).flush_ready(),
            final(self).write_capacity() == cap_minus(
                old(self).write_capacity(),
                accepted_prefix_len(*old(self), cmd@.len()),
            ),
            r is Ok <==> takes_command(*old(self), cmd@.len()),
            r is Ok ==> sent_exactly(*old(self), *final(self), cmd@),
            r is Err ==> aborted_exactly(*old(self), *final(self), cmd@),
    {
        match self.write_all(cmd) {
            Ok(()) => {}
            Err(e) => {
                return Err(e);
            }
        }
        match self.port.flush() {
            Ok(()) => Ok(()),
            Err(e) => {
                proof {
                    assert(cmd@.take(cmd@.len() as int) =~= cmd@);
                }
                Err(e)
            }
        }
    }

    /// Send the heating configuration `[ESC, 0x37, dots, time, interval]`.
    /// The three parameters are raw firmware bytes; the caller is responsible
    /// for firmware-valid ranges.
    pub fn configure(&mut self, dots: u8, time: u8, interval: u8) -> (r: Result<(), T::Error>)
        ensures
            same_settings(*old(self), *final(self)),
            final(self).flush_ready() == old(self).flush_ready(),
            final(self).write_capacity() == cap_minus(
                old(self).write_capacity(),
                accepted_prefix_len(*old(self), configure_bytes(dots, time, interval).len()),
            ),
            r is Ok <==> takes_command(*old(self), configure_bytes(dots, time, interval).len()),
            r is Ok ==> sent_exactly(*old(self), *final(self), configure_bytes(dots, time, interval)),
            r is Err ==> aborted_exactly(*old(self), *final(self), configure_bytes(dots, time, interval)),
    {
        let cmd = encode_configure(dots, time, interval);
        self.send_command(&cmd)
    }

    /// Set the justification of subsequently printed text:
    /// `[ESC, 0x61, code]`.
    pub fn justify(&mut self, just: Justification) -> (r: Result<(), T::Error>)
        ensures
            same_settings(*old(self), *final(self)),
            final(self).flush_ready() == old(self).flush_ready(),
            final(self).write_capacity() == cap_minus(
                old(self).write_capacity(),
                accepted_prefix_len(*old(self), justify_bytes(just).len()),
            ),
            r is Ok <==> takes_command(*old(self), justify_bytes(just).len()),
            r is Ok ==> sent_exactly(*old(self), *final(self), justify_bytes(just)),
            r is Err ==> aborted_exactly(*old(self), *final(self), justify_bytes(just)),
    {
        let cmd = encode_justify(just);
        self.send_command(&cmd)
    }

    /// Feed one line: the same as `feed_n(1)`.
    pub fn feed(&mut self) -> (r: Result<(), T::Error>)
        ensures
            same_settings(*old(self), *final(self)),
            final(self).flush_ready() == old(self).flush_ready(),
            final(self).write_capacity() == cap_minus(
                old(self).write_capacity(),
                accepted_prefix_len(*old(self), feed_bytes(old(self).spec_dialect(), 1).len()),
            ),
            r is Ok <==> takes_command(*old(self), feed_bytes(old(self).spec_dialect(), 1).len()),
            r is Ok ==> sent_exactly(*old(self), *final(self), feed_bytes(old(self).spec_dialect(), 1)),
            r is Err ==> aborted_exactly(*old(self), *final(self), feed_bytes(old(self).spec_dialect(), 1)),
    {
        self.feed_n(1)
    }

    /// Feed `n` lines, encoded in the configured dialect.
    pub fn feed_n(&mut self, n: u8) -> (r: Result<(), T::Error>)
        ensures
            same_settings(*old(self), *final(self)),
            final(self).flush_ready() == old(self).flush_ready(),
            final(self).write_capacity() == cap_minus(
                old(self).write_capacity(),
                accepted_prefix_len(*old(self), feed_bytes(old(self).spec_dialect(), n).len()),
            ),
            r is Ok <==> takes_command(*old(self), feed_bytes(old(self).spec_dialect(), n).len()),
            r is Ok ==> sent_exactly(*old(self), *final(self), feed_bytes(old(self).spec_dialect(), n)),
            r is Err ==> aborted_exactly(*old(self), *final(self), feed_bytes(old(self).spec_dialect(), n)),
    {
        let cmd = encode_feed(self.dialect, n);
        self.send_command(&cmd)
    }

    /// Set the underline weight: `[ESC, DASH, weight]`; weight 0 disables
    /// underlining.
    pub fn set_underline(&mut self, weight: u8) -> (r: Result<(), T::Error>)
        ensures
            same_settings(*old(self), *final(self)),
            final(self).flush_ready() == old(self).flush_ready(),
            final(self).write_capacity() == cap_minus(
                old(self).write_capacity(),
                accepted_prefix_len(*old(self), underline_bytes(weight).len()),
            ),
            r is Ok <==> takes_command(*old(self), underline_bytes(weight).len()),
            r is Ok ==> sent_exactly(*old(self), *final(self), underline_bytes(weight)),
            r is Err ==> aborted_exactly(*old(self), *final(self), underline_bytes(weight)),
    {
        let cmd = encode_underline(weight);
        self.send_command(&cmd)
    }

    /// Enable or disable emphasis (bold): `[ESC, EXCL, 1]` or `[ESC, EXCL, 0]`.
    pub fn set_bold(&mut self, on: bool) -> (r: Result<(), T::Error>)
        ensures
            same_settings(*old(self), *final(self)),
            final(self).flush_ready() == old(self).flush_ready(),
            final(self).write_capacity() == cap_minus(
                old(self).write_capacity(),
                accepted_prefix_len(*old(self), bold_bytes(on).len()),
            ),
            r is Ok <==> takes_command(*old(self), bold_bytes(on).len()),
            r is Ok ==> sent_exactly(*old(self), *final(self), bold_bytes(on)),
            r is Err ==> aborted_exactly(*old(self), *final(self), bold_bytes(on)),
    {
        let cmd = encode_bold(on);
        self.send_command(&cmd)
    }

    /// Trigger the firmware self-test page: a center justification (always the
    /// first bytes on the wire, whatever the dialect), then `[DC2, 'T']`. Each
    /// of the two commands is flushed, so a success records two flushes; a
    /// failure after a completed centering records the centering's one.
    pub fn run_test(&mut self) -> (r: Result<(), T::Error>)
        ensures
            same_settings(*old(self), *final(self)),
            final(self).flush_ready() == old(self).flush_ready(),
            r is Ok <==> takes_command(*old(self), self_test_bytes().len()),
            r is Ok ==> final(self).bytes_written() == old(self).bytes_written() + self_test_bytes()
                && final(self).flushes() == old(self).flushes() + 2
                && final(self).write_capacity() == cap_minus(
                old(self).write_capacity(),
                self_test_bytes().len(),
            ),
            r is Err ==> final(self).bytes_written() == old(self).bytes_written()
                + self_test_bytes().take(self_test_cut(*old(self)) as int)
                && final(self).flushes() == old(self).flushes() + (
            if old(self).flush_ready() && accepts_writes(
                *old(self),
                justify_bytes(Justification::Center).len(),
            ) {
                1nat
            } else {
                0nat
            })
                && final(self).write_capacity() == cap_minus(
                old(self).write_capacity(),
                self_test_cut(*old(self)),
            ),
    {
        let ghost pre = *self;
        match self.justify(Justification::Center) {
            Ok(()) => {}
            Err(e) => {
                proof {
                    let cut = accepted_prefix_len(pre, justify_bytes(Justification::Center).len());
                    assert(self_test_cut(pre) == cut);
                    assert(self_test_bytes().take(cut as int)
                        =~= justify_bytes(Justification::Center).take(cut as int));
                }
                return Err(e);
            }
        }
        let tail = encode_self_test_tail();
        let ghost mid = *self;
        match self.send_command(&tail) {
            Ok(()) => {
                proof {
                    assert(pre.bytes_written() + justify_bytes(Justification::Center) + tail@
                        =~= pre.bytes_written() + self_test_bytes());
                    assert(cap_minus(mid.write_capacity(), tail@.len())
                        == cap_minus(pre.write_capacity(), self_test_bytes().len()));
                }
                Ok(())
            }
            Err(e) => {
                proof {
                    let cut2 = accepted_prefix_len(mid, tail@.len());
                    assert(self_test_cut(pre) == justify_bytes(Justification::Center).len() + cut2);
                    assert(pre.bytes_written() + justify_bytes(Justification::Center)
                        + tail@.take(cut2 as int) =~= pre.bytes_written()
                        + self_test_bytes().take(self_test_cut(pre) as int));
                    assert(cap_minus(mid.write_capacity(), cut2)
                        == cap_minus(pre.write_capacity(), self_test_cut(pre)));
                }
                Err(e)
            }
        }
    }

    /// Consume the encoder and hand the transport back to the caller,
    /// unchanged: no bytes are sent and its history is exactly the encoder's.
    pub fn free(self) -> (r: T)
        ensures
            r == self.spec_port(),
            r.bytes_written() == self.bytes_written(),
            r.flushes() == self.flushes(),
            r.write_capacity() == self.write_capacity(),
            r.flush_ready() == self.flush_ready(),
    {
        self.port
    }
}

/// The encoder is itself a transport: raw byte writes and flushes are
/// delegated to the underlying port, so an encoder can be layered or written
/// through directly.
impl<T: Transport> Transport for ThermalPrinter<T> {
    type Error = T::Error;

    closed spec fn bytes_written(&self) -> Seq<u8> {
        self.port.bytes_written()
    }

    closed spec fn flushes(&self) -> nat {
        self.port.flushes()
    }

    closed spec fn write_capacity(&self) -> Option<nat> {
        self.port.write_capacity()
    }

    closed spec fn flush_ready(&self) -> bool {
        self.port.flush_ready()
    }

    fn write_byte(&mut self, byte: u8) -> (r: Result<(), T::Error>)
        ensures
            same_settings(*old(self), *final(self)),
    {
        self.port.write_byte(byte)
    }

    fn flush(&mut self) -> (r: Result<(), T::Error>)
        ensures
            same_settings(*old(self), *final(self)),
    {
        self.port.flush()
    }
}

} // verus!
