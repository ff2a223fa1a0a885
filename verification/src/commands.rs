//! The wire-format vocabulary of the protocol: named control bytes, the
//! justification codes, and the exact byte layout of every printer operation.

use vstd::prelude::*;

verus! {

/// The named control bytes of the protocol. Each variant stands for one fixed
/// byte value mandated by the printer firmware; `code` gives that value.
#[derive(Clone, Copy, Debug, PartialEq, Eq, Structural)]
pub enum Command {
    /// Escape-sequence initiator, byte 27.
    ESC,
    /// Device-control byte 18, used to start the self-test command.
    DC2,
    /// Line feed, byte 10.
    LF,
    /// Dash, byte 45: selects underline mode.
    DASH,
    /// Byte 69: selects emphasis (bold) mode.
    EXCL,
    /// Space, byte 32.
    SPACE,
}

impl Command {
    /// The fixed byte value of this control code.
    pub open spec fn spec_code(self) -> u8 {
        match self {
            Command::ESC => 27,
            Command::DC2 => 18,
            Command::LF => 10,
            Command::DASH => 45,
            Command::EXCL => 69,
            Command::SPACE => 32,
        }
    }

    /// The fixed byte value of this control code.
    pub fn code(self) -> (r: u8)
        ensures
            r == self.spec_code(),
    {
        match self {
            Command::ESC => 27,
            Command::DC2 => 18,
            Command::LF => 10,
            Command::DASH => 45,
            Command::EXCL => 69,
            Command::SPACE => 32,
        }
    }
}

/// The firmware dialect targeted for multi-line feeds. Two incompatible
/// encodings exist in this protocol family and there is no runtime
/// negotiation, so the choice is explicit configuration on the encoder.
#[derive(Clone, Copy, Debug, PartialEq, Eq, Structural)]
pub enum Dialect {
    /// `feed_n(n)` is sent as `n` repetitions of the line-feed byte.
    RepeatedLf,
    /// `feed_n(n)` is sent as the single command `[ESC, 'd', n]`.
    Parameterized,
}

/// Horizontal alignment of subsequently printed text. Each variant maps to the
/// fixed parameter byte the firmware expects inside a justification command.
#[derive(Clone, Copy, Debug, PartialEq, Eq, Structural)]
pub enum Justification {
    Left,
    Center,
    Right,
}

impl Justification {
    /// The parameter byte for this alignment: 0 for left, 1 for center,
    /// 2 for right.
    pub open spec fn spec_code(self) -> u8 {
        match self {
            Justification::Left => 0,
            Justification::Center => 1,
            Justification::Right => 2,
        }
    }

    /// The parameter byte for this alignment.
    pub fn code(self) -> (r: u8)
        ensures
            r == self.spec_code(),
    {
        match self {
            Justification::Left => 0,
            Justification::Center => 1,
            Justification::Right => 2,
        }
    }
}

/// Byte layout of the heating-configuration command: `[ESC, 0x37, dots, time,
/// interval]`. The three parameters are raw firmware bytes, passed through
/// unchecked.
pub open spec fn configure_bytes(dots: u8, time: u8, interval: u8) -> Seq<u8> {
    seq![Command::ESC.spec_code(), 55u8, dots, time, interval]
}

/// Byte layout of the justification command: `[ESC, 0x61, code]` with the
/// alignment's parameter byte.
pub open spec fn justify_bytes(just: Justification) -> Seq<u8> {
    seq![Command::ESC.spec_code(), 97u8, just.spec_code()]
}

/// Byte layout of an `n`-line feed in the given dialect: either `n` line-feed
/// bytes, or the single command `[ESC, 'd', n]`.
pub open spec fn feed_bytes(dialect: Dialect, n: u8) -> Seq<u8> {
    match dialect {
        Dialect::RepeatedLf => Seq::new(n as nat, |i: int| Command::LF.spec_code()),
        Dialect::Parameterized => seq![Command::ESC.spec_code(), 100u8, n],
    }
}

/// Byte layout of the underline command: `[ESC, DASH, weight]`; weight 0
/// disables underlining.
pub open spec fn underline_bytes(weight: u8) -> Seq<u8> {
    seq![Command::ESC.spec_code(), Command::DASH.spec_code(), weight]
}

/// Byte layout of the emphasis command: `[ESC, EXCL, 1]` to enable bold,
/// `[ESC, EXCL, 0]` to disable it.
pub open spec fn bold_bytes(on: bool) -> Seq<u8> {
    seq![Command::ESC.spec_code(), Command::EXCL.spec_code(), if on { 1u8 } else { 0u8 }]
}

/// Byte layout of the self-test trigger that follows the centering command:
/// `[DC2, 'T']`.
pub open spec fn self_test_tail_bytes() -> Seq<u8> {
    seq![Command::DC2.spec_code(), 84u8]
}

/// Byte layout of the whole self-test operation: a center justification,
/// then the self-test trigger.
pub open spec fn self_test_bytes() -> Seq<u8> {
    justify_bytes(Justification::Center) + self_test_tail_bytes()
}

/// Law: the self-test operation's byte sequence begins with the
/// center-justification command, whatever follows it.
pub proof fn lemma_self_test_starts_with_center_justify()
    ensures
        self_test_bytes().take(justify_bytes(Justification::Center).len() as int)
            == justify_bytes(Justification::Center),
{
    assert(self_test_bytes().take(justify_bytes(Justification::Center).len() as int)
        =~= justify_bytes(Justification::Center));
}

/// Build the heating-configuration command.
pub fn encode_configure(dots: u8, time: u8, interval: u8) -> (r: Vec<u8>)
    ensures
        r@ == configure_bytes(dots, time, interval),
{
    let r: Vec<u8> = vec![Command::ESC.code(), 55u8, dots, time, interval];
    proof {
        assert(r@ =~= configure_bytes(dots, time, interval));
    }
    r
}

/// Build the justification command.
pub fn encode_justify(just: Justification) -> (r: Vec<u8>)
    ensures
        r@ == justify_bytes(just),
{
    let r: Vec<u8> = vec![Command::ESC.code(), 97u8, just.code()];
    proof {
        assert(r@ =~= justify_bytes(just));
    }
    r
}

/// Build an `n`-line feed in the given dialect.
pub fn encode_feed(dialect: Dialect, n: u8) -> (r: Vec<u8>)
    ensures
        r@ == feed_bytes(dialect, n),
{
    match dialect {
        Dialect::RepeatedLf => {
            let mut r: Vec<u8> = Vec::new();
            let mut i: u8 = 0;
            while i < n
                invariant
                    i <= n,
                    r@ == Seq::new(i as nat, |j: int| Command::LF.spec_code()),
                decreases n - i,
            {
                r.push(Command::LF.code());
                i = i + 1;
                proof {
                    assert(r@ =~= Seq::new(i as nat, |j: int| Command::LF.spec_code()));
                }
            }
            r
        }
        Dialect::Parameterized => {
            let r: Vec<u8> = vec![Command::ESC.code(), 100u8, n];
            proof {
                assert(r@ =~= feed_bytes(Dialect::Parameterized, n));
            }
            r
        }
    }
}

/// Build the underline command.
pub fn encode_underline(weight: u8) -> (r: Vec<u8>)
    ensures
        r@ == underline_bytes(weight),
{
    let r: Vec<u8> = vec![Command::ESC.code(), Command::DASH.code(), weight];
    proof {
        assert(r@ =~= underline_bytes(weight));
    }
    r
}

/// Build the emphasis command.
pub fn encode_bold(on: bool) -> (r: Vec<u8>)
    ensures
        r@ == bold_bytes(on),
{
    let flag: u8 = if on { 1 } else { 0 };
    let r: Vec<u8> = vec![Command::ESC.code(), Command::EXCL.code(), flag];
    proof {
        assert(r@ =~= bold_bytes(on));
    }
    r
}

/// Build the self-test trigger that follows the centering command.
pub fn encode_self_test_tail() -> (r: Vec<u8>)
    ensures
        r@ == self_test_tail_bytes(),
{
    let r: Vec<u8> = vec![Command::DC2.code(), 84u8];
    proof {
        assert(r@ =~= self_test_tail_bytes());
    }
    r
}

} // verus!
