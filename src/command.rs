//! Logical JTAG line states and their bit-banged byte encoding.
use vstd::prelude::*;

verus! {

/// Bit of the encoded byte that drives TMS.
pub const TMS_BIT: u8 = 0x02;

/// Bit of the encoded byte that drives TDI.
pub const TDI_BIT: u8 = 0x10;

/// Bit of the encoded byte that drives TRST.
pub const TRST_BIT: u8 = 0x20;

/// Bit of the encoded byte that drives SRST.
pub const SRST_BIT: u8 = 0x40;

/// Bit of the encoded byte that strobes TCK.
pub const TCK_BIT: u8 = 0x01;

/// One clock cycle's worth of JTAG line states.
#[derive(Clone, Copy, Debug, PartialEq, Eq, Structural)]
pub enum Command {
    Clock { tms: bool, tdi: bool, trst: bool, srst: bool },
    /// TMS and TDI high, SRST low, TRST as given.
    Reset(bool),
}

/// `mask` where `b` holds, 0 elsewhere.
pub open spec fn line_bit(b: bool, mask: u8) -> u8 {
    if b {
        mask
    } else {
        0
    }
}

/// The line states a command stands for, as a `Clock` command.
pub open spec fn as_clock(c: Command) -> Command {
    match c {
        Command::Reset(x) => Command::Clock { tms: true, tdi: true, trst: x, srst: false },
        Command::Clock { .. } => c,
    }
}

/// The byte that holds the lines of `c` with TCK low.
pub open spec fn encode(c: Command) -> u8 {
    match as_clock(c) {
        Command::Clock { tms, tdi, trst, srst } => line_bit(tms, TMS_BIT) | line_bit(tdi, TDI_BIT)
            | line_bit(trst, TRST_BIT) | line_bit(srst, SRST_BIT),
        Command::Reset(_) => 0,
    }
}

/// The two bytes of one full clock pulse of `c`: TCK low, then TCK high.
pub open spec fn pulse(c: Command) -> Seq<u8> {
    seq![encode(c), encode(c) | TCK_BIT]
}

/// The bytes that a run of commands becomes, one pulse per command, in order.
pub open spec fn clock_bytes(cmds: Seq<Command>) -> Seq<u8>
    decreases cmds.len(),
{
    if cmds.len() == 0 {
        Seq::empty()
    } else {
        clock_bytes(cmds.drop_last()) + pulse(cmds.last())
    }
}

fn line_byte(b: bool, mask: u8) -> (r: u8)
    ensures
        r == line_bit(b, mask),
{
    if b {
        mask
    } else {
        0
    }
}

impl Command {
    /// A clock command that drives TMS and TDI and leaves both resets low.
    pub fn new(tms: bool, tdi: bool) -> (r: Self)
        ensures
            r == (Command::Clock { tms, tdi, trst: false, srst: false }),
    {
        Command::Clock { tms, tdi, trst: false, srst: false }
    }

    /// The byte that holds the lines of this command with TCK low.
    pub fn encode(&self) -> (r: u8)
        ensures
            r == encode(*self),
    {
        let (tms, tdi, trst, srst) = match *self {
            Command::Reset(x) => (true, true, x, false),
            Command::Clock { tms, tdi, trst, srst } => (tms, tdi, trst, srst),
        };
        line_byte(tms, TMS_BIT) | line_byte(tdi, TDI_BIT) | line_byte(trst, TRST_BIT) | line_byte(
            srst,
            SRST_BIT,
        )
    }
}

impl From<Command> for u8 {
    fn from(value: Command) -> (r: u8)
        ensures
            r == encode(value),
    {
        value.encode()
    }
}

impl vstd::std_specs::convert::FromSpecImpl<Command> for u8 {
    open spec fn obeys_from_spec() -> bool {
        true
    }

    open spec fn from_spec(v: Command) -> u8 {
        encode(v)
    }
}

/// Accumulates clock pulses into the bytes of a bit-banged frame.
pub struct ClockBuilder {
    buf: Vec<u8>,
}

impl View for ClockBuilder {
    type V = Seq<u8>;

    closed spec fn view(&self) -> Seq<u8> {
        self.buf@
    }
}

impl ClockBuilder {
    /// A builder that holds no bytes yet.
    pub fn new() -> (r: Self)
        ensures
            r@ == clock_bytes(Seq::empty()),
    {
        ClockBuilder { buf: Vec::new() }
    }

    /// Appends one full clock pulse of `command`.
    pub fn add(self, command: Command) -> (r: Self)
        requires
            self@.len() + 2 <= usize::MAX,
        ensures
            r@ == self@ + pulse(command),
    {
        let mut buf = self.buf;
        let left = u8::from(command);
        let right = left | TCK_BIT;
        buf.push(left);
        buf.push(right);
        assert(buf@ =~= self@ + pulse(command));
        ClockBuilder { buf }
    }

    /// The bytes built so far.
    pub fn bytes(&self) -> (r: &Vec<u8>)
        ensures
            r@ == self@,
    {
        &self.buf
    }

    /// Hands over the bytes built so far.
    pub fn into_bytes(self) -> (r: Vec<u8>)
        ensures
            r@ == self@,
    {
        self.buf
    }
}

/// A command that only drives TMS is encoded as the TMS bit alone.
pub proof fn lemma_tms_only()
    ensures
        encode(Command::Clock { tms: true, tdi: false, trst: false, srst: false }) == 0x02,
{
    assert(0x02u8 | 0u8 | 0u8 | 0u8 == 0x02u8) by (bit_vector);
}

/// A reset command is encoded as the clock command with TMS and TDI high,
/// SRST low and TRST as given.
pub proof fn lemma_reset_is_clock(x: bool)
    ensures
        encode(Command::Reset(x)) == encode(Command::Clock { tms: true, tdi: true, trst: x, srst: false }),
{
}

/// A run of `n` commands becomes `2n` bytes; the pair at `2i`, `2i + 1` is the
/// encoding of the `i`-th command followed by the same byte with TCK set.
pub proof fn lemma_clock_bytes_pairs(cmds: Seq<Command>)
    ensures
        clock_bytes(cmds).len() == 2 * cmds.len(),
        forall|i: int|
            0 <= i < cmds.len() ==> {
                &&& #[trigger] clock_bytes(cmds)[2 * i] == encode(cmds[i])
                &&& clock_bytes(cmds)[2 * i + 1] == clock_bytes(cmds)[2 * i] | TCK_BIT
            },
    decreases cmds.len(),
{
    if cmds.len() > 0 {
        let init = cmds.drop_last();
        lemma_clock_bytes_pairs(init);
        assert forall|i: int| 0 <= i < cmds.len() implies {
            &&& #[trigger] clock_bytes(cmds)[2 * i] == encode(cmds[i])
            &&& clock_bytes(cmds)[2 * i + 1] == clock_bytes(cmds)[2 * i] | TCK_BIT
        } by {
            if i < init.len() {
                assert(cmds[i] == init[i]);
                assert(clock_bytes(init)[2 * i] == encode(init[i]));
            }
        }
    }
}

/// Appending a command to a run appends its pulse to the run's bytes, so a
/// builder fed the commands of `cmds` in order holds `clock_bytes(cmds)`.
pub proof fn lemma_clock_bytes_push(cmds: Seq<Command>, c: Command)
    ensures
        clock_bytes(cmds.push(c)) == clock_bytes(cmds) + pulse(c),
{
    assert(cmds.push(c).drop_last() =~= cmds);
}

} // verus!
