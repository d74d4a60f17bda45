//! The adapter's clock-divisor capability and its two speed tables.
use vstd::prelude::*;

verus! {

/// Which of the adapter's two speed tables applies.
#[derive(Clone, Copy, Debug, PartialEq, Eq, Structural)]
pub enum PackMode {
    Standard,
    Larger,
}

/// The adapter index of `khz` in the table of `mode`, if the table holds it.
pub open spec fn speed_index(mode: PackMode, khz: u32) -> Option<u8> {
    match mode {
        PackMode::Standard => if khz == 1875 {
            Some(0u8)
        } else if khz == 3750 {
            Some(1u8)
        } else if khz == 7500 {
            Some(2u8)
        } else if khz == 15000 {
            Some(3u8)
        } else if khz == 30000 {
            Some(4u8)
        } else if khz == 60000 {
            Some(5u8)
        } else {
            None
        },
        PackMode::Larger => if khz == 468 {
            Some(0u8)
        } else if khz == 937 {
            Some(1u8)
        } else if khz == 1875 {
            Some(2u8)
        } else if khz == 3750 {
            Some(3u8)
        } else if khz == 7500 {
            Some(4u8)
        } else if khz == 15000 {
            Some(5u8)
        } else if khz == 30000 {
            Some(6u8)
        } else if khz == 60000 {
            Some(7u8)
        } else {
            None
        },
    }
}

/// The index of `khz` under a mode that may not be resolved yet: nothing is
/// found while it is not.
pub open spec fn lookup_index(mode: Option<PackMode>, khz: u32) -> Option<u8> {
    match mode {
        Some(m) => speed_index(m, khz),
        None => None,
    }
}

/// The mode that the last byte of the handshake reply selects.
pub open spec fn mode_of_byte(v: u8) -> PackMode {
    if v == 0 {
        PackMode::Standard
    } else {
        PackMode::Larger
    }
}

/// The mode that a handshake reply selects; an empty reply selects none.
pub open spec fn mode_of_reply(reply: Seq<u8>) -> Option<PackMode> {
    if reply.len() == 0 {
        None
    } else {
        Some(mode_of_byte(reply.last()))
    }
}

/// The nine-byte configuration command with `arg` in its fifth byte.
pub open spec fn config_bytes(arg: u8) -> Seq<u8> {
    seq![0xD0u8, 0x06u8, 0x00u8, 0x00u8, arg, 0x00u8, 0x00u8, 0x00u8, 0x00u8]
}

/// Argument of the configuration command that asks for the pack mode.
pub const INIT_ARG: u8 = 0x09;

impl PackMode {
    /// The adapter index of `khz` in this mode's table.
    pub fn speed_index(self, khz: u32) -> (r: Option<u8>)
        ensures
            r == speed_index(self, khz),
    {
        match self {
            PackMode::Standard => match khz {
                1875 => Some(0),
                3750 => Some(1),
                7500 => Some(2),
                15000 => Some(3),
                30000 => Some(4),
                60000 => Some(5),
                _ => None,
            },
            PackMode::Larger => match khz {
                468 => Some(0),
                937 => Some(1),
                1875 => Some(2),
                3750 => Some(3),
                7500 => Some(4),
                15000 => Some(5),
                30000 => Some(6),
                60000 => Some(7),
                _ => None,
            },
        }
    }

    /// The mode that the last byte of a handshake reply selects: `0x00`
    /// selects `Standard`, any other value `Larger`.
    pub fn from_reply_byte(v: u8) -> (r: PackMode)
        ensures
            r == mode_of_byte(v),
    {
        if v == 0 {
            PackMode::Standard
        } else {
            PackMode::Larger
        }
    }
}

/// The mode that a handshake reply selects, from its last byte; none for an
/// empty reply.
pub fn pack_mode_from_reply(reply: &[u8]) -> (r: Option<PackMode>)
    ensures
        r == mode_of_reply(reply@),
{
    let n = reply.len();
    if n == 0 {
        None
    } else {
        Some(PackMode::from_reply_byte(reply[n - 1]))
    }
}

/// Whether a reply to a speed-set command accepts the speed: its last byte
/// is `0x00`.
pub fn speed_accepted(reply: &[u8]) -> (r: bool)
    ensures
        r == (reply@.len() > 0 && reply@.last() == 0),
{
    let n = reply.len();
    n > 0 && reply[n - 1] == 0
}

/// The configuration command with `arg` in its fifth byte.
pub fn config_command(arg: u8) -> (r: Vec<u8>)
    ensures
        r@ == config_bytes(arg),
{
    let r = vec![0xD0u8, 0x06, 0x00, 0x00, arg, 0x00, 0x00, 0x00, 0x00];
    assert(r@ =~= config_bytes(arg));
    r
}

} // verus!
