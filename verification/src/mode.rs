//! The SNTP association mode: a closed enumeration carried in the low three
//! bits of the packet's first byte, with `Unknown` as the fallback for the
//! two unassigned bit patterns.

use vstd::prelude::*;

verus! {

/// Protocol mode of an SNTP packet.
#[derive(Debug, PartialEq, Eq, Copy, Clone, Structural)]
pub enum SntpMode {
    Unknown,
    SymmetricActive,
    SymmetricPassive,
    Client,
    Server,
    Broadcast,
}

/// Wire value of a mode.
pub open spec fn mode_value(m: SntpMode) -> u8 {
    match m {
        SntpMode::Unknown => 0,
        SntpMode::SymmetricActive => 1,
        SntpMode::SymmetricPassive => 2,
        SntpMode::Client => 3,
        SntpMode::Server => 4,
        SntpMode::Broadcast => 5,
    }
}

/// Mode decoded from a wire value: assigned values map to their mode, every
/// other value to `Unknown`.
pub open spec fn mode_from_value(v: u8) -> SntpMode {
    match v {
        1 => SntpMode::SymmetricActive,
        2 => SntpMode::SymmetricPassive,
        3 => SntpMode::Client,
        4 => SntpMode::Server,
        5 => SntpMode::Broadcast,
        _ => SntpMode::Unknown,
    }
}

impl SntpMode {
    /// The mode's 3-bit wire value.
    pub fn to_val(&self) -> (r: u8)
        ensures
            r == mode_value(*self),
            r <= 5,
    {
        match *self {
            SntpMode::Unknown => 0,
            SntpMode::SymmetricActive => 1,
            SntpMode::SymmetricPassive => 2,
            SntpMode::Client => 3,
            SntpMode::Server => 4,
            SntpMode::Broadcast => 5,
        }
    }

    /// The mode a wire value decodes to; unassigned patterns give `Unknown`,
    /// never an error.
    pub fn from_val(v: u8) -> (r: SntpMode)
        ensures
            r == mode_from_value(v),
    {
        match v {
            1 => SntpMode::SymmetricActive,
            2 => SntpMode::SymmetricPassive,
            3 => SntpMode::Client,
            4 => SntpMode::Server,
            5 => SntpMode::Broadcast,
            _ => SntpMode::Unknown,
        }
    }
}

/// Every mode round-trips exactly through its 3-bit wire encoding.
pub proof fn lemma_mode_value_round_trip(m: SntpMode)
    ensures
        mode_from_value(mode_value(m)) == m,
{
}

} // verus!
