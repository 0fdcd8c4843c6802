//! Classification of console-issued command bytes.

use vstd::prelude::*;

verus! {

/// Command byte sent by the console to probe for a controller.
pub const PROBE_BYTE: u8 = 0x00;
/// Command byte polling the controller for its current input state.
pub const POLL_BYTE: u8 = 0x40;
/// Command byte requesting the controller's origin (neutral calibration).
pub const ORIGIN_BYTE: u8 = 0x41;
/// Command byte asking the controller to recalibrate.
pub const RECALIBRATE_BYTE: u8 = 0x42;
/// Command byte resetting the controller.
pub const RESET_BYTE: u8 = 0xFF;

/// One received command byte, classified. `Unknown` is the catch-all for
/// every byte outside the five recognized values; it is a routine value,
/// not an error: consoles probe controllers with undocumented bytes.
#[derive(Clone, Copy, PartialEq, Eq, Structural, Debug)]
pub enum GamecubeCommand {
    Probe,
    Poll,
    Origin,
    Recalibrate,
    Reset,
    Unknown,
}

/// What each byte value classifies to: an exact value match on the five
/// recognized constants, everything else `Unknown`.
pub open spec fn spec_classify(value: u8) -> GamecubeCommand {
    if value == PROBE_BYTE {
        GamecubeCommand::Probe
    } else if value == RESET_BYTE {
        GamecubeCommand::Reset
    } else if value == ORIGIN_BYTE {
        GamecubeCommand::Origin
    } else if value == RECALIBRATE_BYTE {
        GamecubeCommand::Recalibrate
    } else if value == POLL_BYTE {
        GamecubeCommand::Poll
    } else {
        GamecubeCommand::Unknown
    }
}

impl GamecubeCommand {
    /// Classify a received byte.
    pub fn from(value: u8) -> (r: GamecubeCommand)
        ensures
            r == spec_classify(value),
    {
        match value {
            PROBE_BYTE => GamecubeCommand::Probe,
            RESET_BYTE => GamecubeCommand::Reset,
            ORIGIN_BYTE => GamecubeCommand::Origin,
            RECALIBRATE_BYTE => GamecubeCommand::Recalibrate,
            POLL_BYTE => GamecubeCommand::Poll,
            _ => GamecubeCommand::Unknown,
        }
    }
}

/// Dispatch is total and exact: each recognized byte value classifies to
/// exactly its own command, and every other byte value classifies to
/// `Unknown`.
pub proof fn lemma_dispatch_exact()
    ensures
        forall|value: u8| spec_classify(value) == GamecubeCommand::Probe <==> value == PROBE_BYTE,
        forall|value: u8| spec_classify(value) == GamecubeCommand::Reset <==> value == RESET_BYTE,
        forall|value: u8| spec_classify(value) == GamecubeCommand::Origin <==> value == ORIGIN_BYTE,
        forall|value: u8|
            spec_classify(value) == GamecubeCommand::Recalibrate <==> value == RECALIBRATE_BYTE,
        forall|value: u8| spec_classify(value) == GamecubeCommand::Poll <==> value == POLL_BYTE,
        forall|value: u8|
            spec_classify(value) == GamecubeCommand::Unknown <==> (value != PROBE_BYTE
                && value != RESET_BYTE && value != ORIGIN_BYTE && value != RECALIBRATE_BYTE
                && value != POLL_BYTE),
{
}

} // verus!
