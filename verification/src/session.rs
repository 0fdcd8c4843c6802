//! The session state machine: how each received (or missed) command byte
//! is answered, during the handshake and in the steady-state poll loop.
//!
//! The decisions are pure functions from the received byte to an action;
//! the surrounding driver performs the action (delays, sends, restarts)
//! against the real line.

use vstd::prelude::*;

use crate::command::GamecubeCommand;
use crate::command::spec_classify;

verus! {

/// Delay between receiving a recognized command and starting the reply,
/// in microseconds.
pub const RESPONSE_DELAY_US: u32 = 4;

/// Idle delay after an unrecognized command before read framing is
/// restarted, in microseconds.
pub const UNKNOWN_IDLE_DELAY_US: u32 = 130;

/// Delay between a poll command and consuming the console's framing
/// padding, in microseconds.
pub const POLL_PRE_DELAY_US: u32 = 40;

/// Settle delay between consuming the framing padding and sending the
/// poll report, in microseconds.
pub const POLL_SETTLE_DELAY_US: u32 = 4;

/// Number of console framing padding bytes received and dropped before a
/// poll report is sent.
pub const POLL_PADDING_BYTES: usize = 2;

/// Default bound on waiting for a received byte, in monotonic timer
/// ticks; far above the protocol maximum so that idle gaps do not produce
/// false timeouts.
pub const RECV_TIMEOUT_TICKS: u64 = 2000000;

/// A response the session must perform after one dispatch decision.
#[derive(Clone, Copy, PartialEq, Eq, Structural, Debug)]
pub enum SessionAction {
    /// Wait `RESPONSE_DELAY_US`, then send the 3-byte capability reply.
    ReplyCapability,
    /// Wait `RESPONSE_DELAY_US`, then send the 10-byte handshake-variant
    /// calibration reply.
    ReplyOriginHandshake,
    /// Wait `RESPONSE_DELAY_US`, then send the 10-byte steady-state
    /// calibration reply.
    ReplyOriginSteady,
    /// Run the poll-response procedure with the neutral report.
    RespondPollNeutral,
    /// Wait `UNKNOWN_IDLE_DELAY_US`, then restart read framing. No reply
    /// is sent.
    RecoverFraming,
}

/// Outcome of the single handshake dispatch.
#[derive(Clone, Copy, PartialEq, Eq, Structural, Debug)]
pub enum HandshakeOutcome {
    /// The handshake yields a usable session after this action.
    Respond(SessionAction),
    /// No byte arrived within the bound: the device is not speaking the
    /// protocol, and the transport is returned to the caller unconsumed.
    Incompatible,
}

/// Outcome of one steady-state poll-loop dispatch.
#[derive(Clone, Copy, PartialEq, Eq, Structural, Debug)]
pub enum PollWait {
    /// Perform this action, then keep waiting for a poll.
    Respond(SessionAction),
    /// A poll command arrived: the caller sends the live report next.
    PollReady,
}

/// The handshake decision for one received byte (`None` = timeout).
pub open spec fn spec_handshake_step(received: Option<u8>) -> HandshakeOutcome {
    match received {
        Option::None => HandshakeOutcome::Incompatible,
        Option::Some(value) => HandshakeOutcome::Respond(
            match spec_classify(value) {
                GamecubeCommand::Probe => SessionAction::ReplyCapability,
                GamecubeCommand::Reset => SessionAction::ReplyCapability,
                GamecubeCommand::Origin => SessionAction::ReplyOriginHandshake,
                GamecubeCommand::Recalibrate => SessionAction::ReplyOriginHandshake,
                GamecubeCommand::Poll => SessionAction::RespondPollNeutral,
                GamecubeCommand::Unknown => SessionAction::RecoverFraming,
            },
        ),
    }
}

/// The steady-state poll-loop decision for one received byte (`None` =
/// timeout, treated like an unrecognized command: recover framing and
/// keep waiting).
pub open spec fn spec_poll_wait_step(received: Option<u8>) -> PollWait {
    match received {
        Option::None => PollWait::Respond(SessionAction::RecoverFraming),
        Option::Some(value) => match spec_classify(value) {
            GamecubeCommand::Probe => PollWait::Respond(SessionAction::ReplyCapability),
            GamecubeCommand::Reset => PollWait::Respond(SessionAction::ReplyCapability),
            GamecubeCommand::Origin => PollWait::Respond(SessionAction::ReplyOriginSteady),
            GamecubeCommand::Recalibrate => PollWait::Respond(SessionAction::ReplyOriginSteady),
            GamecubeCommand::Poll => PollWait::PollReady,
            GamecubeCommand::Unknown => PollWait::Respond(SessionAction::RecoverFraming),
        },
    }
}

/// Decide how the handshake answers one receive outcome.
pub fn handshake_step(received: Option<u8>) -> (r: HandshakeOutcome)
    ensures
        r == spec_handshake_step(received),
{
    match received {
        None => HandshakeOutcome::Incompatible,
        Some(value) => HandshakeOutcome::Respond(
            match GamecubeCommand::from(value) {
                GamecubeCommand::Probe | GamecubeCommand::Reset => SessionAction::ReplyCapability,
                GamecubeCommand::Origin | GamecubeCommand::Recalibrate => SessionAction::ReplyOriginHandshake,
                GamecubeCommand::Poll => SessionAction::RespondPollNeutral,
                GamecubeCommand::Unknown => SessionAction::RecoverFraming,
            },
        ),
    }
}

/// Decide how the steady-state poll loop answers one receive outcome.
pub fn poll_wait_step(received: Option<u8>) -> (r: PollWait)
    ensures
        r == spec_poll_wait_step(received),
{
    match received {
        None => PollWait::Respond(SessionAction::RecoverFraming),
        Some(value) => match GamecubeCommand::from(value) {
            GamecubeCommand::Probe | GamecubeCommand::Reset => PollWait::Respond(
                SessionAction::ReplyCapability,
            ),
            GamecubeCommand::Origin | GamecubeCommand::Recalibrate => PollWait::Respond(
                SessionAction::ReplyOriginSteady,
            ),
            GamecubeCommand::Poll => PollWait::PollReady,
            GamecubeCommand::Unknown => PollWait::Respond(SessionAction::RecoverFraming),
        },
    }
}

/// The handshake fails exactly when no byte arrives within the bound:
/// every received byte, the unrecognized ones included, still yields a
/// usable session.
pub proof fn lemma_handshake_fails_only_on_timeout()
    ensures
        forall|received: Option<u8>|
            spec_handshake_step(received) == HandshakeOutcome::Incompatible <==> received is None,
{
}

/// The 3-byte capability/identity reply sent for Probe and Reset.
pub fn capability_reply() -> (r: [u8; 3])
    ensures
        r@ == seq![0x09u8, 0x00u8, 0x03u8],
{
    let r: [u8; 3] = [0x09, 0x00, 0x03];
    proof {
        assert(r@ =~= seq![0x09u8, 0x00u8, 0x03u8]);
    }
    r
}

/// The 10-byte calibration reply sent for Recalibrate and Origin during
/// the handshake: sticks and c-stick centered, triggers and buttons
/// clear, the always-set marker bit of the second button byte set.
pub fn origin_reply_handshake() -> (r: [u8; 10])
    ensures
        r@ == seq![0u8, 0x80u8, 128u8, 128u8, 128u8, 128u8, 0u8, 0u8, 0u8, 0u8],
{
    let r: [u8; 10] = [0, 0b1000_0000, 128, 128, 128, 128, 0, 0, 0, 0];
    proof {
        assert(r@ =~= seq![0u8, 0x80u8, 128u8, 128u8, 128u8, 128u8, 0u8, 0u8, 0u8, 0u8]);
    }
    r
}

/// The 10-byte calibration reply sent for Recalibrate and Origin in the
/// steady state. It differs from the handshake variant in a single bit of
/// the second byte; both literal sequences are deliberately kept distinct.
pub fn origin_reply_steady() -> (r: [u8; 10])
    ensures
        r@ == seq![0u8, 0x01u8, 128u8, 128u8, 128u8, 128u8, 0u8, 0u8, 0u8, 0u8],
{
    let r: [u8; 10] = [0, 0b0000_0001, 128, 128, 128, 128, 0, 0, 0, 0];
    proof {
        assert(r@ =~= seq![0u8, 0x01u8, 128u8, 128u8, 128u8, 128u8, 0u8, 0u8, 0u8, 0u8]);
    }
    r
}

/// The neutral 8-byte poll report sent when a poll arrives already during
/// the handshake: no buttons pressed, sticks centered, triggers released.
pub fn neutral_report() -> (r: [u8; 8])
    ensures
        r@ == seq![0u8, 0x80u8, 128u8, 128u8, 128u8, 128u8, 0u8, 0u8],
{
    let r: [u8; 8] = [0, 0b1000_0000, 128, 128, 128, 128, 0, 0];
    proof {
        assert(r@ =~= seq![0u8, 0x80u8, 128u8, 128u8, 128u8, 128u8, 0u8, 0u8]);
    }
    r
}

} // verus!
