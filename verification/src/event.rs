//! The match-event callback protocol.
//!
//! During a scan the engine invokes the caller's callback once per match,
//! synchronously, with the pattern identifier, the start and end offsets,
//! and a flags word. The callback's unsigned 32-bit return value controls
//! continuation: zero lets the scan go on, any non-zero value halts it and
//! makes the enclosing scan call report [`ScanError::Terminated`]
//! (see [`crate::status`]).
//!
//! Inside the library that convention is kept as an explicit two-variant
//! control signal, [`MatchDecision`]; the raw zero/non-zero encoding is
//! produced and consumed only at the boundary.

use vstd::prelude::*;

verus! {

/// One match reported by the engine: a transient value handed to the
/// callback, never persisted.
///
/// Offsets are absolute within the scan call's logical data: the single
/// buffer in block mode, the concatenation of all buffers in vectored mode,
/// and the concatenation of every chunk scanned since the stream was opened
/// in streaming mode. Depending on how the pattern was compiled the start
/// offset may be unreported, in which case the engine hands over zero.
#[derive(Debug, Clone, Copy, PartialEq, Eq, Structural)]
pub struct MatchEvent {
    /// Identifier of the pattern that matched.
    pub id: u32,
    /// Start offset of the match, or zero where the pattern does not report one.
    pub from: u64,
    /// End offset of the match.
    pub to: u64,
    /// Flags word reported by the engine.
    pub flags: u32,
}

/// What the callback tells the engine to do after a match was reported.
#[derive(Debug, Clone, Copy, PartialEq, Eq, Structural)]
pub enum MatchDecision {
    /// Keep scanning; the callback may be invoked again during this call.
    Continue,
    /// Halt the scan; the enclosing scan call reports `Terminated`.
    Stop,
}

/// The continuation code that stands for a decision: zero continues the
/// scan, one halts it.
pub open spec fn spec_decision_code(d: MatchDecision) -> u32 {
    match d {
        MatchDecision::Continue => 0,
        MatchDecision::Stop => 1,
    }
}

/// The decision that a continuation code denotes: zero continues, every
/// non-zero code halts.
pub open spec fn spec_code_decision(code: u32) -> MatchDecision {
    if code == 0 {
        MatchDecision::Continue
    } else {
        MatchDecision::Stop
    }
}

/// Encodes a decision as the engine's continuation code.
pub fn decision_code(d: MatchDecision) -> (r: u32)
    ensures
        r == spec_decision_code(d),
        r == 0 <==> d is Continue,
{
    match d {
        MatchDecision::Continue => 0,
        MatchDecision::Stop => 1,
    }
}

/// Decodes a continuation code back into a decision.
pub fn code_decision(code: u32) -> (r: MatchDecision)
    ensures
        r == spec_code_decision(code),
        r is Continue <==> code == 0,
{
    if code == 0 {
        MatchDecision::Continue
    } else {
        MatchDecision::Stop
    }
}

/// Encoding a decision and decoding it again gives the decision back:
/// the zero/non-zero convention loses nothing.
pub proof fn lemma_decision_code_round_trip(d: MatchDecision)
    ensures
        spec_code_decision(spec_decision_code(d)) == d,
{
}

/// A non-zero continuation code, and only such a code, halts the scan.
pub proof fn lemma_nonzero_code_stops(code: u32)
    ensures
        spec_code_decision(code) is Stop <==> code != 0,
{
}

} // verus!
