use vstd::prelude::*;

use crate::state::State;

verus! {

/// An address at the dispatch boundary, kept as an opaque identifier; the
/// verification core never reads it.
#[derive(Clone, Debug, PartialEq, Eq)]
pub struct HumanAddr(pub String);

/// Initialization takes no caller parameters: the deployment-embedded public
/// key is written.
#[derive(Clone, Debug, PartialEq, Eq)]
pub struct InitMsg {}

/// The operations of a deployed verifier.
#[derive(Clone, Debug, PartialEq, Eq)]
pub enum HandleMsg {
    /// Check one beacon signature against the stored public key. The worker
    /// address and round number are the caller's own bookkeeping; only the
    /// signature and the message point enter the verification.
    Verify { signature: Vec<u8>, msg_g2: Vec<u8>, worker: HumanAddr, round: u64 },
}

/// The read-only queries.
#[derive(Clone, Debug, PartialEq, Eq)]
pub enum QueryMsg {
    /// Get the config state.
    Config {},
    /// Shape of an external callback protocol by which a result could be
    /// reported to another contract; the core implements no handler for it.
    VerifyCallBack { round: u64, randomness: Vec<u8>, valid: bool, worker: HumanAddr },
}

/// The config query answers with the stored record itself.
pub type ConfigResponse = State;

} // verus!
