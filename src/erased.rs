//! The byte-level environment contract used by the service.
use crate::typed::{Capabilities, CapsView, EngineId};
use vstd::prelude::*;

verus! {

/// Failure of an erased reset or step; the string is diagnostic only.
#[derive(Debug, Clone, PartialEq)]
pub enum ErasedGameError {
    Encoding(String),
    Decoding(String),
    InvalidState(String),
    InvalidAction(String),
    GameLogic(String),
}

impl ErasedGameError {
    /// The diagnostic text carried by the error.
    pub open spec fn reason_text(&self) -> Seq<char> {
        match self {
            ErasedGameError::Encoding(s) => s@,
            ErasedGameError::Decoding(s) => s@,
            ErasedGameError::InvalidState(s) => s@,
            ErasedGameError::InvalidAction(s) => s@,
            ErasedGameError::GameLogic(s) => s@,
        }
    }

    /// The diagnostic text carried by the error.
    pub fn reason(&self) -> (r: String)
        ensures
            r@ == self.reason_text(),
    {
        match self {
            ErasedGameError::Encoding(s) => s.clone(),
            ErasedGameError::Decoding(s) => s.clone(),
            ErasedGameError::InvalidState(s) => s.clone(),
            ErasedGameError::InvalidAction(s) => s.clone(),
            ErasedGameError::GameLogic(s) => s.clone(),
        }
    }
}

/// Outcome of a successful erased step: new state bytes, observation bytes,
/// reward bits, done flag and side-channel word.
pub type StepBytes = (Seq<u8>, Seq<u8>, u32, bool, u64);

/// An environment seen only through bytes.
///
/// For a `deterministic` environment, `reset_result` and `step_result` give
/// the exact outcome of every call (`None` for a failure), whatever the
/// instance and whatever calls came before. The defaults state nothing.
pub trait ErasedGame: Sized {
    open spec fn deterministic() -> bool {
        false
    }

    /// Encoded initial state and observation for a seed and hint.
    open spec fn reset_result(seed: u64, hint: Seq<u8>) -> Option<(Seq<u8>, Seq<u8>)> {
        arbitrary()
    }

    /// Outcome of a step from encoded state and action.
    open spec fn step_result(state: Seq<u8>, action: Seq<u8>) -> Option<StepBytes> {
        arbitrary()
    }

    /// The capabilities this instance advertises.
    open spec fn caps(&self) -> CapsView {
        arbitrary()
    }

    fn engine_id(&self) -> (r: EngineId)
        ensures
            r.env_id@ == self.caps().env_id,
            r.build_id@ == self.caps().build_id,
    ;

    fn capabilities(&self) -> (r: Capabilities)
        ensures
            r@ == self.caps(),
    ;

    /// Starts an episode; `out_state` and `out_obs` are overwritten.
    fn reset(
        &mut self,
        seed: u64,
        hint: &[u8],
        out_state: &mut Vec<u8>,
        out_obs: &mut Vec<u8>,
    ) -> (r: Result<(), ErasedGameError>)
        ensures
            Self::deterministic() ==> match Self::reset_result(seed, hint@) {
                Some(o) => r is Ok && final(out_state)@ == o.0 && final(out_obs)@ == o.1,
                None => r is Err,
            },
    ;

    /// Advances one tick; `out_state` and `out_obs` are overwritten. Returns
    /// the reward bits, the done flag and the side-channel word.
    fn step(
        &mut self,
        state: &[u8],
        action: &[u8],
        out_state: &mut Vec<u8>,
        out_obs: &mut Vec<u8>,
    ) -> (r: Result<(u32, bool, u64), ErasedGameError>)
        ensures
            Self::deterministic() ==> match Self::step_result(state@, action@) {
                Some(o) => r == Ok::<(u32, bool, u64), ErasedGameError>((o.2, o.3, o.4))
                    && final(out_state)@ == o.0 && final(out_obs)@ == o.1,
                None => r is Err,
            },
    ;
}

} // verus!
