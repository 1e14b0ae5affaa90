//! The adapter that presents any typed game through the byte-level contract.
//!
//! It owns the game and one ChaCha20 generator, re-seeded from the request
//! seed on every reset and advanced, never re-seeded, by the steps between.
use crate::erased::{ErasedGame, ErasedGameError, StepBytes};
use crate::tictactoe::{
    after_move, decode_action_spec, decode_state_spec, encode_state_spec, initial_state,
    legal_mask_of, obs_bytes_of, reward_of, TicTacToe,
};
use crate::typed::{Capabilities, CapsView, EngineId, Game};
use rand_chacha::ChaCha20Rng;
use vstd::prelude::*;

verus! {

/// Relies on rand_core's `SeedableRng::seed_from_u64` for rand_chacha's
/// ChaCha20Rng: a generator determined by the seed. Nothing is stated of it.
#[verifier::external_body]
pub(crate) fn rng_from_seed(seed: u64) -> (r: ChaCha20Rng) {
    <ChaCha20Rng as rand::SeedableRng>::seed_from_u64(seed)
}

/// What an adapter's reset yields, for a game whose behaviour depends on its
/// inputs alone.
pub open spec fn adapter_reset<T: Game>(hint: Seq<u8>) -> Option<(Seq<u8>, Seq<u8>)> {
    let (s, obs) = T::initial(hint);
    if T::state_encodable(s) {
        Some((T::state_bytes(s), obs))
    } else {
        None
    }
}

/// What an adapter's step yields, for a game whose behaviour depends on its
/// inputs alone.
pub open spec fn adapter_step<T: Game>(state: Seq<u8>, action: Seq<u8>) -> Option<StepBytes> {
    match (T::state_of_bytes(state), T::action_of_bytes(action)) {
        (Some(s), Some(a)) => {
            let t = T::transition(s, a);
            if T::state_encodable(t.0) {
                Some((T::state_bytes(t.0), t.1, t.2, t.3, T::info_of(t.0)))
            } else {
                None
            }
        },
        _ => None,
    }
}

/// Whether outputs are the encodings of `s` and `o`, which exist exactly when
/// both encode.
pub open spec fn outputs_encode<T: Game>(
    ok: bool,
    out_state: Seq<u8>,
    out_obs: Seq<u8>,
    s: T::State,
    o: T::Obs,
) -> bool {
    &&& (ok <==> T::state_encodable(s) && T::obs_encodable(o))
    &&& ok ==> out_state == T::state_bytes(s) && out_obs == T::obs_bytes(o)
}

/// A typed game together with the generator it draws from.
pub struct GameAdapter<T: Game> {
    game: T,
    rng: ChaCha20Rng,
}

impl<T: Game> GameAdapter<T> {
    pub closed spec fn inner(&self) -> T {
        self.game
    }

    /// Wraps `game`; the generator starts from seed 0 until the first reset.
    pub fn new(game: T) -> (r: Self)
        ensures
            r.inner() == game,
    {
        GameAdapter { game, rng: rng_from_seed(0) }
    }

    pub fn game(&self) -> (r: &T)
        ensures
            *r == self.inner(),
    {
        &self.game
    }

    pub fn game_mut(&mut self) -> (r: &mut T)
        ensures
            *r == old(self).inner(),
            final(self).inner() == *final(r),
    {
        &mut self.game
    }

    pub fn into_inner(self) -> (r: T)
        ensures
            r == self.inner(),
    {
        self.game
    }

    /// Re-seeds the generator, clears both outputs, resets the game and
    /// encodes its initial state and observation.
    pub fn reset(
        &mut self,
        seed: u64,
        hint: &[u8],
        out_state: &mut Vec<u8>,
        out_obs: &mut Vec<u8>,
    ) -> (r: Result<(), ErasedGameError>)
        ensures
            T::rng_free() ==> match adapter_reset::<T>(hint@) {
                Some(o) => r is Ok && final(out_state)@ == o.0 && final(out_obs)@ == o.1,
                None => r is Err && r->Err_0 is Encoding,
            },
            r is Err ==> r->Err_0 is Encoding,
            exists|s: T::State, o: T::Obs|
                #[trigger] outputs_encode::<T>(r is Ok, final(out_state)@, final(out_obs)@, s, o),
    {
        self.rng = rng_from_seed(seed);
        out_state.clear();
        out_obs.clear();
        let (state, obs) = self.game.reset(&mut self.rng, hint);
        match T::encode_state(&state, out_state) {
            Ok(()) => {},
            Err(e) => {
                let r: Result<(), ErasedGameError> = Err(ErasedGameError::Encoding(e.reason()));
                assert(outputs_encode::<T>(r is Ok, out_state@, out_obs@, state, obs));
                return r;
            },
        }
        match T::encode_obs(&obs, out_obs) {
            Ok(()) => {},
            Err(e) => {
                let r: Result<(), ErasedGameError> = Err(ErasedGameError::Encoding(e.reason()));
                assert(outputs_encode::<T>(r is Ok, out_state@, out_obs@, state, obs));
                return r;
            },
        }
        assert(out_state@ =~= T::state_bytes(state));
        assert(out_obs@ =~= T::obs_bytes(obs));
        assert(outputs_encode::<T>(true, out_state@, out_obs@, state, obs));
        Ok(())
    }

    /// Clears both outputs, decodes state and action, steps the game with the
    /// same generator, and encodes the new state and observation.
    pub fn step(
        &mut self,
        state: &[u8],
        action: &[u8],
        out_state: &mut Vec<u8>,
        out_obs: &mut Vec<u8>,
    ) -> (r: Result<(u32, bool, u64), ErasedGameError>)
        ensures
            T::rng_free() ==> match adapter_step::<T>(state@, action@) {
                Some(o) => r == Ok::<(u32, bool, u64), ErasedGameError>((o.2, o.3, o.4))
                    && final(out_state)@ == o.0 && final(out_obs)@ == o.1,
                None => r is Err,
            },
            T::state_of_bytes(state@) is None || T::action_of_bytes(action@) is None ==> {
                &&& r is Err && r->Err_0 is Decoding
                &&& final(out_state)@.len() == 0 && final(out_obs)@.len() == 0
                &&& *final(self) == *old(self)
            },
            T::state_of_bytes(state@) is Some && T::action_of_bytes(action@) is Some ==> exists|
                s: T::State,
                o: T::Obs,
            |
                #[trigger] outputs_encode::<T>(r is Ok, final(out_state)@, final(out_obs)@, s, o)
                    && (r is Ok ==> r->Ok_0.2 == T::info_of(s)),
            T::state_of_bytes(state@) is Some && T::action_of_bytes(action@) is Some && r is Err
                ==> r->Err_0 is Encoding,
    {
        out_state.clear();
        out_obs.clear();
        let mut s = match T::decode_state(state) {
            Ok(s) => s,
            Err(e) => {
                return Err(ErasedGameError::Decoding(e.reason()));
            },
        };
        let a = match T::decode_action(action) {
            Ok(a) => a,
            Err(e) => {
                return Err(ErasedGameError::Decoding(e.reason()));
            },
        };
        let (obs, reward, done) = self.game.step(&mut s, a, &mut self.rng);
        match T::encode_state(&s, out_state) {
            Ok(()) => {},
            Err(e) => {
                let r = Err(ErasedGameError::Encoding(e.reason()));
                assert(outputs_encode::<T>(false, out_state@, out_obs@, s, obs));
                return r;
            },
        }
        match T::encode_obs(&obs, out_obs) {
            Ok(()) => {},
            Err(e) => {
                let r = Err(ErasedGameError::Encoding(e.reason()));
                assert(outputs_encode::<T>(false, out_state@, out_obs@, s, obs));
                return r;
            },
        }
        let info = T::info(&s);
        assert(out_state@ =~= T::state_bytes(s));
        assert(out_obs@ =~= T::obs_bytes(obs));
        assert(outputs_encode::<T>(true, out_state@, out_obs@, s, obs));
        Ok((reward, done, info))
    }
}

impl<T: Game> ErasedGame for GameAdapter<T> {
    open spec fn deterministic() -> bool {
        T::rng_free()
    }

    open spec fn reset_result(seed: u64, hint: Seq<u8>) -> Option<(Seq<u8>, Seq<u8>)> {
        adapter_reset::<T>(hint)
    }

    open spec fn step_result(state: Seq<u8>, action: Seq<u8>) -> Option<StepBytes> {
        adapter_step::<T>(state, action)
    }

    open spec fn caps(&self) -> CapsView {
        self.inner().caps()
    }

    fn engine_id(&self) -> EngineId {
        self.game.engine_id()
    }

    fn capabilities(&self) -> Capabilities {
        self.game.capabilities()
    }

    fn reset(
        &mut self,
        seed: u64,
        hint: &[u8],
        out_state: &mut Vec<u8>,
        out_obs: &mut Vec<u8>,
    ) -> (r: Result<(), ErasedGameError>) {
        GameAdapter::reset(self, seed, hint, out_state, out_obs)
    }

    fn step(
        &mut self,
        state: &[u8],
        action: &[u8],
        out_state: &mut Vec<u8>,
        out_obs: &mut Vec<u8>,
    ) -> (r: Result<(u32, bool, u64), ErasedGameError>) {
        GameAdapter::step(self, state, action, out_state, out_obs)
    }
}

/// Every instance of the built-in environment answers a reset and a step
/// through the erased interface with the values below, which depend on the
/// request alone: two instances driven by the same requests give identical
/// states, observations, rewards, done flags and side-channel words.
pub proof fn lemma_tictactoe_deterministic(
    seed: u64,
    hint: Seq<u8>,
    state: Seq<u8>,
    action: Seq<u8>,
)
    ensures
        <GameAdapter<TicTacToe> as ErasedGame>::deterministic(),
        <GameAdapter<TicTacToe> as ErasedGame>::reset_result(seed, hint) == Some(
            (encode_state_spec(initial_state()), obs_bytes_of(initial_state())),
        ),
        <GameAdapter<TicTacToe> as ErasedGame>::step_result(state, action) == match (
            decode_state_spec(state),
            decode_action_spec(action),
        ) {
            (Some(s), Some(a)) => {
                let n = after_move(s, a.pos());
                Some(
                    (
                        encode_state_spec(n),
                        obs_bytes_of(n),
                        reward_of(n, s.current_player),
                        n.winner != 0,
                        legal_mask_of(n),
                    ),
                )
            },
            _ => None,
        },
{
}

} // verus!
