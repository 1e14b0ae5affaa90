//! The engine service: GetCapabilities, Reset and Step over a registry, an
//! instance cache keyed by `(env_id, build_id)`, and a buffer pool.
//!
//! An instance is created by the first Reset of its key and kept, so the
//! generator it owns advances across calls. Step on a key never reset fails.
//! Both buffers leased for a call go back to the pool on every path.
use crate::buffers::BufferPool;
use crate::erased::{ErasedGame, ErasedGameError};
use crate::registry::{GameFactory, Registry};
use crate::typed::{Capabilities, EngineId};
use vstd::prelude::*;

verus! {

/// Failure of a service call; the string is diagnostic only.
#[derive(Debug, Clone, PartialEq)]
pub enum ServiceError {
    /// The environment id is not registered.
    NotFound(String),
    /// The request carries no engine id.
    InvalidArgument(String),
    /// Step on a key that was never reset.
    FailedPrecondition(String),
    /// The environment failed to reset or step.
    Internal(String),
}

/// Encoded initial state and observation.
#[derive(Debug, Clone, PartialEq)]
pub struct ResetResponse {
    pub state: Vec<u8>,
    pub obs: Vec<u8>,
}

/// Encoded next state and observation, reward bits, done flag and
/// side-channel word.
#[derive(Debug, Clone, PartialEq)]
pub struct StepResponse {
    pub state: Vec<u8>,
    pub obs: Vec<u8>,
    pub reward: u32,
    pub done: bool,
    pub info: u64,
}

/// Whether `r` is the reply to a reset whose instance returned `outcome`
/// after writing `state` and `obs`.
pub open spec fn reset_reply_of(
    outcome: Result<(), ErasedGameError>,
    state: Seq<u8>,
    obs: Seq<u8>,
    r: Result<ResetResponse, ServiceError>,
) -> bool {
    match outcome {
        Ok(()) => r is Ok && r->Ok_0.state@ == state && r->Ok_0.obs@ == obs,
        Err(e) => r is Err && r->Err_0 is Internal && r->Err_0->Internal_0@ == e.reason_text(),
    }
}

/// Whether `r` is the reply to a step whose instance returned `outcome`
/// after writing `state` and `obs`.
pub open spec fn step_reply_of(
    outcome: Result<(u32, bool, u64), ErasedGameError>,
    state: Seq<u8>,
    obs: Seq<u8>,
    r: Result<StepResponse, ServiceError>,
) -> bool {
    match outcome {
        Ok((reward, done, info)) => r is Ok && r->Ok_0.state@ == state && r->Ok_0.obs@ == obs
            && r->Ok_0.reward == reward && r->Ok_0.done == done && r->Ok_0.info == info,
        Err(e) => r is Err && r->Err_0 is Internal && r->Err_0->Internal_0@ == e.reason_text(),
    }
}

/// The reply to a reset: copies of the outputs on success, else an internal
/// error carrying the instance's reason.
pub fn reset_reply(outcome: Result<(), ErasedGameError>, state: &Vec<u8>, obs: &Vec<u8>) -> (r:
    Result<ResetResponse, ServiceError>)
    ensures
        reset_reply_of(outcome, state@, obs@, r),
{
    match outcome {
        Ok(()) => {
            let r = ResetResponse { state: state.clone(), obs: obs.clone() };
            assert(r.state@ =~= state@);
            assert(r.obs@ =~= obs@);
            Ok(r)
        },
        Err(e) => Err(ServiceError::Internal(e.reason())),
    }
}

/// The reply to a step: copies of the outputs with the reward, done flag and
/// side-channel word on success, else an internal error carrying the
/// instance's reason.
pub fn step_reply(
    outcome: Result<(u32, bool, u64), ErasedGameError>,
    state: &Vec<u8>,
    obs: &Vec<u8>,
) -> (r: Result<StepResponse, ServiceError>)
    ensures
        step_reply_of(outcome, state@, obs@, r),
{
    match outcome {
        Ok((reward, done, info)) => {
            let r = StepResponse { state: state.clone(), obs: obs.clone(), reward, done, info };
            assert(r.state@ =~= state@);
            assert(r.obs@ =~= obs@);
            Ok(r)
        },
        Err(e) => Err(ServiceError::Internal(e.reason())),
    }
}

/// One entry of the instance cache.
struct CacheSlot<G> {
    env_id: String,
    build_id: String,
    game: G,
}

spec fn slot_key<G>(s: CacheSlot<G>) -> (Seq<char>, Seq<char>) {
    (s.env_id@, s.build_id@)
}

/// Number of spare buffers the default service starts with, per class.
pub const DEFAULT_STATE_BUFFERS: usize = 100;

pub const DEFAULT_OBS_BUFFERS: usize = 100;

pub const DEFAULT_ACTION_BUFFERS: usize = 50;

pub const DEFAULT_BUFFER_CAPACITY: usize = 512;

/// Depths after one state and one observation buffer were leased and given
/// back: an empty stack gains the buffer that was allocated for the lease.
pub open spec fn after_lease(d: (nat, nat, nat)) -> (nat, nat, nat) {
    (if d.0 == 0 { 1 } else { d.0 }, if d.1 == 0 { 1 } else { d.1 }, d.2)
}

/// Whether the state and observation stacks each hold a spare buffer.
pub open spec fn pool_warm(d: (nat, nat, nat)) -> bool {
    d.0 > 0 && d.1 > 0
}

pub struct EngineService<F: GameFactory> {
    registry: Registry<F>,
    buffer_pool: BufferPool,
    game_cache: Vec<CacheSlot<F::Game>>,
}

impl<F: GameFactory> EngineService<F> {
    /// Keys of the cached instances, in order of creation.
    pub closed spec fn cached(&self) -> Seq<(Seq<char>, Seq<char>)> {
        self.game_cache@.map_values(|s: CacheSlot<F::Game>| slot_key(s))
    }

    pub open spec fn has_slot(&self, env_id: Seq<char>, build_id: Seq<char>) -> bool {
        self.cached().contains((env_id, build_id))
    }

    pub closed spec fn registered(&self) -> Seq<Seq<char>> {
        self.registry.keys()
    }

    /// The registry the service was built with.
    pub closed spec fn registry(&self) -> Registry<F> {
        self.registry
    }

    pub open spec fn is_known(&self, env_id: Seq<char>) -> bool {
        self.registered().contains(env_id)
    }

    pub closed spec fn pool_depths(&self) -> (nat, nat, nat) {
        self.buffer_pool.depths()
    }

    pub closed spec fn wf(&self) -> bool {
        &&& self.registry.wf()
        &&& self.buffer_pool.wf()
        &&& self.cached().no_duplicates()
    }

    /// A service over `registry` with a pre-warmed pool.
    pub fn new(registry: Registry<F>) -> (r: Self)
        requires
            registry.wf(),
        ensures
            r.wf(),
            r.registered() == registry.keys(),
            r.registry() == registry,
            r.cached() == Seq::<(Seq<char>, Seq<char>)>::empty(),
            r.pool_depths() == (
                DEFAULT_STATE_BUFFERS as nat,
                DEFAULT_OBS_BUFFERS as nat,
                DEFAULT_ACTION_BUFFERS as nat,
            ),
    {
        let pool = BufferPool::with_capacity(
            DEFAULT_STATE_BUFFERS,
            DEFAULT_OBS_BUFFERS,
            DEFAULT_ACTION_BUFFERS,
            DEFAULT_BUFFER_CAPACITY,
        );
        Self::with_buffer_pool(registry, pool)
    }

    /// A service over `registry` using `buffer_pool`.
    pub fn with_buffer_pool(registry: Registry<F>, buffer_pool: BufferPool) -> (r: Self)
        requires
            registry.wf(),
            buffer_pool.wf(),
        ensures
            r.wf(),
            r.registered() == registry.keys(),
            r.registry() == registry,
            r.cached() == Seq::<(Seq<char>, Seq<char>)>::empty(),
            r.pool_depths() == buffer_pool.depths(),
    {
        let r = EngineService { registry, buffer_pool, game_cache: Vec::new() };
        assert(r.cached() =~= Seq::<(Seq<char>, Seq<char>)>::empty());
        r
    }

    pub fn buffer_pool(&self) -> (r: &BufferPool)
        ensures
            r.depths() == self.pool_depths(),
    {
        &self.buffer_pool
    }

    /// Position of the slot for a key.
    fn find_slot(&self, env_id: &String, build_id: &String) -> (r: Option<usize>)
        requires
            self.wf(),
        ensures
            match r {
                Some(i) => i < self.game_cache@.len() && self.cached()[i as int] == (
                    env_id@,
                    build_id@,
                ),
                None => !self.has_slot(env_id@, build_id@),
            },
    {
        let mut i: usize = 0;
        while i < self.game_cache.len()
            invariant
                i <= self.game_cache@.len(),
                forall|j: int| 0 <= j < i ==> self.cached()[j] != (env_id@, build_id@),
            decreases self.game_cache@.len() - i,
        {
            if self.game_cache[i].env_id == *env_id && self.game_cache[i].build_id == *build_id {
                return Some(i);
            }
            i = i + 1;
        }
        None
    }

    /// The capabilities of a fresh instance of `id.env_id`, whatever the
    /// build id; the instance is then dropped.
    pub fn get_capabilities(&self, id: &EngineId) -> (r: Result<Capabilities, ServiceError>)
        requires
            self.wf(),
        ensures
            r is Ok <==> self.is_known(id.env_id@),
            r is Ok ==> r->Ok_0@ == self.registry().factory(id.env_id@).made_caps(),
            r is Err ==> r->Err_0 is NotFound,
    {
        match self.registry.create_game(id.env_id.as_str()) {
            Some(game) => Ok(game.capabilities()),
            None => Err(ServiceError::NotFound("unknown env_id".to_owned())),
        }
    }

    /// Starts an episode on the instance cached for `id`, creating it first
    /// when the key is new.
    pub fn reset(&mut self, id: Option<EngineId>, seed: u64, hint: &[u8]) -> (r: Result<
        ResetResponse,
        ServiceError,
    >)
        requires
            old(self).wf(),
        ensures
            final(self).wf(),
            final(self).pool_depths() == old(self).pool_depths() || final(self).pool_depths()
                == after_lease(old(self).pool_depths()),
            pool_warm(old(self).pool_depths()) ==> final(self).pool_depths() == old(
                self,
            ).pool_depths(),
            final(self).registered() == old(self).registered(),
            final(self).registry() == old(self).registry(),
            id is None ==> r is Err && r->Err_0 is InvalidArgument && final(self).cached() == old(
                self,
            ).cached(),
            id is Some ==> ({
                let k = (id->0.env_id@, id->0.build_id@);
                let usable = old(self).has_slot(k.0, k.1) || old(self).is_known(k.0);
                &&& !usable ==> r is Err && r->Err_0 is NotFound && final(self).cached() == old(
                    self,
                ).cached()
                &&& usable && old(self).has_slot(k.0, k.1) ==> final(self).cached() == old(
                    self,
                ).cached()
                &&& usable && !old(self).has_slot(k.0, k.1) ==> final(self).cached() == old(
                    self,
                ).cached().push(k)
                &&& usable && <F::Game as ErasedGame>::deterministic() ==> match <F::Game as ErasedGame>::reset_result(seed, hint@) {
                    Some(o) => r is Ok && r->Ok_0.state@ == o.0 && r->Ok_0.obs@ == o.1,
                    None => r is Err && r->Err_0 is Internal,
                }
                &&& usable ==> (r is Err ==> r->Err_0 is Internal)
                &&& usable ==> exists|o: Result<(), ErasedGameError>, sb: Seq<u8>, ob: Seq<u8>|
                    #[trigger] reset_reply_of(o, sb, ob, r)
            }),
    {
        let id = match id {
            Some(id) => id,
            None => {
                return Err(ServiceError::InvalidArgument("missing engine_id".to_owned()));
            },
        };
        let i = match self.find_slot(&id.env_id, &id.build_id) {
            Some(i) => i,
            None => {
                let game = match self.registry.create_game(id.env_id.as_str()) {
                    Some(game) => game,
                    None => {
                        return Err(ServiceError::NotFound("unknown env_id".to_owned()));
                    },
                };
                let ghost before = self.cached();
                self.game_cache.push(CacheSlot { env_id: id.env_id, build_id: id.build_id, game });
                proof {
                    assert(self.cached() =~= before.push((id.env_id@, id.build_id@)));
                }
                self.game_cache.len() - 1
            },
        };
        let mut state_buf = self.buffer_pool.get_state_buffer();
        let mut obs_buf = self.buffer_pool.get_obs_buffer();
        let ghost cache_before = self.game_cache@;
        let outcome = self.game_cache[i].game.reset(seed, hint, &mut state_buf, &mut obs_buf);
        proof {
            assert(self.cached() =~= cache_before.map_values(
                |s: CacheSlot<F::Game>| slot_key(s),
            ));
        }
        let r = reset_reply(outcome, &state_buf, &obs_buf);
        self.buffer_pool.return_state_buffer(state_buf);
        self.buffer_pool.return_obs_buffer(obs_buf);
        r
    }
    /// Advances the instance cached for `id` by one step.
    pub fn step(&mut self, id: Option<EngineId>, state: &[u8], action: &[u8]) -> (r: Result<
        StepResponse,
        ServiceError,
    >)
        requires
            old(self).wf(),
        ensures
            final(self).wf(),
            final(self).pool_depths() == old(self).pool_depths() || final(self).pool_depths()
                == after_lease(old(self).pool_depths()),
            pool_warm(old(self).pool_depths()) ==> final(self).pool_depths() == old(
                self,
            ).pool_depths(),
            final(self).registered() == old(self).registered(),
            final(self).registry() == old(self).registry(),
            final(self).cached() == old(self).cached(),
            id is None ==> r is Err && r->Err_0 is InvalidArgument,
            id is Some ==> ({
                let k = (id->0.env_id@, id->0.build_id@);
                &&& !old(self).is_known(k.0) ==> r is Err && r->Err_0 is NotFound
                &&& old(self).is_known(k.0) && !old(self).has_slot(k.0, k.1) ==> r is Err
                    && r->Err_0 is FailedPrecondition
                &&& old(self).is_known(k.0) && old(self).has_slot(k.0, k.1) ==> (r is Err
                    ==> r->Err_0 is Internal)
                &&& old(self).is_known(k.0) && old(self).has_slot(k.0, k.1) ==> exists|
                    o: Result<(u32, bool, u64), ErasedGameError>,
                    sb: Seq<u8>,
                    ob: Seq<u8>,
                | #[trigger] step_reply_of(o, sb, ob, r)
                &&& old(self).is_known(k.0) && old(self).has_slot(k.0, k.1)
                    && <F::Game as ErasedGame>::deterministic() ==> match <F::Game as ErasedGame>::step_result(state@, action@) {
                    Some(o) => r is Ok && r->Ok_0.state@ == o.0 && r->Ok_0.obs@ == o.1
                        && r->Ok_0.reward == o.2 && r->Ok_0.done == o.3 && r->Ok_0.info == o.4,
                    None => r is Err,
                }
            }),
    {
        let id = match id {
            Some(id) => id,
            None => {
                return Err(ServiceError::InvalidArgument("missing engine_id".to_owned()));
            },
        };
        if !self.registry.is_registered(id.env_id.as_str()) {
            return Err(ServiceError::NotFound("unknown env_id".to_owned()));
        }
        let i = match self.find_slot(&id.env_id, &id.build_id) {
            Some(i) => i,
            None => {
                return Err(
                    ServiceError::FailedPrecondition(
                        "game not initialized - call reset before step".to_owned(),
                    ),
                );
            },
        };
        let mut state_buf = self.buffer_pool.get_state_buffer();
        let mut obs_buf = self.buffer_pool.get_obs_buffer();
        let ghost cache_before = self.game_cache@;
        let outcome = self.game_cache[i].game.step(state, action, &mut state_buf, &mut obs_buf);
        proof {
            assert(self.cached() =~= cache_before.map_values(
                |s: CacheSlot<F::Game>| slot_key(s),
            ));
        }
        let r = step_reply(outcome, &state_buf, &obs_buf);
        self.buffer_pool.return_state_buffer(state_buf);
        self.buffer_pool.return_obs_buffer(obs_buf);
        r
    }
}

} // verus!
