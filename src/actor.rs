//! The actor's decisions: when to stop, when to flush, and what a transition
//! holds. The caller performs the remote calls and the waiting.
//!
//! A `TransitionBuffer` keeps, as ghost state, every transition pushed and
//! every batch handed out, so that nothing is lost between the two.
use vstd::prelude::*;

verus! {

/// The tag the actor sends as `build_id` with every reset and step.
pub fn actor_build_id() -> (r: String)
    ensures
        r@ == "actor-rust"@,
{
    "actor-rust".to_owned()
}

/// Bit pattern of the `f32` value 1.0, the default priority.
pub const DEFAULT_PRIORITY: u32 = 0x3F80_0000;

/// One step of experience. Reward and priority hold `f32` bit patterns.
#[derive(Debug, Clone, PartialEq)]
pub struct Transition {
    pub id: String,
    pub env_id: String,
    pub episode_id: String,
    pub step_number: u32,
    pub state: Vec<u8>,
    pub action: Vec<u8>,
    pub next_state: Vec<u8>,
    pub observation: Vec<u8>,
    pub next_observation: Vec<u8>,
    pub reward: u32,
    pub done: bool,
    pub priority: u32,
    pub timestamp: u64,
    /// Free-form string pairs; the actor sends none.
    pub metadata: Vec<(String, String)>,
}

/// Transitions waiting to be stored, with a size trigger.
pub struct TransitionBuffer<T> {
    items: Vec<T>,
    batch_size: usize,
    /// Every item ever pushed, in order.
    pushed: Ghost<Seq<T>>,
    /// Every item ever handed out in a batch, in order.
    handed_out: Ghost<Seq<T>>,
}

impl<T> TransitionBuffer<T> {
    pub closed spec fn contents(&self) -> Seq<T> {
        self.items@
    }

    pub closed spec fn batch_limit(&self) -> nat {
        self.batch_size as nat
    }

    pub closed spec fn pushed(&self) -> Seq<T> {
        self.pushed@
    }

    pub closed spec fn handed_out(&self) -> Seq<T> {
        self.handed_out@
    }

    /// What was pushed is what was handed out, followed by what waits.
    pub closed spec fn wf(&self) -> bool {
        self.pushed@ == self.handed_out@ + self.items@
    }

    /// An empty buffer that asks for a flush at `batch_size` items.
    pub fn new(batch_size: usize) -> (r: Self)
        ensures
            r.wf(),
            r.contents() == Seq::<T>::empty(),
            r.pushed() == Seq::<T>::empty(),
            r.handed_out() == Seq::<T>::empty(),
            r.batch_limit() == batch_size,
    {
        let r = TransitionBuffer {
            items: Vec::new(),
            batch_size,
            pushed: Ghost(Seq::empty()),
            handed_out: Ghost(Seq::empty()),
        };
        assert(r.pushed@ =~= r.handed_out@ + r.items@);
        r
    }

    pub fn len(&self) -> (r: usize)
        ensures
            r == self.contents().len(),
    {
        self.items.len()
    }

    pub fn is_empty(&self) -> (r: bool)
        ensures
            r == (self.contents().len() == 0),
    {
        self.items.len() == 0
    }

    /// Appends `t`; returns whether the buffer reached the batch size and
    /// must be flushed.
    pub fn push(&mut self, t: T) -> (flush_due: bool)
        requires
            old(self).wf(),
        ensures
            final(self).wf(),
            final(self).contents() == old(self).contents().push(t),
            final(self).pushed() == old(self).pushed().push(t),
            final(self).handed_out() == old(self).handed_out(),
            final(self).batch_limit() == old(self).batch_limit(),
            flush_due == (final(self).contents().len() >= final(self).batch_limit()),
    {
        self.items.push(t);
        self.pushed = Ghost(self.pushed@.push(t));
        assert(self.pushed@ =~= self.handed_out@ + self.items@);
        self.items.len() >= self.batch_size
    }

    /// Whether a tick of the flush timer flushes: when anything waits.
    pub fn flush_on_tick(&self) -> (r: bool)
        ensures
            r == (self.contents().len() > 0),
    {
        !self.is_empty()
    }

    /// Moves every waiting transition, in order, into the returned batch.
    pub fn take_batch(&mut self) -> (batch: Vec<T>)
        requires
            old(self).wf(),
        ensures
            final(self).wf(),
            batch@ == old(self).contents(),
            final(self).contents() == Seq::<T>::empty(),
            final(self).pushed() == old(self).pushed(),
            final(self).handed_out() == old(self).handed_out() + batch@,
            final(self).batch_limit() == old(self).batch_limit(),
    {
        let mut batch: Vec<T> = Vec::new();
        batch.append(&mut self.items);
        self.handed_out = Ghost(self.handed_out@ + batch@);
        assert(self.pushed@ =~= self.handed_out@ + self.items@);
        batch
    }
}

/// Once the buffer is drained, every transition ever pushed was handed out,
/// in the order it was pushed.
pub proof fn lemma_drained_buffer_lost_nothing<T>(b: TransitionBuffer<T>)
    requires
        b.wf(),
        b.contents().len() == 0,
    ensures
        b.handed_out() == b.pushed(),
{
    assert(b.handed_out() + b.contents() =~= b.handed_out());
}

/// The episode loop's control state.
pub struct ActorControl {
    pub max_episodes: i32,
    pub episode_count: u32,
    pub shutdown: bool,
}

/// Whether the main loop stops: on shutdown, or when a positive cap is met.
pub open spec fn stop_spec(c: ActorControl) -> bool {
    c.shutdown || (c.max_episodes > 0 && c.episode_count >= c.max_episodes)
}

impl ActorControl {
    pub fn new(max_episodes: i32) -> (r: ActorControl)
        ensures
            r.max_episodes == max_episodes,
            r.episode_count == 0,
            !r.shutdown,
    {
        ActorControl { max_episodes, episode_count: 0, shutdown: false }
    }

    pub fn should_stop(&self) -> (r: bool)
        ensures
            r == stop_spec(*self),
    {
        self.shutdown || (self.max_episodes > 0 && self.episode_count >= self.max_episodes as u32)
    }

    /// Counts a finished episode; a failed one is not counted. The count
    /// saturates at `u32::MAX`.
    pub fn episode_finished(&mut self, succeeded: bool)
        ensures
            final(self).max_episodes == old(self).max_episodes,
            final(self).shutdown == old(self).shutdown,
            final(self).episode_count == if succeeded && old(self).episode_count < u32::MAX {
                (old(self).episode_count + 1) as u32
            } else {
                old(self).episode_count
            },
    {
        if succeeded && self.episode_count < u32::MAX {
            self.episode_count = self.episode_count + 1;
        }
    }

    pub fn request_shutdown(&mut self)
        ensures
            final(self).shutdown,
            final(self).max_episodes == old(self).max_episodes,
            final(self).episode_count == old(self).episode_count,
    {
        self.shutdown = true;
    }
}

/// The transition for one step: from the state and observation the action
/// was chosen on to those the step returned, with the default priority.
pub fn make_transition(
    id: String,
    env_id: String,
    episode_id: String,
    step_number: u32,
    state: Vec<u8>,
    action: Vec<u8>,
    observation: Vec<u8>,
    next_state: Vec<u8>,
    next_observation: Vec<u8>,
    reward: u32,
    done: bool,
    timestamp: u64,
) -> (r: Transition)
    ensures
        r.id == id,
        r.env_id == env_id,
        r.episode_id == episode_id,
        r.step_number == step_number,
        r.state == state,
        r.action == action,
        r.observation == observation,
        r.next_state == next_state,
        r.next_observation == next_observation,
        r.reward == reward,
        r.done == done,
        r.priority == DEFAULT_PRIORITY,
        r.timestamp == timestamp,
        r.metadata@.len() == 0,
{
    Transition {
        id,
        env_id,
        episode_id,
        step_number,
        state,
        action,
        next_state,
        observation,
        next_observation,
        reward,
        done,
        priority: DEFAULT_PRIORITY,
        timestamp,
        metadata: Vec::new(),
    }
}

/// One episode in progress: the state and observation the next action is
/// chosen on, and the number of the next step.
pub struct Episode {
    pub env_id: String,
    pub episode_id: String,
    pub step_number: u32,
    pub state: Vec<u8>,
    pub obs: Vec<u8>,
    pub finished: bool,
}

impl Episode {
    /// The episode that a reset began.
    pub fn start(env_id: String, episode_id: String, state: Vec<u8>, obs: Vec<u8>) -> (r: Episode)
        ensures
            r.env_id == env_id,
            r.episode_id == episode_id,
            r.step_number == 0,
            r.state == state,
            r.obs == obs,
            !r.finished,
    {
        Episode { env_id, episode_id, step_number: 0, state, obs, finished: false }
    }

    /// Records a step taken with `action` from the current state and
    /// observation: returns its transition, then moves to the state and
    /// observation the step returned, or finishes on `done`.
    pub fn record_step(
        &mut self,
        transition_id: String,
        action: Vec<u8>,
        next_state: Vec<u8>,
        next_obs: Vec<u8>,
        reward: u32,
        done: bool,
        timestamp: u64,
    ) -> (t: Transition)
        requires
            !old(self).finished,
        ensures
            t.id == transition_id,
            t.env_id@ == old(self).env_id@,
            t.episode_id@ == old(self).episode_id@,
            t.step_number == old(self).step_number,
            t.state@ == old(self).state@,
            t.observation@ == old(self).obs@,
            t.action == action,
            t.next_state@ == next_state@,
            t.next_observation@ == next_obs@,
            t.reward == reward,
            t.done == done,
            t.priority == DEFAULT_PRIORITY,
            t.timestamp == timestamp,
            t.metadata@.len() == 0,
            final(self).env_id == old(self).env_id,
            final(self).episode_id == old(self).episode_id,
            final(self).finished == done,
            final(self).state@ == next_state@,
            final(self).obs@ == next_obs@,
            final(self).step_number == if done || old(self).step_number == u32::MAX {
                old(self).step_number
            } else {
                (old(self).step_number + 1) as u32
            },
    {
        let t = make_transition(
            transition_id,
            self.env_id.clone(),
            self.episode_id.clone(),
            self.step_number,
            self.state.clone(),
            action,
            self.obs.clone(),
            next_state.clone(),
            next_obs.clone(),
            reward,
            done,
            timestamp,
        );
        assert(t.state@ =~= old(self).state@);
        assert(t.observation@ =~= old(self).obs@);
        assert(t.next_state@ =~= next_state@);
        assert(t.next_observation@ =~= next_obs@);
        self.state = next_state;
        self.obs = next_obs;
        self.finished = done;
        if !done && self.step_number < u32::MAX {
            self.step_number = self.step_number + 1;
        }
        t
    }
}

} // verus!
