//! Recycled byte buffers for the state, observation and action paths.
//!
//! Each usage class has its own stack. A buffer taken from a stack is either
//! popped or freshly allocated; a buffer given back is emptied (its capacity
//! kept) and pushed. A `PooledBuffer` lease records the class it came from and
//! goes back with `release`, unless `into_inner` keeps it.
use vstd::prelude::*;

verus! {

/// A stack of spare buffers, all of length zero.
#[derive(Debug)]
pub struct BufferStack {
    buffers: Vec<Vec<u8>>,
}

impl BufferStack {
    pub closed spec fn depth(&self) -> nat {
        self.buffers@.len()
    }

    /// Every spare buffer is empty.
    pub closed spec fn wf(&self) -> bool {
        forall|i: int| 0 <= i < self.buffers@.len() ==> (#[trigger] self.buffers@[i])@.len() == 0
    }

    pub fn new() -> (r: BufferStack)
        ensures
            r.wf(),
            r.depth() == 0,
    {
        BufferStack { buffers: Vec::new() }
    }

    /// `count` empty buffers, each allocated with room for `capacity` bytes.
    pub fn with_capacity(count: usize, capacity: usize) -> (r: BufferStack)
        ensures
            r.wf(),
            r.depth() == count,
    {
        let mut buffers: Vec<Vec<u8>> = Vec::with_capacity(count);
        let mut i: usize = 0;
        while i < count
            invariant
                i <= count,
                buffers@.len() == i,
                forall|j: int| 0 <= j < buffers@.len() ==> (#[trigger] buffers@[j])@.len() == 0,
            decreases count - i,
        {
            buffers.push(Vec::with_capacity(capacity));
            i = i + 1;
        }
        BufferStack { buffers }
    }

    /// Pops a spare buffer, or allocates an empty one.
    pub fn acquire(&mut self) -> (r: Vec<u8>)
        requires
            old(self).wf(),
        ensures
            final(self).wf(),
            r@.len() == 0,
            final(self).depth() == if old(self).depth() > 0 {
                old(self).depth() - 1
            } else {
                0
            },
    {
        match self.buffers.pop() {
            Some(b) => b,
            None => Vec::new(),
        }
    }

    /// Empties `buf`, keeping its capacity, and pushes it.
    pub fn release(&mut self, buf: Vec<u8>)
        requires
            old(self).wf(),
        ensures
            final(self).wf(),
            final(self).depth() == old(self).depth() + 1,
    {
        let mut buf = buf;
        buf.clear();
        self.buffers.push(buf);
    }

    /// Drops every spare buffer.
    pub fn clear(&mut self)
        ensures
            final(self).wf(),
            final(self).depth() == 0,
    {
        self.buffers.clear();
    }

    pub fn len(&self) -> (r: usize)
        ensures
            r == self.depth(),
    {
        self.buffers.len()
    }
}

/// The three buffer stacks of the service.
#[derive(Debug)]
pub struct BufferPool {
    state_buffers: BufferStack,
    obs_buffers: BufferStack,
    action_buffers: BufferStack,
}

/// Depths of the three stacks.
#[derive(Debug, Clone, Copy, PartialEq, Eq)]
pub struct BufferPoolStats {
    pub available_state_buffers: usize,
    pub available_obs_buffers: usize,
    pub available_action_buffers: usize,
}

/// The usage class of a buffer.
#[derive(Debug, Clone, Copy, PartialEq, Eq)]
pub enum BufferClass {
    State,
    Obs,
    Action,
}

impl BufferPool {
    pub closed spec fn wf(&self) -> bool {
        self.state_buffers.wf() && self.obs_buffers.wf() && self.action_buffers.wf()
    }

    /// The depths of the state, observation and action stacks.
    pub closed spec fn depths(&self) -> (nat, nat, nat) {
        (self.state_buffers.depth(), self.obs_buffers.depth(), self.action_buffers.depth())
    }

    pub open spec fn depth_of(&self, class: BufferClass) -> nat {
        match class {
            BufferClass::State => self.depths().0,
            BufferClass::Obs => self.depths().1,
            BufferClass::Action => self.depths().2,
        }
    }

    pub fn new() -> (r: BufferPool)
        ensures
            r.wf(),
            r.depths() == (0nat, 0nat, 0nat),
    {
        BufferPool {
            state_buffers: BufferStack::new(),
            obs_buffers: BufferStack::new(),
            action_buffers: BufferStack::new(),
        }
    }

    /// A pool pre-filled with the given numbers of empty buffers, each with
    /// room for `initial_capacity` bytes.
    pub fn with_capacity(
        state_count: usize,
        obs_count: usize,
        action_count: usize,
        initial_capacity: usize,
    ) -> (r: BufferPool)
        ensures
            r.wf(),
            r.depths() == (state_count as nat, obs_count as nat, action_count as nat),
    {
        BufferPool {
            state_buffers: BufferStack::with_capacity(state_count, initial_capacity),
            obs_buffers: BufferStack::with_capacity(obs_count, initial_capacity),
            action_buffers: BufferStack::with_capacity(action_count, initial_capacity),
        }
    }

    /// Takes an empty buffer of `class`: a spare one if any.
    pub fn acquire(&mut self, class: BufferClass) -> (r: Vec<u8>)
        requires
            old(self).wf(),
        ensures
            final(self).wf(),
            r@.len() == 0,
            forall|c: BufferClass| #[trigger]
                final(self).depth_of(c) == if c == class && old(self).depth_of(c) > 0 {
                    (old(self).depth_of(c) - 1) as nat
                } else if c == class {
                    0
                } else {
                    old(self).depth_of(c)
                },
    {
        match class {
            BufferClass::State => self.state_buffers.acquire(),
            BufferClass::Obs => self.obs_buffers.acquire(),
            BufferClass::Action => self.action_buffers.acquire(),
        }
    }

    /// Gives `buf` back to the stack of `class`, emptied.
    pub fn release(&mut self, class: BufferClass, buf: Vec<u8>)
        requires
            old(self).wf(),
        ensures
            final(self).wf(),
            forall|c: BufferClass| #[trigger]
                final(self).depth_of(c) == if c == class {
                    old(self).depth_of(c) + 1
                } else {
                    old(self).depth_of(c)
                },
    {
        match class {
            BufferClass::State => self.state_buffers.release(buf),
            BufferClass::Obs => self.obs_buffers.release(buf),
            BufferClass::Action => self.action_buffers.release(buf),
        }
    }

    pub fn get_state_buffer(&mut self) -> (r: Vec<u8>)
        requires
            old(self).wf(),
        ensures
            final(self).wf(),
            r@.len() == 0,
            final(self).depths() == (
                (if old(self).depths().0 > 0 { old(self).depths().0 - 1 } else { 0 }) as nat,
                old(self).depths().1,
                old(self).depths().2,
            ),
    {
        self.state_buffers.acquire()
    }

    pub fn return_state_buffer(&mut self, buf: Vec<u8>)
        requires
            old(self).wf(),
        ensures
            final(self).wf(),
            final(self).depths() == (
                old(self).depths().0 + 1,
                old(self).depths().1,
                old(self).depths().2,
            ),
    {
        self.state_buffers.release(buf)
    }

    pub fn get_obs_buffer(&mut self) -> (r: Vec<u8>)
        requires
            old(self).wf(),
        ensures
            final(self).wf(),
            r@.len() == 0,
            final(self).depths() == (
                old(self).depths().0,
                (if old(self).depths().1 > 0 { old(self).depths().1 - 1 } else { 0 }) as nat,
                old(self).depths().2,
            ),
    {
        self.obs_buffers.acquire()
    }

    pub fn return_obs_buffer(&mut self, buf: Vec<u8>)
        requires
            old(self).wf(),
        ensures
            final(self).wf(),
            final(self).depths() == (
                old(self).depths().0,
                old(self).depths().1 + 1,
                old(self).depths().2,
            ),
    {
        self.obs_buffers.release(buf)
    }

    pub fn get_action_buffer(&mut self) -> (r: Vec<u8>)
        requires
            old(self).wf(),
        ensures
            final(self).wf(),
            r@.len() == 0,
            final(self).depths() == (
                old(self).depths().0,
                old(self).depths().1,
                (if old(self).depths().2 > 0 { old(self).depths().2 - 1 } else { 0 }) as nat,
            ),
    {
        self.action_buffers.acquire()
    }

    pub fn return_action_buffer(&mut self, buf: Vec<u8>)
        requires
            old(self).wf(),
        ensures
            final(self).wf(),
            final(self).depths() == (
                old(self).depths().0,
                old(self).depths().1,
                old(self).depths().2 + 1,
            ),
    {
        self.action_buffers.release(buf)
    }

    pub fn stats(&self) -> (r: BufferPoolStats)
        ensures
            r.available_state_buffers == self.depths().0,
            r.available_obs_buffers == self.depths().1,
            r.available_action_buffers == self.depths().2,
    {
        BufferPoolStats {
            available_state_buffers: self.state_buffers.len(),
            available_obs_buffers: self.obs_buffers.len(),
            available_action_buffers: self.action_buffers.len(),
        }
    }

    /// Drops every spare buffer of every class.
    pub fn clear(&mut self)
        ensures
            final(self).wf(),
            final(self).depths() == (0nat, 0nat, 0nat),
    {
        self.state_buffers.clear();
        self.obs_buffers.clear();
        self.action_buffers.clear();
    }
}

/// A buffer on lease from a pool, with the class it goes back to.
#[derive(Debug)]
pub struct PooledBuffer {
    buffer: Vec<u8>,
    class: BufferClass,
}

impl PooledBuffer {
    pub closed spec fn contents(&self) -> Seq<u8> {
        self.buffer@
    }

    pub closed spec fn class(&self) -> BufferClass {
        self.class
    }

    /// Leases `buffer`, which goes back to the stack of `class` on release.
    pub fn new(buffer: Vec<u8>, class: BufferClass) -> (r: PooledBuffer)
        ensures
            r.contents() == buffer@,
            r.class() == class,
    {
        PooledBuffer { buffer, class }
    }

    pub fn as_mut(&mut self) -> (r: &mut Vec<u8>)
        ensures
            (*r)@ == old(self).contents(),
            final(self).contents() == (*final(r))@,
            final(self).class() == old(self).class(),
    {
        &mut self.buffer
    }

    pub fn as_ref(&self) -> (r: &Vec<u8>)
        ensures
            r@ == self.contents(),
    {
        &self.buffer
    }

    /// Ends the lease and keeps the buffer out of the pool.
    pub fn into_inner(self) -> (r: Vec<u8>)
        ensures
            r@ == self.contents(),
    {
        self.buffer
    }

    /// Ends the lease, giving the buffer back to its stack.
    pub fn release(self, pool: &mut BufferPool)
        requires
            old(pool).wf(),
        ensures
            final(pool).wf(),
            forall|c: BufferClass| #[trigger]
                final(pool).depth_of(c) == if c == self.class() {
                    old(pool).depth_of(c) + 1
                } else {
                    old(pool).depth_of(c)
                },
    {
        pool.release(self.class, self.buffer)
    }
}

} // verus!
