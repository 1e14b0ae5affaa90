//! Action selection: a uniform-random policy over discrete action spaces.
//!
//! Each sampled component is encoded as a little-endian `u32`. Continuous
//! spaces are sampled with floating-point arithmetic and are not handled here.
use crate::typed::{ActionSpace, Capabilities};
use rand_chacha::ChaCha20Rng;
use vstd::prelude::*;

verus! {

/// Relies on rand's `Rng::gen_range` over the exclusive range `0..n`:
/// a value below `n`. It panics on an empty range, which `requires` excludes.
#[verifier::external_body]
fn gen_below(rng: &mut ChaCha20Rng, n: u32) -> (r: u32)
    requires
        n > 0,
    ensures
        r < n,
{
    rand::Rng::gen_range(rng, 0..n)
}

/// Relies on rand_core's `SeedableRng::from_rng` for ChaCha20Rng, fed by
/// `OsRng`: a generator seeded from the operating system, or `None` when the
/// operating system cannot supply randomness. It does not panic. Nothing is
/// stated of which outcome comes.
#[verifier::external_body]
fn rng_from_os() -> (r: Option<ChaCha20Rng>) {
    <ChaCha20Rng as rand::SeedableRng>::from_rng(rand::rngs::OsRng).ok()
}

/// The value of four little-endian bytes.
pub open spec fn le_u32(b: Seq<u8>) -> int {
    b[0] + 256 * b[1] + 65536 * b[2] + 16777216 * b[3]
}

/// Component `i` of a run of little-endian `u32` values.
pub open spec fn component(b: Seq<u8>, i: int) -> int {
    le_u32(b.subrange(4 * i, 4 * i + 4))
}

/// Appends the four little-endian bytes of `x`.
pub fn push_le_u32(out: &mut Vec<u8>, x: u32)
    ensures
        final(out)@.len() == old(out)@.len() + 4,
        final(out)@.subrange(0, old(out)@.len() as int) == old(out)@,
        le_u32(final(out)@.subrange(old(out)@.len() as int, old(out)@.len() + 4 as int)) == x,
{
    let b0 = (x % 256) as u8;
    let b1 = ((x / 256) % 256) as u8;
    let b2 = ((x / 65536) % 256) as u8;
    let b3 = (x / 16777216) as u8;
    out.push(b0);
    out.push(b1);
    out.push(b2);
    out.push(b3);
    proof {
        let n = old(out)@.len() as int;
        let tail = out@.subrange(n, n + 4);
        assert(tail =~= seq![b0, b1, b2, b3]);
        assert(out@.subrange(0, n) =~= old(out)@);
        let xi = x as int;
        assert(xi == xi % 256 + 256 * ((xi / 256) % 256) + 65536 * ((xi / 65536) % 256) + 16777216 * (
        xi / 16777216)) by (nonlinear_arith)
            requires
                0 <= xi < 0x1_0000_0000,
        ;
    }
}

/// Failure of a policy.
#[derive(Debug, Clone, PartialEq, Eq)]
pub enum PolicyError {
    /// `Discrete(0)`.
    EmptyDiscrete,
    /// A `MultiDiscrete` component of zero.
    EmptyComponent,
    /// A continuous space, which this policy does not sample.
    ContinuousSpace,
    /// The operating system supplied no randomness to seed the generator.
    EntropyUnavailable,
    /// Continuous bounds of different lengths.
    BoundsLengthMismatch,
}

/// A discrete action space a policy samples from.
#[derive(Debug, Clone, PartialEq)]
pub enum DiscreteSpace {
    Discrete { n: u32 },
    MultiDiscrete { nvec: Vec<u32> },
}

/// Selects an action, encoded as bytes, for an encoded observation.
pub trait Policy {
    fn select_action(&mut self, observation: &[u8]) -> Result<Vec<u8>, PolicyError>;
}

/// Samples every component uniformly, ignoring the observation.
pub struct RandomPolicy {
    rng: ChaCha20Rng,
    action_space: DiscreteSpace,
}

/// Whether a policy space stands for an action space.
pub open spec fn space_matches(d: DiscreteSpace, a: ActionSpace) -> bool {
    match (d, a) {
        (DiscreteSpace::Discrete { n }, ActionSpace::Discrete(m)) => n == m,
        (DiscreteSpace::MultiDiscrete { nvec }, ActionSpace::MultiDiscrete(mvec)) => nvec@ == mvec@,
        _ => false,
    }
}

/// Whether `bytes` is a legal sample of `space`: one little-endian `u32`
/// below the bound per component.
pub open spec fn sample_of(space: DiscreteSpace, bytes: Seq<u8>) -> bool {
    match space {
        DiscreteSpace::Discrete { n } => bytes.len() == 4 && 0 <= le_u32(bytes) < n,
        DiscreteSpace::MultiDiscrete { nvec } => bytes.len() == 4 * nvec@.len() && forall|i: int|
            0 <= i < nvec@.len() ==> 0 <= #[trigger] component(bytes, i) < nvec@[i],
    }
}

/// Whether a space has a component that cannot be sampled.
pub open spec fn space_empty(space: DiscreteSpace) -> bool {
    match space {
        DiscreteSpace::Discrete { n } => n == 0,
        DiscreteSpace::MultiDiscrete { nvec } => exists|i: int|
            0 <= i < nvec@.len() && #[trigger] nvec@[i] == 0,
    }
}

fn space_from(capabilities: &Capabilities) -> (r: Result<DiscreteSpace, PolicyError>)
    ensures
        capabilities.action_space is Continuous ==> r == Err::<DiscreteSpace, PolicyError>(
            PolicyError::ContinuousSpace,
        ),
        !(capabilities.action_space is Continuous) ==> r is Ok && space_matches(
            r->Ok_0,
            capabilities.action_space,
        ),
{
    match &capabilities.action_space {
        ActionSpace::Discrete(n) => Ok(DiscreteSpace::Discrete { n: *n }),
        ActionSpace::MultiDiscrete(nvec) => {
            let nvec = nvec.clone();
            assert(nvec@ =~= capabilities.action_space->MultiDiscrete_0@);
            Ok(DiscreteSpace::MultiDiscrete { nvec })
        },
        ActionSpace::Continuous { .. } => Err(PolicyError::ContinuousSpace),
    }
}

impl RandomPolicy {
    pub closed spec fn space(&self) -> DiscreteSpace {
        self.action_space
    }

    /// A policy over the advertised space, seeded from the operating system;
    /// fails when the operating system supplies no randomness.
    pub fn new(capabilities: &Capabilities) -> (r: Result<RandomPolicy, PolicyError>)
        ensures
            capabilities.action_space is Continuous ==> r is Err && r->Err_0 == PolicyError::ContinuousSpace,
            !(capabilities.action_space is Continuous) ==> match r {
                Ok(p) => space_matches(p.space(), capabilities.action_space),
                Err(e) => e == PolicyError::EntropyUnavailable,
            },
    {
        let action_space = match space_from(capabilities) {
            Ok(s) => s,
            Err(e) => {
                return Err(e);
            },
        };
        match rng_from_os() {
            Some(rng) => Ok(RandomPolicy { rng, action_space }),
            None => Err(PolicyError::EntropyUnavailable),
        }
    }

    /// A policy over the advertised space, seeded with `seed`.
    pub fn with_seed(capabilities: &Capabilities, seed: u64) -> (r: Result<RandomPolicy, PolicyError>)
        ensures
            capabilities.action_space is Continuous ==> r is Err && r->Err_0 == PolicyError::ContinuousSpace,
            !(capabilities.action_space is Continuous) ==> r is Ok && space_matches(
                r->Ok_0.space(),
                capabilities.action_space,
            ),
    {
        let action_space = match space_from(capabilities) {
            Ok(s) => s,
            Err(e) => {
                return Err(e);
            },
        };
        Ok(RandomPolicy { rng: crate::adapter::rng_from_seed(seed), action_space })
    }

    /// A uniform sample of the space; fails exactly when some component
    /// has no value to draw.
    pub fn select_action(&mut self, observation: &[u8]) -> (r: Result<Vec<u8>, PolicyError>)
        ensures
            final(self).space() == old(self).space(),
            r is Err <==> space_empty(old(self).space()),
            r is Ok ==> sample_of(old(self).space(), r->Ok_0@),
            r is Err ==> (r->Err_0 is EmptyDiscrete || r->Err_0 is EmptyComponent),
    {
        sample(&mut self.rng, &self.action_space)
    }
}

/// A uniform sample of `space` drawn from `rng`.
fn sample(rng: &mut ChaCha20Rng, space: &DiscreteSpace) -> (r: Result<Vec<u8>, PolicyError>)
    ensures
        r is Err <==> space_empty(*space),
        r is Ok ==> sample_of(*space, r->Ok_0@),
        r is Err ==> (r->Err_0 is EmptyDiscrete || r->Err_0 is EmptyComponent),
{
        match space {
            DiscreteSpace::Discrete { n } => {
                if *n == 0 {
                    return Err(PolicyError::EmptyDiscrete);
                }
                let action = gen_below(rng, *n);
                let mut bytes: Vec<u8> = Vec::new();
                push_le_u32(&mut bytes, action);
                assert(bytes@.subrange(0, 4) =~= bytes@);
                Ok(bytes)
            },
            DiscreteSpace::MultiDiscrete { nvec } => {
                let mut bytes: Vec<u8> = Vec::new();
                let mut i: usize = 0;
                while i < nvec.len()
                    invariant
                        i <= nvec@.len(),
                        *space == (DiscreteSpace::MultiDiscrete { nvec: *nvec }),
                        bytes@.len() == 4 * i,
                        forall|j: int| 0 <= j < i ==> nvec@[j] != 0,
                        forall|j: int| 0 <= j < i ==> 0 <= #[trigger] component(bytes@, j) < nvec@[j],
                    decreases nvec@.len() - i,
                {
                    let n = nvec[i];
                    if n == 0 {
                        assert(space_empty(*space)) by {
                            assert(space->nvec@[i as int] == 0);
                        }
                        return Err(PolicyError::EmptyComponent);
                    }
                    let action = gen_below(rng, n);
                    let ghost before = bytes@;
                    push_le_u32(&mut bytes, action);
                    proof {
                        assert forall|j: int| 0 <= j < i + 1 implies 0 <= #[trigger] component(bytes@, j) < nvec@[j] by {
                            if j < i {
                                assert(0 <= component(before, j) < nvec@[j]);
                                assert(bytes@.subrange(0, before.len() as int) == before);
                                assert(bytes@.subrange(4 * j, 4 * j + 4) =~= bytes@.subrange(
                                    0,
                                    before.len() as int,
                                ).subrange(4 * j, 4 * j + 4));
                            } else {
                                assert(bytes@.subrange(4 * j, 4 * j + 4) =~= bytes@.subrange(before.len() as int, before.len() + 4 as int));
                            }
                        }
                    }
                    i = i + 1;
                }
                Ok(bytes)
            },
        }
}

/// Checks that continuous bounds pair up: one low and one high bound per
/// component. Comparing the bounds themselves is floating-point work.
pub fn check_bounds_shape(low: &Vec<u32>, high: &Vec<u32>) -> (r: Result<(), PolicyError>)
    ensures
        r is Ok <==> low@.len() == high@.len(),
        r is Err ==> r->Err_0 == PolicyError::BoundsLengthMismatch,
{
    if low.len() != high.len() {
        return Err(PolicyError::BoundsLengthMismatch);
    }
    Ok(())
}

impl Policy for RandomPolicy {
    fn select_action(&mut self, observation: &[u8]) -> Result<Vec<u8>, PolicyError> {
        RandomPolicy::select_action(self, observation)
    }
}

} // verus!
