//! The typed environment contract: what an environment author implements.
//!
//! Rewards are carried as the bit pattern of an IEEE-754 single-precision
//! value (`f32::to_bits`), and continuous bounds likewise, so that every value
//! the library handles is an integer.
use rand_chacha::ChaCha20Rng;
use vstd::prelude::*;

verus! {

/// The ChaCha20 generator of rand_chacha, carried opaquely.
#[verifier::external_type_specification]
#[verifier::external_body]
pub struct ExChaCha20Rng(rand_chacha::ChaCha20Rng);

/// Which environment implementation, and which build of it.
#[derive(Debug, Clone, PartialEq)]
pub struct EngineId {
    pub env_id: String,
    pub build_id: String,
}

/// Schema tags advertised by an environment.
#[derive(Debug, Clone, PartialEq)]
pub struct Encoding {
    pub state: String,
    pub action: String,
    pub obs: String,
    pub schema_version: u32,
}

/// The shape of an environment's actions.
///
/// Continuous bounds hold the bit patterns of `f32` values.
#[derive(Debug, Clone, PartialEq)]
pub enum ActionSpace {
    Discrete(u32),
    MultiDiscrete(Vec<u32>),
    Continuous { low: Vec<u32>, high: Vec<u32>, shape: Vec<u32> },
}

/// What an environment advertises about itself.
#[derive(Debug, Clone, PartialEq)]
pub struct Capabilities {
    pub id: EngineId,
    pub encoding: Encoding,
    pub max_horizon: u32,
    pub action_space: ActionSpace,
    pub preferred_batch: u32,
}

/// The mathematical view of an action space.
pub enum SpaceView {
    Discrete(u32),
    MultiDiscrete(Seq<u32>),
    Continuous { low: Seq<u32>, high: Seq<u32>, shape: Seq<u32> },
}

/// The mathematical view of capabilities: every field, strings as characters.
pub struct CapsView {
    pub env_id: Seq<char>,
    pub build_id: Seq<char>,
    pub state_schema: Seq<char>,
    pub action_schema: Seq<char>,
    pub obs_schema: Seq<char>,
    pub schema_version: u32,
    pub max_horizon: u32,
    pub action_space: SpaceView,
    pub preferred_batch: u32,
}

impl View for ActionSpace {
    type V = SpaceView;

    open spec fn view(&self) -> SpaceView {
        match self {
            ActionSpace::Discrete(n) => SpaceView::Discrete(*n),
            ActionSpace::MultiDiscrete(v) => SpaceView::MultiDiscrete(v@),
            ActionSpace::Continuous { low, high, shape } => SpaceView::Continuous {
                low: low@,
                high: high@,
                shape: shape@,
            },
        }
    }
}

impl View for Capabilities {
    type V = CapsView;

    open spec fn view(&self) -> CapsView {
        CapsView {
            env_id: self.id.env_id@,
            build_id: self.id.build_id@,
            state_schema: self.encoding.state@,
            action_schema: self.encoding.action@,
            obs_schema: self.encoding.obs@,
            schema_version: self.encoding.schema_version,
            max_horizon: self.max_horizon,
            action_space: self.action_space@,
            preferred_batch: self.preferred_batch,
        }
    }
}

/// Failure of an encoder.
#[derive(Debug, Clone, PartialEq)]
pub enum EncodeError {
    SerializationError(String),
    BufferTooSmall { needed: usize, available: usize },
    InvalidData(String),
}

/// Failure of a decoder.
#[derive(Debug, Clone, PartialEq)]
pub enum DecodeError {
    DeserializationError(String),
    InvalidLength { expected: usize, actual: usize },
    CorruptedData(String),
    UnsupportedVersion { version: u32 },
}

impl EncodeError {
    /// A short human-readable description of the failure.
    pub fn reason(&self) -> (r: String)
        ensures
            match self {
                EncodeError::SerializationError(s) => r@ == s@,
                EncodeError::BufferTooSmall { .. } => r@ == "buffer too small"@,
                EncodeError::InvalidData(s) => r@ == s@,
            },
    {
        match self {
            EncodeError::SerializationError(s) => s.clone(),
            EncodeError::BufferTooSmall { .. } => "buffer too small".to_owned(),
            EncodeError::InvalidData(s) => s.clone(),
        }
    }
}

impl DecodeError {
    /// A short human-readable description of the failure.
    pub fn reason(&self) -> (r: String)
        ensures
            match self {
                DecodeError::DeserializationError(s) => r@ == s@,
                DecodeError::InvalidLength { .. } => r@ == "invalid buffer length"@,
                DecodeError::CorruptedData(s) => r@ == s@,
                DecodeError::UnsupportedVersion { .. } => r@ == "unsupported version"@,
            },
    {
        match self {
            DecodeError::DeserializationError(s) => s.clone(),
            DecodeError::InvalidLength { .. } => "invalid buffer length".to_owned(),
            DecodeError::CorruptedData(s) => s.clone(),
            DecodeError::UnsupportedVersion { .. } => "unsupported version".to_owned(),
        }
    }
}

/// A deterministic turn-by-turn simulator with typed state, action and
/// observation, and byte codecs for each.
///
/// The spec functions describe the codecs exactly; `rng_free` marks a game
/// whose reset and step depend on their inputs alone, which `initial` and
/// `transition` then describe exactly. Their defaults state nothing: an
/// implementation that is verified overrides them.
pub trait Game: Sized {
    type State;
    type Action;
    type Obs;

    /// Whether `encode_state` succeeds on `s`.
    open spec fn state_encodable(s: Self::State) -> bool {
        arbitrary()
    }

    /// The bytes that `encode_state` appends for `s`.
    open spec fn state_bytes(s: Self::State) -> Seq<u8> {
        arbitrary()
    }

    /// The state that `decode_state` yields for `b`, if any.
    open spec fn state_of_bytes(b: Seq<u8>) -> Option<Self::State> {
        arbitrary()
    }

    /// Whether `encode_action` succeeds on `a`.
    open spec fn action_encodable(a: Self::Action) -> bool {
        arbitrary()
    }

    /// The bytes that `encode_action` appends for `a`.
    open spec fn action_bytes(a: Self::Action) -> Seq<u8> {
        arbitrary()
    }

    /// The action that `decode_action` yields for `b`, if any.
    open spec fn action_of_bytes(b: Seq<u8>) -> Option<Self::Action> {
        arbitrary()
    }

    /// Whether `encode_obs` succeeds on `o`.
    open spec fn obs_encodable(o: Self::Obs) -> bool {
        arbitrary()
    }

    /// The bytes that `encode_obs` appends for `o`.
    open spec fn obs_bytes(o: Self::Obs) -> Seq<u8> {
        arbitrary()
    }

    /// Whether reset and step ignore the generator.
    open spec fn rng_free() -> bool {
        false
    }

    /// Initial state and encoded observation of a rng-free game, given a hint.
    open spec fn initial(hint: Seq<u8>) -> (Self::State, Seq<u8>) {
        arbitrary()
    }

    /// Next state, encoded observation, reward bits and done flag of a
    /// rng-free game.
    open spec fn transition(s: Self::State, a: Self::Action) -> (Self::State, Seq<u8>, u32, bool) {
        arbitrary()
    }

    /// The side-channel word reported with a state.
    open spec fn info_of(s: Self::State) -> u64 {
        arbitrary()
    }

    /// The capabilities this game advertises.
    open spec fn caps(&self) -> CapsView {
        arbitrary()
    }

    fn engine_id(&self) -> (r: EngineId)
        ensures
            r.env_id@ == self.caps().env_id,
            r.build_id@ == self.caps().build_id,
    ;

    fn capabilities(&self) -> (r: Capabilities)
        ensures
            r@ == self.caps(),
    ;

    fn reset(&mut self, rng: &mut ChaCha20Rng, hint: &[u8]) -> (r: (Self::State, Self::Obs))
        ensures
            Self::rng_free() ==> r.0 == Self::initial(hint@).0,
            Self::rng_free() ==> Self::obs_encodable(r.1) && Self::obs_bytes(r.1) == Self::initial(hint@).1,
    ;

    /// One tick; returns the observation, the reward bits and the done flag.
    fn step(&mut self, state: &mut Self::State, action: Self::Action, rng: &mut ChaCha20Rng) -> (r: (
        Self::Obs,
        u32,
        bool,
    ))
        ensures
            Self::rng_free() ==> ({
                let t = Self::transition(*old(state), action);
                &&& *final(state) == t.0
                &&& Self::obs_encodable(r.0)
                &&& Self::obs_bytes(r.0) == t.1
                &&& r.1 == t.2
                &&& r.2 == t.3
            }),
    ;

    /// The side-channel word for `state`.
    fn info(state: &Self::State) -> (r: u64)
        ensures
            r == Self::info_of(*state),
    ;

    /// Appends the encoding of `state` to `out`.
    fn encode_state(state: &Self::State, out: &mut Vec<u8>) -> (r: Result<(), EncodeError>)
        ensures
            r is Ok <==> Self::state_encodable(*state),
            r is Ok ==> final(out)@ == old(out)@ + Self::state_bytes(*state),
    ;

    fn decode_state(buf: &[u8]) -> (r: Result<Self::State, DecodeError>)
        ensures
            match r {
                Ok(s) => Self::state_of_bytes(buf@) == Some(s),
                Err(_) => Self::state_of_bytes(buf@) is None,
            },
    ;

    /// Appends the encoding of `action` to `out`.
    fn encode_action(action: &Self::Action, out: &mut Vec<u8>) -> (r: Result<(), EncodeError>)
        ensures
            r is Ok <==> Self::action_encodable(*action),
            r is Ok ==> final(out)@ == old(out)@ + Self::action_bytes(*action),
    ;

    fn decode_action(buf: &[u8]) -> (r: Result<Self::Action, DecodeError>)
        ensures
            match r {
                Ok(a) => Self::action_of_bytes(buf@) == Some(a),
                Err(_) => Self::action_of_bytes(buf@) is None,
            },
    ;

    /// Appends the encoding of `obs` to `out`.
    fn encode_obs(obs: &Self::Obs, out: &mut Vec<u8>) -> (r: Result<(), EncodeError>)
        ensures
            r is Ok <==> Self::obs_encodable(*obs),
            r is Ok ==> final(out)@ == old(out)@ + Self::obs_bytes(*obs),
    ;
}

} // verus!
