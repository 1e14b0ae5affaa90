use cartridge_engine::typed::{
    ActionSpace, Capabilities, DecodeError, EncodeError, Encoding, EngineId, Game,
};
use rand::SeedableRng;
use rand_chacha::ChaCha20Rng;

#[derive(Clone, Copy, Debug, PartialEq)]
struct TestState(u32);

#[derive(Clone, Copy, Debug, PartialEq)]
struct TestAction(u8);

#[derive(Clone, Debug, PartialEq)]
struct TestObs(Vec<f32>);

struct TestGame;

impl Game for TestGame {
    type State = TestState;
    type Action = TestAction;
    type Obs = TestObs;

    fn engine_id(&self) -> EngineId {
        EngineId { env_id: "test".to_string(), build_id: "0.1.0".to_string() }
    }

    fn capabilities(&self) -> Capabilities {
        Capabilities {
            id: self.engine_id(),
            encoding: Encoding {
                state: "u32:v1".to_string(),
                action: "u8:v1".to_string(),
                obs: "f32_vec:v1".to_string(),
                schema_version: 1,
            },
            max_horizon: 100,
            action_space: ActionSpace::Discrete(4),
            preferred_batch: 32,
        }
    }

    fn reset(&mut self, _rng: &mut ChaCha20Rng, _hint: &[u8]) -> (Self::State, Self::Obs) {
        (TestState(0), TestObs(vec![0.0, 1.0]))
    }

    fn step(
        &mut self,
        state: &mut Self::State,
        action: Self::Action,
        _rng: &mut ChaCha20Rng,
    ) -> (Self::Obs, u32, bool) {
        state.0 += action.0 as u32;
        (TestObs(vec![state.0 as f32]), 1.0f32.to_bits(), state.0 >= 10)
    }

    fn info(_state: &Self::State) -> u64 {
        0
    }

    fn encode_state(state: &Self::State, out: &mut Vec<u8>) -> Result<(), EncodeError> {
        out.extend_from_slice(&state.0.to_le_bytes());
        Ok(())
    }

    fn decode_state(buf: &[u8]) -> Result<Self::State, DecodeError> {
        if buf.len() != 4 {
            return Err(DecodeError::InvalidLength { expected: 4, actual: buf.len() });
        }
        let value = u32::from_le_bytes(buf.try_into().unwrap());
        Ok(TestState(value))
    }

    fn encode_action(action: &Self::Action, out: &mut Vec<u8>) -> Result<(), EncodeError> {
        out.push(action.0);
        Ok(())
    }

    fn decode_action(buf: &[u8]) -> Result<Self::Action, DecodeError> {
        if buf.len() != 1 {
            return Err(DecodeError::InvalidLength { expected: 1, actual: buf.len() });
        }
        Ok(TestAction(buf[0]))
    }

    fn encode_obs(obs: &Self::Obs, out: &mut Vec<u8>) -> Result<(), EncodeError> {
        for &value in &obs.0 {
            out.extend_from_slice(&value.to_le_bytes());
        }
        Ok(())
    }
}

#[test]
fn test_game_basic_functionality() {
    let mut game = TestGame;
    let mut rng = ChaCha20Rng::seed_from_u64(42);

    let (state, obs) = game.reset(&mut rng, &[]);
    assert_eq!(state, TestState(0));
    assert_eq!(obs, TestObs(vec![0.0, 1.0]));

    let caps = game.capabilities();
    assert_eq!(caps.id.env_id, "test");
    assert_eq!(caps.max_horizon, 100);
}

#[test]
fn typed_test_state_encoding_roundtrip() {
    let state = TestState(42);
    let mut buf = Vec::new();

    TestGame::encode_state(&state, &mut buf).unwrap();
    let decoded = TestGame::decode_state(&buf).unwrap();

    assert_eq!(state, decoded);
}

#[test]
fn typed_test_action_encoding_roundtrip() {
    let action = TestAction(3);
    let mut buf = Vec::new();

    TestGame::encode_action(&action, &mut buf).unwrap();
    let decoded = TestGame::decode_action(&buf).unwrap();

    assert_eq!(action, decoded);
}

#[test]
fn error_reasons_describe_failures() {
    assert_eq!(
        DecodeError::InvalidLength { expected: 4, actual: 3 }.reason(),
        "invalid buffer length"
    );
    assert_eq!(DecodeError::CorruptedData("bad".to_string()).reason(), "bad");
    assert_eq!(DecodeError::UnsupportedVersion { version: 2 }.reason(), "unsupported version");
    assert_eq!(EncodeError::BufferTooSmall { needed: 4, available: 1 }.reason(), "buffer too small");
    assert_eq!(EncodeError::InvalidData("x".to_string()).reason(), "x");
}
