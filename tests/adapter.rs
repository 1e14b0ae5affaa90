use cartridge_engine::adapter::GameAdapter;
use cartridge_engine::erased::{ErasedGame, ErasedGameError};
use cartridge_engine::tictactoe::TicTacToe;
use cartridge_engine::typed::{
    ActionSpace, Capabilities, DecodeError, EncodeError, Encoding, EngineId, Game,
};
use rand::Rng;
use rand_chacha::ChaCha20Rng;

#[derive(Debug, PartialEq)]
struct TestGame {
    id: String,
    reset_count: u32,
    step_count: u32,
}

impl TestGame {
    fn new(id: String) -> Self {
        Self { id, reset_count: 0, step_count: 0 }
    }
}

impl Game for TestGame {
    type State = u32;
    type Action = u8;
    type Obs = Vec<f32>;

    fn engine_id(&self) -> EngineId {
        EngineId { env_id: self.id.clone(), build_id: "0.1.0".to_string() }
    }

    fn capabilities(&self) -> Capabilities {
        Capabilities {
            id: self.engine_id(),
            encoding: Encoding {
                state: "u32:v1".to_string(),
                action: "u8:v1".to_string(),
                obs: "f32_vec:v1".to_string(),
                schema_version: 1,
            },
            max_horizon: 100,
            action_space: ActionSpace::Discrete(4),
            preferred_batch: 32,
        }
    }

    fn reset(&mut self, rng: &mut ChaCha20Rng, _hint: &[u8]) -> (Self::State, Self::Obs) {
        self.reset_count += 1;
        self.step_count = 0;
        let random_val = rng.gen::<u32>() % 100;
        (random_val, vec![random_val as f32])
    }

    fn step(
        &mut self,
        state: &mut Self::State,
        action: Self::Action,
        _rng: &mut ChaCha20Rng,
    ) -> (Self::Obs, u32, bool) {
        self.step_count += 1;
        *state += action as u32;
        let obs = vec![*state as f32, self.step_count as f32];
        let reward = (action as f32).to_bits();
        let done = *state >= 20 || self.step_count >= 10;
        (obs, reward, done)
    }

    fn info(_state: &Self::State) -> u64 {
        0
    }

    fn encode_state(state: &Self::State, out: &mut Vec<u8>) -> Result<(), EncodeError> {
        out.extend_from_slice(&state.to_le_bytes());
        Ok(())
    }

    fn decode_state(buf: &[u8]) -> Result<Self::State, DecodeError> {
        if buf.len() != 4 {
            return Err(DecodeError::InvalidLength { expected: 4, actual: buf.len() });
        }
        Ok(u32::from_le_bytes(buf.try_into().unwrap()))
    }

    fn encode_action(action: &Self::Action, out: &mut Vec<u8>) -> Result<(), EncodeError> {
        out.push(*action);
        Ok(())
    }

    fn decode_action(buf: &[u8]) -> Result<Self::Action, DecodeError> {
        if buf.len() != 1 {
            return Err(DecodeError::InvalidLength { expected: 1, actual: buf.len() });
        }
        Ok(buf[0])
    }

    fn encode_obs(obs: &Self::Obs, out: &mut Vec<u8>) -> Result<(), EncodeError> {
        let len = obs.len() as u32;
        out.extend_from_slice(&len.to_le_bytes());
        for &value in obs {
            out.extend_from_slice(&value.to_le_bytes());
        }
        Ok(())
    }
}

#[test]
fn test_adapter_basic_functionality() {
    let game = TestGame::new("test".to_string());
    let adapter = GameAdapter::new(game);

    let id = ErasedGame::engine_id(&adapter);
    assert_eq!(id.env_id, "test");

    let caps = ErasedGame::capabilities(&adapter);
    assert_eq!(caps.id.env_id, "test");
    assert_eq!(caps.max_horizon, 100);
}

#[test]
fn test_adapter_reset() {
    let game = TestGame::new("test".to_string());
    let mut adapter = GameAdapter::new(game);

    let mut state_buf = Vec::new();
    let mut obs_buf = Vec::new();

    adapter.reset(42, &[], &mut state_buf, &mut obs_buf).unwrap();

    assert_eq!(state_buf.len(), 4);
    let state_value = u32::from_le_bytes(state_buf.try_into().unwrap());

    assert!(obs_buf.len() >= 4);
    let obs_len = u32::from_le_bytes(obs_buf[0..4].try_into().unwrap());
    assert_eq!(obs_len, 1);
    assert_eq!(obs_buf.len(), 4 + 4);

    let obs_value = f32::from_le_bytes(obs_buf[4..8].try_into().unwrap());
    assert_eq!(obs_value, state_value as f32);
}

#[test]
fn test_adapter_step() {
    let game = TestGame::new("test".to_string());
    let mut adapter = GameAdapter::new(game);

    let mut state_buf = Vec::new();
    let mut obs_buf = Vec::new();
    adapter.reset(42, &[], &mut state_buf, &mut obs_buf).unwrap();

    let action_bytes = vec![3u8];

    let mut new_state_buf = Vec::new();
    let mut new_obs_buf = Vec::new();
    let (reward, _done, _info) =
        adapter.step(&state_buf, &action_bytes, &mut new_state_buf, &mut new_obs_buf).unwrap();

    assert_eq!(f32::from_bits(reward), 3.0);

    let new_state = u32::from_le_bytes(new_state_buf.try_into().unwrap());
    let old_state = u32::from_le_bytes(state_buf.try_into().unwrap());
    assert_eq!(new_state, old_state + 3);

    assert!(new_obs_buf.len() >= 4);
    let obs_len = u32::from_le_bytes(new_obs_buf[0..4].try_into().unwrap());
    assert_eq!(obs_len, 2);
}

#[test]
fn test_adapter_deterministic_reset() {
    let game1 = TestGame::new("test".to_string());
    let mut adapter1 = GameAdapter::new(game1);

    let game2 = TestGame::new("test".to_string());
    let mut adapter2 = GameAdapter::new(game2);

    let mut state1 = Vec::new();
    let mut obs1 = Vec::new();
    adapter1.reset(12345, &[], &mut state1, &mut obs1).unwrap();

    let mut state2 = Vec::new();
    let mut obs2 = Vec::new();
    adapter2.reset(12345, &[], &mut state2, &mut obs2).unwrap();

    assert_eq!(state1, state2);
    assert_eq!(obs1, obs2);
}

#[test]
fn test_adapter_different_seeds() {
    let game1 = TestGame::new("test".to_string());
    let mut adapter1 = GameAdapter::new(game1);

    let game2 = TestGame::new("test".to_string());
    let mut adapter2 = GameAdapter::new(game2);

    let mut state1 = Vec::new();
    let mut obs1 = Vec::new();
    adapter1.reset(12345, &[], &mut state1, &mut obs1).unwrap();

    let mut state2 = Vec::new();
    let mut obs2 = Vec::new();
    adapter2.reset(54321, &[], &mut state2, &mut obs2).unwrap();

    assert!(state1 != state2 || obs1 != obs2);
}

#[test]
fn test_adapter_inner_access() {
    let game = TestGame::new("test".to_string());
    let mut adapter = GameAdapter::new(game);

    adapter.game_mut().id = "modified".to_string();
    assert_eq!(adapter.game().id, "modified");

    let inner_game = adapter.into_inner();
    assert_eq!(inner_game.id, "modified");
}

#[test]
fn test_adapter_invalid_action_decoding() {
    let game = TestGame::new("test".to_string());
    let mut adapter = GameAdapter::new(game);

    let mut state_buf = Vec::new();
    let mut obs_buf = Vec::new();
    adapter.reset(42, &[], &mut state_buf, &mut obs_buf).unwrap();

    let invalid_action = vec![1, 2, 3];
    let mut new_state_buf = Vec::new();
    let mut new_obs_buf = Vec::new();

    let result = adapter.step(&state_buf, &invalid_action, &mut new_state_buf, &mut new_obs_buf);

    assert!(result.is_err());
    match result.unwrap_err() {
        ErasedGameError::Decoding(_) => {}
        _ => panic!("Expected Decoding error"),
    }
}

#[test]
fn test_adapter_invalid_state_decoding() {
    let game = TestGame::new("test".to_string());
    let mut adapter = GameAdapter::new(game);

    let invalid_state = vec![1, 2, 3];
    let action = vec![1u8];
    let mut new_state_buf = Vec::new();
    let mut new_obs_buf = Vec::new();

    let result = adapter.step(&invalid_state, &action, &mut new_state_buf, &mut new_obs_buf);

    assert!(result.is_err());
    match result.unwrap_err() {
        ErasedGameError::Decoding(_) => {}
        _ => panic!("Expected Decoding error"),
    }
}

#[test]
fn reset_reseeds_so_steps_replay_identically() {
    let mut adapter = GameAdapter::new(TestGame::new("test".to_string()));
    let (mut s1, mut o1) = (Vec::new(), Vec::new());
    adapter.reset(7, &[], &mut s1, &mut o1).unwrap();
    let (mut s2, mut o2) = (vec![9u8; 3], vec![9u8; 3]);
    adapter.reset(7, &[], &mut s2, &mut o2).unwrap();
    assert_eq!(s1, s2);
    assert_eq!(o1, o2);
}

#[test]
fn two_tictactoe_instances_replay_identically() {
    let mut a = GameAdapter::new(TicTacToe::new());
    let mut b = GameAdapter::new(TicTacToe::new());
    let (mut sa, mut oa) = (Vec::new(), Vec::new());
    let (mut sb, mut ob) = (Vec::new(), Vec::new());
    a.reset(42, &[], &mut sa, &mut oa).unwrap();
    b.reset(99, &[], &mut sb, &mut ob).unwrap();
    assert_eq!(sa, sb);
    assert_eq!(oa, ob);
    for action in [4u8, 0, 8, 2, 6, 3] {
        let (mut na, mut noa) = (Vec::new(), Vec::new());
        let (mut nb, mut nob) = (Vec::new(), Vec::new());
        let ra = a.step(&sa, &[action], &mut na, &mut noa).unwrap();
        let rb = b.step(&sb, &[action], &mut nb, &mut nob).unwrap();
        assert_eq!(ra, rb);
        assert_eq!(na, nb);
        assert_eq!(noa, nob);
        sa = na;
        sb = nb;
    }
    assert_eq!(sa.len(), 11);
}

#[test]
fn tictactoe_step_reports_legal_mask() {
    let mut a = GameAdapter::new(TicTacToe::new());
    let (mut s, mut o) = (Vec::new(), Vec::new());
    a.reset(42, &[], &mut s, &mut o).unwrap();
    let (mut ns, mut no) = (Vec::new(), Vec::new());
    let (reward, done, info) = a.step(&s, &[4], &mut ns, &mut no).unwrap();
    assert!(!done);
    assert_eq!(f32::from_bits(reward), 0.0);
    assert_eq!(info & 0x1FF, 0x1FF & !(1u64 << 4));
    assert_eq!(ns.len(), 11);
    assert_eq!(no.len(), 116);
}

#[test]
fn decode_failure_leaves_outputs_empty() {
    let mut a = GameAdapter::new(TicTacToe::new());
    let mut s = vec![5u8; 3];
    let mut o = vec![5u8; 3];
    let r = a.step(&[0; 11], &[9], &mut s, &mut o);
    assert!(matches!(r, Err(ErasedGameError::Decoding(_))));
    assert!(s.is_empty());
    assert!(o.is_empty());
}
