use cartridge_engine::actor::{
    actor_build_id, make_transition, ActorControl, Episode, Transition, TransitionBuffer,
};
use cartridge_engine::config::{Config, ConfigError};
use std::time::Duration;

fn sample_transition(id: &str, step_number: u32) -> Transition {
    make_transition(
        id.to_string(),
        "env".to_string(),
        "ep".to_string(),
        step_number,
        b"state1".to_vec(),
        b"action1".to_vec(),
        b"obs1".to_vec(),
        b"state2".to_vec(),
        b"obs2".to_vec(),
        1.0f32.to_bits(),
        false,
        1,
    )
}

fn config() -> Config {
    Config {
        engine_addr: "http://localhost:50051".to_string(),
        replay_addr: "http://localhost:8080".to_string(),
        actor_id: "test-actor".to_string(),
        env_id: "test-env".to_string(),
        max_episodes: 1,
        episode_timeout_secs: 1,
        batch_size: 2,
        flush_interval_secs: 1,
        log_level: "info".to_string(),
    }
}

#[test]
fn flush_buffer_clears_queue_and_delivers_transitions() {
    let mut buffer = TransitionBuffer::new(2);
    let first_transition = sample_transition("t1", 0);
    let second_transition = sample_transition("t2", 1);

    assert!(!buffer.push(first_transition.clone()));
    assert!(buffer.push(second_transition.clone()));

    let received = buffer.take_batch();
    assert!(buffer.is_empty(), "buffer should be empty after flush");
    assert_eq!(received.len(), 2, "replay should receive both transitions");
    assert_eq!(received[0], first_transition);
    assert_eq!(received[1], second_transition);
}

#[test]
fn timer_flushes_only_a_non_empty_buffer() {
    let mut buffer = TransitionBuffer::new(32);
    assert!(!buffer.flush_on_tick());
    assert!(!buffer.push(sample_transition("t1", 0)));
    assert!(buffer.flush_on_tick());
    assert_eq!(buffer.take_batch().len(), 1);
    assert!(!buffer.flush_on_tick());
}

#[test]
fn transition_has_default_priority() {
    let t = sample_transition("t", 3);
    assert_eq!(f32::from_bits(t.priority), 1.0);
    assert_eq!(t.step_number, 3);
    assert_eq!(t.next_state, b"state2".to_vec());
    assert_eq!(t.observation, b"obs1".to_vec());
}

#[test]
fn control_stops_at_cap_or_shutdown() {
    let mut c = ActorControl::new(2);
    assert!(!c.should_stop());
    c.episode_finished(true);
    c.episode_finished(false);
    assert_eq!(c.episode_count, 1);
    assert!(!c.should_stop());
    c.episode_finished(true);
    assert!(c.should_stop());

    let mut unlimited = ActorControl::new(-1);
    for _ in 0..100 {
        unlimited.episode_finished(true);
    }
    assert!(!unlimited.should_stop());
    unlimited.request_shutdown();
    assert!(unlimited.should_stop());
}

#[test]
fn build_id_tag() {
    assert_eq!(actor_build_id(), "actor-rust");
}

#[test]
fn config_validation_reports_each_error() {
    assert_eq!(config().validate(), Ok(()));
    let mut c = config();
    c.actor_id.clear();
    assert_eq!(c.validate(), Err(ConfigError::EmptyActorId));
    let mut c = config();
    c.env_id.clear();
    assert_eq!(c.validate(), Err(ConfigError::EmptyEnvId));
    let mut c = config();
    c.batch_size = 0;
    assert_eq!(c.validate(), Err(ConfigError::ZeroBatchSize));
    let mut c = config();
    c.episode_timeout_secs = 0;
    assert_eq!(c.validate(), Err(ConfigError::ZeroEpisodeTimeout));
    let mut c = config();
    c.flush_interval_secs = 0;
    assert_eq!(c.validate(), Err(ConfigError::ZeroFlushInterval));
    assert_eq!(ConfigError::ZeroBatchSize.message(), "batch_size must be greater than 0");
}

#[test]
fn config_durations() {
    let mut c = config();
    c.episode_timeout_secs = 30;
    c.flush_interval_secs = 5;
    assert_eq!(c.episode_timeout(), Duration::from_secs(30));
    assert_eq!(c.flush_interval(), Duration::from_secs(5));
}

#[test]
fn episode_records_steps_and_advances() {
    let mut ep = Episode::start("env".to_string(), "a-ep-0-1".to_string(), vec![0], vec![10]);
    let t0 = ep.record_step("t0".to_string(), vec![7], vec![1], vec![11], 0, false, 5);
    assert_eq!(t0.state, vec![0]);
    assert_eq!(t0.observation, vec![10]);
    assert_eq!(t0.next_state, vec![1]);
    assert_eq!(t0.next_observation, vec![11]);
    assert_eq!(t0.step_number, 0);
    assert_eq!(ep.step_number, 1);
    assert_eq!(ep.state, vec![1]);
    assert!(!ep.finished);
    let t1 = ep.record_step("t1".to_string(), vec![8], vec![2], vec![12], 1.0f32.to_bits(), true, 6);
    assert_eq!(t1.step_number, 1);
    assert_eq!(t1.state, vec![1]);
    assert!(t1.done);
    assert!(ep.finished);
    assert_eq!(ep.step_number, 1);
}

#[test]
fn config_rejects_unknown_log_level() {
    let mut c = config();
    c.log_level = "verbose".to_string();
    assert_eq!(c.validate(), Err(ConfigError::InvalidLogLevel));
    for level in ["trace", "debug", "info", "warn", "error"] {
        let mut c = config();
        c.log_level = level.to_string();
        assert_eq!(c.validate(), Ok(()));
    }
    let mut c = config();
    c.log_level = "INFO".to_string();
    assert_eq!(c.validate(), Err(ConfigError::InvalidLogLevel));
}

#[test]
fn transitions_carry_no_metadata() {
    assert!(sample_transition("t", 0).metadata.is_empty());
}
