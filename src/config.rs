//! The actor's configuration and its validation.
use std::time::Duration;
use vstd::prelude::*;

verus! {

/// Relies on `Duration::from_secs`: a span of `secs` whole seconds.
/// Duration is opaque here, so nothing is stated of it.
#[verifier::external_body]
fn seconds(secs: u64) -> (r: Duration) {
    Duration::from_secs(secs)
}

/// Every option of the actor.
#[derive(Debug, Clone)]
pub struct Config {
    pub engine_addr: String,
    pub replay_addr: String,
    pub actor_id: String,
    pub env_id: String,
    /// Zero or less: no limit.
    pub max_episodes: i32,
    pub episode_timeout_secs: u64,
    pub batch_size: usize,
    pub flush_interval_secs: u64,
    pub log_level: String,
}

/// The first option found out of range, in the order they are checked.
#[derive(Debug, Clone, Copy, PartialEq, Eq)]
pub enum ConfigError {
    EmptyActorId,
    EmptyEnvId,
    ZeroBatchSize,
    ZeroEpisodeTimeout,
    ZeroFlushInterval,
    /// A log level other than trace, debug, info, warn and error.
    InvalidLogLevel,
}

/// The accepted log levels.
pub open spec fn log_level_ok(l: Seq<char>) -> bool {
    l == "trace"@ || l == "debug"@ || l == "info"@ || l == "warn"@ || l == "error"@
}

/// Whether `level` is one of the accepted log levels.
pub fn is_log_level(level: &String) -> (r: bool)
    ensures
        r == log_level_ok(level@),
{
    let levels = ["trace".to_owned(), "debug".to_owned(), "info".to_owned(), "warn".to_owned(), "error".to_owned()];
    let mut i: usize = 0;
    while i < 5
        invariant
            i <= 5,
            levels[0]@ == "trace"@,
            levels[1]@ == "debug"@,
            levels[2]@ == "info"@,
            levels[3]@ == "warn"@,
            levels[4]@ == "error"@,
            forall|j: int| 0 <= j < i ==> level@ != levels[j]@,
        decreases 5 - i,
    {
        if *level == levels[i] {
            return true;
        }
        i = i + 1;
    }
    false
}

/// The verdict of validation on a configuration.
pub open spec fn validation_of(c: Config) -> Result<(), ConfigError> {
    if c.actor_id@.len() == 0 {
        Err(ConfigError::EmptyActorId)
    } else if c.env_id@.len() == 0 {
        Err(ConfigError::EmptyEnvId)
    } else if c.batch_size == 0 {
        Err(ConfigError::ZeroBatchSize)
    } else if c.episode_timeout_secs == 0 {
        Err(ConfigError::ZeroEpisodeTimeout)
    } else if c.flush_interval_secs == 0 {
        Err(ConfigError::ZeroFlushInterval)
    } else if !log_level_ok(c.log_level@) {
        Err(ConfigError::InvalidLogLevel)
    } else {
        Ok(())
    }
}

impl ConfigError {
    pub fn message(&self) -> (r: String)
        ensures
            r@ == self.message_text(),
    {
        match self {
            ConfigError::EmptyActorId => "actor_id cannot be empty".to_owned(),
            ConfigError::EmptyEnvId => "env_id cannot be empty".to_owned(),
            ConfigError::ZeroBatchSize => "batch_size must be greater than 0".to_owned(),
            ConfigError::ZeroEpisodeTimeout => "episode_timeout_secs must be greater than 0".to_owned(),
            ConfigError::ZeroFlushInterval => "flush_interval_secs must be greater than 0".to_owned(),
            ConfigError::InvalidLogLevel => "log_level must be one of trace, debug, info, warn, error".to_owned(),
        }
    }

    pub open spec fn message_text(&self) -> Seq<char> {
        match self {
            ConfigError::EmptyActorId => "actor_id cannot be empty"@,
            ConfigError::EmptyEnvId => "env_id cannot be empty"@,
            ConfigError::ZeroBatchSize => "batch_size must be greater than 0"@,
            ConfigError::ZeroEpisodeTimeout => "episode_timeout_secs must be greater than 0"@,
            ConfigError::ZeroFlushInterval => "flush_interval_secs must be greater than 0"@,
            ConfigError::InvalidLogLevel => "log_level must be one of trace, debug, info, warn, error"@,
        }
    }
}

impl Config {
    /// Checks that ids are non-empty, that the batch size and both intervals
    /// are positive, and that the log level is one of trace, debug, info,
    /// warn and error.
    pub fn validate(&self) -> (r: Result<(), ConfigError>)
        ensures
            r == validation_of(*self),
    {
        if self.actor_id.as_str().is_empty() {
            return Err(ConfigError::EmptyActorId);
        }
        if self.env_id.as_str().is_empty() {
            return Err(ConfigError::EmptyEnvId);
        }
        if self.batch_size == 0 {
            return Err(ConfigError::ZeroBatchSize);
        }
        if self.episode_timeout_secs == 0 {
            return Err(ConfigError::ZeroEpisodeTimeout);
        }
        if self.flush_interval_secs == 0 {
            return Err(ConfigError::ZeroFlushInterval);
        }
        if !is_log_level(&self.log_level) {
            return Err(ConfigError::InvalidLogLevel);
        }
        Ok(())
    }

    /// The per-call timeout inside an episode.
    pub fn episode_timeout(&self) -> Duration {
        seconds(self.episode_timeout_secs)
    }

    /// The period of the flush timer.
    pub fn flush_interval(&self) -> Duration {
        seconds(self.flush_interval_secs)
    }
}

} // verus!
