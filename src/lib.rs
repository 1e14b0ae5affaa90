//! A runtime for deterministic reinforcement-learning environments: typed and
//! byte-level environment contracts, the adapter between them, an environment
//! registry, a buffer pool, the engine service logic, a reference
//! tic-tac-toe environment, and the actor's policy and batching logic.
pub mod actor;
pub mod adapter;
pub mod buffers;
pub mod config;
pub mod erased;
pub mod policy;
pub mod registry;
pub mod service;
pub mod tictactoe;
pub mod typed;
