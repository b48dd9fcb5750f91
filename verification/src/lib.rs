//! Execution-client registry, staking pool and message settlement engine for
//! AI-character tokens, with every state transition stated and proved.
pub mod actions;
pub mod ainft;
pub mod authority;
pub mod error;
pub mod events;
pub mod instructions;
pub mod program;
pub mod pubkey;
pub mod seeds;
pub mod staking_pool;
pub mod state;
pub mod text;
pub mod token;
