//! Session orchestration core for a voice-call bot: the session registry,
//! the speculative-generation state machine, the resilience layer around
//! backend calls, the streaming event bridge and the voice-markup builder.

pub mod api;
pub mod bridge;
pub mod carrier;
mod clock;
pub mod config;
pub mod orchestrator;
pub mod registry;
pub mod resilience;
pub mod session;
pub mod speculative;
pub mod text;
pub mod twiml;
pub mod webhook;
