//! An event-driven agent runtime core: a two-lane impulse scheduler, a bounded
//! session state machine with an action parser, a copy-on-write overlay over
//! the workspace, the request and row logic of the graph memory, and the
//! framing of the tool-server protocol.

pub mod action;
pub mod agent;
pub mod bus;
pub mod config;
pub mod daemon;
pub mod debate;
pub mod events;
pub mod fingerprint;
pub mod janitor;
pub mod json;
pub mod knowledge;
pub mod lanes;
pub mod lint;
pub mod mcp;
pub mod memory;
pub mod overlay;
pub mod overlay_model;
pub mod path;
pub mod pattern;
pub mod qa;
pub mod reflexion;
pub mod security;
pub mod session;
pub mod sorting;
pub mod telegram;
pub mod telemetry;
pub mod text;
