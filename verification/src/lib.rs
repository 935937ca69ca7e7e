//! A render bridge for an external stateful audio engine.
//!
//! The bridge owns the engine's activation state machine: one-time setup
//! (initialize, open a playback slot, load an asset, start playback), a
//! per-block render path that either de-interleaves the engine's stereo
//! output or emits a deterministic fallback tone, and an idempotent
//! teardown. The engine itself is opaque and reached only through foreign
//! calls; the bridge never performs those calls. Instead it hands its
//! driver a sequence of commands and consumes the engine's integer result
//! codes, so every decision the bridge makes is verified for every code
//! the engine could return.

pub mod bridge;
pub mod engine;
pub mod render;
