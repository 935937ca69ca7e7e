//! The model of the external engine's call surface.
//!
//! The engine is driven through a narrow set of entry points, each of
//! which reports success or failure as an integer code (zero meaning
//! success). The bridge never performs those calls itself: it emits an
//! [`EngineCall`] describing the next call to make, and its driver hands
//! back the code the engine returned.

use vstd::prelude::*;

verus! {

/// Initialization flag: suppress the engine's console logging.
pub const INIT_FLAG_NO_DEBUG_OUTPUT: u32 = 1;

/// Initialization flag: the host drives rendering; the engine must not
/// open an audio device of its own.
pub const INIT_FLAG_OFFLINE: u32 = 2;

/// Initialization flag: render blocks carry 32-bit float samples.
pub const INIT_FLAG_AUDIO_FLOAT32: u32 = 8;

/// Initialization flag: the engine performs no internal threading.
pub const INIT_FLAG_ONE_THREAD: u32 = 16;

/// The flag set the bridge always initializes the engine with: offline,
/// host-driven rendering of float samples on a single thread, with the
/// engine's own logging suppressed. The flags are distinct bits, so
/// their sum is their union.
pub const SETUP_INIT_FLAGS: u32 = INIT_FLAG_NO_DEBUG_OUTPUT + INIT_FLAG_OFFLINE
    + INIT_FLAG_AUDIO_FLOAT32 + INIT_FLAG_ONE_THREAD;

/// The engine renders interleaved stereo: every block holds two channels.
pub const ENGINE_CHANNELS: u32 = 2;

/// The single playback slot the bridge uses. The engine has no documented
/// support for concurrent instances in this usage, so the bridge binds
/// everything to one slot.
pub const MAIN_SLOT: i32 = 0;

/// A stage of the activation sequence, named after the state it would
/// have established. A failure is recorded with the stage that failed.
#[derive(Clone, Copy, Debug, PartialEq, Eq, Structural)]
pub enum Stage {
    EngineReady,
    SlotOpen,
    AssetLoaded,
    Playing,
}

/// Why an activation stage failed. Native codes from the engine are
/// preserved verbatim; exhausting every candidate asset path has no
/// single code and is recorded as its own reason.
#[derive(Clone, Copy, Debug, PartialEq, Eq, Structural)]
pub enum FailureReason {
    /// The engine returned this non-zero code.
    Engine { code: i32 },
    /// No candidate asset path could be loaded.
    AssetNotFound,
}

/// The bridge's activation state. Setup walks the first five states in
/// order; a failure at any stage moves to `Failed` with the stage and
/// reason recorded. The render path uses the engine only in `Playing`;
/// in every other state it emits the fallback tone.
#[derive(Clone, Copy, Debug, PartialEq, Eq, Structural)]
pub enum ActivationState {
    Uninitialized,
    EngineReady,
    SlotOpen,
    AssetLoaded,
    Playing,
    Failed { stage: Stage, reason: FailureReason },
}

/// One call into the external engine that the driver must now perform.
/// The driver performs the call and hands the engine's result code back
/// to the bridge.
#[derive(Clone, Copy, Debug, PartialEq, Eq, Structural)]
pub enum EngineCall {
    /// Initialize the engine. Must be made at most once before a
    /// matching `Deinitialize`.
    Initialize { sample_rate: u32, channels: u32, flags: u32 },
    /// Open the playback slot.
    OpenSlot { slot: i32 },
    /// Load the candidate asset with this index into the slot. The
    /// driver owns the ordered list of candidate paths.
    LoadAsset { slot: i32, path_index: usize },
    /// Start playback from the beginning of the loaded asset.
    StartPlayback { slot: i32 },
    /// Close the playback slot.
    CloseSlot { slot: i32 },
    /// Release the engine's global state.
    Deinitialize,
}

/// What the bridge answers when asked for the next step: either a call
/// to perform, or the end of the current setup or teardown run.
#[derive(Clone, Copy, Debug, PartialEq, Eq, Structural)]
pub enum BridgeCommand {
    Call { call: EngineCall },
    Finished,
}

} // verus!
