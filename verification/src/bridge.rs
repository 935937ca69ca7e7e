//! The render bridge: owner of the activation state machine.
//!
//! Setup, teardown and the unwinding of failed setups are sequences of
//! engine calls whose order matters. The bridge holds that order in one
//! place: its driver asks for the next command, performs the engine call
//! it names, and hands the engine's result code back. Every transition
//! is a pure function of the bridge's state and the code received, so
//! the whole protocol is verified without performing a single foreign
//! call.

use vstd::prelude::*;

use crate::engine::ActivationState;
use crate::engine::BridgeCommand;
use crate::engine::EngineCall;
use crate::engine::FailureReason;
use crate::engine::Stage;
use crate::engine::ENGINE_CHANNELS;
use crate::engine::MAIN_SLOT;
use crate::engine::SETUP_INIT_FLAGS;
use crate::render::deinterleave_stereo;
use crate::render::fallback_block;
use crate::render::fallback_output_shape;

verus! {

/// Where the bridge stands inside a setup or teardown run: which engine
/// call it is waiting on. `Idle` means no run is under way; that is the
/// only phase in which a new run may begin.
#[derive(Clone, Copy, Debug, PartialEq, Eq, Structural)]
pub enum BridgePhase {
    /// No setup or teardown run is in progress.
    Idle,
    /// Waiting for the result of the initialize call.
    AwaitInit,
    /// Waiting for the result of opening the playback slot.
    AwaitOpen,
    /// Waiting for the result of loading the candidate asset with this
    /// index.
    AwaitLoad { path_index: usize },
    /// Waiting for the result of starting playback.
    AwaitPlay,
    /// Unwinding a failed setup: waiting for the slot to close before
    /// releasing the engine.
    UnwindClose,
    /// Unwinding a failed setup: waiting for the engine to release; the
    /// recorded stage and reason become the final failed state.
    UnwindDeinit { stage: Stage, reason: FailureReason },
    /// Tearing down: waiting for the slot to close.
    TearClose,
    /// Tearing down: waiting for the engine to release.
    TearDeinit,
}

/// The render bridge. It owns the activation state, the sample rate the
/// engine was asked for, and the number of candidate asset paths its
/// driver can try; the paths themselves, and every foreign call, belong
/// to the driver.
#[derive(Clone, Copy, Debug, PartialEq, Eq, Structural)]
pub struct RenderBridge {
    /// The activation state the render path consults.
    pub state: ActivationState,
    /// The position inside the current setup or teardown run.
    pub phase: BridgePhase,
    /// Sample rate in frames per second handed to the engine at setup.
    pub sample_rate: u32,
    /// How many candidate asset paths the driver holds; at least one.
    pub num_asset_paths: usize,
}

impl RenderBridge {
    /// Well-formedness: the phase always agrees with the activation
    /// state, a resting bridge is uninitialized, playing or failed, and
    /// the candidate path list is never empty.
    pub open spec fn wf(self) -> bool {
        &&& self.num_asset_paths >= 1
        &&& self.sample_rate <= 0x7fff_ffff
        &&& match self.phase {
            BridgePhase::Idle => self.state is Uninitialized || self.state is Playing
                || self.state is Failed,
            BridgePhase::AwaitInit => self.state is Uninitialized,
            BridgePhase::AwaitOpen => self.state is EngineReady,
            BridgePhase::AwaitLoad { path_index } => self.state is SlotOpen && path_index
                < self.num_asset_paths,
            BridgePhase::AwaitPlay => self.state is AssetLoaded,
            BridgePhase::UnwindClose => self.state is SlotOpen,
            BridgePhase::UnwindDeinit { stage, reason } => self.state is EngineReady
                || self.state is SlotOpen,
            BridgePhase::TearClose => self.state is SlotOpen || self.state is AssetLoaded
                || self.state is Playing,
            BridgePhase::TearDeinit => self.state is SlotOpen || self.state is AssetLoaded
                || self.state is Playing,
        }
    }

    /// What beginning a setup run does: record the host's sample rate
    /// and wait on the initialize call, which asks for stereo,
    /// host-driven float rendering.
    pub open spec fn spec_setup_begin(pre: RenderBridge, sample_rate: u32) -> (RenderBridge,
        BridgeCommand) {
        (
            RenderBridge { sample_rate, phase: BridgePhase::AwaitInit, ..pre },
            BridgeCommand::Call {
                call: EngineCall::Initialize {
                    sample_rate,
                    channels: ENGINE_CHANNELS,
                    flags: SETUP_INIT_FLAGS,
                },
            },
        )
    }

    /// What beginning a teardown run does: if activation got at least as
    /// far as opening the slot, close it and then release the engine;
    /// from any other state there is nothing to release and the run
    /// finishes at once, leaving the bridge untouched.
    pub open spec fn spec_teardown_begin(pre: RenderBridge) -> (RenderBridge, BridgeCommand) {
        if pre.state is SlotOpen || pre.state is AssetLoaded || pre.state is Playing {
            (
                RenderBridge { phase: BridgePhase::TearClose, ..pre },
                BridgeCommand::Call { call: EngineCall::CloseSlot { slot: MAIN_SLOT } },
            )
        } else {
            (pre, BridgeCommand::Finished)
        }
    }

    /// The transition the bridge makes on one engine result code. This
    /// is the single source of truth for the activation protocol:
    ///
    /// - a failed initialize leaves the bridge failed at `EngineReady`
    ///   with the code recorded, and nothing to unwind;
    /// - a failed slot open releases the engine, then records the
    ///   failure at `SlotOpen`;
    /// - a failed asset load tries the next candidate path; when all are
    ///   exhausted the slot is closed, the engine released, and the
    ///   failure recorded at `AssetLoaded` as `AssetNotFound`;
    /// - the result of starting playback is accepted either way: the
    ///   engine is initialized and loaded, so the bridge reaches
    ///   `Playing` at best effort and silent output from the engine is
    ///   the worst case;
    /// - teardown closes the slot and releases the engine, accepting
    ///   their codes, and rests at `Uninitialized`.
    pub open spec fn spec_reply(pre: RenderBridge, code: i32) -> (RenderBridge, BridgeCommand) {
        match pre.phase {
            BridgePhase::Idle => (pre, BridgeCommand::Finished),
            BridgePhase::AwaitInit => if code == 0 {
                (
                    RenderBridge {
                        state: ActivationState::EngineReady,
                        phase: BridgePhase::AwaitOpen,
                        ..pre
                    },
                    BridgeCommand::Call { call: EngineCall::OpenSlot { slot: MAIN_SLOT } },
                )
            } else {
                (
                    RenderBridge {
                        state: ActivationState::Failed {
                            stage: Stage::EngineReady,
                            reason: FailureReason::Engine { code },
                        },
                        phase: BridgePhase::Idle,
                        ..pre
                    },
                    BridgeCommand::Finished,
                )
            },
            BridgePhase::AwaitOpen => if code == 0 {
                (
                    RenderBridge {
                        state: ActivationState::SlotOpen,
                        phase: BridgePhase::AwaitLoad { path_index: 0 },
                        ..pre
                    },
                    BridgeCommand::Call {
                        call: EngineCall::LoadAsset { slot: MAIN_SLOT, path_index: 0 },
                    },
                )
            } else {
                (
                    RenderBridge {
                        phase: BridgePhase::UnwindDeinit {
                            stage: Stage::SlotOpen,
                            reason: FailureReason::Engine { code },
                        },
                        ..pre
                    },
                    BridgeCommand::Call { call: EngineCall::Deinitialize },
                )
            },
            BridgePhase::AwaitLoad { path_index } => if code == 0 {
                (
                    RenderBridge {
                        state: ActivationState::AssetLoaded,
                        phase: BridgePhase::AwaitPlay,
                        ..pre
                    },
                    BridgeCommand::Call { call: EngineCall::StartPlayback { slot: MAIN_SLOT } },
                )
            } else if path_index + 1 < pre.num_asset_paths {
                (
                    RenderBridge {
                        phase: BridgePhase::AwaitLoad {
                            path_index: (path_index + 1) as usize,
                        },
                        ..pre
                    },
                    BridgeCommand::Call {
                        call: EngineCall::LoadAsset {
                            slot: MAIN_SLOT,
                            path_index: (path_index + 1) as usize,
                        },
                    },
                )
            } else {
                (
                    RenderBridge { phase: BridgePhase::UnwindClose, ..pre },
                    BridgeCommand::Call { call: EngineCall::CloseSlot { slot: MAIN_SLOT } },
                )
            },
            BridgePhase::AwaitPlay => (
                RenderBridge { state: ActivationState::Playing, phase: BridgePhase::Idle, ..pre },
                BridgeCommand::Finished,
            ),
            BridgePhase::UnwindClose => (
                RenderBridge {
                    phase: BridgePhase::UnwindDeinit {
                        stage: Stage::AssetLoaded,
                        reason: FailureReason::AssetNotFound,
                    },
                    ..pre
                },
                BridgeCommand::Call { call: EngineCall::Deinitialize },
            ),
            BridgePhase::UnwindDeinit { stage, reason } => (
                RenderBridge {
                    state: ActivationState::Failed { stage, reason },
                    phase: BridgePhase::Idle,
                    ..pre
                },
                BridgeCommand::Finished,
            ),
            BridgePhase::TearClose => (
                RenderBridge { phase: BridgePhase::TearDeinit, ..pre },
                BridgeCommand::Call { call: EngineCall::Deinitialize },
            ),
            BridgePhase::TearDeinit => (
                RenderBridge {
                    state: ActivationState::Uninitialized,
                    phase: BridgePhase::Idle,
                    ..pre
                },
                BridgeCommand::Finished,
            ),
        }
    }

    /// A fresh bridge: nothing initialized, no run in progress, the
    /// default sample rate in place until setup records the host's.
    pub fn new(num_asset_paths: usize) -> (bridge: RenderBridge)
        requires
            num_asset_paths >= 1,
        ensures
            bridge.wf(),
            bridge.state is Uninitialized,
            bridge.phase is Idle,
            bridge.sample_rate == 44100,
            bridge.num_asset_paths == num_asset_paths,
    {
        RenderBridge {
            state: ActivationState::Uninitialized,
            phase: BridgePhase::Idle,
            sample_rate: 44100,
            num_asset_paths,
        }
    }

    /// Begin the one-time setup run, off the real-time path. Returns the
    /// first engine call to perform; the driver then feeds every result
    /// code to [`Self::on_engine_reply`] until it answers `Finished`.
    /// Setup runs once per engine lifetime: it starts only from an
    /// uninitialized resting bridge, as initializing the engine twice
    /// without an intervening release is undefined on the engine's side.
    pub fn setup_begin(&mut self, sample_rate: u32) -> (cmd: BridgeCommand)
        requires
            old(self).wf(),
            old(self).phase is Idle,
            old(self).state is Uninitialized,
            sample_rate <= 0x7fff_ffff,
        ensures
            *final(self) == Self::spec_setup_begin(*old(self), sample_rate).0,
            cmd == Self::spec_setup_begin(*old(self), sample_rate).1,
            final(self).wf(),
    {
        self.sample_rate = sample_rate;
        self.phase = BridgePhase::AwaitInit;
        BridgeCommand::Call {
            call: EngineCall::Initialize {
                sample_rate,
                channels: ENGINE_CHANNELS,
                flags: SETUP_INIT_FLAGS,
            },
        }
    }

    /// Begin a teardown run, off the real-time path. Safe from any
    /// resting state: with nothing to release (never set up, or failed
    /// and already unwound) it finishes at once without an engine call,
    /// which is what makes teardown idempotent.
    pub fn teardown_begin(&mut self) -> (cmd: BridgeCommand)
        requires
            old(self).wf(),
            old(self).phase is Idle,
        ensures
            *final(self) == Self::spec_teardown_begin(*old(self)).0,
            cmd == Self::spec_teardown_begin(*old(self)).1,
            final(self).wf(),
    {
        match self.state {
            ActivationState::SlotOpen | ActivationState::AssetLoaded
                | ActivationState::Playing => {
                self.phase = BridgePhase::TearClose;
                BridgeCommand::Call { call: EngineCall::CloseSlot { slot: MAIN_SLOT } }
            },
            _ => BridgeCommand::Finished,
        }
    }

    /// Hand the bridge the engine's result code for the call it last
    /// asked for, and receive the next command of the run. The
    /// transition performed is exactly [`Self::spec_reply`].
    pub fn on_engine_reply(&mut self, code: i32) -> (cmd: BridgeCommand)
        requires
            old(self).wf(),
            !(old(self).phase is Idle),
        ensures
            *final(self) == Self::spec_reply(*old(self), code).0,
            cmd == Self::spec_reply(*old(self), code).1,
            final(self).wf(),
    {
        match self.phase {
            BridgePhase::Idle => BridgeCommand::Finished,
            BridgePhase::AwaitInit => {
                if code == 0 {
                    self.state = ActivationState::EngineReady;
                    self.phase = BridgePhase::AwaitOpen;
                    BridgeCommand::Call { call: EngineCall::OpenSlot { slot: MAIN_SLOT } }
                } else {
                    self.state = ActivationState::Failed {
                        stage: Stage::EngineReady,
                        reason: FailureReason::Engine { code },
                    };
                    self.phase = BridgePhase::Idle;
                    BridgeCommand::Finished
                }
            },
            BridgePhase::AwaitOpen => {
                if code == 0 {
                    self.state = ActivationState::SlotOpen;
                    self.phase = BridgePhase::AwaitLoad { path_index: 0 };
                    BridgeCommand::Call {
                        call: EngineCall::LoadAsset { slot: MAIN_SLOT, path_index: 0 },
                    }
                } else {
                    self.phase = BridgePhase::UnwindDeinit {
                        stage: Stage::SlotOpen,
                        reason: FailureReason::Engine { code },
                    };
                    BridgeCommand::Call { call: EngineCall::Deinitialize }
                }
            },
            BridgePhase::AwaitLoad { path_index } => {
                if code == 0 {
                    self.state = ActivationState::AssetLoaded;
                    self.phase = BridgePhase::AwaitPlay;
                    BridgeCommand::Call { call: EngineCall::StartPlayback { slot: MAIN_SLOT } }
                } else if path_index + 1 < self.num_asset_paths {
                    self.phase = BridgePhase::AwaitLoad { path_index: path_index + 1 };
                    BridgeCommand::Call {
                        call: EngineCall::LoadAsset {
                            slot: MAIN_SLOT,
                            path_index: path_index + 1,
                        },
                    }
                } else {
                    self.phase = BridgePhase::UnwindClose;
                    BridgeCommand::Call { call: EngineCall::CloseSlot { slot: MAIN_SLOT } }
                }
            },
            BridgePhase::AwaitPlay => {
                self.state = ActivationState::Playing;
                self.phase = BridgePhase::Idle;
                BridgeCommand::Finished
            },
            BridgePhase::UnwindClose => {
                self.phase = BridgePhase::UnwindDeinit {
                    stage: Stage::AssetLoaded,
                    reason: FailureReason::AssetNotFound,
                };
                BridgeCommand::Call { call: EngineCall::Deinitialize }
            },
            BridgePhase::UnwindDeinit { stage, reason } => {
                self.state = ActivationState::Failed { stage, reason };
                self.phase = BridgePhase::Idle;
                BridgeCommand::Finished
            },
            BridgePhase::TearClose => {
                self.phase = BridgePhase::TearDeinit;
                BridgeCommand::Call { call: EngineCall::Deinitialize }
            },
            BridgePhase::TearDeinit => {
                self.state = ActivationState::Uninitialized;
                self.phase = BridgePhase::Idle;
                BridgeCommand::Finished
            },
        }
    }

    /// Whether the render path may pull a block from the engine. The
    /// engine is consulted only in `Playing`; in every other state the
    /// driver must render the fallback tone instead and must not touch
    /// the engine from the real-time thread.
    pub fn engine_render_allowed(&self) -> (allowed: bool)
        ensures
            allowed == (self.state is Playing),
    {
        match self.state {
            ActivationState::Playing => true,
            _ => false,
        }
    }

    /// The engine half of the render path: de-interleave one stereo
    /// block the engine has just written. Only a playing bridge accepts
    /// a block — the caller checks [`Self::engine_render_allowed`]
    /// before calling the engine at all — and the block is copied
    /// through whatever it holds, so a silent, zeroed block yields
    /// zeroed channels rather than stale output. Each of the two output
    /// channels receives exactly `frame_count` samples: channel `c`,
    /// sample `i` is `engine_block[2 * i + c]`.
    pub fn render_engine_block<S: Copy>(&self, engine_block: &Vec<S>, frame_count: usize) -> (out:
        Vec<Vec<S>>)
        requires
            self.state is Playing,
            engine_block.len() == 2 * frame_count,
        ensures
            out.len() == 2,
            forall|c: int| 0 <= c < 2 ==> (#[trigger] out[c]).len() == frame_count,
            forall|c: int, i: int|
                0 <= c < 2 && 0 <= i < frame_count ==> #[trigger] out[c][i] == engine_block[2 * i
                    + c],
    {
        deinterleave_stereo(engine_block, frame_count)
    }

    /// The degraded half of the render path: a block of the fallback
    /// tone, for every state other than `Playing`. Each of the two
    /// channels receives exactly `frame_count` samples, determined by
    /// the bridge's sample rate and the frame index alone, so repeated
    /// calls produce identical output.
    pub fn render_fallback(&self, frame_count: usize) -> (out: Vec<Vec<i16>>)
        requires
            !(self.state is Playing),
        ensures
            fallback_output_shape(self.sample_rate, frame_count as int, out.deep_view()),
    {
        fallback_block(self.sample_rate, frame_count)
    }
}

/// The calls a whole run makes, and where it ends. Starting from a
/// pending command, each engine reply is consumed in order until the
/// bridge answers `Finished` (or the replies run out); the result is the
/// final bridge and the sequence of engine calls the driver was asked to
/// perform. The laws about setup and teardown are stated over this
/// function.
pub open spec fn spec_run(pre: RenderBridge, cmd: BridgeCommand, replies: Seq<i32>) -> (
    RenderBridge,
    Seq<EngineCall>,
)
    decreases replies.len(),
{
    match cmd {
        BridgeCommand::Finished => (pre, Seq::empty()),
        BridgeCommand::Call { call } => if replies.len() == 0 {
            (pre, seq![call])
        } else {
            let stepped = RenderBridge::spec_reply(pre, replies[0]);
            let rest = spec_run(stepped.0, stepped.1, replies.drop_first());
            (rest.0, seq![call] + rest.1)
        },
    }
}

/// A whole setup run: begin, then consume the engine's replies in order.
pub open spec fn spec_setup_run(pre: RenderBridge, sample_rate: u32, replies: Seq<i32>) -> (
    RenderBridge,
    Seq<EngineCall>,
) {
    let begun = RenderBridge::spec_setup_begin(pre, sample_rate);
    spec_run(begun.0, begun.1, replies)
}

/// A whole teardown run: begin, then consume the engine's replies.
pub open spec fn spec_teardown_run(pre: RenderBridge, replies: Seq<i32>) -> (
    RenderBridge,
    Seq<EngineCall>,
) {
    let begun = RenderBridge::spec_teardown_begin(pre);
    spec_run(begun.0, begun.1, replies)
}

/// Successful activation: when the engine accepts initialization, the
/// slot open and the first asset load, setup performs exactly the four
/// activation calls in order and rests at `Playing` — whatever code
/// starting playback returns, since the engine is by then initialized
/// and loaded and silent output is an acceptable degraded mode.
pub proof fn lemma_setup_success(bridge: RenderBridge, sample_rate: u32, play_code: i32)
    requires
        bridge.wf(),
        bridge.phase is Idle,
        bridge.state is Uninitialized,
        sample_rate <= 0x7fff_ffff,
    ensures
        ({
            let run = spec_setup_run(bridge, sample_rate, seq![0i32, 0i32, 0i32, play_code]);
            &&& run.1 =~= seq![
                (EngineCall::Initialize {
                    sample_rate,
                    channels: ENGINE_CHANNELS,
                    flags: SETUP_INIT_FLAGS,
                }),
                (EngineCall::OpenSlot { slot: MAIN_SLOT }),
                (EngineCall::LoadAsset { slot: MAIN_SLOT, path_index: 0 }),
                (EngineCall::StartPlayback { slot: MAIN_SLOT }),
            ]
            &&& run.0.state is Playing
            &&& run.0.phase is Idle
            &&& run.0.sample_rate == sample_rate
        }),
{
    reveal_with_fuel(spec_run, 6);
    let replies = seq![0i32, 0i32, 0i32, play_code];
    let t1 = replies.drop_first();
    let t2 = t1.drop_first();
    let t3 = t2.drop_first();
    let t4 = t3.drop_first();
    assert(replies[0] == 0 && t1[0] == 0 && t2[0] == 0 && t3[0] == play_code);
    assert(t4.len() == 0);
    let begun = RenderBridge::spec_setup_begin(bridge, sample_rate);
    let s1 = RenderBridge::spec_reply(begun.0, replies[0]);
    let s2 = RenderBridge::spec_reply(s1.0, t1[0]);
    let s3 = RenderBridge::spec_reply(s2.0, t2[0]);
    let s4 = RenderBridge::spec_reply(s3.0, t3[0]);
    assert(s4.1 is Finished);
    assert(spec_run(s4.0, s4.1, t4) == (s4.0, Seq::<EngineCall>::empty()));
    assert(spec_run(s3.0, s3.1, t3).0 == s4.0);
    assert(spec_run(begun.0, begun.1, replies).0 == s4.0);
    assert(spec_setup_run(bridge, sample_rate, replies).1 =~= seq![
        (EngineCall::Initialize {
            sample_rate,
            channels: ENGINE_CHANNELS,
            flags: SETUP_INIT_FLAGS,
        }),
        (EngineCall::OpenSlot { slot: MAIN_SLOT }),
        (EngineCall::LoadAsset { slot: MAIN_SLOT, path_index: 0 }),
        (EngineCall::StartPlayback { slot: MAIN_SLOT }),
    ]);
}

/// A setup that fails to open the playback slot leaks nothing: the run
/// performs exactly one `Deinitialize` — and no other call after the
/// failed open — and rests failed at stage `SlotOpen` with the engine's
/// code preserved.
pub proof fn lemma_slot_open_failure(
    bridge: RenderBridge,
    sample_rate: u32,
    open_code: i32,
    deinit_code: i32,
)
    requires
        bridge.wf(),
        bridge.phase is Idle,
        bridge.state is Uninitialized,
        sample_rate <= 0x7fff_ffff,
        open_code != 0,
    ensures
        ({
            let run = spec_setup_run(bridge, sample_rate, seq![0i32, open_code, deinit_code]);
            &&& run.1 =~= seq![
                (EngineCall::Initialize {
                    sample_rate,
                    channels: ENGINE_CHANNELS,
                    flags: SETUP_INIT_FLAGS,
                }),
                (EngineCall::OpenSlot { slot: MAIN_SLOT }),
                (EngineCall::Deinitialize),
            ]
            &&& forall|i: int|
                0 <= i < run.1.len() ==> ((#[trigger] run.1[i]) is Deinitialize <==> i == 2)
            &&& run.0.state == (ActivationState::Failed {
                stage: Stage::SlotOpen,
                reason: (FailureReason::Engine { code: open_code }),
            })
            &&& run.0.phase is Idle
        }),
{
    reveal_with_fuel(spec_run, 5);
    let replies = seq![0i32, open_code, deinit_code];
    let t1 = replies.drop_first();
    let t2 = t1.drop_first();
    let t3 = t2.drop_first();
    assert(replies[0] == 0 && t1[0] == open_code && t2[0] == deinit_code);
    assert(t3.len() == 0);
    let begun = RenderBridge::spec_setup_begin(bridge, sample_rate);
    let s1 = RenderBridge::spec_reply(begun.0, replies[0]);
    let s2 = RenderBridge::spec_reply(s1.0, t1[0]);
    let s3 = RenderBridge::spec_reply(s2.0, t2[0]);
    assert(s3.1 is Finished);
    assert(spec_run(s3.0, s3.1, t3) == (s3.0, Seq::<EngineCall>::empty()));
    assert(spec_run(begun.0, begun.1, replies).0 == s3.0);
    let run = spec_setup_run(bridge, sample_rate, replies);
    assert(run.1 =~= seq![
        (EngineCall::Initialize {
            sample_rate,
            channels: ENGINE_CHANNELS,
            flags: SETUP_INIT_FLAGS,
        }),
        (EngineCall::OpenSlot { slot: MAIN_SLOT }),
        (EngineCall::Deinitialize),
    ]);
}

/// Teardown from a bridge that never reached `Playing` — never set up,
/// or failed and already unwound — performs no engine call at all and
/// leaves the bridge exactly as it was. In particular the engine's
/// release is never attempted on an engine that was never initialized.
pub proof fn lemma_teardown_unactivated(bridge: RenderBridge, replies: Seq<i32>)
    requires
        bridge.wf(),
        bridge.phase is Idle,
        !(bridge.state is Playing),
    ensures
        spec_teardown_run(bridge, replies).1 =~= Seq::<EngineCall>::empty(),
        spec_teardown_run(bridge, replies).0 == bridge,
{
    reveal_with_fuel(spec_run, 2);
    assert(RenderBridge::spec_teardown_begin(bridge).1 is Finished);
}

/// Teardown from `Playing` releases everything in order: it closes the
/// slot, then releases the engine — accepting their result codes, since
/// cleanup is best effort — and rests at `Uninitialized`.
pub proof fn lemma_teardown_releases(bridge: RenderBridge, close_code: i32, deinit_code: i32)
    requires
        bridge.wf(),
        bridge.phase is Idle,
        bridge.state is Playing,
    ensures
        ({
            let run = spec_teardown_run(bridge, seq![close_code, deinit_code]);
            &&& run.1 =~= seq![
                (EngineCall::CloseSlot { slot: MAIN_SLOT }),
                (EngineCall::Deinitialize),
            ]
            &&& run.0.state is Uninitialized
            &&& run.0.phase is Idle
            &&& run.0.sample_rate == bridge.sample_rate
            &&& run.0.num_asset_paths == bridge.num_asset_paths
        }),
{
    reveal_with_fuel(spec_run, 4);
    let replies = seq![close_code, deinit_code];
    let t1 = replies.drop_first();
    let t2 = t1.drop_first();
    assert(replies[0] == close_code && t1[0] == deinit_code);
    assert(t2.len() == 0);
    let begun = RenderBridge::spec_teardown_begin(bridge);
    let s1 = RenderBridge::spec_reply(begun.0, replies[0]);
    let s2 = RenderBridge::spec_reply(s1.0, t1[0]);
    assert(s2.1 is Finished);
    assert(spec_run(s2.0, s2.1, t2) == (s2.0, Seq::<EngineCall>::empty()));
    assert(spec_run(begun.0, begun.1, replies).0 == s2.0);
    assert(spec_teardown_run(bridge, replies).1 =~= seq![
        (EngineCall::CloseSlot { slot: MAIN_SLOT }),
        (EngineCall::Deinitialize),
    ]);
}

/// Teardown is idempotent: once a teardown run has completed, running
/// teardown again — whatever codes the engine would have returned the
/// first time — performs no engine call and changes nothing. The
/// engine's release is therefore never attempted a second time.
pub proof fn lemma_teardown_idempotent(
    bridge: RenderBridge,
    close_code: i32,
    deinit_code: i32,
    later_replies: Seq<i32>,
)
    requires
        bridge.wf(),
        bridge.phase is Idle,
    ensures
        ({
            let first = spec_teardown_run(bridge, seq![close_code, deinit_code]);
            let second = spec_teardown_run(first.0, later_replies);
            &&& second.1 =~= Seq::<EngineCall>::empty()
            &&& second.0 == first.0
        }),
{
    if bridge.state is Playing {
        lemma_teardown_releases(bridge, close_code, deinit_code);
        let first = spec_teardown_run(bridge, seq![close_code, deinit_code]);
        assert(first.0.wf());
        lemma_teardown_unactivated(first.0, later_replies);
    } else {
        lemma_teardown_unactivated(bridge, seq![close_code, deinit_code]);
        lemma_teardown_unactivated(bridge, later_replies);
    }
}

} // verus!
