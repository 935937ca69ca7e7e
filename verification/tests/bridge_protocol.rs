//! Tests of the activation protocol: setup, failure unwinding and
//! teardown, driven exactly as an engine driver would drive them.

use sunvox_bridge::bridge::RenderBridge;
use sunvox_bridge::engine::ActivationState;
use sunvox_bridge::engine::BridgeCommand;
use sunvox_bridge::engine::EngineCall;
use sunvox_bridge::engine::FailureReason;
use sunvox_bridge::engine::Stage;
use sunvox_bridge::engine::SETUP_INIT_FLAGS;

/// Drive the bridge from a pending command, answering each engine call
/// with the next scripted result code, and record the calls requested.
fn drive(bridge: &mut RenderBridge, first: BridgeCommand, replies: &[i32]) -> Vec<EngineCall> {
    let mut calls = Vec::new();
    let mut idx = 0;
    let mut cmd = first;
    while let BridgeCommand::Call { call } = cmd {
        calls.push(call);
        let code = replies[idx];
        idx += 1;
        cmd = bridge.on_engine_reply(code);
    }
    assert_eq!(idx, replies.len(), "scripted replies left unconsumed");
    calls
}

fn count_deinit(calls: &[EngineCall]) -> usize {
    calls.iter().filter(|c| matches!(c, EngineCall::Deinitialize)).count()
}

#[test]
fn test_sunvox_ffi_bindings() {
    // The binding sequence the engine is driven through: initialize at
    // 44100 Hz stereo, open slot 0, then close slot 0 and deinitialize,
    // every call succeeding with code 0.
    let mut bridge = RenderBridge::new(1);
    let first = bridge.setup_begin(44100);
    assert_eq!(
        first,
        BridgeCommand::Call {
            call: EngineCall::Initialize {
                sample_rate: 44100,
                channels: 2,
                flags: SETUP_INIT_FLAGS,
            },
        }
    );
    let calls = drive(&mut bridge, first, &[0, 0, 0, 0]);
    assert_eq!(calls[1], EngineCall::OpenSlot { slot: 0 });
    assert_eq!(bridge.sample_rate, 44100);

    let first = bridge.teardown_begin();
    let calls = drive(&mut bridge, first, &[0, 0]);
    assert_eq!(
        calls,
        vec![EngineCall::CloseSlot { slot: 0 }, EngineCall::Deinitialize]
    );
    assert_eq!(bridge.state, ActivationState::Uninitialized);
}

#[test]
fn setup_success_reaches_playing() {
    let mut bridge = RenderBridge::new(3);
    let first = bridge.setup_begin(44100);
    let calls = drive(&mut bridge, first, &[0, 0, 0, 0]);
    assert_eq!(
        calls,
        vec![
            EngineCall::Initialize { sample_rate: 44100, channels: 2, flags: SETUP_INIT_FLAGS },
            EngineCall::OpenSlot { slot: 0 },
            EngineCall::LoadAsset { slot: 0, path_index: 0 },
            EngineCall::StartPlayback { slot: 0 },
        ]
    );
    assert_eq!(bridge.state, ActivationState::Playing);
    assert!(bridge.engine_render_allowed());
}

#[test]
fn init_failure_degrades_without_deinit() {
    let mut bridge = RenderBridge::new(3);
    let first = bridge.setup_begin(48000);
    let calls = drive(&mut bridge, first, &[-1]);
    assert_eq!(calls.len(), 1);
    assert_eq!(count_deinit(&calls), 0);
    assert_eq!(
        bridge.state,
        ActivationState::Failed {
            stage: Stage::EngineReady,
            reason: FailureReason::Engine { code: -1 },
        }
    );
    assert!(!bridge.engine_render_allowed());
}

#[test]
fn slot_open_failure_deinitializes_once() {
    let mut bridge = RenderBridge::new(3);
    let first = bridge.setup_begin(44100);
    let calls = drive(&mut bridge, first, &[0, -7, 0]);
    assert_eq!(
        calls,
        vec![
            EngineCall::Initialize { sample_rate: 44100, channels: 2, flags: SETUP_INIT_FLAGS },
            EngineCall::OpenSlot { slot: 0 },
            EngineCall::Deinitialize,
        ]
    );
    assert_eq!(count_deinit(&calls), 1);
    assert_eq!(
        bridge.state,
        ActivationState::Failed {
            stage: Stage::SlotOpen,
            reason: FailureReason::Engine { code: -7 },
        }
    );
}

#[test]
fn asset_paths_tried_in_order() {
    let mut bridge = RenderBridge::new(3);
    let first = bridge.setup_begin(44100);
    let calls = drive(&mut bridge, first, &[0, 0, -5, -5, 0, 0]);
    assert_eq!(
        calls,
        vec![
            EngineCall::Initialize { sample_rate: 44100, channels: 2, flags: SETUP_INIT_FLAGS },
            EngineCall::OpenSlot { slot: 0 },
            EngineCall::LoadAsset { slot: 0, path_index: 0 },
            EngineCall::LoadAsset { slot: 0, path_index: 1 },
            EngineCall::LoadAsset { slot: 0, path_index: 2 },
            EngineCall::StartPlayback { slot: 0 },
        ]
    );
    assert_eq!(bridge.state, ActivationState::Playing);
}

#[test]
fn asset_exhaustion_closes_and_deinitializes() {
    let mut bridge = RenderBridge::new(2);
    let first = bridge.setup_begin(44100);
    let calls = drive(&mut bridge, first, &[0, 0, -5, -6, 0, 0]);
    assert_eq!(
        calls,
        vec![
            EngineCall::Initialize { sample_rate: 44100, channels: 2, flags: SETUP_INIT_FLAGS },
            EngineCall::OpenSlot { slot: 0 },
            EngineCall::LoadAsset { slot: 0, path_index: 0 },
            EngineCall::LoadAsset { slot: 0, path_index: 1 },
            EngineCall::CloseSlot { slot: 0 },
            EngineCall::Deinitialize,
        ]
    );
    assert_eq!(count_deinit(&calls), 1);
    assert_eq!(
        bridge.state,
        ActivationState::Failed {
            stage: Stage::AssetLoaded,
            reason: FailureReason::AssetNotFound,
        }
    );
}

#[test]
fn playback_failure_still_reaches_playing() {
    // Starting playback is best effort: the engine is initialized and
    // loaded, so a failed start still leaves the bridge playing and
    // silent engine output is the worst case.
    let mut bridge = RenderBridge::new(3);
    let first = bridge.setup_begin(44100);
    let calls = drive(&mut bridge, first, &[0, 0, 0, -3]);
    assert_eq!(calls.len(), 4);
    assert_eq!(bridge.state, ActivationState::Playing);
}

#[test]
fn teardown_twice_releases_once() {
    let mut bridge = RenderBridge::new(3);
    let first = bridge.setup_begin(44100);
    drive(&mut bridge, first, &[0, 0, 0, 0]);
    assert_eq!(bridge.state, ActivationState::Playing);

    let first = bridge.teardown_begin();
    let calls = drive(&mut bridge, first, &[0, 0]);
    assert_eq!(
        calls,
        vec![EngineCall::CloseSlot { slot: 0 }, EngineCall::Deinitialize]
    );
    assert_eq!(bridge.state, ActivationState::Uninitialized);

    let second = bridge.teardown_begin();
    assert_eq!(second, BridgeCommand::Finished);
    let calls = drive(&mut bridge, second, &[]);
    assert_eq!(count_deinit(&calls), 0);
    assert!(calls.is_empty());
    assert_eq!(bridge.state, ActivationState::Uninitialized);
}

#[test]
fn teardown_without_setup_is_noop() {
    let mut bridge = RenderBridge::new(3);
    let first = bridge.teardown_begin();
    assert_eq!(first, BridgeCommand::Finished);
    assert_eq!(bridge.state, ActivationState::Uninitialized);
}

#[test]
fn teardown_after_failed_setup_is_noop() {
    let mut bridge = RenderBridge::new(3);
    let first = bridge.setup_begin(44100);
    drive(&mut bridge, first, &[0, -7, 0]);
    let failed = bridge.state;
    let cmd = bridge.teardown_begin();
    assert_eq!(cmd, BridgeCommand::Finished);
    assert_eq!(bridge.state, failed);
}

#[test]
fn setup_runs_again_after_teardown() {
    let mut bridge = RenderBridge::new(3);
    let first = bridge.setup_begin(44100);
    drive(&mut bridge, first, &[0, 0, 0, 0]);
    let first = bridge.teardown_begin();
    drive(&mut bridge, first, &[0, 0]);
    let first = bridge.setup_begin(96000);
    let calls = drive(&mut bridge, first, &[0, 0, 0, 0]);
    assert_eq!(calls.len(), 4);
    assert_eq!(bridge.state, ActivationState::Playing);
    assert_eq!(bridge.sample_rate, 96000);
}
