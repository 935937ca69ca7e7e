//! Tests of the per-block render path: de-interleaving of engine
//! blocks and the deterministic fallback tone.

use sunvox_bridge::bridge::RenderBridge;
use sunvox_bridge::engine::ActivationState;
use sunvox_bridge::render::deinterleave_stereo;
use sunvox_bridge::render::fallback_block;
use sunvox_bridge::render::FALLBACK_AMPLITUDE;

/// A bridge that has completed a fully successful setup.
fn playing_bridge(sample_rate: u32) -> RenderBridge {
    let mut bridge = RenderBridge::new(3);
    let mut cmd = bridge.setup_begin(sample_rate);
    while let sunvox_bridge::engine::BridgeCommand::Call { .. } = cmd {
        cmd = bridge.on_engine_reply(0);
    }
    assert_eq!(bridge.state, ActivationState::Playing);
    bridge
}

#[test]
fn deinterleave_known_pattern() {
    // [L0, R0, L1, R1, L2, R2] splits into [L0, L1, L2] and [R0, R1, R2].
    let interleaved: Vec<f32> = vec![0.25, -0.5, 0.75, -1.0, 0.125, 0.0];
    let out = deinterleave_stereo(&interleaved, 3);
    assert_eq!(out.len(), 2);
    assert_eq!(out[0], vec![0.25, 0.75, 0.125]);
    assert_eq!(out[1], vec![-0.5, -1.0, 0.0]);
}

#[test]
fn deinterleave_integer_samples() {
    let interleaved: Vec<i16> = vec![1, -1, 2, -2, 3, -3, 4, -4];
    let out = deinterleave_stereo(&interleaved, 4);
    assert_eq!(out[0], vec![1, 2, 3, 4]);
    assert_eq!(out[1], vec![-1, -2, -3, -4]);
}

#[test]
fn engine_silence_copied_through() {
    // A silent engine block is still copied into the output: 512 zeros
    // per channel, never skipped.
    let bridge = playing_bridge(44100);
    let silence: Vec<f32> = vec![0.0; 512 * 2];
    let out = bridge.render_engine_block(&silence, 512);
    assert_eq!(out.len(), 2);
    for channel in &out {
        assert_eq!(channel.len(), 512);
        assert!(channel.iter().all(|&s| s == 0.0));
    }
}

#[test]
fn engine_pattern_deinterleaved() {
    // A block with a known pattern lands de-interleaved in the output.
    let bridge = playing_bridge(44100);
    let frame_count = 64;
    let mut block: Vec<f32> = Vec::new();
    for i in 0..frame_count {
        block.push(i as f32);        // left sample of frame i
        block.push(-(i as f32));     // right sample of frame i
    }
    let out = bridge.render_engine_block(&block, frame_count);
    for i in 0..frame_count {
        assert_eq!(out[0][i], i as f32);
        assert_eq!(out[1][i], -(i as f32));
    }
}

#[test]
fn render_writes_exactly_frame_count() {
    let bridge = playing_bridge(44100);
    for &n in &[0usize, 1, 7, 256, 512] {
        let block: Vec<f32> = vec![0.5; n * 2];
        let out = bridge.render_engine_block(&block, n);
        assert_eq!(out.len(), 2);
        assert_eq!(out[0].len(), n);
        assert_eq!(out[1].len(), n);
    }
    let degraded = RenderBridge::new(3);
    for &n in &[0usize, 1, 7, 256, 512] {
        let out = degraded.render_fallback(n);
        assert_eq!(out.len(), 2);
        assert_eq!(out[0].len(), n);
        assert_eq!(out[1].len(), n);
    }
}

#[test]
fn fallback_tone_exact_values() {
    // At 44100 Hz the tone's period is 44100 / 440 = 100 frames: the
    // first 50 samples sit at the positive peak, the next 50 at the
    // negative peak, and frame 100 starts the next cycle.
    let out = fallback_block(44100, 150);
    for c in 0..2 {
        assert_eq!(out[c][0], FALLBACK_AMPLITUDE);
        assert_eq!(out[c][49], FALLBACK_AMPLITUDE);
        assert_eq!(out[c][50], -FALLBACK_AMPLITUDE);
        assert_eq!(out[c][99], -FALLBACK_AMPLITUDE);
        assert_eq!(out[c][100], FALLBACK_AMPLITUDE);
        assert_eq!(out[c][149], FALLBACK_AMPLITUDE);
    }
}

#[test]
fn fallback_tone_reproducible() {
    // Repeated degraded renders with the same frame count are identical.
    let bridge = RenderBridge::new(3);
    let first = bridge.render_fallback(512);
    let second = bridge.render_fallback(512);
    assert_eq!(first, second);
}

#[test]
fn fallback_used_before_setup_and_after_failure() {
    let fresh = RenderBridge::new(3);
    assert!(!fresh.engine_render_allowed());
    let out = fresh.render_fallback(32);
    assert_eq!(out[0][0], FALLBACK_AMPLITUDE);

    let mut failed = RenderBridge::new(3);
    let mut cmd = failed.setup_begin(44100);
    let mut code = -1;
    while let sunvox_bridge::engine::BridgeCommand::Call { .. } = cmd {
        cmd = failed.on_engine_reply(code);
        code = 0;
    }
    assert!(!failed.engine_render_allowed());
    let out = failed.render_fallback(32);
    assert_eq!(out, fresh.render_fallback(32));
}

#[test]
fn fallback_tone_low_sample_rate_defined() {
    // Below the tone frequency the period clamps to one frame; the tone
    // is still defined and deterministic.
    let out = fallback_block(100, 8);
    assert_eq!(out[0].len(), 8);
    for i in 0..8 {
        assert_eq!(out[0][i], FALLBACK_AMPLITUDE);
    }
}
