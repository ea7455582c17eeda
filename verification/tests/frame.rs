use revoxelation::renderer::frame::{
    advance_motion_frames, build_frame_plan, build_render_diagnostics, debug_overlay_flag, encode_history_flags,
    history_read_slot_from_frame, history_write_slot_from_frame, render_execution_trace, sanitize_frame_settings,
    summarize_render_execution, FrameContext, FrameSettings, RenderExecutionAction, RenderExecutionSummary,
    DEBUG_OVERLAY_MODE_MAX, SVGF_MAX_ATROUS_PASSES,
};

const MAX_SVGF_PASSES: usize = 5;

fn build_summary(svgf_enabled: bool, svgf_passes: u32) -> RenderExecutionSummary {
    let mut settings = FrameSettings::default();
    settings.svgf_enabled = svgf_enabled;
    settings.svgf_passes = svgf_passes;
    let plan = build_frame_plan(0, 1280, 720, &settings, SVGF_MAX_ATROUS_PASSES);
    summarize_render_execution(&plan)
}

#[test]
fn summary_disables_svgf_when_setting_is_off() {
    let summary = build_summary(false, 5);
    assert!(!summary.run_svgf);
    assert_eq!(summary.svgf_passes, 0);
}

#[test]
fn summary_clamps_svgf_passes_to_maximum() {
    let summary = build_summary(true, 64);
    assert!(summary.run_svgf);
    assert_eq!(summary.svgf_passes, SVGF_MAX_ATROUS_PASSES);
}

#[test]
fn trace_without_svgf_contains_trace_then_reistir() {
    let summary = build_summary(false, 3);
    let trace = render_execution_trace(summary);
    assert_eq!(trace, vec![RenderExecutionAction::Trace, RenderExecutionAction::ReSTIR]);
}

#[test]
fn trace_with_zero_svgf_passes_keeps_init_and_resolve_order() {
    let summary = build_summary(true, 0);
    let trace = render_execution_trace(summary);
    assert_eq!(
        trace,
        vec![
            RenderExecutionAction::Trace,
            RenderExecutionAction::ReSTIR,
            RenderExecutionAction::SvgfInit,
            RenderExecutionAction::SvgfResolve,
        ]
    );
}

#[test]
fn trace_with_three_svgf_passes_has_expected_order() {
    let summary = build_summary(true, 3);
    let trace = render_execution_trace(summary);
    assert_eq!(
        trace,
        vec![
            RenderExecutionAction::Trace,
            RenderExecutionAction::ReSTIR,
            RenderExecutionAction::SvgfInit,
            RenderExecutionAction::SvgfAtrous,
            RenderExecutionAction::SvgfAtrous,
            RenderExecutionAction::SvgfAtrous,
            RenderExecutionAction::SvgfResolve,
        ]
    );
}

#[test]
fn trace_length_matches_svgf_pass_count() {
    let summary = build_summary(true, 4);
    let trace = render_execution_trace(summary);
    assert_eq!(trace.len(), 2 + 1 + summary.svgf_passes + 1);
}

#[test]
fn summary_always_runs_trace_and_reistir() {
    let summary = build_summary(true, 2);
    assert!(summary.run_trace);
    assert!(summary.run_reistir);
}

#[test]
fn diagnostics_without_svgf_tracks_summary_and_trace_len() {
    let mut settings = FrameSettings::default();
    settings.svgf_enabled = false;
    settings.svgf_passes = 4;
    let plan = build_frame_plan(0, 1280, 720, &settings, SVGF_MAX_ATROUS_PASSES);
    let diagnostics = build_render_diagnostics(&plan);
    assert_eq!(
        diagnostics.summary,
        RenderExecutionSummary { run_trace: true, run_reistir: true, run_svgf: false, svgf_passes: 0 }
    );
    assert_eq!(diagnostics.trace_len, 2);
}

#[test]
fn diagnostics_with_svgf_tracks_summary_and_trace_len() {
    let mut settings = FrameSettings::default();
    settings.svgf_enabled = true;
    settings.svgf_passes = 2;
    let plan = build_frame_plan(1, 800, 600, &settings, SVGF_MAX_ATROUS_PASSES);
    let diagnostics = build_render_diagnostics(&plan);
    assert_eq!(
        diagnostics.summary,
        RenderExecutionSummary { run_trace: true, run_reistir: true, run_svgf: true, svgf_passes: 2 }
    );
    assert_eq!(diagnostics.trace_len, 6);
}

#[test]
fn diagnostics_trace_len_respects_svgf_clamp() {
    let mut settings = FrameSettings::default();
    settings.svgf_enabled = true;
    settings.svgf_passes = 64;
    let plan = build_frame_plan(2, 640, 480, &settings, SVGF_MAX_ATROUS_PASSES);
    let diagnostics = build_render_diagnostics(&plan);
    assert_eq!(diagnostics.summary.svgf_passes, SVGF_MAX_ATROUS_PASSES);
    assert_eq!(diagnostics.trace_len, 2 + 1 + SVGF_MAX_ATROUS_PASSES + 1);
}

#[test]
fn diagnostics_trace_len_matches_render_trace_output() {
    let summary = build_summary(true, 3);
    let trace = render_execution_trace(summary);
    let plan = build_frame_plan(
        3,
        1920,
        1080,
        &FrameSettings { svgf_enabled: true, svgf_passes: 3, ..FrameSettings::default() },
        SVGF_MAX_ATROUS_PASSES,
    );
    let diagnostics = build_render_diagnostics(&plan);
    assert_eq!(trace.len(), diagnostics.trace_len);
}

#[test]
fn debug_overlay_flag_is_zero_when_overlay_disabled() {
    let mut settings = FrameSettings::default();
    settings.debug_overlay = false;
    settings.debug_overlay_mode = 7;
    assert_eq!(debug_overlay_flag(&settings), 0);
}

#[test]
fn debug_overlay_flag_preserves_disabled_mode_zero_when_enabled() {
    let mut settings = FrameSettings::default();
    settings.debug_overlay = true;
    settings.debug_overlay_mode = 0;
    assert_eq!(debug_overlay_flag(&settings), 0);
}

#[test]
fn schedule_guard_svgf_disabled_stays_trace_then_reistir() {
    let summary = build_summary(false, 5);
    assert_eq!(render_execution_trace(summary), vec![RenderExecutionAction::Trace, RenderExecutionAction::ReSTIR]);
}

#[test]
fn schedule_guard_svgf_zero_pass_has_only_init_and_resolve() {
    let summary = build_summary(true, 0);
    let trace = render_execution_trace(summary);
    assert_eq!(
        trace,
        vec![
            RenderExecutionAction::Trace,
            RenderExecutionAction::ReSTIR,
            RenderExecutionAction::SvgfInit,
            RenderExecutionAction::SvgfResolve,
        ]
    );
}

#[test]
fn schedule_guard_svgf_multi_pass_counts_atrous_instances() {
    let summary = build_summary(true, 4);
    let atrous_count = render_execution_trace(summary)
        .into_iter()
        .filter(|action| *action == RenderExecutionAction::SvgfAtrous)
        .count();
    assert_eq!(atrous_count, 4);
}

#[test]
fn frame_plan_even_frame_uses_expected_history_slots() {
    let settings = FrameSettings::default();
    let plan = build_frame_plan(0, 1920, 1080, &settings, MAX_SVGF_PASSES);
    assert_eq!(plan.history_read_slot, 0);
    assert_eq!(plan.history_write_slot, 1);
}

#[test]
fn frame_plan_odd_frame_uses_expected_history_slots() {
    let settings = FrameSettings::default();
    let plan = build_frame_plan(1, 1920, 1080, &settings, MAX_SVGF_PASSES);
    assert_eq!(plan.history_read_slot, 1);
    assert_eq!(plan.history_write_slot, 0);
}

#[test]
fn frame_plan_history_flags_match_slot_encoding() {
    let settings = FrameSettings::default();
    let plan = build_frame_plan(2, 800, 600, &settings, MAX_SVGF_PASSES);
    assert_eq!(plan.history_flags, 2);
}

#[test]
fn frame_plan_clamps_resolution_to_non_zero() {
    let settings = FrameSettings::default();
    let plan = build_frame_plan(3, 0, 0, &settings, MAX_SVGF_PASSES);
    assert_eq!(plan.resolution, [1, 1]);
}

#[test]
fn frame_plan_disables_svgf_passes_when_svgf_is_disabled() {
    let mut settings = FrameSettings::default();
    settings.svgf_enabled = false;
    settings.svgf_passes = 4;
    let plan = build_frame_plan(4, 640, 480, &settings, MAX_SVGF_PASSES);
    assert!(!plan.passes.run_svgf);
    assert_eq!(plan.svgf_passes, 0);
    assert_eq!(plan.svgf_resolve_source_slot, plan.history_write_slot);
}

#[test]
fn frame_plan_clamps_svgf_pass_count_to_maximum() {
    let mut settings = FrameSettings::default();
    settings.svgf_enabled = true;
    settings.svgf_passes = 64;
    let plan = build_frame_plan(5, 640, 480, &settings, MAX_SVGF_PASSES);
    assert!(plan.passes.run_svgf);
    assert_eq!(plan.svgf_passes, MAX_SVGF_PASSES);
}

#[test]
fn frame_plan_exposes_atrous_source_slot_sequence() {
    let mut settings = FrameSettings::default();
    settings.svgf_enabled = true;
    settings.svgf_passes = 3;
    let plan = build_frame_plan(0, 1024, 768, &settings, MAX_SVGF_PASSES);
    assert_eq!(plan.svgf_atrous_source_slot(0), 1);
    assert_eq!(plan.svgf_atrous_source_slot(1), 0);
    assert_eq!(plan.svgf_atrous_source_slot(2), 1);
}

#[test]
fn frame_plan_always_runs_trace_and_reistir() {
    let settings = FrameSettings::default();
    let plan = build_frame_plan(9, 1280, 720, &settings, MAX_SVGF_PASSES);
    assert!(plan.passes.run_trace);
    assert!(plan.passes.run_reistir);
}

#[test]
fn overlay_mode_zero_survives_sanitization() {
    let mut settings = FrameSettings::default();
    settings.debug_overlay_mode = 0;
    let sanitized = sanitize_frame_settings(settings);
    assert_eq!(sanitized.debug_overlay_mode, 0);
}

#[test]
fn overlay_mode_above_max_is_clamped() {
    let mut settings = FrameSettings::default();
    settings.debug_overlay_mode = DEBUG_OVERLAY_MODE_MAX + 77;
    let sanitized = sanitize_frame_settings(settings);
    assert_eq!(sanitized.debug_overlay_mode, DEBUG_OVERLAY_MODE_MAX);
}

#[test]
fn sanitizing_twice_changes_nothing_more() {
    let settings = FrameSettings {
        max_bounces: 99,
        dda_max_steps: 1,
        rr_start_bounce: 0,
        restir_spatial_radius: 9,
        restir_gi_reuse_m_cap: 0,
        debug_overlay_mode: 42,
        svgf_passes: 12,
        svgf_step_scale: 0,
        ..FrameSettings::default()
    };
    let once = sanitize_frame_settings(settings);
    assert_eq!(once.max_bounces, 16);
    assert_eq!(once.dda_max_steps, 32);
    assert_eq!(once.rr_start_bounce, 1);
    assert_eq!(once.restir_spatial_radius, 2);
    assert_eq!(once.restir_gi_reuse_m_cap, 1);
    assert_eq!(once.svgf_passes, SVGF_MAX_ATROUS_PASSES as u32);
    assert_eq!(once.svgf_step_scale, 1);
    assert_eq!(sanitize_frame_settings(once), once);
}

#[test]
fn history_slots_ping_pong_between_frames() {
    for frame in [0u32, 1, 2, 3, 1000, u32::MAX] {
        let read = history_read_slot_from_frame(frame);
        let write = history_write_slot_from_frame(frame);
        assert_ne!(read, write);
        assert_eq!(history_read_slot_from_frame(frame.wrapping_add(1)), write);
        assert_eq!(encode_history_flags(read, write), read + 2 * write);
    }
}

#[test]
fn frame_context_copies_plan_slots() {
    let plan = build_frame_plan(7, 320, 200, &FrameSettings::default(), MAX_SVGF_PASSES);
    let context = FrameContext::from_plan(&plan);
    assert_eq!(context.frame_index, 7);
    assert_eq!(context.resolution, [320, 200]);
    assert_eq!(context.history_read_slot, 1);
    assert_eq!(context.history_write_slot, 0);
}

#[test]
fn motion_countdown_holds_three_still_frames() {
    let mut remaining: u32 = 0;
    assert!(!advance_motion_frames(&mut remaining, false));
    assert!(advance_motion_frames(&mut remaining, true));
    assert_eq!(remaining, 3);
    assert!(advance_motion_frames(&mut remaining, false));
    assert!(advance_motion_frames(&mut remaining, false));
    assert!(!advance_motion_frames(&mut remaining, false));
    assert_eq!(remaining, 0);
}
