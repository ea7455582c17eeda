//! Frame planning: history ping-pong slots, SVGF pass scheduling and the
//! render pass trace of a frame.

use vstd::prelude::*;

verus! {

/// Maximum number of SVGF à-trous passes per frame.
pub const SVGF_MAX_ATROUS_PASSES: usize = 5;

pub const DEBUG_OVERLAY_MODE_NONE: u32 = 0;
pub const DEBUG_OVERLAY_MODE_PROBE: u32 = 1;
pub const DEBUG_OVERLAY_MODE_MOTION: u32 = 2;
pub const DEBUG_OVERLAY_MODE_HISTORY_VALIDITY: u32 = 3;
pub const DEBUG_OVERLAY_MODE_HISTORY_WEIGHT: u32 = 4;
pub const DEBUG_OVERLAY_MODE_REJECT_REASON: u32 = 5;
pub const DEBUG_OVERLAY_MODE_CLAMP_DIFF: u32 = 6;
pub const DEBUG_OVERLAY_MODE_TEMPORAL_VARIANCE: u32 = 7;
pub const DEBUG_OVERLAY_MODE_MAX: u32 = 7;

/// The integer and boolean renderer settings that frame planning reads.
#[derive(Clone, Copy, Debug, PartialEq, Eq)]
pub struct FrameSettings {
    pub max_bounces: u32,
    pub dda_max_steps: u32,
    pub rr_start_bounce: u32,
    pub restir_di_enabled: bool,
    pub restir_gi_enabled: bool,
    pub restir_spatial_radius: u32,
    pub restir_gi_reuse_m_cap: u32,
    pub debug_overlay: bool,
    pub debug_overlay_mode: u32,
    pub svgf_enabled: bool,
    pub svgf_passes: u32,
    pub svgf_step_scale: u32,
}

impl Default for FrameSettings {
    fn default() -> (s: FrameSettings)
        ensures
            s == (FrameSettings {
                max_bounces: 3,
                dda_max_steps: 512,
                rr_start_bounce: 3,
                restir_di_enabled: true,
                restir_gi_enabled: true,
                restir_spatial_radius: 1,
                restir_gi_reuse_m_cap: 8,
                debug_overlay: true,
                debug_overlay_mode: DEBUG_OVERLAY_MODE_PROBE,
                svgf_enabled: true,
                svgf_passes: 5,
                svgf_step_scale: 1,
            }),
    {
        FrameSettings {
            max_bounces: 3,
            dda_max_steps: 512,
            rr_start_bounce: 3,
            restir_di_enabled: true,
            restir_gi_enabled: true,
            restir_spatial_radius: 1,
            restir_gi_reuse_m_cap: 8,
            debug_overlay: true,
            debug_overlay_mode: DEBUG_OVERLAY_MODE_PROBE,
            svgf_enabled: true,
            svgf_passes: 5,
            svgf_step_scale: 1,
        }
    }
}

pub open spec fn clamp(v: u32, lo: u32, hi: u32) -> u32 {
    if v < lo {
        lo
    } else if v > hi {
        hi
    } else {
        v
    }
}

fn clamp_u32(v: u32, lo: u32, hi: u32) -> (r: u32)
    requires
        lo <= hi,
    ensures
        r == clamp(v, lo, hi),
{
    if v < lo {
        lo
    } else if v > hi {
        hi
    } else {
        v
    }
}

/// The integer settings clamped into their supported ranges.
pub open spec fn sanitized(s: FrameSettings) -> FrameSettings {
    FrameSettings {
        max_bounces: clamp(s.max_bounces, 1, 16),
        dda_max_steps: clamp(s.dda_max_steps, 32, 2048),
        rr_start_bounce: clamp(s.rr_start_bounce, 1, 12),
        restir_spatial_radius: clamp(s.restir_spatial_radius, 0, 2),
        restir_gi_reuse_m_cap: clamp(s.restir_gi_reuse_m_cap, 1, 32),
        debug_overlay_mode: clamp(s.debug_overlay_mode, 0, DEBUG_OVERLAY_MODE_MAX),
        svgf_passes: clamp(s.svgf_passes, 0, SVGF_MAX_ATROUS_PASSES as u32),
        svgf_step_scale: clamp(s.svgf_step_scale, 1, 4),
        ..s
    }
}

/// Clamps the integer renderer settings.
pub fn sanitize_frame_settings(settings: FrameSettings) -> (r: FrameSettings)
    ensures
        r == sanitized(settings),
{
    let mut s = settings;
    s.max_bounces = clamp_u32(s.max_bounces, 1, 16);
    s.dda_max_steps = clamp_u32(s.dda_max_steps, 32, 2048);
    s.rr_start_bounce = clamp_u32(s.rr_start_bounce, 1, 12);
    s.restir_spatial_radius = clamp_u32(s.restir_spatial_radius, 0, 2);
    s.restir_gi_reuse_m_cap = clamp_u32(s.restir_gi_reuse_m_cap, 1, 32);
    s.debug_overlay_mode = clamp_u32(s.debug_overlay_mode, 0, DEBUG_OVERLAY_MODE_MAX);
    s.svgf_passes = clamp_u32(s.svgf_passes, 0, SVGF_MAX_ATROUS_PASSES as u32);
    s.svgf_step_scale = clamp_u32(s.svgf_step_scale, 1, 4);
    s
}

/// Sanitizing is idempotent: sanitized settings are left unchanged.
pub proof fn law_sanitize_idempotent(s: FrameSettings)
    ensures
        sanitized(sanitized(s)) == sanitized(s),
{
}

/// History slot read on a frame: even frames read slot 0, odd frames slot 1.
pub open spec fn read_slot(frame_index: u32) -> u32 {
    frame_index % 2
}

/// History slot written on a frame: the other slot.
pub open spec fn write_slot(frame_index: u32) -> u32 {
    (1 - frame_index % 2) as u32
}

pub fn history_read_slot_from_frame(frame_index: u32) -> (s: u32)
    ensures
        s == read_slot(frame_index),
{
    frame_index % 2
}

pub fn history_write_slot_from_frame(frame_index: u32) -> (s: u32)
    ensures
        s == write_slot(frame_index),
{
    1 - frame_index % 2
}

/// History flags: bit 0 is the read slot, bit 1 the write slot.
pub open spec fn history_flags(read_slot: u32, write_slot: u32) -> u32 {
    (read_slot + 2 * write_slot) as u32
}

pub fn encode_history_flags(read_slot: u32, write_slot: u32) -> (f: u32)
    requires
        read_slot < 2,
        write_slot < 2,
    ensures
        f == history_flags(read_slot, write_slot),
{
    (read_slot + 2 * write_slot) as u32
}

/// Source slot of à-trous pass `pass_index`: passes ping-pong between the
/// two slots starting from the write slot.
pub open spec fn atrous_source_slot(write_slot: u32, pass_index: u32) -> u32 {
    ((write_slot + pass_index) % 2) as u32
}

pub fn svgf_atrous_source_slot(write_slot: u32, pass_index: u32) -> (s: u32)
    ensures
        s == atrous_source_slot(write_slot, pass_index),
{
    ((write_slot as u64 + pass_index as u64) % 2) as u32
}

/// The SVGF resolve reads the slot after the last à-trous pass.
pub fn svgf_resolve_source_slot(write_slot: u32, svgf_passes: u32) -> (s: u32)
    ensures
        s == atrous_source_slot(write_slot, svgf_passes),
{
    svgf_atrous_source_slot(write_slot, svgf_passes)
}

#[derive(Clone, Copy, Debug, PartialEq, Eq)]
pub struct PassMetadata {
    pub run_trace: bool,
    pub run_reistir: bool,
    pub run_svgf: bool,
}

#[derive(Clone, Copy, Debug, PartialEq, Eq)]
pub struct FramePlan {
    pub frame_index: u32,
    pub resolution: [u32; 2],
    pub history_read_slot: u32,
    pub history_write_slot: u32,
    pub history_flags: u32,
    pub svgf_passes: usize,
    pub svgf_resolve_source_slot: u32,
    pub passes: PassMetadata,
}

impl FramePlan {
    pub fn svgf_atrous_source_slot(self, pass_index: u32) -> (s: u32)
        ensures
            s == atrous_source_slot(self.history_write_slot, pass_index),
    {
        svgf_atrous_source_slot(self.history_write_slot, pass_index)
    }
}

pub open spec fn max1(v: u32) -> u32 {
    if v == 0 {
        1
    } else {
        v
    }
}

/// Number of SVGF passes planned: the requested count capped at the maximum
/// when SVGF is enabled, none otherwise.
pub open spec fn planned_svgf_passes(settings: FrameSettings, max_svgf_passes: usize) -> usize {
    if settings.svgf_enabled {
        if settings.svgf_passes <= (max_svgf_passes as u32) {
            settings.svgf_passes as usize
        } else {
            (max_svgf_passes as u32) as usize
        }
    } else {
        0
    }
}

/// The plan of a frame.
pub open spec fn frame_plan(frame_index: u32, width: u32, height: u32, settings: FrameSettings, max_svgf_passes: usize) -> FramePlan {
    let svgf = planned_svgf_passes(settings, max_svgf_passes);
    FramePlan {
        frame_index,
        resolution: [max1(width), max1(height)],
        history_read_slot: read_slot(frame_index),
        history_write_slot: write_slot(frame_index),
        history_flags: history_flags(read_slot(frame_index), write_slot(frame_index)),
        svgf_passes: svgf,
        svgf_resolve_source_slot: atrous_source_slot(write_slot(frame_index), svgf as u32),
        passes: PassMetadata { run_trace: true, run_reistir: true, run_svgf: settings.svgf_enabled },
    }
}

pub fn build_frame_plan(frame_index: u32, width: u32, height: u32, settings: &FrameSettings, max_svgf_passes: usize) -> (plan: FramePlan)
    ensures
        plan == frame_plan(frame_index, width, height, *settings, max_svgf_passes),
{
    let resolution = [if width == 0 { 1 } else { width }, if height == 0 { 1 } else { height }];
    let history_read_slot = history_read_slot_from_frame(frame_index);
    let history_write_slot = history_write_slot_from_frame(frame_index);
    let history_flags = encode_history_flags(history_read_slot, history_write_slot);
    let svgf_passes: usize = if settings.svgf_enabled {
        let cap = max_svgf_passes as u32;
        if settings.svgf_passes <= cap {
            settings.svgf_passes as usize
        } else {
            cap as usize
        }
    } else {
        0
    };
    let svgf_resolve_source_slot = svgf_resolve_source_slot(history_write_slot, svgf_passes as u32);
    let passes = PassMetadata { run_trace: true, run_reistir: true, run_svgf: settings.svgf_enabled };
    FramePlan {
        frame_index,
        resolution,
        history_read_slot,
        history_write_slot,
        history_flags,
        svgf_passes,
        svgf_resolve_source_slot,
        passes,
    }
}

/// Per-frame values handed to the passes.
#[derive(Clone, Copy, Debug, PartialEq, Eq)]
pub struct FrameContext {
    pub frame_index: u32,
    pub resolution: [u32; 2],
    pub history_read_slot: u32,
    pub history_write_slot: u32,
}

impl FrameContext {
    pub fn from_plan(plan: &FramePlan) -> (c: FrameContext)
        ensures
            c.frame_index == plan.frame_index,
            c.resolution == plan.resolution,
            c.history_read_slot == plan.history_read_slot,
            c.history_write_slot == plan.history_write_slot,
    {
        FrameContext {
            frame_index: plan.frame_index,
            resolution: plan.resolution,
            history_read_slot: plan.history_read_slot,
            history_write_slot: plan.history_write_slot,
        }
    }
}

/// What a frame runs.
#[derive(Clone, Copy, Debug, PartialEq, Eq)]
pub struct RenderDiagnosticsSummary {
    pub run_trace: bool,
    pub run_reistir: bool,
    pub run_svgf: bool,
    pub svgf_passes: usize,
}

impl Default for RenderDiagnosticsSummary {
    fn default() -> (s: RenderDiagnosticsSummary)
        ensures
            s == (RenderDiagnosticsSummary { run_trace: false, run_reistir: false, run_svgf: false, svgf_passes: 0 }),
    {
        RenderDiagnosticsSummary { run_trace: false, run_reistir: false, run_svgf: false, svgf_passes: 0 }
    }
}

/// Frames the camera keeps counting as moving after it last moved.
pub const MOTION_HOLD_FRAMES: u32 = 3;

/// Advances the camera-motion countdown: motion restarts it at
/// `MOTION_HOLD_FRAMES`, a still frame counts it down to zero. Returns
/// whether the camera still counts as moving.
pub fn advance_motion_frames(remaining: &mut u32, moving: bool) -> (in_motion: bool)
    ensures
        *final(remaining) == (if moving {
            MOTION_HOLD_FRAMES
        } else if *old(remaining) > 0 {
            (*old(remaining) - 1) as u32
        } else {
            0
        }),
        in_motion == (*final(remaining) > 0),
{
    if moving {
        *remaining = MOTION_HOLD_FRAMES;
    } else if *remaining > 0 {
        *remaining = *remaining - 1;
    }
    *remaining > 0
}

/// The summary of what a frame's passes execute.
pub type RenderExecutionSummary = RenderDiagnosticsSummary;

#[derive(Clone, Copy, Debug, PartialEq, Eq)]
pub enum RenderExecutionAction {
    Trace,
    ReSTIR,
    SvgfInit,
    SvgfAtrous,
    SvgfResolve,
}

pub open spec fn summary_of_plan(plan: FramePlan) -> RenderDiagnosticsSummary {
    RenderDiagnosticsSummary {
        run_trace: plan.passes.run_trace,
        run_reistir: plan.passes.run_reistir,
        run_svgf: plan.passes.run_svgf,
        svgf_passes: if plan.passes.run_svgf {
            if plan.svgf_passes <= SVGF_MAX_ATROUS_PASSES { plan.svgf_passes } else { SVGF_MAX_ATROUS_PASSES }
        } else {
            0
        },
    }
}

pub fn summarize_render_execution(frame_plan: &FramePlan) -> (s: RenderDiagnosticsSummary)
    ensures
        s == summary_of_plan(*frame_plan),
{
    let run_svgf = frame_plan.passes.run_svgf;
    let svgf_passes = if run_svgf {
        if frame_plan.svgf_passes <= SVGF_MAX_ATROUS_PASSES { frame_plan.svgf_passes } else { SVGF_MAX_ATROUS_PASSES }
    } else {
        0
    };
    RenderDiagnosticsSummary {
        run_trace: frame_plan.passes.run_trace,
        run_reistir: frame_plan.passes.run_reistir,
        run_svgf,
        svgf_passes,
    }
}

/// Passes of a frame in order: trace, ReSTIR, then SVGF init, its à-trous
/// passes and resolve.
pub open spec fn render_trace(s: RenderDiagnosticsSummary) -> Seq<RenderExecutionAction> {
    (if s.run_trace { seq![RenderExecutionAction::Trace] } else { seq![] }) + (if s.run_reistir {
        seq![RenderExecutionAction::ReSTIR]
    } else {
        seq![]
    }) + (if s.run_svgf {
        seq![RenderExecutionAction::SvgfInit] + Seq::new(s.svgf_passes as nat, |i: int| RenderExecutionAction::SvgfAtrous)
            + seq![RenderExecutionAction::SvgfResolve]
    } else {
        seq![]
    })
}

pub fn render_execution_trace(summary: RenderDiagnosticsSummary) -> (actions: Vec<RenderExecutionAction>)
    ensures
        actions@ == render_trace(summary),
{
    let mut actions: Vec<RenderExecutionAction> = Vec::new();
    if summary.run_trace {
        actions.push(RenderExecutionAction::Trace);
    }
    if summary.run_reistir {
        actions.push(RenderExecutionAction::ReSTIR);
    }
    let ghost head = actions@;
    if summary.run_svgf {
        actions.push(RenderExecutionAction::SvgfInit);
        let mut i: usize = 0;
        while i < summary.svgf_passes
            invariant
                i <= summary.svgf_passes,
                actions@ == head + seq![RenderExecutionAction::SvgfInit] + Seq::new(i as nat, |k: int| RenderExecutionAction::SvgfAtrous),
            decreases summary.svgf_passes - i,
        {
            actions.push(RenderExecutionAction::SvgfAtrous);
            i += 1;
            assert(actions@ =~= head + seq![RenderExecutionAction::SvgfInit] + Seq::new(i as nat, |k: int| RenderExecutionAction::SvgfAtrous));
        }
        actions.push(RenderExecutionAction::SvgfResolve);
    }
    assert(actions@ =~= render_trace(summary));
    actions
}

/// Summary and trace length of a frame.
#[derive(Clone, Copy, Debug, PartialEq, Eq)]
pub struct RenderDiagnosticsSnapshot {
    pub summary: RenderDiagnosticsSummary,
    pub trace_len: usize,
}

pub fn build_render_diagnostics(frame_plan: &FramePlan) -> (d: RenderDiagnosticsSnapshot)
    ensures
        d.summary == summary_of_plan(*frame_plan),
        d.trace_len == render_trace(summary_of_plan(*frame_plan)).len(),
{
    let summary = summarize_render_execution(frame_plan);
    let trace_len = render_execution_trace(summary).len();
    RenderDiagnosticsSnapshot { summary, trace_len }
}

/// The overlay mode sent to shaders: the chosen mode when the overlay is on, 0 otherwise.
pub fn debug_overlay_flag(settings: &FrameSettings) -> (f: u32)
    ensures
        f == if settings.debug_overlay { settings.debug_overlay_mode } else { 0 },
{
    if settings.debug_overlay {
        settings.debug_overlay_mode
    } else {
        0
    }
}

/// The trace of a frame has two fixed passes plus, with SVGF, the capped
/// number of à-trous passes and their init and resolve.
pub proof fn law_trace_length(frame_index: u32, width: u32, height: u32, settings: FrameSettings)
    ensures
        ({
            let plan = frame_plan(frame_index, width, height, settings, SVGF_MAX_ATROUS_PASSES);
            let s = summary_of_plan(plan);
            &&& s.svgf_passes <= SVGF_MAX_ATROUS_PASSES
            &&& render_trace(s).len() == 2 + (if settings.svgf_enabled { s.svgf_passes + 2 } else { 0 })
            &&& plan.history_read_slot != plan.history_write_slot
            &&& plan.history_read_slot < 2 && plan.history_write_slot < 2
        }),
{
}

/// Consecutive frames swap the history slots: what one frame writes, the
/// next frame reads.
pub proof fn law_history_ping_pong(frame_index: u32)
    requires
        frame_index < u32::MAX,
    ensures
        read_slot((frame_index + 1) as u32) == write_slot(frame_index),
        write_slot((frame_index + 1) as u32) == read_slot(frame_index),
{
}

} // verus!
