//! Compute dispatch sizing, the SSAO target extent, and the readiness
//! checks of the path-tracing passes.

use vstd::prelude::*;
use vstd::arithmetic::div_mod::{lemma_fundamental_div_mod, lemma_fundamental_div_mod_converse};

verus! {

/// Workgroup size of the full-screen compute passes.
pub const DEFAULT_WORKGROUP_SIZE: [u32; 3] = [8, 8, 1];

/// A 2D dispatch: the covered extent and the workgroup size.
#[derive(Debug, Clone, Copy, PartialEq, Eq)]
pub struct DispatchGrid {
    pub extent: [u32; 2],
    pub workgroup: [u32; 2],
}

/// `a / b` rounded up.
pub open spec fn ceil_div(a: int, b: int) -> int {
    (a + b - 1) / b
}

/// `a / b` rounded up, without overflow.
pub fn div_ceil(a: u32, b: u32) -> (r: u32)
    requires
        b > 0,
    ensures
        r == ceil_div(a as int, b as int),
{
    let q = a / b;
    let r = a % b;
    proof {
        lemma_fundamental_div_mod(a as int, b as int);
        let x = a as int + b as int - 1;
        if r == 0 {
            lemma_fundamental_div_mod_converse(x, b as int, q as int, b - 1);
        } else {
            assert((q + 1) * (b as int) == (b as int) * q + b) by (nonlinear_arith);
            lemma_fundamental_div_mod_converse(x, b as int, q + 1, r - 1);
            assert(q < u32::MAX) by (nonlinear_arith)
                requires
                    a == b * q + r,
                    r > 0,
                    b >= 1,
                    a <= u32::MAX,
            ;
        }
    }
    if r != 0 {
        q + 1
    } else {
        q
    }
}

fn at_least_one(v: u32) -> (r: u32)
    ensures
        r == if v == 0 { 1 } else { v },
{
    if v == 0 {
        1
    } else {
        v
    }
}

/// Extent of the SSAO target for a `width × height` surface: each side at
/// least 1, halved (rounded up) at half resolution.
pub fn ssao_extent(width: u32, height: u32, half_resolution: bool) -> (e: [u32; 2])
    ensures
        ({
            let d: int = if half_resolution { 2 } else { 1 };
            &&& e[0] == ceil_div(if width == 0 { 1 } else { width as int }, d)
            &&& e[1] == ceil_div(if height == 0 { 1 } else { height as int }, d)
        }),
{
    let divisor: u32 = if half_resolution { 2 } else { 1 };
    [div_ceil(at_least_one(width), divisor), div_ceil(at_least_one(height), divisor)]
}

/// Whether the SSAO target must be (re)created: there is none, or its
/// extent differs from the desired one.
pub fn ssao_needs_recreate(current: Option<[u32; 2]>, desired: [u32; 2]) -> (b: bool)
    ensures
        b == match current {
            Some(c) => c[0] != desired[0] || c[1] != desired[1],
            None => true,
        },
{
    match current {
        Some(c) => c[0] != desired[0] || c[1] != desired[1],
        None => true,
    }
}

impl DispatchGrid {
    /// A grid covering `width × height`, each dimension and workgroup size
    /// at least 1.
    pub fn new(width: u32, height: u32, workgroup_x: u32, workgroup_y: u32) -> (g: DispatchGrid)
        ensures
            g.extent[0] == (if width == 0 { 1 } else { width }),
            g.extent[1] == (if height == 0 { 1 } else { height }),
            g.workgroup[0] == (if workgroup_x == 0 { 1 } else { workgroup_x }),
            g.workgroup[1] == (if workgroup_y == 0 { 1 } else { workgroup_y }),
    {
        DispatchGrid {
            extent: [at_least_one(width), at_least_one(height)],
            workgroup: [at_least_one(workgroup_x), at_least_one(workgroup_y)],
        }
    }

    /// Workgroups per dimension: the extent divided by the workgroup size,
    /// rounded up.
    pub fn groups(self) -> (g: [u32; 2])
        requires
            self.workgroup[0] > 0,
            self.workgroup[1] > 0,
        ensures
            g[0] == ceil_div(self.extent[0] as int, self.workgroup[0] as int),
            g[1] == ceil_div(self.extent[1] as int, self.workgroup[1] as int),
    {
        [div_ceil(self.extent[0], self.workgroup[0]), div_ceil(self.extent[1], self.workgroup[1])]
    }
}

/// What the passes check before recording: which bind groups exist, the
/// dispatch, and the number of atrous passes planned.
#[derive(Debug, Clone, Copy)]
pub struct PrepareContext {
    pub dispatch: DispatchGrid,
    pub trace_bind_group_ready: bool,
    pub reistir_bind_group_ready: bool,
    pub svgf_init_bind_group_ready: bool,
    pub svgf_resolve_bind_group_ready: bool,
    pub svgf_atrous_bind_group_count: usize,
    pub svgf_passes: usize,
}

impl PrepareContext {
    pub open spec fn svgf_ready_spec(self) -> bool {
        self.svgf_init_bind_group_ready && self.svgf_resolve_bind_group_ready && self.svgf_atrous_bind_group_count
            >= self.svgf_passes
    }

    pub fn trace_ready(&self) -> (b: bool)
        ensures
            b == self.trace_bind_group_ready,
    {
        self.trace_bind_group_ready
    }

    pub fn reistir_ready(&self) -> (b: bool)
        ensures
            b == self.reistir_bind_group_ready,
    {
        self.reistir_bind_group_ready
    }

    /// Init and resolve bind groups exist and there is an atrous bind group
    /// for every planned pass.
    pub fn svgf_ready(&self) -> (b: bool)
        ensures
            b == self.svgf_ready_spec(),
    {
        self.svgf_init_bind_group_ready && self.svgf_resolve_bind_group_ready && self.svgf_atrous_bind_group_count
            >= self.svgf_passes
    }
}

/// Primary path-tracing pass.
#[derive(Debug, Default)]
pub struct TracePass;

/// ReSTIR spatial reuse pass.
#[derive(Debug, Default)]
pub struct ReSTIRPass;

/// SVGF denoising passes (init, atrous, resolve).
#[derive(Debug, Default)]
pub struct SvgfPass;

impl TracePass {
    pub fn label(&self) -> (s: &'static str)
        ensures
            s@ == "trace"@,
    {
        "trace"
    }

    /// Records nothing; recording needs the trace bind group.
    pub fn prepare(&mut self, context: &PrepareContext)
        requires
            context.trace_bind_group_ready,
    {
    }
}

impl ReSTIRPass {
    pub fn label(&self) -> (s: &'static str)
        ensures
            s@ == "reistir"@,
    {
        "reistir"
    }

    /// Records nothing; recording needs the ReSTIR bind group.
    pub fn prepare(&mut self, context: &PrepareContext)
        requires
            context.reistir_bind_group_ready,
    {
    }
}

impl SvgfPass {
    pub fn label(&self) -> (s: &'static str)
        ensures
            s@ == "svgf"@,
    {
        "svgf"
    }

    /// Records nothing; recording needs init/resolve bind groups and an
    /// atrous bind group per pass.
    pub fn prepare(&mut self, context: &PrepareContext)
        requires
            context.svgf_ready_spec(),
    {
    }

    /// Atrous dispatches recorded: one per planned pass, as far as there are
    /// atrous bind groups.
    pub fn atrous_dispatch_count(&self, context: &PrepareContext) -> (n: usize)
        ensures
            n == if context.svgf_passes <= context.svgf_atrous_bind_group_count {
                context.svgf_passes
            } else {
                context.svgf_atrous_bind_group_count
            },
    {
        if context.svgf_passes <= context.svgf_atrous_bind_group_count {
            context.svgf_passes
        } else {
            context.svgf_atrous_bind_group_count
        }
    }
}

} // verus!
