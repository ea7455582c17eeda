//! The trace and SVGF bind group layouts: what each binding exposes to the
//! compute shaders, and the binding order of the layouts and of the bind
//! groups built against them.

use vstd::prelude::*;

use super::protocol::bindings::{svgf, trace};

verus! {

/// Bindings of the trace layout, in entry order.
pub fn trace_layout_binding_order() -> (o: [u32; 17])
    ensures
        o == trace::ORDER,
{
    trace::ORDER
}

/// Bindings of the SVGF layout, in entry order.
pub fn svgf_layout_binding_order() -> (o: [u32; 10])
    ensures
        o == svgf::ORDER,
{
    svgf::ORDER
}

/// Bindings of the trace bind group, in entry order.
pub fn trace_bind_group_binding_order() -> (o: [u32; 17])
    ensures
        o == trace::ORDER,
{
    trace::ORDER
}

/// Bindings of the SVGF bind groups, in entry order.
pub fn svgf_bind_group_binding_order() -> (o: [u32; 10])
    ensures
        o == svgf::ORDER,
{
    svgf::ORDER
}

/// What a binding exposes to the compute shaders (every binding is visible
/// to the compute stage only, is not an array, and has no dynamic offset).
#[derive(Clone, Copy, Debug, PartialEq, Eq)]
pub enum BindingKind<F> {
    /// A write-only 2D storage texture in the output format.
    OutputTexture { format: F },
    /// A storage buffer, read-only or read-write.
    StorageBuffer { read_only: bool },
    /// A uniform buffer.
    UniformBuffer,
    /// A sampled, non-filterable float 3D texture.
    VolumeTexture,
}

/// One entry of a bind group layout.
#[derive(Clone, Copy, Debug, PartialEq, Eq)]
pub struct LayoutEntry<F> {
    pub binding: u32,
    pub kind: BindingKind<F>,
}

pub open spec fn entry<F>(binding: u32, kind: BindingKind<F>) -> LayoutEntry<F> {
    LayoutEntry { binding, kind }
}

pub open spec fn read_only<F>() -> BindingKind<F> {
    BindingKind::StorageBuffer { read_only: true }
}

pub open spec fn read_write<F>() -> BindingKind<F> {
    BindingKind::StorageBuffer { read_only: false }
}

/// The trace layout: the output texture; accumulation, reservoirs and
/// surface history read-write; camera, tracer and previous camera as
/// uniforms; scene, emitter and sampling tables read-only; the importance
/// map as a volume texture.
pub open spec fn trace_layout<F>(format: F) -> Seq<LayoutEntry<F>> {
    seq![
        entry(trace::OUTPUT_VIEW, BindingKind::OutputTexture { format }),
        entry(trace::ACCUMULATION, read_write()),
        entry(trace::CAMERA, BindingKind::UniformBuffer),
        entry(trace::TRACER_UNIFORM, BindingKind::UniformBuffer),
        entry(trace::VOXELS, read_only()),
        entry(trace::CHUNK_META, read_only()),
        entry(trace::CHUNK_MAP, read_only()),
        entry(trace::EMISSIVE_VOXELS, read_only()),
        entry(trace::DI_RESERVOIR_A, read_write()),
        entry(trace::DI_RESERVOIR_B, read_write()),
        entry(trace::PREVIOUS_CAMERA, BindingKind::UniformBuffer),
        entry(trace::SURFACE_HISTORY, read_write()),
        entry(trace::EMISSIVE_CDF, read_only()),
        entry(trace::EMISSIVE_REMAP, read_only()),
        entry(trace::GI_RESERVOIR_A, read_write()),
        entry(trace::GI_RESERVOIR_B, read_write()),
        entry(trace::IMPORTANCE_MAP, BindingKind::VolumeTexture),
    ]
}

/// The SVGF layout: the output texture; accumulation and surface history
/// read-only; the ping-pong and debug buffers read-write; tracer, SVGF
/// and both cameras as uniforms.
pub open spec fn svgf_layout<F>(format: F) -> Seq<LayoutEntry<F>> {
    seq![
        entry(svgf::OUTPUT_VIEW, BindingKind::OutputTexture { format }),
        entry(svgf::ACCUMULATION, read_only()),
        entry(svgf::TRACER_UNIFORM, BindingKind::UniformBuffer),
        entry(svgf::SURFACE_HISTORY, read_only()),
        entry(svgf::UNIFORM, BindingKind::UniformBuffer),
        entry(svgf::PING, read_write()),
        entry(svgf::PONG, read_write()),
        entry(svgf::CAMERA, BindingKind::UniformBuffer),
        entry(svgf::PREVIOUS_CAMERA, BindingKind::UniformBuffer),
        entry(svgf::DEBUG_DATA, read_write()),
    ]
}

/// Entries of the trace layout, whose storage texture uses `output_format`.
/// Their bindings follow the protocol's layout order.
pub fn trace_bind_group_layout_entries<F: Copy>(output_format: F) -> (entries: [LayoutEntry<F>; 17])
    ensures
        entries@ == trace_layout(output_format),
        forall|i: int| 0 <= i < 17 ==> (#[trigger] entries@[i]).binding == trace::ORDER@[i],
{
    let rw = BindingKind::StorageBuffer { read_only: false };
    let ro = BindingKind::StorageBuffer { read_only: true };
    let uniform = BindingKind::UniformBuffer;
    let entries = [
        LayoutEntry { binding: trace::OUTPUT_VIEW, kind: BindingKind::OutputTexture { format: output_format } },
        LayoutEntry { binding: trace::ACCUMULATION, kind: rw },
        LayoutEntry { binding: trace::CAMERA, kind: uniform },
        LayoutEntry { binding: trace::TRACER_UNIFORM, kind: uniform },
        LayoutEntry { binding: trace::VOXELS, kind: ro },
        LayoutEntry { binding: trace::CHUNK_META, kind: ro },
        LayoutEntry { binding: trace::CHUNK_MAP, kind: ro },
        LayoutEntry { binding: trace::EMISSIVE_VOXELS, kind: ro },
        LayoutEntry { binding: trace::DI_RESERVOIR_A, kind: rw },
        LayoutEntry { binding: trace::DI_RESERVOIR_B, kind: rw },
        LayoutEntry { binding: trace::PREVIOUS_CAMERA, kind: uniform },
        LayoutEntry { binding: trace::SURFACE_HISTORY, kind: rw },
        LayoutEntry { binding: trace::EMISSIVE_CDF, kind: ro },
        LayoutEntry { binding: trace::EMISSIVE_REMAP, kind: ro },
        LayoutEntry { binding: trace::GI_RESERVOIR_A, kind: rw },
        LayoutEntry { binding: trace::GI_RESERVOIR_B, kind: rw },
        LayoutEntry { binding: trace::IMPORTANCE_MAP, kind: BindingKind::VolumeTexture },
    ];
    assert(entries@ =~= trace_layout(output_format));
    entries
}

/// Entries of the SVGF layout, whose storage texture uses `output_format`.
/// Their bindings follow the protocol's layout order.
pub fn svgf_bind_group_layout_entries<F: Copy>(output_format: F) -> (entries: [LayoutEntry<F>; 10])
    ensures
        entries@ == svgf_layout(output_format),
        forall|i: int| 0 <= i < 10 ==> (#[trigger] entries@[i]).binding == svgf::ORDER@[i],
{
    let rw = BindingKind::StorageBuffer { read_only: false };
    let ro = BindingKind::StorageBuffer { read_only: true };
    let uniform = BindingKind::UniformBuffer;
    let entries = [
        LayoutEntry { binding: svgf::OUTPUT_VIEW, kind: BindingKind::OutputTexture { format: output_format } },
        LayoutEntry { binding: svgf::ACCUMULATION, kind: ro },
        LayoutEntry { binding: svgf::TRACER_UNIFORM, kind: uniform },
        LayoutEntry { binding: svgf::SURFACE_HISTORY, kind: ro },
        LayoutEntry { binding: svgf::UNIFORM, kind: uniform },
        LayoutEntry { binding: svgf::PING, kind: rw },
        LayoutEntry { binding: svgf::PONG, kind: rw },
        LayoutEntry { binding: svgf::CAMERA, kind: uniform },
        LayoutEntry { binding: svgf::PREVIOUS_CAMERA, kind: uniform },
        LayoutEntry { binding: svgf::DEBUG_DATA, kind: rw },
    ];
    assert(entries@ =~= svgf_layout(output_format));
    entries
}

} // verus!
