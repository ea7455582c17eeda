//! Render graph resource declarations: the resources passes read and
//! write, and how each pass declares them.

use vstd::prelude::*;

verus! {

/// Identifier of a resource tracked by the render graph.
#[derive(Debug, Clone, Copy, PartialEq, Eq, Hash)]
pub struct ResourceId(pub u32);

/// How a pass accesses a resource.
#[derive(Debug, Clone, Copy, PartialEq, Eq)]
pub enum AccessType {
    ComputeRead,
    ComputeWrite,
    IndirectRead,
    VertexInput,
    ColorWrite,
    DepthWrite,
    FragmentRead,
    TransferRead,
    TransferWrite,
}

/// One declared dependency of a pass.
#[derive(Debug, Clone, Copy, PartialEq, Eq)]
pub struct ResourceAccess {
    pub resource: ResourceId,
    pub access: AccessType,
}

/// Resource numbers, as wrapped by `ResourceId`.
///
/// Scene buffer: chunk instances and indirect regions.
pub const RES_SCENE_BUFFER: u32 = 0;
/// Dense indirect draw buffer.
pub const RES_INDIRECT_BUFFER: u32 = 1;
/// Draw count buffer.
pub const RES_DRAW_COUNT: u32 = 2;
/// Visible meshlet buffer.
pub const RES_VISIBLE_MESHLETS: u32 = 3;
/// Meshlet indirect buffer.
pub const RES_MESHLET_INDIRECT: u32 = 4;
/// Meshlet count buffer.
pub const RES_MESHLET_COUNT: u32 = 5;
/// Hi-Z pyramid image.
pub const RES_HIZ_PYRAMID: u32 = 6;
/// Resolved depth image.
pub const RES_DEPTH_IMAGE: u32 = 7;
/// SSAO output texture.
pub const RES_SSAO_TEXTURE: u32 = 8;
/// Cascaded shadow map array.
pub const RES_SHADOW_MAPS: u32 = 9;
/// Swapchain color image.
pub const RES_SWAPCHAIN_COLOR: u32 = 10;
/// Staging ring.
pub const RES_STAGING: u32 = 11;

/// The dependencies a pass declares during setup, in declaration order.
pub struct PassSetupContext {
    pub reads: Vec<ResourceAccess>,
    pub writes: Vec<ResourceAccess>,
}

/// An access as a pair.
pub open spec fn acc(resource: ResourceId, access: AccessType) -> ResourceAccess {
    ResourceAccess { resource, access }
}

impl PassSetupContext {
    /// No declared dependencies.
    pub fn new() -> (c: PassSetupContext)
        ensures
            c.reads@ == Seq::<ResourceAccess>::empty(),
            c.writes@ == Seq::<ResourceAccess>::empty(),
    {
        PassSetupContext { reads: Vec::new(), writes: Vec::new() }
    }

    /// Declares a read.
    pub fn read(&mut self, resource: ResourceId, access: AccessType)
        ensures
            final(self).reads@ == old(self).reads@.push(acc(resource, access)),
            final(self).writes@ == old(self).writes@,
    {
        self.reads.push(ResourceAccess { resource, access });
    }

    /// Declares a write.
    pub fn write(&mut self, resource: ResourceId, access: AccessType)
        ensures
            final(self).writes@ == old(self).writes@.push(acc(resource, access)),
            final(self).reads@ == old(self).reads@,
    {
        self.writes.push(ResourceAccess { resource, access });
    }
}

/// A render pass as the graph sees it: a name, and the resources it
/// declares when asked to set up. Declaring leaves the pass's name and
/// declarations as they were.
pub trait PassNode {
    /// The name `name` returns.
    spec fn pass_name(&self) -> Seq<char>;

    /// The reads `setup` declares, in order.
    spec fn declared_reads(&self) -> Seq<ResourceAccess>;

    /// The writes `setup` declares, in order.
    spec fn declared_writes(&self) -> Seq<ResourceAccess>;

    /// Name for debug labels and profiling.
    fn name(&self) -> (s: &'static str)
        ensures
            s@ == self.pass_name(),
    ;

    /// Appends the pass's resource declarations to `ctx`.
    fn setup(&mut self, ctx: &mut PassSetupContext)
        ensures
            final(ctx).reads@ == old(ctx).reads@ + old(self).declared_reads(),
            final(ctx).writes@ == old(ctx).writes@ + old(self).declared_writes(),
            final(self).pass_name() == old(self).pass_name(),
            final(self).declared_reads() == old(self).declared_reads(),
            final(self).declared_writes() == old(self).declared_writes(),
    ;
}

/// Chunk- and meshlet-level culling.
pub struct CullPass;

/// Cascaded shadow depth rendering.
pub struct ShadowPass;

/// Overlay UI drawn on top of the frame.
pub struct EguiPass;

/// Sky and meshlet geometry.
pub struct GeometryPass;

/// Hi-Z pyramid generation.
pub struct HiZPass;

/// Screen-space ambient occlusion.
pub struct SsaoComputePass;

/// Chunk uploads and shadow draw setup.
pub struct UploadPass;

/// Reads scene data, the Hi-Z pyramid and the upload pass's meshlet
/// lists; writes the visible lists, indirect commands and counts.
impl PassNode for CullPass {
    open spec fn pass_name(&self) -> Seq<char> {
        "cull"@
    }

    open spec fn declared_reads(&self) -> Seq<ResourceAccess> {
        seq![
            acc(ResourceId(RES_SCENE_BUFFER), AccessType::ComputeRead),
            acc(ResourceId(RES_HIZ_PYRAMID), AccessType::ComputeRead),
            acc(ResourceId(RES_VISIBLE_MESHLETS), AccessType::ComputeRead),
            acc(ResourceId(RES_MESHLET_INDIRECT), AccessType::ComputeRead),
            acc(ResourceId(RES_MESHLET_COUNT), AccessType::ComputeRead),
        ]
    }

    open spec fn declared_writes(&self) -> Seq<ResourceAccess> {
        seq![
            acc(ResourceId(RES_VISIBLE_MESHLETS), AccessType::ComputeWrite),
            acc(ResourceId(RES_MESHLET_INDIRECT), AccessType::ComputeWrite),
            acc(ResourceId(RES_MESHLET_COUNT), AccessType::ComputeWrite),
            acc(ResourceId(RES_INDIRECT_BUFFER), AccessType::ComputeWrite),
            acc(ResourceId(RES_DRAW_COUNT), AccessType::ComputeWrite),
        ]
    }

    fn name(&self) -> (s: &'static str) {
        "cull"
    }

    fn setup(&mut self, ctx: &mut PassSetupContext) {
        ctx.read(ResourceId(RES_SCENE_BUFFER), AccessType::ComputeRead);
        ctx.read(ResourceId(RES_HIZ_PYRAMID), AccessType::ComputeRead);
        ctx.read(ResourceId(RES_VISIBLE_MESHLETS), AccessType::ComputeRead);
        ctx.read(ResourceId(RES_MESHLET_INDIRECT), AccessType::ComputeRead);
        ctx.read(ResourceId(RES_MESHLET_COUNT), AccessType::ComputeRead);
        ctx.write(ResourceId(RES_VISIBLE_MESHLETS), AccessType::ComputeWrite);
        ctx.write(ResourceId(RES_MESHLET_INDIRECT), AccessType::ComputeWrite);
        ctx.write(ResourceId(RES_MESHLET_COUNT), AccessType::ComputeWrite);
        ctx.write(ResourceId(RES_INDIRECT_BUFFER), AccessType::ComputeWrite);
        ctx.write(ResourceId(RES_DRAW_COUNT), AccessType::ComputeWrite);
        assert(ctx.reads@ =~= old(ctx).reads@ + seq![
            acc(ResourceId(RES_SCENE_BUFFER), AccessType::ComputeRead),
            acc(ResourceId(RES_HIZ_PYRAMID), AccessType::ComputeRead),
            acc(ResourceId(RES_VISIBLE_MESHLETS), AccessType::ComputeRead),
            acc(ResourceId(RES_MESHLET_INDIRECT), AccessType::ComputeRead),
            acc(ResourceId(RES_MESHLET_COUNT), AccessType::ComputeRead),
        ]);
        assert(ctx.writes@ =~= old(ctx).writes@ + seq![
            acc(ResourceId(RES_VISIBLE_MESHLETS), AccessType::ComputeWrite),
            acc(ResourceId(RES_MESHLET_INDIRECT), AccessType::ComputeWrite),
            acc(ResourceId(RES_MESHLET_COUNT), AccessType::ComputeWrite),
            acc(ResourceId(RES_INDIRECT_BUFFER), AccessType::ComputeWrite),
            acc(ResourceId(RES_DRAW_COUNT), AccessType::ComputeWrite),
        ]);
    }
}

/// Reads chunk instances and the meshlet draw lists; writes the shadow maps.
impl PassNode for ShadowPass {
    open spec fn pass_name(&self) -> Seq<char> {
        "shadow"@
    }

    open spec fn declared_reads(&self) -> Seq<ResourceAccess> {
        seq![
            acc(ResourceId(RES_SCENE_BUFFER), AccessType::VertexInput),
            acc(ResourceId(RES_VISIBLE_MESHLETS), AccessType::VertexInput),
            acc(ResourceId(RES_MESHLET_INDIRECT), AccessType::IndirectRead),
            acc(ResourceId(RES_MESHLET_COUNT), AccessType::IndirectRead),
        ]
    }

    open spec fn declared_writes(&self) -> Seq<ResourceAccess> {
        seq![acc(ResourceId(RES_SHADOW_MAPS), AccessType::DepthWrite)]
    }

    fn name(&self) -> (s: &'static str) {
        "shadow"
    }

    fn setup(&mut self, ctx: &mut PassSetupContext) {
        ctx.read(ResourceId(RES_SCENE_BUFFER), AccessType::VertexInput);
        ctx.read(ResourceId(RES_VISIBLE_MESHLETS), AccessType::VertexInput);
        ctx.read(ResourceId(RES_MESHLET_INDIRECT), AccessType::IndirectRead);
        ctx.read(ResourceId(RES_MESHLET_COUNT), AccessType::IndirectRead);
        ctx.write(ResourceId(RES_SHADOW_MAPS), AccessType::DepthWrite);
        assert(ctx.reads@ =~= old(ctx).reads@ + seq![
            acc(ResourceId(RES_SCENE_BUFFER), AccessType::VertexInput),
            acc(ResourceId(RES_VISIBLE_MESHLETS), AccessType::VertexInput),
            acc(ResourceId(RES_MESHLET_INDIRECT), AccessType::IndirectRead),
            acc(ResourceId(RES_MESHLET_COUNT), AccessType::IndirectRead),
        ]);
        assert(ctx.writes@ =~= old(ctx).writes@ + seq![acc(ResourceId(RES_SHADOW_MAPS), AccessType::DepthWrite)]);
    }
}

/// Blends into the swapchain color attachment.
impl PassNode for EguiPass {
    open spec fn pass_name(&self) -> Seq<char> {
        "egui"@
    }

    open spec fn declared_reads(&self) -> Seq<ResourceAccess> {
        seq![]
    }

    open spec fn declared_writes(&self) -> Seq<ResourceAccess> {
        seq![acc(ResourceId(RES_SWAPCHAIN_COLOR), AccessType::ColorWrite)]
    }

    fn name(&self) -> (s: &'static str) {
        "egui"
    }

    fn setup(&mut self, ctx: &mut PassSetupContext) {
        ctx.write(ResourceId(RES_SWAPCHAIN_COLOR), AccessType::ColorWrite);
        assert(ctx.reads@ =~= old(ctx).reads@ + Seq::<ResourceAccess>::empty());
        assert(ctx.writes@ =~= old(ctx).writes@ + seq![acc(ResourceId(RES_SWAPCHAIN_COLOR), AccessType::ColorWrite)]);
    }
}

impl GeometryPass {
    pub fn name(&self) -> (s: &'static str)
        ensures
            s@ == "geometry"@,
    {
        "geometry"
    }
}

impl HiZPass {
    pub fn name(&self) -> (s: &'static str)
        ensures
            s@ == "hiz"@,
    {
        "hiz"
    }
}

impl SsaoComputePass {
    pub fn name(&self) -> (s: &'static str)
        ensures
            s@ == "ssao"@,
    {
        "ssao"
    }
}

impl UploadPass {
    pub fn name(&self) -> (s: &'static str)
        ensures
            s@ == "upload"@,
    {
        "upload"
    }
}

/// The passes of this crate that declare resources, as one type, so that a
/// graph can hold a mix of them.
pub enum FramePass {
    Cull(CullPass),
    Shadow(ShadowPass),
    Egui(EguiPass),
}

impl PassNode for FramePass {
    open spec fn pass_name(&self) -> Seq<char> {
        match self {
            FramePass::Cull(p) => p.pass_name(),
            FramePass::Shadow(p) => p.pass_name(),
            FramePass::Egui(p) => p.pass_name(),
        }
    }

    open spec fn declared_reads(&self) -> Seq<ResourceAccess> {
        match self {
            FramePass::Cull(p) => p.declared_reads(),
            FramePass::Shadow(p) => p.declared_reads(),
            FramePass::Egui(p) => p.declared_reads(),
        }
    }

    open spec fn declared_writes(&self) -> Seq<ResourceAccess> {
        match self {
            FramePass::Cull(p) => p.declared_writes(),
            FramePass::Shadow(p) => p.declared_writes(),
            FramePass::Egui(p) => p.declared_writes(),
        }
    }

    fn name(&self) -> (s: &'static str) {
        match self {
            FramePass::Cull(p) => p.name(),
            FramePass::Shadow(p) => p.name(),
            FramePass::Egui(p) => p.name(),
        }
    }

    fn setup(&mut self, ctx: &mut PassSetupContext) {
        match self {
            FramePass::Cull(p) => p.setup(ctx),
            FramePass::Shadow(p) => p.setup(ctx),
            FramePass::Egui(p) => p.setup(ctx),
        }
    }
}

/// A pass with the declarations collected from it at the last compile.
struct CompiledPass<P> {
    pass: P,
    reads: Vec<ResourceAccess>,
    writes: Vec<ResourceAccess>,
}

/// The passes of a frame in the order they were added, with the resource
/// declarations collected when the graph was compiled.
pub struct RenderGraph<P> {
    passes: Vec<CompiledPass<P>>,
    compiled: bool,
}

impl<P: PassNode> RenderGraph<P> {
    /// Names of the passes, in order.
    pub closed spec fn names(self) -> Seq<Seq<char>> {
        Seq::new(self.passes@.len(), |i: int| self.passes@[i].pass.pass_name())
    }

    /// What each pass would declare if set up now.
    pub closed spec fn pending_reads(self) -> Seq<Seq<ResourceAccess>> {
        Seq::new(self.passes@.len(), |i: int| self.passes@[i].pass.declared_reads())
    }

    pub closed spec fn pending_writes(self) -> Seq<Seq<ResourceAccess>> {
        Seq::new(self.passes@.len(), |i: int| self.passes@[i].pass.declared_writes())
    }

    /// The reads collected for each pass (empty until compiled).
    pub closed spec fn reads(self) -> Seq<Seq<ResourceAccess>> {
        Seq::new(self.passes@.len(), |i: int| self.passes@[i].reads@)
    }

    /// The writes collected for each pass (empty until compiled).
    pub closed spec fn writes(self) -> Seq<Seq<ResourceAccess>> {
        Seq::new(self.passes@.len(), |i: int| self.passes@[i].writes@)
    }

    /// Whether the declarations are current: no pass was added since the
    /// last compile.
    pub closed spec fn is_compiled(self) -> bool {
        self.compiled
    }

    /// An empty graph.
    pub fn new() -> (g: Self)
        ensures
            g.names() == Seq::<Seq<char>>::empty(),
            g.pending_reads() == Seq::<Seq<ResourceAccess>>::empty(),
            g.pending_writes() == Seq::<Seq<ResourceAccess>>::empty(),
            g.reads() == Seq::<Seq<ResourceAccess>>::empty(),
            g.writes() == Seq::<Seq<ResourceAccess>>::empty(),
            !g.is_compiled(),
    {
        let g = RenderGraph { passes: Vec::new(), compiled: false };
        assert(g.names() =~= Seq::<Seq<char>>::empty());
        assert(g.pending_reads() =~= Seq::<Seq<ResourceAccess>>::empty());
        assert(g.pending_writes() =~= Seq::<Seq<ResourceAccess>>::empty());
        assert(g.reads() =~= Seq::<Seq<ResourceAccess>>::empty());
        assert(g.writes() =~= Seq::<Seq<ResourceAccess>>::empty());
        g
    }

    /// Appends a pass with no collected declarations; the graph must be
    /// compiled again.
    pub fn add_pass(&mut self, pass: P)
        ensures
            final(self).names() == old(self).names().push(pass.pass_name()),
            final(self).pending_reads() == old(self).pending_reads().push(pass.declared_reads()),
            final(self).pending_writes() == old(self).pending_writes().push(pass.declared_writes()),
            final(self).reads() == old(self).reads().push(Seq::empty()),
            final(self).writes() == old(self).writes().push(Seq::empty()),
            !final(self).is_compiled(),
    {
        let ghost p = pass;
        self.passes.push(CompiledPass { pass, reads: Vec::new(), writes: Vec::new() });
        self.compiled = false;
        proof {
            assert(self.names() =~= old(self).names().push(p.pass_name()));
            assert(self.pending_reads() =~= old(self).pending_reads().push(p.declared_reads()));
            assert(self.pending_writes() =~= old(self).pending_writes().push(p.declared_writes()));
            assert(self.reads() =~= old(self).reads().push(Seq::empty()));
            assert(self.writes() =~= old(self).writes().push(Seq::empty()));
        }
    }

    /// Sets up every pass on a fresh context, in insertion order, and
    /// keeps what each declared.
    pub fn compile(&mut self)
        ensures
            final(self).is_compiled(),
            final(self).names() == old(self).names(),
            final(self).pending_reads() == old(self).pending_reads(),
            final(self).pending_writes() == old(self).pending_writes(),
            final(self).reads() == old(self).pending_reads(),
            final(self).writes() == old(self).pending_writes(),
    {
        let mut remaining: Vec<CompiledPass<P>> = Vec::new();
        std::mem::swap(&mut remaining, &mut self.passes);
        let ghost orig = remaining@;
        let mut done: Vec<CompiledPass<P>> = Vec::new();
        while remaining.len() > 0
            invariant
                done@.len() + remaining@.len() == orig.len(),
                remaining@ == orig.subrange(done@.len() as int, orig.len() as int),
                forall|j: int|
                    0 <= j < done@.len() ==> {
                        &&& (#[trigger] done@[j]).pass.pass_name() == orig[j].pass.pass_name()
                        &&& done@[j].pass.declared_reads() == orig[j].pass.declared_reads()
                        &&& done@[j].pass.declared_writes() == orig[j].pass.declared_writes()
                        &&& done@[j].reads@ == orig[j].pass.declared_reads()
                        &&& done@[j].writes@ == orig[j].pass.declared_writes()
                    },
            decreases remaining@.len(),
        {
            let entry = remaining.remove(0);
            let CompiledPass { mut pass, reads: _, writes: _ } = entry;
            let mut ctx = PassSetupContext::new();
            pass.setup(&mut ctx);
            done.push(CompiledPass { pass, reads: ctx.reads, writes: ctx.writes });
            proof {
                assert(remaining@ =~= orig.subrange(done@.len() as int, orig.len() as int));
            }
        }
        self.passes = done;
        self.compiled = true;
        proof {
            assert(self.names() =~= old(self).names());
            assert(self.pending_reads() =~= old(self).pending_reads());
            assert(self.pending_writes() =~= old(self).pending_writes());
            assert(self.reads() =~= old(self).pending_reads());
            assert(self.writes() =~= old(self).pending_writes());
        }
    }

    /// Number of passes.
    pub fn pass_count(&self) -> (n: usize)
        ensures
            n == self.names().len(),
    {
        self.passes.len()
    }

    /// Pass names, in order.
    pub fn pass_names(&self) -> (v: Vec<&'static str>)
        ensures
            v@.len() == self.names().len(),
            forall|i: int| 0 <= i < v@.len() ==> (#[trigger] v@[i])@ == self.names()[i],
    {
        let mut v: Vec<&'static str> = Vec::new();
        let mut i: usize = 0;
        while i < self.passes.len()
            invariant
                i <= self.passes@.len(),
                v@.len() == i,
                forall|j: int| 0 <= j < i ==> (#[trigger] v@[j])@ == self.passes@[j].pass.pass_name(),
            decreases self.passes@.len() - i,
        {
            let n = self.passes[i].pass.name();
            v.push(n);
            i += 1;
        }
        v
    }
}

} // verus!
