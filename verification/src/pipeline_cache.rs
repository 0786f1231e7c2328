//! The pipeline cache: deduplicated registration of compute, raster and
//! ray-tracing pipelines, staleness invalidation, and the all-or-nothing
//! installation of pipeline objects after a parallel compile pass.
//!
//! Shader compilation runs outside the library (it is asynchronous and
//! touches the file system); each frame the caller reports, per entry,
//! whether the entry's compilation unit went stale and what evaluating it
//! produced. Every decision taken on those reports is verified here.

use vstd::prelude::*;

use crate::shader::{
    RasterPipelineShadersDesc, RasterPipelineShadersDescView, ShaderGroupDesc, ShaderSource,
    ShaderSourceView, clone_shader_groups, groups_view, shader_groups_eq,
};

verus! {

/// Identifies one compute pipeline entry; assigned at first registration of
/// a source and never reused.
#[derive(Clone, Copy, Debug, Hash, PartialEq, Eq, Structural)]
pub struct ComputePipelineHandle(pub usize);

/// Identifies one raster pipeline entry.
#[derive(Clone, Copy, Debug, Hash, PartialEq, Eq, Structural)]
pub struct RasterPipelineHandle(pub usize);

/// Identifies one ray-tracing pipeline entry.
#[derive(Clone, Copy, Debug, Hash, PartialEq, Eq, Structural)]
pub struct RtPipelineHandle(pub usize);

/// What a compute pipeline is built from.
#[derive(Debug)]
pub struct ComputePipelineDesc {
    pub source: ShaderSource,
    pub push_constants_bytes: u32,
}

impl Clone for ComputePipelineDesc {
    fn clone(&self) -> (r: Self)
        ensures
            r == *self,
    {
        ComputePipelineDesc {
            source: self.source.clone(),
            push_constants_bytes: self.push_constants_bytes,
        }
    }
}

/// Fixed-function state of a raster pipeline.
#[derive(Clone, Copy, Debug, PartialEq, Eq, Structural)]
pub struct RasterPipelineDesc {
    pub face_cull: bool,
    pub push_constants_bytes: u32,
}

/// Fixed-function state of a ray-tracing pipeline.
#[derive(Clone, Copy, Debug, PartialEq, Eq, Structural)]
pub struct RayTracingPipelineDesc {
    pub max_pipeline_ray_recursion_depth: u32,
}

/// The compiled bundle of a raster pipeline: both stages succeed together.
#[derive(Debug)]
pub struct RasterPipelineShaders {
    pub vertex_spirv: Vec<u8>,
    pub pixel_spirv: Vec<u8>,
}

/// One compiled shader group of a ray-tracing pipeline.
#[derive(Debug)]
pub enum CompiledShaderGroup {
    RayGen(Vec<u8>),
    Miss(Vec<u8>),
    HitGroup { closest_hit: Option<Vec<u8>>, intersection: Option<Vec<u8>> },
}

/// A materialized compute pipeline object: the identity the driver handed
/// back, together with the bytecode it was built from.
#[derive(Debug)]
pub struct ComputePipeline {
    pub object_id: u64,
    pub spirv: Vec<u8>,
}

/// A materialized raster pipeline object.
#[derive(Debug)]
pub struct RasterPipeline {
    pub object_id: u64,
    pub shaders: RasterPipelineShaders,
}

/// A materialized ray-tracing pipeline object.
#[derive(Debug)]
pub struct RayTracingPipeline {
    pub object_id: u64,
    pub groups: Vec<CompiledShaderGroup>,
}

/// Why one compilation unit failed.
#[derive(Debug)]
pub struct CompileError {
    pub message: String,
}

impl Clone for CompileError {
    fn clone(&self) -> (r: Self)
        ensures
            r == *self,
    {
        CompileError { message: self.message.clone() }
    }
}

/// The three independent handle spaces.
#[derive(Clone, Copy, Debug, PartialEq, Eq, Structural)]
pub enum PipelineKind {
    Compute,
    Raster,
    RayTracing,
}

/// A frame-preparation failure: which entry's compilation failed, and why.
#[derive(Debug)]
pub struct FramePrepError {
    pub kind: PipelineKind,
    pub handle_index: usize,
    pub message: String,
}

/// One compute entry: its immutable description and, once a compile pass
/// succeeded, its materialized pipeline object.
#[derive(Debug)]
pub struct ComputePipelineCacheEntry {
    pub desc: ComputePipelineDesc,
    pub pipeline: Option<ComputePipeline>,
}

/// One raster entry, keyed by its shader bundle description.
#[derive(Debug)]
pub struct RasterPipelineCacheEntry {
    pub shaders: RasterPipelineShadersDesc,
    pub desc: RasterPipelineDesc,
    pub pipeline: Option<RasterPipeline>,
}

/// One ray-tracing entry, keyed by its shader-group list.
#[derive(Debug)]
pub struct RtPipelineCacheEntry {
    pub shaders: Vec<ShaderGroupDesc>,
    pub desc: RayTracingPipelineDesc,
    pub pipeline: Option<RayTracingPipeline>,
}

/// Whether a compute source is already registered.
pub open spec fn has_compute_source(
    s: Seq<ComputePipelineCacheEntry>,
    src: ShaderSourceView,
) -> bool {
    exists|i: int| 0 <= i < s.len() && s[i].desc.source@ == src
}

/// Whether a raster shader bundle is already registered.
pub open spec fn has_raster_shaders(
    s: Seq<RasterPipelineCacheEntry>,
    key: RasterPipelineShadersDescView,
) -> bool {
    exists|i: int| 0 <= i < s.len() && s[i].shaders@ == key
}

/// Whether a ray-tracing shader-group list is already registered.
pub open spec fn has_rt_shaders(
    s: Seq<RtPipelineCacheEntry>,
    key: Seq<crate::shader::ShaderGroupDescView>,
) -> bool {
    exists|i: int| 0 <= i < s.len() && groups_view(s[i].shaders@) == key
}

/// Deduplicates pipeline registrations by shader-source description in three
/// independent handle spaces, and owns each entry's materialized object.
pub struct PipelineCache {
    pub compute_entries: Vec<ComputePipelineCacheEntry>,
    pub raster_entries: Vec<RasterPipelineCacheEntry>,
    pub rt_entries: Vec<RtPipelineCacheEntry>,
    /// Identity source for materialized pipeline objects.
    pub next_object_id: u64,
}

impl PipelineCache {
    /// At most one entry per compute source.
    pub open spec fn compute_keys_unique(self) -> bool {
        forall|i: int, j: int|
            0 <= i < j < self.compute_entries@.len() ==> self.compute_entries@[i].desc.source@
                != self.compute_entries@[j].desc.source@
    }

    /// At most one entry per raster shader bundle.
    pub open spec fn raster_keys_unique(self) -> bool {
        forall|i: int, j: int|
            0 <= i < j < self.raster_entries@.len() ==> self.raster_entries@[i].shaders@
                != self.raster_entries@[j].shaders@
    }

    /// At most one entry per ray-tracing shader-group list.
    pub open spec fn rt_keys_unique(self) -> bool {
        forall|i: int, j: int|
            0 <= i < j < self.rt_entries@.len() ==> groups_view(self.rt_entries@[i].shaders@)
                != groups_view(self.rt_entries@[j].shaders@)
    }

    /// Every materialized object was stamped before `next_object_id`.
    pub open spec fn object_ids_bounded(self) -> bool {
        &&& forall|i: int|
            0 <= i < self.compute_entries@.len() && self.compute_entries@[i].pipeline is Some
                ==> self.compute_entries@[i].pipeline->Some_0.object_id < self.next_object_id
        &&& forall|i: int|
            0 <= i < self.raster_entries@.len() && self.raster_entries@[i].pipeline is Some
                ==> self.raster_entries@[i].pipeline->Some_0.object_id < self.next_object_id
        &&& forall|i: int|
            0 <= i < self.rt_entries@.len() && self.rt_entries@[i].pipeline is Some
                ==> self.rt_entries@[i].pipeline->Some_0.object_id < self.next_object_id
    }

    /// The cache's invariant: deduplication really deduplicates, and object
    /// identities are never reissued.
    pub open spec fn wf(self) -> bool {
        &&& self.compute_keys_unique()
        &&& self.raster_keys_unique()
        &&& self.rt_keys_unique()
        &&& self.object_ids_bounded()
    }

    /// An empty cache.
    pub fn new() -> (r: Self)
        ensures
            r.wf(),
            r.compute_entries@.len() == 0,
            r.raster_entries@.len() == 0,
            r.rt_entries@.len() == 0,
            r.next_object_id == 0,
    {
        PipelineCache {
            compute_entries: Vec::new(),
            raster_entries: Vec::new(),
            rt_entries: Vec::new(),
            next_object_id: 0,
        }
    }
}

/// What `register_compute` does: return the existing handle of an already
/// registered source unchanged, or append one new entry with no pipeline.
pub open spec fn register_compute_post(
    pre: PipelineCache,
    post: PipelineCache,
    desc: ComputePipelineDesc,
    h: ComputePipelineHandle,
) -> bool {
    &&& post.raster_entries@ == pre.raster_entries@
    &&& post.rt_entries@ == pre.rt_entries@
    &&& post.next_object_id == pre.next_object_id
    &&& h.0 < post.compute_entries@.len()
    &&& post.compute_entries@[h.0 as int].desc.source@ == desc.source@
    &&& if has_compute_source(pre.compute_entries@, desc.source@) {
        post.compute_entries@ == pre.compute_entries@
    } else {
        &&& h.0 == pre.compute_entries@.len()
        &&& post.compute_entries@ == pre.compute_entries@.push(
            ComputePipelineCacheEntry { desc, pipeline: None },
        )
    }
}

/// What `register_raster` does.
pub open spec fn register_raster_post(
    pre: PipelineCache,
    post: PipelineCache,
    shaders: RasterPipelineShadersDesc,
    desc: RasterPipelineDesc,
    h: RasterPipelineHandle,
) -> bool {
    &&& post.compute_entries@ == pre.compute_entries@
    &&& post.rt_entries@ == pre.rt_entries@
    &&& post.next_object_id == pre.next_object_id
    &&& h.0 < post.raster_entries@.len()
    &&& post.raster_entries@[h.0 as int].shaders@ == shaders@
    &&& if has_raster_shaders(pre.raster_entries@, shaders@) {
        post.raster_entries@ == pre.raster_entries@
    } else {
        &&& h.0 == pre.raster_entries@.len()
        &&& post.raster_entries@ == pre.raster_entries@.push(
            RasterPipelineCacheEntry { shaders, desc, pipeline: None },
        )
    }
}

/// What `register_ray_tracing` does. The appended entry is stated field by
/// field because the group list is copied element for element.
pub open spec fn register_ray_tracing_post(
    pre: PipelineCache,
    post: PipelineCache,
    shaders: Seq<ShaderGroupDesc>,
    desc: RayTracingPipelineDesc,
    h: RtPipelineHandle,
) -> bool {
    &&& post.compute_entries@ == pre.compute_entries@
    &&& post.raster_entries@ == pre.raster_entries@
    &&& post.next_object_id == pre.next_object_id
    &&& h.0 < post.rt_entries@.len()
    &&& groups_view(post.rt_entries@[h.0 as int].shaders@) == groups_view(shaders)
    &&& if has_rt_shaders(pre.rt_entries@, groups_view(shaders)) {
        post.rt_entries@ == pre.rt_entries@
    } else {
        &&& h.0 == pre.rt_entries@.len()
        &&& post.rt_entries@.len() == pre.rt_entries@.len() + 1
        &&& forall|j: int| 0 <= j < pre.rt_entries@.len() ==> post.rt_entries@[j]
            == pre.rt_entries@[j]
        &&& post.rt_entries@[h.0 as int].shaders@ == shaders
        &&& post.rt_entries@[h.0 as int].desc == desc
        &&& post.rt_entries@[h.0 as int].pipeline is None
    }
}

impl PipelineCache {
    /// Looks the source up in the compute handle space; registers a new
    /// entry, with no compilation scheduled and no pipeline object, only for
    /// a source never seen before. Deterministic: an equal description always
    /// yields the same handle.
    pub fn register_compute(&mut self, desc: &ComputePipelineDesc) -> (h: ComputePipelineHandle)
        requires
            old(self).wf(),
        ensures
            final(self).wf(),
            register_compute_post(*old(self), *final(self), *desc, h),
    {
        let n = self.compute_entries.len();
        let mut i: usize = 0;
        while i < n
            invariant
                old(self).wf(),
                *self == *old(self),
                n == self.compute_entries@.len(),
                i <= n,
                forall|j: int| 0 <= j < i ==> self.compute_entries@[j].desc.source@
                    != desc.source@,
            decreases n - i,
        {
            if self.compute_entries[i].desc.source.source_eq(&desc.source) {
                return ComputePipelineHandle(i);
            }
            i += 1;
        }
        self.compute_entries.push(ComputePipelineCacheEntry { desc: desc.clone(), pipeline: None });
        ComputePipelineHandle(n)
    }

    /// The materialized compute pipeline object of a handle. The handle must
    /// have completed a successful compile pass first.
    pub fn get_compute(&self, handle: ComputePipelineHandle) -> (r: &ComputePipeline)
        requires
            handle.0 < self.compute_entries@.len(),
            self.compute_entries@[handle.0 as int].pipeline is Some,
        ensures
            Some(*r) == self.compute_entries@[handle.0 as int].pipeline,
    {
        self.compute_entries[handle.0].pipeline.as_ref().unwrap()
    }

    /// Deduplicated registration in the raster handle space, keyed by the
    /// shader bundle description.
    pub fn register_raster(
        &mut self,
        shaders: &RasterPipelineShadersDesc,
        desc: &RasterPipelineDesc,
    ) -> (h: RasterPipelineHandle)
        requires
            old(self).wf(),
        ensures
            final(self).wf(),
            register_raster_post(*old(self), *final(self), *shaders, *desc, h),
    {
        let n = self.raster_entries.len();
        let mut i: usize = 0;
        while i < n
            invariant
                old(self).wf(),
                *self == *old(self),
                n == self.raster_entries@.len(),
                i <= n,
                forall|j: int| 0 <= j < i ==> self.raster_entries@[j].shaders@ != shaders@,
            decreases n - i,
        {
            if self.raster_entries[i].shaders.shaders_eq(shaders) {
                return RasterPipelineHandle(i);
            }
            i += 1;
        }
        self.raster_entries.push(
            RasterPipelineCacheEntry { shaders: shaders.clone(), desc: *desc, pipeline: None },
        );
        RasterPipelineHandle(n)
    }

    /// The materialized raster pipeline object of a handle.
    pub fn get_raster(&self, handle: RasterPipelineHandle) -> (r: &RasterPipeline)
        requires
            handle.0 < self.raster_entries@.len(),
            self.raster_entries@[handle.0 as int].pipeline is Some,
        ensures
            Some(*r) == self.raster_entries@[handle.0 as int].pipeline,
    {
        self.raster_entries[handle.0].pipeline.as_ref().unwrap()
    }

    /// Deduplicated registration in the ray-tracing handle space, keyed by
    /// the whole shader-group list.
    pub fn register_ray_tracing(
        &mut self,
        shaders: &Vec<ShaderGroupDesc>,
        desc: &RayTracingPipelineDesc,
    ) -> (h: RtPipelineHandle)
        requires
            old(self).wf(),
        ensures
            final(self).wf(),
            register_ray_tracing_post(*old(self), *final(self), shaders@, *desc, h),
    {
        let n = self.rt_entries.len();
        let mut i: usize = 0;
        while i < n
            invariant
                old(self).wf(),
                *self == *old(self),
                n == self.rt_entries@.len(),
                i <= n,
                forall|j: int| 0 <= j < i ==> groups_view(self.rt_entries@[j].shaders@)
                    != groups_view(shaders@),
            decreases n - i,
        {
            if shader_groups_eq(&self.rt_entries[i].shaders, shaders) {
                return RtPipelineHandle(i);
            }
            i += 1;
        }
        self.rt_entries.push(
            RtPipelineCacheEntry { shaders: clone_shader_groups(shaders), desc: *desc, pipeline: None },
        );
        RtPipelineHandle(n)
    }

    /// The materialized ray-tracing pipeline object of a handle.
    pub fn get_ray_tracing(&self, handle: RtPipelineHandle) -> (r: &RayTracingPipeline)
        requires
            handle.0 < self.rt_entries@.len(),
            self.rt_entries@[handle.0 as int].pipeline is Some,
        ensures
            Some(*r) == self.rt_entries@[handle.0 as int].pipeline,
    {
        self.rt_entries[handle.0].pipeline.as_ref().unwrap()
    }
}

/// What `invalidate_stale_pipelines` does to each entry: a stale entry's
/// materialized object is cleared, everything else is untouched.
pub open spec fn invalidate_post(
    pre: PipelineCache,
    post: PipelineCache,
    cs: Seq<bool>,
    rs: Seq<bool>,
    ts: Seq<bool>,
) -> bool {
    &&& post.next_object_id == pre.next_object_id
    &&& post.compute_entries@.len() == pre.compute_entries@.len()
    &&& post.raster_entries@.len() == pre.raster_entries@.len()
    &&& post.rt_entries@.len() == pre.rt_entries@.len()
    &&& forall|i: int|
        0 <= i < pre.compute_entries@.len() ==> post.compute_entries@[i].desc
            == pre.compute_entries@[i].desc
    &&& forall|i: int|
        0 <= i < pre.compute_entries@.len() && cs[i] ==> post.compute_entries@[i].pipeline
            is None
    &&& forall|i: int|
        0 <= i < pre.compute_entries@.len() && !cs[i] ==> post.compute_entries@[i].pipeline
            == pre.compute_entries@[i].pipeline
    &&& forall|i: int|
        0 <= i < pre.raster_entries@.len() ==> post.raster_entries@[i].shaders
            == pre.raster_entries@[i].shaders
    &&& forall|i: int|
        0 <= i < pre.raster_entries@.len() ==> post.raster_entries@[i].desc
            == pre.raster_entries@[i].desc
    &&& forall|i: int|
        0 <= i < pre.raster_entries@.len() && rs[i] ==> post.raster_entries@[i].pipeline
            is None
    &&& forall|i: int|
        0 <= i < pre.raster_entries@.len() && !rs[i] ==> post.raster_entries@[i].pipeline
            == pre.raster_entries@[i].pipeline
    &&& forall|i: int|
        0 <= i < pre.rt_entries@.len() ==> post.rt_entries@[i].shaders
            == pre.rt_entries@[i].shaders
    &&& forall|i: int|
        0 <= i < pre.rt_entries@.len() ==> post.rt_entries@[i].desc == pre.rt_entries@[i].desc
    &&& forall|i: int|
        0 <= i < pre.rt_entries@.len() && ts[i] ==> post.rt_entries@[i].pipeline is None
    &&& forall|i: int|
        0 <= i < pre.rt_entries@.len() && !ts[i] ==> post.rt_entries@[i].pipeline
            == pre.rt_entries@[i].pipeline
}

/// Whether some entry that lacks a materialized object has a failed compile
/// report.
pub open spec fn any_pending_failure(
    pre: PipelineCache,
    cr: Seq<Result<Vec<u8>, CompileError>>,
    rr: Seq<Result<RasterPipelineShaders, CompileError>>,
    tr: Seq<Result<Vec<CompiledShaderGroup>, CompileError>>,
) -> bool {
    ||| exists|i: int|
        0 <= i < pre.compute_entries@.len() && pre.compute_entries@[i].pipeline is None
            && cr[i] is Err
    ||| exists|i: int|
        0 <= i < pre.raster_entries@.len() && pre.raster_entries@[i].pipeline is None
            && rr[i] is Err
    ||| exists|i: int|
        0 <= i < pre.rt_entries@.len() && pre.rt_entries@[i].pipeline is None && tr[i] is Err
}

/// The returned error names an entry that was awaiting compilation and whose
/// compile report failed, and carries that report's message.
pub open spec fn names_pending_failure(
    pre: PipelineCache,
    cr: Seq<Result<Vec<u8>, CompileError>>,
    rr: Seq<Result<RasterPipelineShaders, CompileError>>,
    tr: Seq<Result<Vec<CompiledShaderGroup>, CompileError>>,
    e: FramePrepError,
) -> bool {
    match e.kind {
        PipelineKind::Compute => {
            &&& e.handle_index < pre.compute_entries@.len()
            &&& pre.compute_entries@[e.handle_index as int].pipeline is None
            &&& cr[e.handle_index as int] is Err
            &&& e.message == cr[e.handle_index as int]->Err_0.message
        },
        PipelineKind::Raster => {
            &&& e.handle_index < pre.raster_entries@.len()
            &&& pre.raster_entries@[e.handle_index as int].pipeline is None
            &&& rr[e.handle_index as int] is Err
            &&& e.message == rr[e.handle_index as int]->Err_0.message
        },
        PipelineKind::RayTracing => {
            &&& e.handle_index < pre.rt_entries@.len()
            &&& pre.rt_entries@[e.handle_index as int].pipeline is None
            &&& tr[e.handle_index as int] is Err
            &&& e.message == tr[e.handle_index as int]->Err_0.message
        },
    }
}

/// After a successful pass: an entry that was awaiting compilation holds a
/// fresh object built from its compile report, any other entry is untouched.
pub open spec fn compute_entry_compiled(
    pre_e: ComputePipelineCacheEntry,
    post_e: ComputePipelineCacheEntry,
    res: Result<Vec<u8>, CompileError>,
    id: u64,
) -> bool {
    &&& post_e.desc == pre_e.desc
    &&& if pre_e.pipeline is None {
        &&& res is Ok
        &&& post_e.pipeline == Some(ComputePipeline { object_id: id, spirv: res->Ok_0 })
    } else {
        post_e.pipeline == pre_e.pipeline
    }
}

/// Raster analogue of `compute_entry_compiled`.
pub open spec fn raster_entry_compiled(
    pre_e: RasterPipelineCacheEntry,
    post_e: RasterPipelineCacheEntry,
    res: Result<RasterPipelineShaders, CompileError>,
    id: u64,
) -> bool {
    &&& post_e.shaders == pre_e.shaders
    &&& post_e.desc == pre_e.desc
    &&& if pre_e.pipeline is None {
        &&& res is Ok
        &&& post_e.pipeline == Some(RasterPipeline { object_id: id, shaders: res->Ok_0 })
    } else {
        post_e.pipeline == pre_e.pipeline
    }
}

/// Ray-tracing analogue of `compute_entry_compiled`.
pub open spec fn rt_entry_compiled(
    pre_e: RtPipelineCacheEntry,
    post_e: RtPipelineCacheEntry,
    res: Result<Vec<CompiledShaderGroup>, CompileError>,
    id: u64,
) -> bool {
    &&& post_e.shaders == pre_e.shaders
    &&& post_e.desc == pre_e.desc
    &&& if pre_e.pipeline is None {
        &&& res is Ok
        &&& post_e.pipeline == Some(RayTracingPipeline { object_id: id, groups: res->Ok_0 })
    } else {
        post_e.pipeline == pre_e.pipeline
    }
}

/// What `parallel_compile_shaders` does: all or nothing. On any failed
/// pending compile the cache is left exactly as it was; otherwise every
/// pending entry is materialized from its report under a fresh object
/// identity and every already-materialized entry is untouched.
pub open spec fn parallel_compile_post(
    pre: PipelineCache,
    post: PipelineCache,
    cr: Seq<Result<Vec<u8>, CompileError>>,
    rr: Seq<Result<RasterPipelineShaders, CompileError>>,
    tr: Seq<Result<Vec<CompiledShaderGroup>, CompileError>>,
    r: Result<(), FramePrepError>,
) -> bool {
    let clen = pre.compute_entries@.len() as int;
    let rlen = pre.raster_entries@.len() as int;
    let tlen = pre.rt_entries@.len() as int;
    if any_pending_failure(pre, cr, rr, tr) {
        &&& r is Err
        &&& names_pending_failure(pre, cr, rr, tr, r->Err_0)
        &&& post == pre
    } else {
        &&& r is Ok
        &&& post.compute_entries@.len() == clen
        &&& post.raster_entries@.len() == rlen
        &&& post.rt_entries@.len() == tlen
        &&& forall|i: int|
            0 <= i < clen ==> compute_entry_compiled(
                pre.compute_entries@[i],
                post.compute_entries@[i],
                cr[i],
                (pre.next_object_id + i) as u64,
            )
        &&& forall|i: int|
            0 <= i < rlen ==> raster_entry_compiled(
                pre.raster_entries@[i],
                post.raster_entries@[i],
                rr[i],
                (pre.next_object_id + clen + i) as u64,
            )
        &&& forall|i: int|
            0 <= i < tlen ==> rt_entry_compiled(
                pre.rt_entries@[i],
                post.rt_entries@[i],
                tr[i],
                (pre.next_object_id + clen + rlen + i) as u64,
            )
        &&& post.next_object_id == pre.next_object_id + clen + rlen + tlen
    }
}

impl PipelineCache {
    /// Clears the materialized object of every entry whose compilation unit
    /// reports stale upstream inputs, so the next parallel pass rebuilds it.
    /// The reports are aligned with each kind's handle space, index for
    /// index. Must run before the parallel compile pass each frame.
    #[verifier::loop_isolation(false)]
    pub fn invalidate_stale_pipelines(
        &mut self,
        compute_stale: &Vec<bool>,
        raster_stale: &Vec<bool>,
        rt_stale: &Vec<bool>,
    )
        requires
            old(self).wf(),
            compute_stale@.len() == old(self).compute_entries@.len(),
            raster_stale@.len() == old(self).raster_entries@.len(),
            rt_stale@.len() == old(self).rt_entries@.len(),
        ensures
            final(self).wf(),
            invalidate_post(*old(self), *final(self), compute_stale@, raster_stale@, rt_stale@),
    {
        let clen = self.compute_entries.len();
        let mut i: usize = 0;
        while i < clen
            invariant
                i <= clen,
                self.compute_entries@.len() == clen,
                self.raster_entries@ == old(self).raster_entries@,
                self.rt_entries@ == old(self).rt_entries@,
                self.next_object_id == old(self).next_object_id,
                forall|j: int|
                    i <= j < clen ==> self.compute_entries@[j] == old(self).compute_entries@[j],
                forall|j: int|
                    0 <= j < i ==> self.compute_entries@[j].desc
                        == old(self).compute_entries@[j].desc,
                forall|j: int|
                    0 <= j < i && compute_stale@[j] ==> self.compute_entries@[j].pipeline
                        is None,
                forall|j: int|
                    0 <= j < i && !compute_stale@[j] ==> self.compute_entries@[j].pipeline
                        == old(self).compute_entries@[j].pipeline,
            decreases clen - i,
        {
            let stale = compute_stale[i];
            if stale && self.compute_entries[i].pipeline.is_some() {
                let e = &mut self.compute_entries[i];
                e.pipeline = None;
            }
            i += 1;
        }
        let ghost snap1 = *self;
        let rlen = self.raster_entries.len();
        let mut i: usize = 0;
        while i < rlen
            invariant
                i <= rlen,
                self.raster_entries@.len() == rlen,
                self.compute_entries@ == snap1.compute_entries@,
                self.rt_entries@ == old(self).rt_entries@,
                self.next_object_id == old(self).next_object_id,
                forall|j: int|
                    i <= j < rlen ==> self.raster_entries@[j] == old(self).raster_entries@[j],
                forall|j: int|
                    0 <= j < i ==> self.raster_entries@[j].shaders
                        == old(self).raster_entries@[j].shaders,
                forall|j: int|
                    0 <= j < i ==> self.raster_entries@[j].desc
                        == old(self).raster_entries@[j].desc,
                forall|j: int|
                    0 <= j < i && raster_stale@[j] ==> self.raster_entries@[j].pipeline
                        is None,
                forall|j: int|
                    0 <= j < i && !raster_stale@[j] ==> self.raster_entries@[j].pipeline
                        == old(self).raster_entries@[j].pipeline,
            decreases rlen - i,
        {
            let stale = raster_stale[i];
            if stale && self.raster_entries[i].pipeline.is_some() {
                let e = &mut self.raster_entries[i];
                e.pipeline = None;
            }
            i += 1;
        }
        let ghost snap2 = *self;
        let tlen = self.rt_entries.len();
        let mut i: usize = 0;
        while i < tlen
            invariant
                i <= tlen,
                self.rt_entries@.len() == tlen,
                self.compute_entries@ == snap2.compute_entries@,
                self.raster_entries@ == snap2.raster_entries@,
                self.next_object_id == old(self).next_object_id,
                forall|j: int|
                    i <= j < tlen ==> self.rt_entries@[j] == old(self).rt_entries@[j],
                forall|j: int|
                    0 <= j < i ==> self.rt_entries@[j].shaders
                        == old(self).rt_entries@[j].shaders,
                forall|j: int|
                    0 <= j < i ==> self.rt_entries@[j].desc == old(self).rt_entries@[j].desc,
                forall|j: int|
                    0 <= j < i && rt_stale@[j] ==> self.rt_entries@[j].pipeline is None,
                forall|j: int|
                    0 <= j < i && !rt_stale@[j] ==> self.rt_entries@[j].pipeline
                        == old(self).rt_entries@[j].pipeline,
            decreases tlen - i,
        {
            let stale = rt_stale[i];
            if stale && self.rt_entries[i].pipeline.is_some() {
                let e = &mut self.rt_entries[i];
                e.pipeline = None;
            }
            i += 1;
        }
        proof {
            assert forall|a: int, b: int|
                0 <= a < b < self.compute_entries@.len() implies self.compute_entries@[a].desc.source@
                != self.compute_entries@[b].desc.source@ by {
                assert(self.compute_entries@[a].desc == old(self).compute_entries@[a].desc);
                assert(self.compute_entries@[b].desc == old(self).compute_entries@[b].desc);
            }
            assert forall|a: int, b: int|
                0 <= a < b < self.raster_entries@.len() implies self.raster_entries@[a].shaders@
                != self.raster_entries@[b].shaders@ by {
                assert(self.raster_entries@[a].shaders == old(self).raster_entries@[a].shaders);
                assert(self.raster_entries@[b].shaders == old(self).raster_entries@[b].shaders);
            }
            assert forall|a: int, b: int|
                0 <= a < b < self.rt_entries@.len() implies groups_view(self.rt_entries@[a].shaders@)
                != groups_view(self.rt_entries@[b].shaders@) by {
                assert(self.rt_entries@[a].shaders == old(self).rt_entries@[a].shaders);
                assert(self.rt_entries@[b].shaders == old(self).rt_entries@[b].shaders);
            }
            assert forall|a: int|
                0 <= a < self.compute_entries@.len() && self.compute_entries@[a].pipeline is Some
                implies self.compute_entries@[a].pipeline->Some_0.object_id
                < self.next_object_id by {
                assert(!compute_stale@[a]);
                assert(self.compute_entries@[a].pipeline == old(self).compute_entries@[a].pipeline);
            }
            assert forall|a: int|
                0 <= a < self.raster_entries@.len() && self.raster_entries@[a].pipeline is Some
                implies self.raster_entries@[a].pipeline->Some_0.object_id
                < self.next_object_id by {
                assert(!raster_stale@[a]);
                assert(self.raster_entries@[a].pipeline == old(self).raster_entries@[a].pipeline);
            }
            assert forall|a: int|
                0 <= a < self.rt_entries@.len() && self.rt_entries@[a].pipeline is Some
                implies self.rt_entries@[a].pipeline->Some_0.object_id < self.next_object_id by {
                assert(!rt_stale@[a]);
                assert(self.rt_entries@[a].pipeline == old(self).rt_entries@[a].pipeline);
            }
        }
    }
}

impl PipelineCache {
    /// Joins one parallel compile pass: the caller evaluated every entry's
    /// compilation unit concurrently and hands the reports in, aligned with
    /// each kind's handle space, index for index. All or nothing: if any
    /// entry awaiting compilation has a failed report, the pass fails and the
    /// cache is left exactly as it was, so every such entry is retried on the
    /// next pass. Otherwise each awaiting entry gets a pipeline object built
    /// from its report under a fresh identity, strictly after the join, and
    /// already-materialized entries are untouched.
    #[verifier::loop_isolation(false)]
    pub fn parallel_compile_shaders(
        &mut self,
        compute_results: Vec<Result<Vec<u8>, CompileError>>,
        raster_results: Vec<Result<RasterPipelineShaders, CompileError>>,
        rt_results: Vec<Result<Vec<CompiledShaderGroup>, CompileError>>,
    ) -> (r: Result<(), FramePrepError>)
        requires
            old(self).wf(),
            compute_results@.len() == old(self).compute_entries@.len(),
            raster_results@.len() == old(self).raster_entries@.len(),
            rt_results@.len() == old(self).rt_entries@.len(),
            old(self).next_object_id + old(self).compute_entries@.len()
                + old(self).raster_entries@.len() + old(self).rt_entries@.len() <= u64::MAX,
        ensures
            final(self).wf(),
            parallel_compile_post(
                *old(self),
                *final(self),
                compute_results@,
                raster_results@,
                rt_results@,
                r,
            ),
    {
        let ghost cr0 = compute_results@;
        let ghost rr0 = raster_results@;
        let ghost tr0 = rt_results@;
        let clen = self.compute_entries.len();
        let rlen = self.raster_entries.len();
        let tlen = self.rt_entries.len();

        // The join: surface a failure of any entry that was awaiting
        // compilation, before anything is mutated.
        let mut i: usize = 0;
        while i < clen
            invariant
                i <= clen,
                *self == *old(self),
                forall|j: int|
                    0 <= j < i ==> !(self.compute_entries@[j].pipeline is None && cr0[j] is Err),
            decreases clen - i,
        {
            if self.compute_entries[i].pipeline.is_none() {
                if let Err(e) = &compute_results[i] {
                    return Err(
                        FramePrepError {
                            kind: PipelineKind::Compute,
                            handle_index: i,
                            message: e.message.clone(),
                        },
                    );
                }
            }
            i += 1;
        }
        let mut i: usize = 0;
        while i < rlen
            invariant
                i <= rlen,
                *self == *old(self),
                forall|j: int|
                    0 <= j < i ==> !(self.raster_entries@[j].pipeline is None && rr0[j] is Err),
            decreases rlen - i,
        {
            if self.raster_entries[i].pipeline.is_none() {
                if let Err(e) = &raster_results[i] {
                    return Err(
                        FramePrepError {
                            kind: PipelineKind::Raster,
                            handle_index: i,
                            message: e.message.clone(),
                        },
                    );
                }
            }
            i += 1;
        }
        let mut i: usize = 0;
        while i < tlen
            invariant
                i <= tlen,
                *self == *old(self),
                forall|j: int|
                    0 <= j < i ==> !(self.rt_entries@[j].pipeline is None && tr0[j] is Err),
            decreases tlen - i,
        {
            if self.rt_entries[i].pipeline.is_none() {
                if let Err(e) = &rt_results[i] {
                    return Err(
                        FramePrepError {
                            kind: PipelineKind::RayTracing,
                            handle_index: i,
                            message: e.message.clone(),
                        },
                    );
                }
            }
            i += 1;
        }
        assert(!any_pending_failure(*old(self), cr0, rr0, tr0));

        // Build pipeline objects from all the compiled shaders.
        let next_base = self.next_object_id;
        let mut results = compute_results;
        let mut i: usize = clen;
        while i > 0
            invariant
                i <= clen,
                results@ == cr0.take(i as int),
                self.compute_entries@.len() == clen,
                self.raster_entries@ == old(self).raster_entries@,
                self.rt_entries@ == old(self).rt_entries@,
                self.next_object_id == next_base,
                forall|j: int|
                    0 <= j < i ==> self.compute_entries@[j] == old(self).compute_entries@[j],
                forall|j: int|
                    i <= j < clen ==> compute_entry_compiled(
                        old(self).compute_entries@[j],
                        self.compute_entries@[j],
                        cr0[j],
                        (next_base + j) as u64,
                    ),
            decreases i,
        {
            i -= 1;
            let res = results.pop().unwrap();
            proof {
                assert(cr0.take(i + 1).drop_last() =~= cr0.take(i as int));
                assert(res == cr0[i as int]);
            }
            if self.compute_entries[i].pipeline.is_none() {
                let spirv = match res {
                    Ok(b) => b,
                    Err(_) => {
                        proof {
                            assert(false);
                        }
                        unreached()
                    },
                };
                let id = next_base + (i as u64);
                let e = &mut self.compute_entries[i];
                e.pipeline = Some(ComputePipeline { object_id: id, spirv });
            }
        }
        let ghost snapc = *self;
        let mut results = raster_results;
        let mut i: usize = rlen;
        while i > 0
            invariant
                i <= rlen,
                results@ == rr0.take(i as int),
                self.raster_entries@.len() == rlen,
                self.compute_entries@ == snapc.compute_entries@,
                self.rt_entries@ == old(self).rt_entries@,
                self.next_object_id == next_base,
                forall|j: int|
                    0 <= j < i ==> self.raster_entries@[j] == old(self).raster_entries@[j],
                forall|j: int|
                    i <= j < rlen ==> raster_entry_compiled(
                        old(self).raster_entries@[j],
                        self.raster_entries@[j],
                        rr0[j],
                        (next_base + clen + j) as u64,
                    ),
            decreases i,
        {
            i -= 1;
            let res = results.pop().unwrap();
            proof {
                assert(rr0.take(i + 1).drop_last() =~= rr0.take(i as int));
                assert(res == rr0[i as int]);
            }
            if self.raster_entries[i].pipeline.is_none() {
                let shaders = match res {
                    Ok(b) => b,
                    Err(_) => {
                        proof {
                            assert(false);
                        }
                        unreached()
                    },
                };
                let id = next_base + (clen as u64) + (i as u64);
                let e = &mut self.raster_entries[i];
                e.pipeline = Some(RasterPipeline { object_id: id, shaders });
            }
        }
        let ghost snapr = *self;
        let mut results = rt_results;
        let mut i: usize = tlen;
        while i > 0
            invariant
                i <= tlen,
                results@ == tr0.take(i as int),
                self.rt_entries@.len() == tlen,
                self.compute_entries@ == snapr.compute_entries@,
                self.raster_entries@ == snapr.raster_entries@,
                self.next_object_id == next_base,
                forall|j: int|
                    0 <= j < i ==> self.rt_entries@[j] == old(self).rt_entries@[j],
                forall|j: int|
                    i <= j < tlen ==> rt_entry_compiled(
                        old(self).rt_entries@[j],
                        self.rt_entries@[j],
                        tr0[j],
                        (next_base + clen + rlen + j) as u64,
                    ),
            decreases i,
        {
            i -= 1;
            let res = results.pop().unwrap();
            proof {
                assert(tr0.take(i + 1).drop_last() =~= tr0.take(i as int));
                assert(res == tr0[i as int]);
            }
            if self.rt_entries[i].pipeline.is_none() {
                let groups = match res {
                    Ok(b) => b,
                    Err(_) => {
                        proof {
                            assert(false);
                        }
                        unreached()
                    },
                };
                let id = next_base + (clen as u64) + (rlen as u64) + (i as u64);
                let e = &mut self.rt_entries[i];
                e.pipeline = Some(RayTracingPipeline { object_id: id, groups });
            }
        }
        self.next_object_id = next_base + (clen as u64) + (rlen as u64) + (tlen as u64);
        proof {
            assert forall|a: int, b: int|
                0 <= a < b < self.compute_entries@.len() implies self.compute_entries@[a].desc.source@
                != self.compute_entries@[b].desc.source@ by {
                assert(compute_entry_compiled(
                    old(self).compute_entries@[a],
                    self.compute_entries@[a],
                    cr0[a],
                    (next_base + a) as u64,
                ));
                assert(compute_entry_compiled(
                    old(self).compute_entries@[b],
                    self.compute_entries@[b],
                    cr0[b],
                    (next_base + b) as u64,
                ));
            }
            assert forall|a: int, b: int|
                0 <= a < b < self.raster_entries@.len() implies self.raster_entries@[a].shaders@
                != self.raster_entries@[b].shaders@ by {
                assert(raster_entry_compiled(
                    old(self).raster_entries@[a],
                    self.raster_entries@[a],
                    rr0[a],
                    (next_base + clen + a) as u64,
                ));
                assert(raster_entry_compiled(
                    old(self).raster_entries@[b],
                    self.raster_entries@[b],
                    rr0[b],
                    (next_base + clen + b) as u64,
                ));
            }
            assert forall|a: int, b: int|
                0 <= a < b < self.rt_entries@.len() implies groups_view(self.rt_entries@[a].shaders@)
                != groups_view(self.rt_entries@[b].shaders@) by {
                assert(rt_entry_compiled(
                    old(self).rt_entries@[a],
                    self.rt_entries@[a],
                    tr0[a],
                    (next_base + clen + rlen + a) as u64,
                ));
                assert(rt_entry_compiled(
                    old(self).rt_entries@[b],
                    self.rt_entries@[b],
                    tr0[b],
                    (next_base + clen + rlen + b) as u64,
                ));
            }
            assert forall|a: int|
                0 <= a < self.compute_entries@.len() && self.compute_entries@[a].pipeline is Some
                implies self.compute_entries@[a].pipeline->Some_0.object_id
                < self.next_object_id by {
                assert(compute_entry_compiled(
                    old(self).compute_entries@[a],
                    self.compute_entries@[a],
                    cr0[a],
                    (next_base + a) as u64,
                ));
            }
            assert forall|a: int|
                0 <= a < self.raster_entries@.len() && self.raster_entries@[a].pipeline is Some
                implies self.raster_entries@[a].pipeline->Some_0.object_id
                < self.next_object_id by {
                assert(raster_entry_compiled(
                    old(self).raster_entries@[a],
                    self.raster_entries@[a],
                    rr0[a],
                    (next_base + clen + a) as u64,
                ));
            }
            assert forall|a: int|
                0 <= a < self.rt_entries@.len() && self.rt_entries@[a].pipeline is Some
                implies self.rt_entries@[a].pipeline->Some_0.object_id < self.next_object_id by {
                assert(rt_entry_compiled(
                    old(self).rt_entries@[a],
                    self.rt_entries@[a],
                    tr0[a],
                    (next_base + clen + rlen + a) as u64,
                ));
            }
        }
        Ok(())
    }
}

/// Whether an entry will be awaiting compilation once staleness has been
/// applied: it has no materialized object, or its unit went stale.
pub open spec fn compute_pending_after_stale(e: ComputePipelineCacheEntry, stale: bool) -> bool {
    e.pipeline is None || stale
}

/// Raster analogue of `compute_pending_after_stale`.
pub open spec fn raster_pending_after_stale(e: RasterPipelineCacheEntry, stale: bool) -> bool {
    e.pipeline is None || stale
}

/// Ray-tracing analogue of `compute_pending_after_stale`.
pub open spec fn rt_pending_after_stale(e: RtPipelineCacheEntry, stale: bool) -> bool {
    e.pipeline is None || stale
}

/// Whether some entry that needs compiling this frame has a failed report.
pub open spec fn any_frame_failure(
    pre: PipelineCache,
    cs: Seq<bool>,
    rs: Seq<bool>,
    ts: Seq<bool>,
    cr: Seq<Result<Vec<u8>, CompileError>>,
    rr: Seq<Result<RasterPipelineShaders, CompileError>>,
    tr: Seq<Result<Vec<CompiledShaderGroup>, CompileError>>,
) -> bool {
    ||| exists|i: int|
        0 <= i < pre.compute_entries@.len() && compute_pending_after_stale(
            pre.compute_entries@[i],
            cs[i],
        ) && cr[i] is Err
    ||| exists|i: int|
        0 <= i < pre.raster_entries@.len() && raster_pending_after_stale(
            pre.raster_entries@[i],
            rs[i],
        ) && rr[i] is Err
    ||| exists|i: int|
        0 <= i < pre.rt_entries@.len() && rt_pending_after_stale(pre.rt_entries@[i], ts[i])
            && tr[i] is Err
}

/// The returned error names an entry that needed compiling this frame and
/// whose report failed, and carries that report's message.
pub open spec fn names_frame_failure(
    pre: PipelineCache,
    cs: Seq<bool>,
    rs: Seq<bool>,
    ts: Seq<bool>,
    cr: Seq<Result<Vec<u8>, CompileError>>,
    rr: Seq<Result<RasterPipelineShaders, CompileError>>,
    tr: Seq<Result<Vec<CompiledShaderGroup>, CompileError>>,
    e: FramePrepError,
) -> bool {
    match e.kind {
        PipelineKind::Compute => {
            &&& e.handle_index < pre.compute_entries@.len()
            &&& compute_pending_after_stale(
                pre.compute_entries@[e.handle_index as int],
                cs[e.handle_index as int],
            )
            &&& cr[e.handle_index as int] is Err
            &&& e.message == cr[e.handle_index as int]->Err_0.message
        },
        PipelineKind::Raster => {
            &&& e.handle_index < pre.raster_entries@.len()
            &&& raster_pending_after_stale(
                pre.raster_entries@[e.handle_index as int],
                rs[e.handle_index as int],
            )
            &&& rr[e.handle_index as int] is Err
            &&& e.message == rr[e.handle_index as int]->Err_0.message
        },
        PipelineKind::RayTracing => {
            &&& e.handle_index < pre.rt_entries@.len()
            &&& rt_pending_after_stale(
                pre.rt_entries@[e.handle_index as int],
                ts[e.handle_index as int],
            )
            &&& tr[e.handle_index as int] is Err
            &&& e.message == tr[e.handle_index as int]->Err_0.message
        },
    }
}

/// After a successful frame preparation: an entry that needed compiling holds
/// a fresh object built from its report; a materialized entry whose unit was
/// not stale is untouched, never recompiled.
pub open spec fn compute_entry_prepared(
    pre_e: ComputePipelineCacheEntry,
    post_e: ComputePipelineCacheEntry,
    stale: bool,
    res: Result<Vec<u8>, CompileError>,
    id: u64,
) -> bool {
    &&& post_e.desc == pre_e.desc
    &&& if compute_pending_after_stale(pre_e, stale) {
        &&& res is Ok
        &&& post_e.pipeline == Some(ComputePipeline { object_id: id, spirv: res->Ok_0 })
    } else {
        post_e.pipeline == pre_e.pipeline
    }
}

/// Raster analogue of `compute_entry_prepared`.
pub open spec fn raster_entry_prepared(
    pre_e: RasterPipelineCacheEntry,
    post_e: RasterPipelineCacheEntry,
    stale: bool,
    res: Result<RasterPipelineShaders, CompileError>,
    id: u64,
) -> bool {
    &&& post_e.shaders == pre_e.shaders
    &&& post_e.desc == pre_e.desc
    &&& if raster_pending_after_stale(pre_e, stale) {
        &&& res is Ok
        &&& post_e.pipeline == Some(RasterPipeline { object_id: id, shaders: res->Ok_0 })
    } else {
        post_e.pipeline == pre_e.pipeline
    }
}

/// Ray-tracing analogue of `compute_entry_prepared`.
pub open spec fn rt_entry_prepared(
    pre_e: RtPipelineCacheEntry,
    post_e: RtPipelineCacheEntry,
    stale: bool,
    res: Result<Vec<CompiledShaderGroup>, CompileError>,
    id: u64,
) -> bool {
    &&& post_e.shaders == pre_e.shaders
    &&& post_e.desc == pre_e.desc
    &&& if rt_pending_after_stale(pre_e, stale) {
        &&& res is Ok
        &&& post_e.pipeline == Some(RayTracingPipeline { object_id: id, groups: res->Ok_0 })
    } else {
        post_e.pipeline == pre_e.pipeline
    }
}

/// What `prepare_frame` does: staleness is applied first, then the compile
/// pass joins. On failure the cache keeps the invalidated state and nothing
/// is materialized; on success every entry that needed compiling is rebuilt
/// and no other entry is recompiled.
pub open spec fn prepare_frame_post(
    pre: PipelineCache,
    post: PipelineCache,
    cs: Seq<bool>,
    rs: Seq<bool>,
    ts: Seq<bool>,
    cr: Seq<Result<Vec<u8>, CompileError>>,
    rr: Seq<Result<RasterPipelineShaders, CompileError>>,
    tr: Seq<Result<Vec<CompiledShaderGroup>, CompileError>>,
    r: Result<(), FramePrepError>,
) -> bool {
    let clen = pre.compute_entries@.len() as int;
    let rlen = pre.raster_entries@.len() as int;
    let tlen = pre.rt_entries@.len() as int;
    if any_frame_failure(pre, cs, rs, ts, cr, rr, tr) {
        &&& r is Err
        &&& names_frame_failure(pre, cs, rs, ts, cr, rr, tr, r->Err_0)
        &&& invalidate_post(pre, post, cs, rs, ts)
    } else {
        &&& r is Ok
        &&& post.compute_entries@.len() == clen
        &&& post.raster_entries@.len() == rlen
        &&& post.rt_entries@.len() == tlen
        &&& forall|i: int|
            0 <= i < clen ==> compute_entry_prepared(
                pre.compute_entries@[i],
                post.compute_entries@[i],
                cs[i],
                cr[i],
                (pre.next_object_id + i) as u64,
            )
        &&& forall|i: int|
            0 <= i < rlen ==> raster_entry_prepared(
                pre.raster_entries@[i],
                post.raster_entries@[i],
                rs[i],
                rr[i],
                (pre.next_object_id + clen + i) as u64,
            )
        &&& forall|i: int|
            0 <= i < tlen ==> rt_entry_prepared(
                pre.rt_entries@[i],
                post.rt_entries@[i],
                ts[i],
                tr[i],
                (pre.next_object_id + clen + rlen + i) as u64,
            )
        &&& post.next_object_id == pre.next_object_id + clen + rlen + tlen
    }
}

impl PipelineCache {
    /// One frame's preparation: applies the staleness reports, then joins the
    /// compile pass on the evaluation reports. The only entry point
    /// application code calls once per frame.
    pub fn prepare_frame(
        &mut self,
        compute_stale: &Vec<bool>,
        raster_stale: &Vec<bool>,
        rt_stale: &Vec<bool>,
        compute_results: Vec<Result<Vec<u8>, CompileError>>,
        raster_results: Vec<Result<RasterPipelineShaders, CompileError>>,
        rt_results: Vec<Result<Vec<CompiledShaderGroup>, CompileError>>,
    ) -> (r: Result<(), FramePrepError>)
        requires
            old(self).wf(),
            compute_stale@.len() == old(self).compute_entries@.len(),
            raster_stale@.len() == old(self).raster_entries@.len(),
            rt_stale@.len() == old(self).rt_entries@.len(),
            compute_results@.len() == old(self).compute_entries@.len(),
            raster_results@.len() == old(self).raster_entries@.len(),
            rt_results@.len() == old(self).rt_entries@.len(),
            old(self).next_object_id + old(self).compute_entries@.len()
                + old(self).raster_entries@.len() + old(self).rt_entries@.len() <= u64::MAX,
        ensures
            final(self).wf(),
            prepare_frame_post(
                *old(self),
                *final(self),
                compute_stale@,
                raster_stale@,
                rt_stale@,
                compute_results@,
                raster_results@,
                rt_results@,
                r,
            ),
    {
        let ghost pre = *old(self);
        let ghost cs = compute_stale@;
        let ghost rs = raster_stale@;
        let ghost ts = rt_stale@;
        let ghost cr0 = compute_results@;
        let ghost rr0 = raster_results@;
        let ghost tr0 = rt_results@;
        self.invalidate_stale_pipelines(compute_stale, raster_stale, rt_stale);
        let ghost mid = *self;
        proof {
            assert forall|i: int| 0 <= i < pre.compute_entries@.len() implies (
                mid.compute_entries@[i].pipeline is None) == compute_pending_after_stale(
                pre.compute_entries@[i],
                cs[i],
            ) by {}
            assert forall|i: int| 0 <= i < pre.raster_entries@.len() implies (
                mid.raster_entries@[i].pipeline is None) == raster_pending_after_stale(
                pre.raster_entries@[i],
                rs[i],
            ) by {}
            assert forall|i: int| 0 <= i < pre.rt_entries@.len() implies (
                mid.rt_entries@[i].pipeline is None) == rt_pending_after_stale(
                pre.rt_entries@[i],
                ts[i],
            ) by {}
            assert(any_pending_failure(mid, cr0, rr0, tr0) == any_frame_failure(
                pre,
                cs,
                rs,
                ts,
                cr0,
                rr0,
                tr0,
            ));
        }
        let r = self.parallel_compile_shaders(compute_results, raster_results, rt_results);
        proof {
            let post = *self;
            if any_frame_failure(pre, cs, rs, ts, cr0, rr0, tr0) {
                assert(r is Err);
                assert(names_frame_failure(pre, cs, rs, ts, cr0, rr0, tr0, r->Err_0));
                assert(invalidate_post(pre, post, cs, rs, ts));
            } else {
                assert forall|i: int| 0 <= i < pre.compute_entries@.len() implies
                    compute_entry_prepared(
                    pre.compute_entries@[i],
                    post.compute_entries@[i],
                    cs[i],
                    cr0[i],
                    (pre.next_object_id + i) as u64,
                ) by {
                    assert(compute_entry_compiled(
                        mid.compute_entries@[i],
                        post.compute_entries@[i],
                        cr0[i],
                        (mid.next_object_id + i) as u64,
                    ));
                }
                assert forall|i: int| 0 <= i < pre.raster_entries@.len() implies
                    raster_entry_prepared(
                    pre.raster_entries@[i],
                    post.raster_entries@[i],
                    rs[i],
                    rr0[i],
                    (pre.next_object_id + pre.compute_entries@.len() + i) as u64,
                ) by {
                    assert(raster_entry_compiled(
                        mid.raster_entries@[i],
                        post.raster_entries@[i],
                        rr0[i],
                        (mid.next_object_id + mid.compute_entries@.len() + i) as u64,
                    ));
                }
                assert forall|i: int| 0 <= i < pre.rt_entries@.len() implies rt_entry_prepared(
                    pre.rt_entries@[i],
                    post.rt_entries@[i],
                    ts[i],
                    tr0[i],
                    (pre.next_object_id + pre.compute_entries@.len()
                        + pre.raster_entries@.len() + i) as u64,
                ) by {
                    assert(rt_entry_compiled(
                        mid.rt_entries@[i],
                        post.rt_entries@[i],
                        tr0[i],
                        (mid.next_object_id + mid.compute_entries@.len()
                            + mid.raster_entries@.len() + i) as u64,
                    ));
                }
            }
        }
        r
    }
}

/// Law: registering the same compute description twice returns the same
/// handle, leaves the cache as it was, and schedules no second compilation
/// unit.
pub proof fn lemma_register_compute_idempotent(
    s0: PipelineCache,
    s1: PipelineCache,
    s2: PipelineCache,
    d1: ComputePipelineDesc,
    d2: ComputePipelineDesc,
    h1: ComputePipelineHandle,
    h2: ComputePipelineHandle,
)
    requires
        s0.wf(),
        s1.wf(),
        register_compute_post(s0, s1, d1, h1),
        register_compute_post(s1, s2, d2, h2),
        d1.source@ == d2.source@,
    ensures
        h2 == h1,
        s2.compute_entries@ == s1.compute_entries@,
        s2.raster_entries@ == s1.raster_entries@,
        s2.rt_entries@ == s1.rt_entries@,
        s2.next_object_id == s1.next_object_id,
{
    assert(s1.compute_entries@[h1.0 as int].desc.source@ == d2.source@);
    assert(has_compute_source(s1.compute_entries@, d2.source@));
    assert(s1.compute_entries@[h2.0 as int].desc.source@ == d2.source@);
    if h1.0 < h2.0 {
        assert(s1.compute_entries@[h1.0 as int].desc.source@
            != s1.compute_entries@[h2.0 as int].desc.source@);
    }
    if h2.0 < h1.0 {
        assert(s1.compute_entries@[h2.0 as int].desc.source@
            != s1.compute_entries@[h1.0 as int].desc.source@);
    }
}

/// Law: registering two compute descriptions with distinct sources yields
/// two distinct handles.
pub proof fn lemma_register_compute_distinct(
    s0: PipelineCache,
    s1: PipelineCache,
    s2: PipelineCache,
    d1: ComputePipelineDesc,
    d2: ComputePipelineDesc,
    h1: ComputePipelineHandle,
    h2: ComputePipelineHandle,
)
    requires
        s0.wf(),
        s1.wf(),
        register_compute_post(s0, s1, d1, h1),
        register_compute_post(s1, s2, d2, h2),
        d1.source@ != d2.source@,
    ensures
        h1.0 != h2.0,
{
    assert(s1.compute_entries@[h1.0 as int].desc.source@ == d1.source@);
    if has_compute_source(s1.compute_entries@, d2.source@) {
        assert(s2.compute_entries@[h2.0 as int].desc.source@ == d2.source@);
        assert(s2.compute_entries@ == s1.compute_entries@);
    } else {
        assert(h2.0 == s1.compute_entries@.len());
    }
}

/// Law: registering the same raster shader bundle twice returns the same
/// handle and leaves the cache as it was.
pub proof fn lemma_register_raster_idempotent(
    s0: PipelineCache,
    s1: PipelineCache,
    s2: PipelineCache,
    sh1: RasterPipelineShadersDesc,
    sh2: RasterPipelineShadersDesc,
    d1: RasterPipelineDesc,
    d2: RasterPipelineDesc,
    h1: RasterPipelineHandle,
    h2: RasterPipelineHandle,
)
    requires
        s0.wf(),
        s1.wf(),
        register_raster_post(s0, s1, sh1, d1, h1),
        register_raster_post(s1, s2, sh2, d2, h2),
        sh1@ == sh2@,
    ensures
        h2 == h1,
        s2.compute_entries@ == s1.compute_entries@,
        s2.raster_entries@ == s1.raster_entries@,
        s2.rt_entries@ == s1.rt_entries@,
        s2.next_object_id == s1.next_object_id,
{
    assert(s1.raster_entries@[h1.0 as int].shaders@ == sh2@);
    assert(has_raster_shaders(s1.raster_entries@, sh2@));
    assert(s1.raster_entries@[h2.0 as int].shaders@ == sh2@);
    if h1.0 < h2.0 {
        assert(s1.raster_entries@[h1.0 as int].shaders@
            != s1.raster_entries@[h2.0 as int].shaders@);
    }
    if h2.0 < h1.0 {
        assert(s1.raster_entries@[h2.0 as int].shaders@
            != s1.raster_entries@[h1.0 as int].shaders@);
    }
}

/// Law: registering two distinct raster shader bundles yields two distinct
/// handles.
pub proof fn lemma_register_raster_distinct(
    s0: PipelineCache,
    s1: PipelineCache,
    s2: PipelineCache,
    sh1: RasterPipelineShadersDesc,
    sh2: RasterPipelineShadersDesc,
    d1: RasterPipelineDesc,
    d2: RasterPipelineDesc,
    h1: RasterPipelineHandle,
    h2: RasterPipelineHandle,
)
    requires
        s0.wf(),
        s1.wf(),
        register_raster_post(s0, s1, sh1, d1, h1),
        register_raster_post(s1, s2, sh2, d2, h2),
        sh1@ != sh2@,
    ensures
        h1.0 != h2.0,
{
    assert(s1.raster_entries@[h1.0 as int].shaders@ == sh1@);
    if has_raster_shaders(s1.raster_entries@, sh2@) {
        assert(s2.raster_entries@[h2.0 as int].shaders@ == sh2@);
        assert(s2.raster_entries@ == s1.raster_entries@);
    } else {
        assert(h2.0 == s1.raster_entries@.len());
    }
}

/// Law: registering the same ray-tracing shader-group list twice returns the
/// same handle and leaves the cache as it was.
pub proof fn lemma_register_ray_tracing_idempotent(
    s0: PipelineCache,
    s1: PipelineCache,
    s2: PipelineCache,
    sh1: Seq<ShaderGroupDesc>,
    sh2: Seq<ShaderGroupDesc>,
    d1: RayTracingPipelineDesc,
    d2: RayTracingPipelineDesc,
    h1: RtPipelineHandle,
    h2: RtPipelineHandle,
)
    requires
        s0.wf(),
        s1.wf(),
        register_ray_tracing_post(s0, s1, sh1, d1, h1),
        register_ray_tracing_post(s1, s2, sh2, d2, h2),
        groups_view(sh1) == groups_view(sh2),
    ensures
        h2 == h1,
        s2.compute_entries@ == s1.compute_entries@,
        s2.raster_entries@ == s1.raster_entries@,
        s2.rt_entries@ == s1.rt_entries@,
        s2.next_object_id == s1.next_object_id,
{
    assert(groups_view(s1.rt_entries@[h1.0 as int].shaders@) == groups_view(sh2));
    assert(has_rt_shaders(s1.rt_entries@, groups_view(sh2)));
    assert(groups_view(s1.rt_entries@[h2.0 as int].shaders@) == groups_view(sh2));
    if h1.0 < h2.0 {
        assert(groups_view(s1.rt_entries@[h1.0 as int].shaders@) != groups_view(
            s1.rt_entries@[h2.0 as int].shaders@,
        ));
    }
    if h2.0 < h1.0 {
        assert(groups_view(s1.rt_entries@[h2.0 as int].shaders@) != groups_view(
            s1.rt_entries@[h1.0 as int].shaders@,
        ));
    }
}

/// Law: registering two distinct ray-tracing shader-group lists yields two
/// distinct handles.
pub proof fn lemma_register_ray_tracing_distinct(
    s0: PipelineCache,
    s1: PipelineCache,
    s2: PipelineCache,
    sh1: Seq<ShaderGroupDesc>,
    sh2: Seq<ShaderGroupDesc>,
    d1: RayTracingPipelineDesc,
    d2: RayTracingPipelineDesc,
    h1: RtPipelineHandle,
    h2: RtPipelineHandle,
)
    requires
        s0.wf(),
        s1.wf(),
        register_ray_tracing_post(s0, s1, sh1, d1, h1),
        register_ray_tracing_post(s1, s2, sh2, d2, h2),
        groups_view(sh1) != groups_view(sh2),
    ensures
        h1.0 != h2.0,
{
    assert(groups_view(s1.rt_entries@[h1.0 as int].shaders@) == groups_view(sh1));
    if has_rt_shaders(s1.rt_entries@, groups_view(sh2)) {
        assert(groups_view(s2.rt_entries@[h2.0 as int].shaders@) == groups_view(sh2));
        assert(s2.rt_entries@ == s1.rt_entries@);
    } else {
        assert(h2.0 == s1.rt_entries@.len());
    }
}

} // verus!
