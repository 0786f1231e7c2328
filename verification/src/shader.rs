//! Shader source descriptors: the keys under which pipelines are
//! deduplicated, and the stage bundles that raster and ray-tracing
//! pipelines compile as a unit.

use vstd::prelude::*;

verus! {

/// Where a shader comes from: a native-language entry point compiled by the
/// language backend, or an HLSL source file addressed by path.
#[derive(Debug)]
pub enum ShaderSource {
    Rust { entry: String },
    Hlsl { path: String },
}

/// Mathematical image of a `ShaderSource`: the same shape over `Seq<char>`.
pub enum ShaderSourceView {
    Rust { entry: Seq<char> },
    Hlsl { path: Seq<char> },
}

impl View for ShaderSource {
    type V = ShaderSourceView;

    open spec fn view(&self) -> ShaderSourceView {
        match self {
            ShaderSource::Rust { entry } => ShaderSourceView::Rust { entry: entry@ },
            ShaderSource::Hlsl { path } => ShaderSourceView::Hlsl { path: path@ },
        }
    }
}

impl Clone for ShaderSource {
    fn clone(&self) -> (r: Self)
        ensures
            r == *self,
    {
        match self {
            ShaderSource::Rust { entry } => ShaderSource::Rust { entry: entry.clone() },
            ShaderSource::Hlsl { path } => ShaderSource::Hlsl { path: path.clone() },
        }
    }
}

impl ShaderSource {
    /// An HLSL source file.
    pub fn hlsl(path: &str) -> (s: Self)
        ensures
            s@ == (ShaderSourceView::Hlsl { path: path@ }),
    {
        ShaderSource::Hlsl { path: path.to_owned() }
    }

    /// A native-language entry point.
    pub fn rust(entry: &str) -> (s: Self)
        ensures
            s@ == (ShaderSourceView::Rust { entry: entry@ }),
    {
        ShaderSource::Rust { entry: entry.to_owned() }
    }

    /// Whether two sources describe the same shader.
    pub fn source_eq(&self, other: &ShaderSource) -> (r: bool)
        ensures
            r == (self@ == other@),
    {
        match (self, other) {
            (ShaderSource::Rust { entry: a }, ShaderSource::Rust { entry: b }) => a.eq(b),
            (ShaderSource::Hlsl { path: a }, ShaderSource::Hlsl { path: b }) => a.eq(b),
            _ => false,
        }
    }
}

/// One shader stage of a pipeline.
#[derive(Debug)]
pub struct PipelineShaderDesc {
    pub source: ShaderSource,
}

impl View for PipelineShaderDesc {
    type V = ShaderSourceView;

    open spec fn view(&self) -> ShaderSourceView {
        self.source@
    }
}

impl Clone for PipelineShaderDesc {
    fn clone(&self) -> (r: Self)
        ensures
            r == *self,
    {
        PipelineShaderDesc { source: self.source.clone() }
    }
}

impl PipelineShaderDesc {
    pub fn new(source: ShaderSource) -> (r: Self)
        ensures
            r@ == source@,
    {
        PipelineShaderDesc { source }
    }

    pub fn desc_eq(&self, other: &PipelineShaderDesc) -> (r: bool)
        ensures
            r == (self@ == other@),
    {
        self.source.source_eq(&other.source)
    }
}

/// The two stages a raster pipeline compiles as one unit: the key under
/// which raster pipelines are deduplicated.
#[derive(Debug)]
pub struct RasterPipelineShadersDesc {
    pub vertex: PipelineShaderDesc,
    pub pixel: PipelineShaderDesc,
}

/// Mathematical image of a `RasterPipelineShadersDesc`.
pub struct RasterPipelineShadersDescView {
    pub vertex: ShaderSourceView,
    pub pixel: ShaderSourceView,
}

impl View for RasterPipelineShadersDesc {
    type V = RasterPipelineShadersDescView;

    open spec fn view(&self) -> RasterPipelineShadersDescView {
        RasterPipelineShadersDescView { vertex: self.vertex@, pixel: self.pixel@ }
    }
}

impl Clone for RasterPipelineShadersDesc {
    fn clone(&self) -> (r: Self)
        ensures
            r == *self,
    {
        RasterPipelineShadersDesc { vertex: self.vertex.clone(), pixel: self.pixel.clone() }
    }
}

impl RasterPipelineShadersDesc {
    /// Whether two bundles name the same vertex and pixel shaders.
    pub fn shaders_eq(&self, other: &RasterPipelineShadersDesc) -> (r: bool)
        ensures
            r == (self@ == other@),
    {
        self.vertex.desc_eq(&other.vertex) && self.pixel.desc_eq(&other.pixel)
    }
}

/// The shaders of one ray-tracing hit group, by source.
#[derive(Debug)]
pub struct HitGroupShaderSources {
    pub closest_hit: Option<ShaderSource>,
    pub intersection: Option<ShaderSource>,
}

/// Mathematical image of a `HitGroupShaderSources`.
pub struct HitGroupShaderSourcesView {
    pub closest_hit: Option<ShaderSourceView>,
    pub intersection: Option<ShaderSourceView>,
}

/// Spec image of an optional shader source.
pub open spec fn option_source_view(s: Option<ShaderSource>) -> Option<ShaderSourceView> {
    match s {
        Some(src) => Some(src@),
        None => None,
    }
}

impl View for HitGroupShaderSources {
    type V = HitGroupShaderSourcesView;

    open spec fn view(&self) -> HitGroupShaderSourcesView {
        HitGroupShaderSourcesView {
            closest_hit: option_source_view(self.closest_hit),
            intersection: option_source_view(self.intersection),
        }
    }
}

/// One shader group of a ray-tracing pipeline: the dedup key element and the
/// unit of compilation routing for that pipeline kind.
#[derive(Debug)]
pub enum ShaderGroupDesc {
    RayGen(PipelineShaderDesc),
    Miss(PipelineShaderDesc),
    HitGroup {
        closest_hit: Option<PipelineShaderDesc>,
        intersection: Option<PipelineShaderDesc>,
    },
}

/// Mathematical image of a `ShaderGroupDesc`.
pub enum ShaderGroupDescView {
    RayGen(ShaderSourceView),
    Miss(ShaderSourceView),
    HitGroup {
        closest_hit: Option<ShaderSourceView>,
        intersection: Option<ShaderSourceView>,
    },
}

/// Spec image of an optional stage descriptor.
pub open spec fn option_stage_view(s: Option<PipelineShaderDesc>) -> Option<ShaderSourceView> {
    match s {
        Some(d) => Some(d@),
        None => None,
    }
}

impl View for ShaderGroupDesc {
    type V = ShaderGroupDescView;

    open spec fn view(&self) -> ShaderGroupDescView {
        match self {
            ShaderGroupDesc::RayGen(d) => ShaderGroupDescView::RayGen(d@),
            ShaderGroupDesc::Miss(d) => ShaderGroupDescView::Miss(d@),
            ShaderGroupDesc::HitGroup { closest_hit, intersection } => {
                ShaderGroupDescView::HitGroup {
                    closest_hit: option_stage_view(*closest_hit),
                    intersection: option_stage_view(*intersection),
                }
            },
        }
    }
}

impl Clone for ShaderGroupDesc {
    fn clone(&self) -> (r: Self)
        ensures
            r == *self,
    {
        match self {
            ShaderGroupDesc::RayGen(d) => ShaderGroupDesc::RayGen(d.clone()),
            ShaderGroupDesc::Miss(d) => ShaderGroupDesc::Miss(d.clone()),
            ShaderGroupDesc::HitGroup { closest_hit, intersection } => {
                ShaderGroupDesc::HitGroup {
                    closest_hit: clone_option_stage(closest_hit),
                    intersection: clone_option_stage(intersection),
                }
            },
        }
    }
}

fn clone_option_stage(s: &Option<PipelineShaderDesc>) -> (r: Option<PipelineShaderDesc>)
    ensures
        r == *s,
{
    match s {
        Some(d) => Some(d.clone()),
        None => None,
    }
}

fn option_stage_eq(a: &Option<PipelineShaderDesc>, b: &Option<PipelineShaderDesc>) -> (r: bool)
    ensures
        r == (option_stage_view(*a) == option_stage_view(*b)),
{
    match (a, b) {
        (Some(x), Some(y)) => x.desc_eq(y),
        (None, None) => true,
        _ => false,
    }
}

impl ShaderGroupDesc {
    pub fn group_eq(&self, other: &ShaderGroupDesc) -> (r: bool)
        ensures
            r == (self@ == other@),
    {
        match (self, other) {
            (ShaderGroupDesc::RayGen(a), ShaderGroupDesc::RayGen(b)) => a.desc_eq(b),
            (ShaderGroupDesc::Miss(a), ShaderGroupDesc::Miss(b)) => a.desc_eq(b),
            (
                ShaderGroupDesc::HitGroup { closest_hit: ach, intersection: ai },
                ShaderGroupDesc::HitGroup { closest_hit: bch, intersection: bi },
            ) => option_stage_eq(ach, bch) && option_stage_eq(ai, bi),
            _ => false,
        }
    }
}

/// Spec image of a whole shader-group list.
pub open spec fn groups_view(groups: Seq<ShaderGroupDesc>) -> Seq<ShaderGroupDescView> {
    groups.map_values(|g: ShaderGroupDesc| g@)
}

/// Whether two shader-group lists describe the same ray-tracing shader set.
pub fn shader_groups_eq(a: &Vec<ShaderGroupDesc>, b: &Vec<ShaderGroupDesc>) -> (r: bool)
    ensures
        r == (groups_view(a@) == groups_view(b@)),
{
    if a.len() != b.len() {
        proof {
            assert(groups_view(a@).len() != groups_view(b@).len());
        }
        return false;
    }
    let n = a.len();
    let mut i: usize = 0;
    while i < n
        invariant
            n == a@.len() == b@.len(),
            i <= n,
            forall|j: int| 0 <= j < i ==> groups_view(a@)[j] == groups_view(b@)[j],
        decreases n - i,
    {
        if !a[i].group_eq(&b[i]) {
            proof {
                assert(groups_view(a@)[i as int] != groups_view(b@)[i as int]);
            }
            return false;
        }
        i += 1;
    }
    proof {
        assert(groups_view(a@) =~= groups_view(b@));
    }
    true
}

/// A copy of a shader-group list, group for group.
pub fn clone_shader_groups(groups: &Vec<ShaderGroupDesc>) -> (r: Vec<ShaderGroupDesc>)
    ensures
        r@ == groups@,
{
    let mut out: Vec<ShaderGroupDesc> = Vec::new();
    let n = groups.len();
    let mut i: usize = 0;
    while i < n
        invariant
            n == groups@.len(),
            i <= n,
            out@.len() == i,
            forall|j: int| 0 <= j < i ==> out@[j] == groups@[j],
        decreases n - i,
    {
        out.push(groups[i].clone());
        i += 1;
    }
    proof {
        assert(out@ =~= groups@);
    }
    out
}

} // verus!
