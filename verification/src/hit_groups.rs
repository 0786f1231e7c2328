//! The default hit groups a ray-tracing pass is assembled with, and the
//! assembly of a full shader-group list from a ray-generation shader, miss
//! shaders and those defaults.

use vstd::prelude::*;

use crate::shader::{
    HitGroupShaderSources, HitGroupShaderSourcesView, PipelineShaderDesc, ShaderGroupDesc,
    ShaderGroupDescView, ShaderSource, ShaderSourceView, groups_view, option_source_view,
};

verus! {

/// The two hit groups every ray-tracing pass carries: with real geometry,
/// the triangle closest-hit shader and the procedural-box pair; without,
/// empty slots beside the procedural-box intersection shader.
pub open spec fn default_hit_group_sources(has_hit_groups: bool) -> Seq<
    HitGroupShaderSourcesView,
> {
    if has_hit_groups {
        seq![
            HitGroupShaderSourcesView {
                closest_hit: Some(
                    ShaderSourceView::Hlsl { path: "/shaders/rt/gbuffer.rchit.hlsl"@ },
                ),
                intersection: None,
            },
            HitGroupShaderSourcesView {
                closest_hit: Some(
                    ShaderSourceView::Hlsl { path: "/shaders/default_aabb.rchit.hlsl"@ },
                ),
                intersection: Some(
                    ShaderSourceView::Hlsl { path: "/shaders/default_aabb.rint.hlsl"@ },
                ),
            },
        ]
    } else {
        seq![
            HitGroupShaderSourcesView { closest_hit: None, intersection: None },
            HitGroupShaderSourcesView {
                closest_hit: None,
                intersection: Some(
                    ShaderSourceView::Hlsl { path: "/shaders/default_aabb.rint.hlsl"@ },
                ),
            },
        ]
    }
}

/// The default hit groups, as source descriptors.
pub fn default_hit_groups(has_hit_groups: bool) -> (r: Vec<HitGroupShaderSources>)
    ensures
        r@.len() == 2,
        r@[0]@ == default_hit_group_sources(has_hit_groups)[0],
        r@[1]@ == default_hit_group_sources(has_hit_groups)[1],
{
    let mut r: Vec<HitGroupShaderSources> = Vec::new();
    if has_hit_groups {
        r.push(
            HitGroupShaderSources {
                closest_hit: Some(ShaderSource::hlsl("/shaders/rt/gbuffer.rchit.hlsl")),
                intersection: None,
            },
        );
        r.push(
            HitGroupShaderSources {
                closest_hit: Some(ShaderSource::hlsl("/shaders/default_aabb.rchit.hlsl")),
                intersection: Some(ShaderSource::hlsl("/shaders/default_aabb.rint.hlsl")),
            },
        );
    } else {
        r.push(HitGroupShaderSources { closest_hit: None, intersection: None });
        r.push(
            HitGroupShaderSources {
                closest_hit: None,
                intersection: Some(ShaderSource::hlsl("/shaders/default_aabb.rint.hlsl")),
            },
        );
    }
    r
}

/// Wraps an optional shader source as an optional pipeline stage.
fn stage_of_source(s: Option<ShaderSource>) -> (r: Option<PipelineShaderDesc>)
    ensures
        crate::shader::option_stage_view(r) == option_source_view(s),
{
    match s {
        Some(src) => Some(PipelineShaderDesc::new(src)),
        None => None,
    }
}

/// The shader-group list of a ray-tracing pass built with the default hit
/// groups: the ray-generation shader, then the miss shaders in order, then
/// the two default hit groups.
#[verifier::loop_isolation(false)]
pub fn new_rt_with_default_hit_groups(
    rgen: ShaderSource,
    miss: Vec<ShaderSource>,
    has_hit_groups: bool,
) -> (r: Vec<ShaderGroupDesc>)
    requires
        miss@.len() <= usize::MAX - 3,
    ensures
        r@.len() == miss@.len() + 3,
        groups_view(r@)[0] == ShaderGroupDescView::RayGen(rgen@),
        forall|i: int|
            0 <= i < miss@.len() ==> groups_view(r@)[1 + i] == ShaderGroupDescView::Miss(
                miss@[i]@,
            ),
        groups_view(r@)[miss@.len() as int + 1] == (ShaderGroupDescView::HitGroup {
            closest_hit: default_hit_group_sources(has_hit_groups)[0].closest_hit,
            intersection: default_hit_group_sources(has_hit_groups)[0].intersection,
        }),
        groups_view(r@)[miss@.len() as int + 2] == (ShaderGroupDescView::HitGroup {
            closest_hit: default_hit_group_sources(has_hit_groups)[1].closest_hit,
            intersection: default_hit_group_sources(has_hit_groups)[1].intersection,
        }),
{
    let mut groups: Vec<ShaderGroupDesc> = Vec::new();
    groups.push(ShaderGroupDesc::RayGen(PipelineShaderDesc::new(rgen)));
    let n = miss.len();
    let mut i: usize = 0;
    while i < n
        invariant
            i <= n,
            n == miss@.len(),
            groups@.len() == 1 + i,
            groups_view(groups@)[0] == ShaderGroupDescView::RayGen(rgen@),
            forall|j: int|
                0 <= j < i ==> groups_view(groups@)[1 + j] == ShaderGroupDescView::Miss(
                    miss@[j]@,
                ),
        decreases n - i,
    {
        groups.push(ShaderGroupDesc::Miss(PipelineShaderDesc::new(miss[i].clone())));
        i += 1;
    }
    let mut hgs = default_hit_groups(has_hit_groups);
    let second = hgs.pop().unwrap();
    let first = hgs.pop().unwrap();
    groups.push(
        ShaderGroupDesc::HitGroup {
            closest_hit: stage_of_source(first.closest_hit),
            intersection: stage_of_source(first.intersection),
        },
    );
    groups.push(
        ShaderGroupDesc::HitGroup {
            closest_hit: stage_of_source(second.closest_hit),
            intersection: stage_of_source(second.intersection),
        },
    );
    groups
}

} // verus!
