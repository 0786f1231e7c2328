use kajiya::pipeline_cache::{
    CompileError, ComputePipelineDesc, PipelineCache, PipelineKind, RasterPipelineDesc,
    RasterPipelineShaders, RayTracingPipelineDesc,
};
use kajiya::shader::{PipelineShaderDesc, RasterPipelineShadersDesc, ShaderGroupDesc, ShaderSource};

fn compute_desc(path: &str) -> ComputePipelineDesc {
    ComputePipelineDesc { source: ShaderSource::hlsl(path), push_constants_bytes: 0 }
}

fn raster_shaders(vs: &str, ps: &str) -> RasterPipelineShadersDesc {
    RasterPipelineShadersDesc {
        vertex: PipelineShaderDesc::new(ShaderSource::hlsl(vs)),
        pixel: PipelineShaderDesc::new(ShaderSource::hlsl(ps)),
    }
}

fn rt_groups(rgen: &str) -> Vec<ShaderGroupDesc> {
    vec![
        ShaderGroupDesc::RayGen(PipelineShaderDesc::new(ShaderSource::hlsl(rgen))),
        ShaderGroupDesc::Miss(PipelineShaderDesc::new(ShaderSource::hlsl("/shaders/m.hlsl"))),
    ]
}

fn all_fresh(cache: &PipelineCache) -> (Vec<bool>, Vec<bool>, Vec<bool>) {
    (
        vec![false; cache.compute_entries.len()],
        vec![false; cache.raster_entries.len()],
        vec![false; cache.rt_entries.len()],
    )
}

fn ok_compute(cache: &PipelineCache, byte: u8) -> Vec<Result<Vec<u8>, CompileError>> {
    (0..cache.compute_entries.len()).map(|i| Ok(vec![byte, i as u8])).collect()
}

fn ok_raster(cache: &PipelineCache) -> Vec<Result<RasterPipelineShaders, CompileError>> {
    (0..cache.raster_entries.len())
        .map(|i| Ok(RasterPipelineShaders { vertex_spirv: vec![1, i as u8], pixel_spirv: vec![2] }))
        .collect()
}

fn ok_rt(
    cache: &PipelineCache,
) -> Vec<Result<Vec<kajiya::pipeline_cache::CompiledShaderGroup>, CompileError>> {
    (0..cache.rt_entries.len())
        .map(|_| Ok(vec![kajiya::pipeline_cache::CompiledShaderGroup::RayGen(vec![9])]))
        .collect()
}

#[test]
fn register_compute_is_idempotent() {
    let mut cache = PipelineCache::new();
    let h1 = cache.register_compute(&compute_desc("/shaders/a.hlsl"));
    let h2 = cache.register_compute(&compute_desc("/shaders/a.hlsl"));
    assert_eq!(h1, h2);
    assert_eq!(cache.compute_entries.len(), 1);
}

#[test]
fn register_compute_distinct_sources_get_distinct_handles() {
    let mut cache = PipelineCache::new();
    let h1 = cache.register_compute(&compute_desc("/shaders/a.hlsl"));
    let h2 = cache.register_compute(&compute_desc("/shaders/b.hlsl"));
    assert_ne!(h1, h2);
    assert_eq!(cache.compute_entries.len(), 2);
}

#[test]
fn register_raster_is_idempotent() {
    let mut cache = PipelineCache::new();
    let desc = RasterPipelineDesc { face_cull: true, push_constants_bytes: 0 };
    let h1 = cache.register_raster(&raster_shaders("/shaders/v.hlsl", "/shaders/p.hlsl"), &desc);
    let h2 = cache.register_raster(&raster_shaders("/shaders/v.hlsl", "/shaders/p.hlsl"), &desc);
    assert_eq!(h1, h2);
    assert_eq!(cache.raster_entries.len(), 1);
}

#[test]
fn register_ray_tracing_is_idempotent() {
    let mut cache = PipelineCache::new();
    let desc = RayTracingPipelineDesc { max_pipeline_ray_recursion_depth: 1 };
    let h1 = cache.register_ray_tracing(&rt_groups("/shaders/r.rgen.hlsl"), &desc);
    let h2 = cache.register_ray_tracing(&rt_groups("/shaders/r.rgen.hlsl"), &desc);
    assert_eq!(h1, h2);
    assert_eq!(cache.rt_entries.len(), 1);
    let h3 = cache.register_ray_tracing(&rt_groups("/shaders/other.rgen.hlsl"), &desc);
    assert_ne!(h1, h3);
}

#[test]
fn prepare_frame_materializes_registered_pipelines() {
    let mut cache = PipelineCache::new();
    let h = cache.register_compute(&compute_desc("/shaders/a.hlsl"));
    let (cs, rs, ts) = all_fresh(&cache);
    let results = ok_compute(&cache, 7);
    cache
        .prepare_frame(&cs, &rs, &ts, results, ok_raster(&cache), ok_rt(&cache))
        .expect("compile pass");
    let p = cache.get_compute(h);
    assert_eq!(p.spirv, vec![7, 0]);
}

#[test]
fn stale_entry_is_recompiled_under_a_new_object() {
    let mut cache = PipelineCache::new();
    let h = cache.register_compute(&compute_desc("/shaders/a.hlsl"));
    let (cs, rs, ts) = all_fresh(&cache);
    cache
        .prepare_frame(&cs, &rs, &ts, ok_compute(&cache, 1), ok_raster(&cache), ok_rt(&cache))
        .expect("first pass");
    let first_id = cache.get_compute(h).object_id;

    // the source changed on disk: its unit reports stale
    let stale = vec![true];
    cache
        .prepare_frame(&stale, &rs, &ts, ok_compute(&cache, 2), ok_raster(&cache), ok_rt(&cache))
        .expect("second pass");
    let rebuilt = cache.get_compute(h);
    assert_ne!(rebuilt.object_id, first_id);
    assert_eq!(rebuilt.spirv, vec![2, 0]);
}

#[test]
fn fresh_entry_is_never_recompiled() {
    let mut cache = PipelineCache::new();
    let h = cache.register_compute(&compute_desc("/shaders/a.hlsl"));
    let (cs, rs, ts) = all_fresh(&cache);
    cache
        .prepare_frame(&cs, &rs, &ts, ok_compute(&cache, 1), ok_raster(&cache), ok_rt(&cache))
        .expect("first pass");
    let first_id = cache.get_compute(h).object_id;
    cache
        .prepare_frame(&cs, &rs, &ts, ok_compute(&cache, 2), ok_raster(&cache), ok_rt(&cache))
        .expect("second pass");
    let kept = cache.get_compute(h);
    assert_eq!(kept.object_id, first_id);
    assert_eq!(kept.spirv, vec![1, 0]);
}

#[test]
fn one_failed_compile_fails_the_whole_pass() {
    let mut cache = PipelineCache::new();
    let _h1 = cache.register_compute(&compute_desc("/shaders/a.hlsl"));
    let _h2 = cache.register_compute(&compute_desc("/shaders/b.hlsl"));
    let (cs, rs, ts) = all_fresh(&cache);
    let results: Vec<Result<Vec<u8>, CompileError>> = vec![
        Ok(vec![1]),
        Err(CompileError { message: String::from("syntax error") }),
    ];
    let err = cache
        .prepare_frame(&cs, &rs, &ts, results, ok_raster(&cache), ok_rt(&cache))
        .expect_err("the pass must fail");
    assert_eq!(err.kind, PipelineKind::Compute);
    assert_eq!(err.handle_index, 1);
    assert_eq!(err.message, "syntax error");
    // zero new pipeline objects were constructed; both entries stay pending
    assert!(cache.compute_entries.iter().all(|e| e.pipeline.is_none()));

    // the next pass retries both and succeeds
    cache
        .prepare_frame(&cs, &rs, &ts, ok_compute(&cache, 3), ok_raster(&cache), ok_rt(&cache))
        .expect("retry pass");
    assert!(cache.compute_entries.iter().all(|e| e.pipeline.is_some()));
}

#[test]
fn all_three_kinds_compile_in_one_pass() {
    let mut cache = PipelineCache::new();
    let hc = cache.register_compute(&compute_desc("/shaders/a.hlsl"));
    let hr = cache.register_raster(
        &raster_shaders("/shaders/v.hlsl", "/shaders/p.hlsl"),
        &RasterPipelineDesc { face_cull: false, push_constants_bytes: 4 },
    );
    let ht = cache.register_ray_tracing(
        &rt_groups("/shaders/r.rgen.hlsl"),
        &RayTracingPipelineDesc { max_pipeline_ray_recursion_depth: 2 },
    );
    let (cs, rs, ts) = all_fresh(&cache);
    cache
        .prepare_frame(&cs, &rs, &ts, ok_compute(&cache, 5), ok_raster(&cache), ok_rt(&cache))
        .expect("compile pass");
    let pc = cache.get_compute(hc).object_id;
    let pr = cache.get_raster(hr).object_id;
    let pt = cache.get_ray_tracing(ht).object_id;
    assert_ne!(pc, pr);
    assert_ne!(pr, pt);
    assert_ne!(pc, pt);
    assert_eq!(cache.get_raster(hr).shaders.vertex_spirv, vec![1, 0]);
}

#[test]
fn an_empty_cache_prepares_trivially() {
    let mut cache = PipelineCache::new();
    let (cs, rs, ts) = all_fresh(&cache);
    cache
        .prepare_frame(&cs, &rs, &ts, Vec::new(), Vec::new(), Vec::new())
        .expect("nothing to compile");
    assert_eq!(cache.compute_entries.len(), 0);
}
