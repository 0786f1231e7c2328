use kajiya::hit_groups::{default_hit_groups, new_rt_with_default_hit_groups};
use kajiya::shader::{ShaderGroupDesc, ShaderSource};

fn source_path(s: &ShaderSource) -> &str {
    match s {
        ShaderSource::Hlsl { path } => path,
        ShaderSource::Rust { entry } => entry,
    }
}

#[test]
fn default_hit_groups_with_geometry() {
    let hgs = default_hit_groups(true);
    assert_eq!(hgs.len(), 2);
    assert_eq!(
        source_path(hgs[0].closest_hit.as_ref().unwrap()),
        "/shaders/rt/gbuffer.rchit.hlsl"
    );
    assert!(hgs[0].intersection.is_none());
    assert_eq!(
        source_path(hgs[1].closest_hit.as_ref().unwrap()),
        "/shaders/default_aabb.rchit.hlsl"
    );
    assert_eq!(
        source_path(hgs[1].intersection.as_ref().unwrap()),
        "/shaders/default_aabb.rint.hlsl"
    );
}

#[test]
fn default_hit_groups_without_geometry() {
    let hgs = default_hit_groups(false);
    assert_eq!(hgs.len(), 2);
    assert!(hgs[0].closest_hit.is_none());
    assert!(hgs[0].intersection.is_none());
    assert!(hgs[1].closest_hit.is_none());
    assert_eq!(
        source_path(hgs[1].intersection.as_ref().unwrap()),
        "/shaders/default_aabb.rint.hlsl"
    );
}

#[test]
fn rt_pass_shader_groups_are_assembled_in_order() {
    let groups = new_rt_with_default_hit_groups(
        ShaderSource::hlsl("/shaders/rt/reference_path_trace.rgen.hlsl"),
        vec![
            ShaderSource::hlsl("/shaders/rt/gbuffer.rmiss.hlsl"),
            ShaderSource::hlsl("/shaders/rt/shadow.rmiss.hlsl"),
        ],
        true,
    );
    assert_eq!(groups.len(), 5);
    match &groups[0] {
        ShaderGroupDesc::RayGen(d) => {
            assert_eq!(source_path(&d.source), "/shaders/rt/reference_path_trace.rgen.hlsl")
        },
        _ => panic!("the first group must be the ray-generation shader"),
    }
    match &groups[1] {
        ShaderGroupDesc::Miss(d) => {
            assert_eq!(source_path(&d.source), "/shaders/rt/gbuffer.rmiss.hlsl")
        },
        _ => panic!("miss shaders follow the ray-generation shader"),
    }
    match &groups[2] {
        ShaderGroupDesc::Miss(d) => {
            assert_eq!(source_path(&d.source), "/shaders/rt/shadow.rmiss.hlsl")
        },
        _ => panic!("miss shaders keep their order"),
    }
    match &groups[3] {
        ShaderGroupDesc::HitGroup { closest_hit, intersection } => {
            assert_eq!(
                source_path(&closest_hit.as_ref().unwrap().source),
                "/shaders/rt/gbuffer.rchit.hlsl"
            );
            assert!(intersection.is_none());
        },
        _ => panic!("the default hit groups close the list"),
    }
    match &groups[4] {
        ShaderGroupDesc::HitGroup { closest_hit, intersection } => {
            assert!(closest_hit.is_some());
            assert!(intersection.is_some());
        },
        _ => panic!("the default hit groups close the list"),
    }
}

#[test]
fn rt_pass_without_hit_groups_uses_empty_slots() {
    let groups = new_rt_with_default_hit_groups(
        ShaderSource::hlsl("/shaders/rt/trace_sun_shadow_mask.rgen.hlsl"),
        vec![
            ShaderSource::hlsl("/shaders/rt/shadow.rmiss.hlsl"),
            ShaderSource::hlsl("/shaders/rt/shadow.rmiss.hlsl"),
        ],
        false,
    );
    assert_eq!(groups.len(), 5);
    match &groups[3] {
        ShaderGroupDesc::HitGroup { closest_hit, intersection } => {
            assert!(closest_hit.is_none());
            assert!(intersection.is_none());
        },
        _ => panic!("the default hit groups close the list"),
    }
}
