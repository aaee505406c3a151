use instanced_material::cache::{CachedPipeline, SpecializedPipelines};
use instanced_material::draw::{DrawError, DrawMeshInstanced, GpuBufferInfo, PassCommand};
use instanced_material::instance::{build_instance_buffer, InstanceDataVec};
use instanced_material::pipeline::{pipeline_key, view_key, AlphaMode, PrimitiveTopology, Tonemapping, ViewKey};
use instanced_material::queue::{
    entity_pipeline_key, phase_of, MaterialInfo, MeshInfo, Phase, PhaseQueues, ResolvedDraw,
};

fn plain_view() -> ViewKey {
    view_key(4, false, None)
}

fn records(n: usize) -> InstanceDataVec<[f32; 4]> {
    let mut v = Vec::new();
    for i in 0..n {
        v.push([i as f32, 0.0, 0.0, 1.0]);
    }
    InstanceDataVec(v)
}

#[test]
fn buffer_holds_every_record_byte() {
    let data = InstanceDataVec(vec![[1.0f32, 2.0, 3.0, 4.0], [5.0, 6.0, 7.0, 8.0], [0.5, 0.25, 0.0, -1.0]]);
    let buffer = build_instance_buffer(&data, "records");
    assert_eq!(buffer.length, 3);
    assert_eq!(buffer.contents.len(), 3 * 16);
    assert_eq!(buffer.label, "records");
    let mut expected = Vec::new();
    for r in &data.0 {
        for x in r {
            expected.extend_from_slice(&x.to_ne_bytes());
        }
    }
    assert_eq!(buffer.contents, expected);
}

#[test]
fn empty_snapshot_gives_empty_buffer() {
    let buffer = build_instance_buffer(&records(0), "records");
    assert_eq!(buffer.length, 0);
    assert!(buffer.contents.is_empty());
}

#[test]
fn extraction_copies_records_in_order() {
    let data = records(4);
    let copy = InstanceDataVec::extract_component(&data).unwrap();
    assert_eq!(copy.0, data.0);
}

#[test]
fn view_key_without_tonemapping() {
    let k = view_key(4, false, None);
    assert_eq!(k, ViewKey { msaa_samples: 4, hdr: false, tonemap_in_shader: false, deband_dither: false });
    let k = view_key(1, false, Some(Tonemapping::Disabled));
    assert_eq!(k, ViewKey { msaa_samples: 1, hdr: false, tonemap_in_shader: false, deband_dither: false });
}

#[test]
fn view_key_tonemaps_in_shader_only_without_hdr() {
    let k = view_key(4, false, Some(Tonemapping::Enabled { deband_dither: true }));
    assert_eq!(k, ViewKey { msaa_samples: 4, hdr: false, tonemap_in_shader: true, deband_dither: true });
    let k = view_key(4, false, Some(Tonemapping::Enabled { deband_dither: false }));
    assert_eq!(k, ViewKey { msaa_samples: 4, hdr: false, tonemap_in_shader: true, deband_dither: false });
    let k = view_key(4, true, Some(Tonemapping::Enabled { deband_dither: true }));
    assert_eq!(k, ViewKey { msaa_samples: 4, hdr: true, tonemap_in_shader: false, deband_dither: false });
}

#[test]
fn equal_inputs_give_equal_keys() {
    let a = pipeline_key(plain_view(), PrimitiveTopology::TriangleList, 0, 9, AlphaMode::Opaque);
    let b = pipeline_key(plain_view(), PrimitiveTopology::TriangleList, 0, 9, AlphaMode::Opaque);
    assert_eq!(a, b);
}

#[test]
fn blend_flag_separates_keys() {
    let opaque = pipeline_key(plain_view(), PrimitiveTopology::TriangleList, 0, 9, AlphaMode::Opaque);
    let mask = pipeline_key(plain_view(), PrimitiveTopology::TriangleList, 0, 9, AlphaMode::Mask);
    let blend = pipeline_key(plain_view(), PrimitiveTopology::TriangleList, 0, 9, AlphaMode::Blend);
    assert_ne!(opaque, blend);
    assert_eq!(opaque, mask);
    assert!(blend.mesh.transparent);
    assert!(!opaque.mesh.transparent);
}

#[test]
fn keys_differ_by_topology_and_material() {
    let a = pipeline_key(plain_view(), PrimitiveTopology::TriangleList, 0, 9, AlphaMode::Opaque);
    let b = pipeline_key(plain_view(), PrimitiveTopology::LineList, 0, 9, AlphaMode::Opaque);
    let c = pipeline_key(plain_view(), PrimitiveTopology::TriangleList, 0, 10, AlphaMode::Opaque);
    assert_ne!(a, b);
    assert_ne!(a, c);
}

#[test]
fn vertex_layouts_separate_keys_and_pipelines() {
    let a = pipeline_key(plain_view(), PrimitiveTopology::TriangleList, 1, 9, AlphaMode::Opaque);
    let b = pipeline_key(plain_view(), PrimitiveTopology::TriangleList, 2, 9, AlphaMode::Opaque);
    assert_ne!(a, b);
    assert_eq!(a.mesh.layout, 1);
    let mut cache: SpecializedPipelines<u32> = SpecializedPipelines::new();
    cache.record(a, CachedPipeline::Failed);
    assert_eq!(cache.get(&b), None);
    assert_eq!(cache.record(b, CachedPipeline::Compiled(3)), CachedPipeline::Compiled(3));
    assert_eq!(cache.get(&a), Some(CachedPipeline::Failed));
}

#[test]
fn missing_assets_skip_the_entity() {
    let material = MaterialInfo { alpha_mode: AlphaMode::Opaque, key: 3 };
    let mesh = MeshInfo { topology: PrimitiveTopology::TriangleList, layout: 8 };
    assert_eq!(entity_pipeline_key(plain_view(), None, Some(mesh)), None);
    assert_eq!(entity_pipeline_key(plain_view(), Some(material), None), None);
    let k = entity_pipeline_key(plain_view(), Some(material), Some(mesh));
    assert_eq!(k, Some(pipeline_key(plain_view(), PrimitiveTopology::TriangleList, 8, 3, AlphaMode::Opaque)));
}

#[test]
fn cache_returns_the_handle_it_kept() {
    let key = pipeline_key(plain_view(), PrimitiveTopology::TriangleList, 0, 1, AlphaMode::Opaque);
    let mut cache: SpecializedPipelines<u32> = SpecializedPipelines::new();
    assert_eq!(cache.get(&key), None);
    assert_eq!(cache.record(key, CachedPipeline::Compiled(7)), CachedPipeline::Compiled(7));
    assert_eq!(cache.get(&key), Some(CachedPipeline::Compiled(7)));
    assert_eq!(cache.get(&key), Some(CachedPipeline::Compiled(7)));
}

#[test]
fn racing_records_keep_the_first_handle() {
    let key = pipeline_key(plain_view(), PrimitiveTopology::TriangleList, 0, 1, AlphaMode::Opaque);
    let mut cache: SpecializedPipelines<u32> = SpecializedPipelines::new();
    let mut seen = Vec::new();
    for h in [11u32, 12, 13, 14] {
        seen.push(cache.record(key, CachedPipeline::Compiled(h)));
    }
    assert!(seen.iter().all(|s| *s == CachedPipeline::Compiled(11)));
    assert_eq!(cache.get(&key), Some(CachedPipeline::Compiled(11)));
}

#[test]
fn opaque_and_blend_keys_keep_separate_handles() {
    let opaque = pipeline_key(plain_view(), PrimitiveTopology::TriangleList, 0, 1, AlphaMode::Opaque);
    let blend = pipeline_key(plain_view(), PrimitiveTopology::TriangleList, 0, 1, AlphaMode::Blend);
    let mut cache: SpecializedPipelines<u32> = SpecializedPipelines::new();
    cache.record(opaque, CachedPipeline::Compiled(1));
    cache.record(blend, CachedPipeline::Compiled(2));
    assert_eq!(cache.get(&opaque), Some(CachedPipeline::Compiled(1)));
    assert_eq!(cache.get(&blend), Some(CachedPipeline::Compiled(2)));
}

#[test]
fn failures_are_kept_until_cleared() {
    let good = pipeline_key(plain_view(), PrimitiveTopology::TriangleList, 0, 1, AlphaMode::Opaque);
    let bad = pipeline_key(plain_view(), PrimitiveTopology::PointList, 0, 1, AlphaMode::Opaque);
    let mut cache: SpecializedPipelines<u32> = SpecializedPipelines::new();
    cache.record(good, CachedPipeline::Compiled(5));
    assert_eq!(cache.record(bad, CachedPipeline::Failed), CachedPipeline::Failed);
    assert_eq!(cache.record(bad, CachedPipeline::Compiled(6)), CachedPipeline::Failed);
    cache.clear_failures();
    assert_eq!(cache.get(&bad), None);
    assert_eq!(cache.get(&good), Some(CachedPipeline::Compiled(5)));
    assert_eq!(cache.record(bad, CachedPipeline::Compiled(6)), CachedPipeline::Compiled(6));
}

#[test]
fn phases_follow_alpha_mode() {
    assert_eq!(phase_of(AlphaMode::Opaque), Phase::Opaque);
    assert_eq!(phase_of(AlphaMode::Mask), Phase::AlphaMask);
    assert_eq!(phase_of(AlphaMode::Blend), Phase::Transparent);
}

fn draw(alpha_mode: AlphaMode, pipeline: CachedPipeline<u32>) -> ResolvedDraw<u32, u32, f32> {
    ResolvedDraw { entity: 1, alpha_mode, pipeline, distance: 2.5 }
}

#[test]
fn each_draw_lands_in_exactly_one_queue() {
    for (mode, expected) in [(AlphaMode::Opaque, 0usize), (AlphaMode::Mask, 1), (AlphaMode::Blend, 2)] {
        let mut queues: PhaseQueues<u32, u32, f32> = PhaseQueues::new();
        assert!(queues.queue_draw(draw(mode, CachedPipeline::Compiled(4))));
        let lens = [queues.opaque.len(), queues.alpha_mask.len(), queues.transparent.len()];
        for (i, l) in lens.iter().enumerate() {
            assert_eq!(*l, if i == expected { 1 } else { 0 });
        }
    }
}

#[test]
fn failed_pipeline_skips_only_that_draw() {
    let mut queues: PhaseQueues<u32, u32, f32> = PhaseQueues::new();
    let draws = vec![
        ResolvedDraw { entity: 1, alpha_mode: AlphaMode::Opaque, pipeline: CachedPipeline::Compiled(4), distance: 1.0 },
        ResolvedDraw { entity: 2, alpha_mode: AlphaMode::Opaque, pipeline: CachedPipeline::Failed, distance: 2.0 },
        ResolvedDraw { entity: 3, alpha_mode: AlphaMode::Opaque, pipeline: CachedPipeline::Compiled(4), distance: 3.0 },
        ResolvedDraw { entity: 4, alpha_mode: AlphaMode::Blend, pipeline: CachedPipeline::Compiled(5), distance: 4.0 },
    ];
    queues.queue_draws(&draws);
    let opaque: Vec<u32> = queues.opaque.iter().map(|d| d.entity).collect();
    assert_eq!(opaque, vec![1, 3]);
    assert_eq!(queues.opaque[1].distance, 3.0);
    assert_eq!(queues.transparent.len(), 1);
    assert_eq!(queues.transparent[0].pipeline, 5);
    assert!(queues.alpha_mask.is_empty());
}

#[test]
fn indexed_mesh_draws_indexed() {
    let r = DrawMeshInstanced::render(Some(GpuBufferInfo::Indexed { count: 36 }), 5);
    assert_eq!(
        r,
        Ok(vec![
            PassCommand::SetMeshVertexBuffer { slot: 0 },
            PassCommand::SetInstanceBuffer { slot: 1 },
            PassCommand::SetMeshIndexBuffer,
            PassCommand::DrawIndexed { index_count: 36, instance_count: 5 },
        ])
    );
}

#[test]
fn non_indexed_mesh_draws_vertices() {
    let r = DrawMeshInstanced::render(Some(GpuBufferInfo::NonIndexed { vertex_count: 24 }), 3);
    assert_eq!(
        r,
        Ok(vec![
            PassCommand::SetMeshVertexBuffer { slot: 0 },
            PassCommand::SetInstanceBuffer { slot: 1 },
            PassCommand::Draw { vertex_count: 24, instance_count: 3 },
        ])
    );
}

#[test]
fn missing_mesh_fails_the_draw() {
    assert_eq!(DrawMeshInstanced::render(None, 3), Err(DrawError::MissingMeshRecord));
}

fn drawn_instances(commands: &[PassCommand]) -> Vec<u32> {
    commands
        .iter()
        .filter_map(|c| match c {
            PassCommand::DrawIndexed { instance_count, .. } => Some(*instance_count),
            PassCommand::Draw { instance_count, .. } => Some(*instance_count),
            _ => None,
        })
        .collect()
}

fn run_frame(
    snapshot: &InstanceDataVec<[f32; 4]>,
    mesh: GpuBufferInfo,
    alpha_mode: AlphaMode,
) -> (PhaseQueues<u32, u32, f32>, Vec<PassCommand>) {
    let buffer = build_instance_buffer(snapshot, "records");
    let material = MaterialInfo { alpha_mode, key: 0 };
    let mesh_info = MeshInfo { topology: PrimitiveTopology::TriangleList, layout: 2 };
    let key = entity_pipeline_key(plain_view(), Some(material), Some(mesh_info)).unwrap();
    let mut cache: SpecializedPipelines<u32> = SpecializedPipelines::new();
    let pipeline = match cache.get(&key) {
        Some(p) => p,
        None => cache.record(key, CachedPipeline::Compiled(1)),
    };
    let mut queues = PhaseQueues::new();
    queues.queue_draw(ResolvedDraw { entity: 42, alpha_mode, pipeline, distance: 10.0 });
    let commands = DrawMeshInstanced::render(Some(mesh), buffer.length).unwrap();
    (queues, commands)
}

#[test]
fn indexed_entity_draws_once_with_its_records() {
    let (queues, commands) = run_frame(&records(5), GpuBufferInfo::Indexed { count: 36 }, AlphaMode::Opaque);
    assert_eq!(queues.opaque.len(), 1);
    assert_eq!(queues.opaque[0].entity, 42);
    assert!(queues.alpha_mask.is_empty() && queues.transparent.is_empty());
    let draws: Vec<&PassCommand> = commands
        .iter()
        .filter(|c| matches!(c, PassCommand::DrawIndexed { .. } | PassCommand::Draw { .. }))
        .collect();
    assert_eq!(draws, vec![&PassCommand::DrawIndexed { index_count: 36, instance_count: 5 }]);
}

#[test]
fn empty_snapshot_draws_no_instances() {
    let (_, commands) = run_frame(&records(0), GpuBufferInfo::Indexed { count: 36 }, AlphaMode::Opaque);
    assert!(drawn_instances(&commands).iter().all(|n| *n == 0));
    let (_, commands) = run_frame(&records(0), GpuBufferInfo::NonIndexed { vertex_count: 3 }, AlphaMode::Blend);
    assert!(drawn_instances(&commands).iter().all(|n| *n == 0));
}
