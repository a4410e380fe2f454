use bevy_mod_fxaa::node::{
    BindGroupSource, BlitPass, FilterMode, FxaaNode, PostProcessWrite, SlotType, Stage,
    TextureViewId, ViewRecord, ViewTarget,
};
use bevy_mod_fxaa::pipeline::{CompiledPipelines, PipelineVariant, TextureFormat};
use bevy_mod_fxaa::settings::{Quality, FXAA};

const A: TextureViewId = TextureViewId(10);
const B: TextureViewId = TextureViewId(11);
const C: TextureViewId = TextureViewId(12);

fn all_compiled() -> CompiledPipelines {
    CompiledPipelines { fxaa_ldr: true, fxaa_hdr: true, to_ldr: true, blit: true }
}

fn none_compiled() -> CompiledPipelines {
    CompiledPipelines { fxaa_ldr: false, fxaa_hdr: false, to_ldr: false, blit: false }
}

fn record(hdr: bool, enabled: bool, pipelines: CompiledPipelines) -> ViewRecord {
    ViewRecord {
        target: ViewTarget::new(A, B, hdr),
        pipelines,
        fxaa: FXAA { enabled, edge_threshold: Quality::High, edge_threshold_min: Quality::High },
    }
}

fn pass(
    stage: Stage,
    pipeline: PipelineVariant,
    source: TextureViewId,
    destination: TextureViewId,
    bind_group: BindGroupSource,
) -> BlitPass {
    BlitPass { stage, pipeline, source, destination, bind_group, vertices: 3, instances: 1 }
}

fn created(passes: &[BlitPass]) -> usize {
    passes.iter().filter(|pass| pass.bind_group == BindGroupSource::Created).count()
}

#[test]
fn new_node_caches_nothing() {
    assert_eq!(FxaaNode::new().cached_source(), None);
}

#[test]
fn node_has_one_entity_input_slot() {
    let slots = FxaaNode::new().input();
    assert_eq!(slots.len(), 1);
    assert_eq!(slots[0].name, "view");
    assert_eq!(slots[0].name, FxaaNode::IN_VIEW);
    assert_eq!(slots[0].slot_type, SlotType::Entity);
}

#[test]
fn sampler_is_linear() {
    let sampler = FxaaNode::sampler();
    assert_eq!(sampler.mag_filter, FilterMode::Linear);
    assert_eq!(sampler.min_filter, FilterMode::Linear);
    assert_eq!(sampler.mipmap_filter, FilterMode::Linear);
}

#[test]
fn stage_labels() {
    assert_eq!(Stage::ToLdr.label(), "fxaa_to_ldr_pass");
    assert_eq!(Stage::Fxaa.label(), "fxaa_pass");
}

#[test]
fn post_process_write_swaps_the_textures() {
    let mut target = ViewTarget::new(A, B, true);
    assert!(target.is_hdr());
    let first = target.post_process_write();
    assert_eq!(first, PostProcessWrite { source: A, destination: B });
    assert_eq!(target, ViewTarget { main_texture: B, next_texture: A, hdr: true });
    let second = target.post_process_write();
    assert_eq!(second, PostProcessWrite { source: B, destination: A });
    assert_eq!(target, ViewTarget::new(A, B, true));
}

#[test]
fn bind_group_is_created_on_first_use_and_reused_after() {
    let mut node = FxaaNode::new();
    assert_eq!(node.bind_group(A), BindGroupSource::Created);
    assert_eq!(node.cached_source(), Some(A));
    assert_eq!(node.bind_group(A), BindGroupSource::Cached);
    assert_eq!(node.cached_source(), Some(A));
}

#[test]
fn bind_group_is_replaced_when_the_source_changes() {
    let mut node = FxaaNode::new();
    assert_eq!(node.bind_group(A), BindGroupSource::Created);
    assert_eq!(node.bind_group(B), BindGroupSource::Created);
    assert_eq!(node.cached_source(), Some(B));
    // No history is kept: going back to the first source creates again.
    assert_eq!(node.bind_group(A), BindGroupSource::Created);
    assert_eq!(node.cached_source(), Some(A));
}

#[test]
fn missing_view_is_a_no_op() {
    let mut node = FxaaNode::new();
    assert_eq!(node.run(None), vec![]);
    assert_eq!(node.cached_source(), None);
    node.bind_group(C);
    assert_eq!(node.run(None), vec![]);
    assert_eq!(node.cached_source(), Some(C));
}

#[test]
fn disabled_view_runs_no_pass() {
    for hdr in [false, true] {
        for pipelines in [all_compiled(), none_compiled()] {
            let mut node = FxaaNode::new();
            assert_eq!(node.run(Some(&record(hdr, false, pipelines))), vec![]);
            assert_eq!(node.cached_source(), None);
        }
    }
}

#[test]
fn disabled_view_keeps_the_cache() {
    let mut node = FxaaNode::new();
    node.bind_group(C);
    assert_eq!(node.run(Some(&record(true, false, all_compiled()))), vec![]);
    assert_eq!(node.cached_source(), Some(C));
}

#[test]
fn hdr_view_runs_to_ldr_then_fxaa() {
    let mut node = FxaaNode::new();
    let passes = node.run(Some(&record(true, true, all_compiled())));
    assert_eq!(
        passes,
        vec![
            pass(Stage::ToLdr, PipelineVariant::ToLdr, A, B, BindGroupSource::Created),
            pass(Stage::Fxaa, PipelineVariant::FxaaHdr, B, A, BindGroupSource::Created),
        ]
    );
    // The final stage reads what the first one wrote, and no pass writes what it reads.
    assert_eq!(passes[1].source, passes[0].destination);
    for pass in &passes {
        assert_ne!(pass.destination, pass.source);
    }
    // Both stages write the format of the view.
    assert_eq!(passes[0].pipeline.format(), TextureFormat::Hdr);
    assert_eq!(passes[1].pipeline.format(), TextureFormat::of_view(true));
    assert_eq!(node.cached_source(), Some(B));
}

#[test]
fn sdr_view_runs_fxaa_alone() {
    let mut node = FxaaNode::new();
    let passes = node.run(Some(&record(false, true, all_compiled())));
    assert_eq!(
        passes,
        vec![pass(Stage::Fxaa, PipelineVariant::FxaaLdr, A, B, BindGroupSource::Created)]
    );
    assert_eq!(passes[0].pipeline.format(), TextureFormat::DisplayDefault);
    assert_eq!(node.cached_source(), Some(A));
}

#[test]
fn sdr_view_never_compresses() {
    let tiers = [Quality::Low, Quality::Medium, Quality::High, Quality::Ultra];
    for enabled in [false, true] {
        for threshold in tiers {
            for threshold_min in tiers {
                for to_ldr in [false, true] {
                    for fxaa_ldr in [false, true] {
                        for blit in [false, true] {
                            let view = ViewRecord {
                                target: ViewTarget::new(A, B, false),
                                pipelines: CompiledPipelines {
                                    fxaa_ldr,
                                    fxaa_hdr: true,
                                    to_ldr,
                                    blit,
                                },
                                fxaa: FXAA {
                                    enabled,
                                    edge_threshold: threshold,
                                    edge_threshold_min: threshold_min,
                                },
                            };
                            let passes = FxaaNode::new().run(Some(&view));
                            assert!(passes.len() <= 1);
                            for pass in &passes {
                                assert_ne!(pass.stage, Stage::ToLdr);
                                assert_ne!(pass.pipeline, PipelineVariant::ToLdr);
                            }
                        }
                    }
                }
            }
        }
    }
}

#[test]
fn disabling_between_frames_skips_all_passes() {
    let mut node = FxaaNode::new();
    let frame_n = node.run(Some(&record(false, true, all_compiled())));
    assert_eq!(frame_n.len(), 1);
    let cached = node.cached_source();
    let frame_n_plus_1 = node.run(Some(&record(false, false, all_compiled())));
    assert_eq!(frame_n_plus_1, vec![]);
    assert_eq!(node.cached_source(), cached);

    let mut node = FxaaNode::new();
    let frame_n = node.run(Some(&record(true, true, all_compiled())));
    assert_eq!(frame_n.len(), 2);
    let frame_n_plus_1 = node.run(Some(&record(true, false, all_compiled())));
    assert_eq!(frame_n_plus_1, vec![]);
}

#[test]
fn unchanged_source_creates_the_bind_group_once() {
    let mut node = FxaaNode::new();
    let view = record(false, true, all_compiled());
    let mut creations = 0;
    for frame in 0..100 {
        let passes = node.run(Some(&view));
        assert_eq!(passes.len(), 1);
        assert_eq!(passes[0].source, A);
        let expected =
            if frame == 0 { BindGroupSource::Created } else { BindGroupSource::Cached };
        assert_eq!(passes[0].bind_group, expected);
        creations += created(&passes);
    }
    assert_eq!(creations, 1);
}

#[test]
fn skipped_frames_do_not_drop_the_cached_bind_group() {
    let mut node = FxaaNode::new();
    let on = record(false, true, all_compiled());
    let off = record(false, false, all_compiled());
    let pending = record(false, true, none_compiled());
    assert_eq!(created(&node.run(Some(&on))), 1);
    assert_eq!(node.run(Some(&off)), vec![]);
    assert_eq!(node.run(None), vec![]);
    assert_eq!(node.run(Some(&pending)), vec![]);
    let passes = node.run(Some(&on));
    assert_eq!(passes.len(), 1);
    assert_eq!(passes[0].bind_group, BindGroupSource::Cached);
}

#[test]
fn changed_source_creates_the_bind_group_again() {
    let mut node = FxaaNode::new();
    let before = record(false, true, all_compiled());
    let mut after = before;
    after.target = ViewTarget::new(C, B, false);
    assert_eq!(node.run(Some(&before))[0].bind_group, BindGroupSource::Created);
    assert_eq!(node.run(Some(&before))[0].bind_group, BindGroupSource::Cached);
    assert_eq!(node.run(Some(&after))[0].bind_group, BindGroupSource::Created);
    assert_eq!(node.run(Some(&after))[0].bind_group, BindGroupSource::Cached);
    assert_eq!(node.cached_source(), Some(C));
}

#[test]
fn hdr_frames_alternate_sources_and_create_for_each_pass() {
    let mut node = FxaaNode::new();
    let view = record(true, true, all_compiled());
    for _ in 0..3 {
        let passes = node.run(Some(&view));
        assert_eq!(passes.len(), 2);
        assert_eq!((passes[0].source, passes[1].source), (A, B));
        assert_eq!(created(&passes), 2);
    }
}

#[test]
fn hdr_view_with_one_texture_reuses_the_bind_group_within_the_frame() {
    let mut node = FxaaNode::new();
    let mut view = record(true, true, all_compiled());
    view.target = ViewTarget::new(A, A, true);
    let passes = node.run(Some(&view));
    assert_eq!(passes.len(), 2);
    assert_eq!(passes[0].bind_group, BindGroupSource::Created);
    assert_eq!(passes[1].bind_group, BindGroupSource::Cached);
}

#[test]
fn pending_fxaa_pipeline_falls_back_to_blit() {
    let mut pipelines = all_compiled();
    pipelines.fxaa_ldr = false;
    let passes = FxaaNode::new().run(Some(&record(false, true, pipelines)));
    assert_eq!(
        passes,
        vec![pass(Stage::Fxaa, PipelineVariant::Blit, A, B, BindGroupSource::Created)]
    );

    let mut pipelines = all_compiled();
    pipelines.fxaa_hdr = false;
    let passes = FxaaNode::new().run(Some(&record(true, true, pipelines)));
    assert_eq!(
        passes,
        vec![
            pass(Stage::ToLdr, PipelineVariant::ToLdr, A, B, BindGroupSource::Created),
            pass(Stage::Fxaa, PipelineVariant::Blit, B, A, BindGroupSource::Created),
        ]
    );
}

#[test]
fn view_uses_the_fxaa_variant_of_its_own_format_only() {
    // An SDR view does not fall back to the HDR variant, nor the other way round.
    let pipelines =
        CompiledPipelines { fxaa_ldr: false, fxaa_hdr: true, to_ldr: true, blit: false };
    assert_eq!(FxaaNode::new().run(Some(&record(false, true, pipelines))), vec![]);
    let pipelines =
        CompiledPipelines { fxaa_ldr: true, fxaa_hdr: false, to_ldr: false, blit: false };
    assert_eq!(FxaaNode::new().run(Some(&record(true, true, pipelines))), vec![]);
}

#[test]
fn pending_final_pipelines_skip_that_pass_only() {
    let pipelines =
        CompiledPipelines { fxaa_ldr: false, fxaa_hdr: false, to_ldr: true, blit: false };
    let mut node = FxaaNode::new();
    let passes = node.run(Some(&record(true, true, pipelines)));
    assert_eq!(
        passes,
        vec![pass(Stage::ToLdr, PipelineVariant::ToLdr, A, B, BindGroupSource::Created)]
    );
    assert_eq!(node.cached_source(), Some(A));
}

#[test]
fn pending_to_ldr_pipeline_skips_that_pass_only() {
    let mut pipelines = all_compiled();
    pipelines.to_ldr = false;
    let mut node = FxaaNode::new();
    let passes = node.run(Some(&record(true, true, pipelines)));
    assert_eq!(
        passes,
        vec![pass(Stage::Fxaa, PipelineVariant::FxaaHdr, A, B, BindGroupSource::Created)]
    );
    assert_eq!(node.cached_source(), Some(A));
}

#[test]
fn nothing_compiled_runs_nothing_and_heals_next_frame() {
    let mut node = FxaaNode::new();
    assert_eq!(node.run(Some(&record(true, true, none_compiled()))), vec![]);
    assert_eq!(node.cached_source(), None);
    assert_eq!(node.run(Some(&record(true, true, all_compiled()))).len(), 2);
}

#[test]
fn what_a_frame_draws_does_not_depend_on_the_cache() {
    for hdr in [false, true] {
        for pipelines in [all_compiled(), none_compiled()] {
            let view = record(hdr, true, pipelines);
            let fresh = FxaaNode::new().run(Some(&view));
            for cached in [A, B, C] {
                let mut node = FxaaNode::new();
                node.bind_group(cached);
                let passes = node.run(Some(&view));
                assert_eq!(passes.len(), fresh.len());
                for (pass, expected) in passes.iter().zip(&fresh) {
                    assert_eq!(pass.stage, expected.stage);
                    assert_eq!(pass.pipeline, expected.pipeline);
                    assert_eq!(pass.source, expected.source);
                    assert_eq!(pass.destination, expected.destination);
                }
            }
        }
    }
}

#[test]
fn every_pass_draws_one_full_screen_triangle() {
    for hdr in [false, true] {
        for pass in FxaaNode::new().run(Some(&record(hdr, true, all_compiled()))) {
            assert_eq!(pass.vertices, 3);
            assert_eq!(pass.instances, 1);
        }
    }
}
