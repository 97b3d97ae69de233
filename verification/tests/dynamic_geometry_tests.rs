use alkahest_renderer::command::{
    Entity, GpuCommand, PrimitiveType, ResourceId, ShaderStage, TagHash, TechniqueHandle,
};
use alkahest_renderer::dynamic_geometry::{
    draw_dynamic_model_system, draw_sky_objects_system, update_dynamic_model_system, DrawError,
    DynamicMesh, DynamicMeshPart, DynamicModel, DynamicModelComponent, DynamicModelData,
    LoadError, LodCategory, ALL_IDENTIFIERS,
};
use alkahest_renderer::gbuffer::GBuffer;
use alkahest_renderer::renderer::Renderer;
use alkahest_renderer::scene::{DecoratorEntity, DynamicModelEntity, Scene};
use alkahest_renderer::settings::RendererSettings;
use alkahest_renderer::stage::{FeatureRenderer, RenderStage, RenderStageSubscriptions};
use alkahest_renderer::technique::{ScopeBits, Technique, TechniqueMapEntry};
use alkahest_renderer::visibility::ViewVisibility;

const SLOT: u32 = 3;

fn dg_renderer() -> Renderer {
    let objects: Vec<Option<ResourceId>> = (0..56u64).map(|i| Some(ResourceId(1000 + i))).collect();
    let gbuffers = GBuffer::create((64, 64), &objects).unwrap();
    Renderer::new(RendererSettings::new(), gbuffers, SLOT)
}

fn dg_part(technique: u32, start: u32, count: u32) -> DynamicMeshPart {
    DynamicMeshPart {
        technique: TagHash(technique),
        index_start: start,
        index_count: count,
        variant_shader_index: u16::MAX,
        external_identifier: 0,
        primitive_type: PrimitiveType::Triangles,
        lod_category: LodCategory::MainGeom0,
    }
}

/// A mesh whose parts are all drawn in each of the given stages, of which
/// no two follow each other, and in no other stage.
fn dg_mesh(parts: Vec<DynamicMeshPart>, stages: &[RenderStage]) -> DynamicMesh {
    let n = parts.len() as u16;
    let mut ranges = [0u16; 25];
    let mut layouts = [0u8; 24];
    for i in 0..24 {
        layouts[i] = i as u8 + 1;
        if stages.iter().any(|s| s.index() == i) {
            ranges[i + 1] = n;
        }
    }
    DynamicMesh {
        vertex0_buffer: TagHash(0xa0),
        vertex1_buffer: TagHash(0xa1),
        color_buffer: TagHash(0xa2),
        index_buffer: TagHash(0xa3),
        parts,
        part_range_per_render_stage: ranges,
        input_layout_per_render_stage: layouts,
    }
}

fn dg_model(meshes: Vec<DynamicMesh>, feature: FeatureRenderer) -> DynamicModel {
    DynamicModel::load(DynamicModelData { meshes }, TagHash(0x8000_0001), vec![], vec![], feature)
}

fn dg_simple_model(feature: FeatureRenderer) -> DynamicModel {
    dg_model(
        vec![dg_mesh(vec![dg_part(1, 0, 30)], &[RenderStage::GenerateGbuffer, RenderStage::Transparents])],
        feature,
    )
}

fn dg_entity(index: u32, feature: FeatureRenderer) -> DynamicModelEntity {
    DynamicModelEntity {
        entity: Entity { index, generation: 0 },
        component: DynamicModelComponent::load(
            dg_simple_model(feature),
            ResourceId(500 + index as u64),
            None,
        )
        .unwrap(),
        visibility: None,
        has_channels: false,
        view_distance_key: 0,
        transform_changed: false,
    }
}

fn dg_draws(commands: &[GpuCommand]) -> usize {
    commands.iter().filter(|c| c.is_draw()).count()
}

fn dg_drawn_entities(commands: &[GpuCommand]) -> Vec<u32> {
    commands
        .iter()
        .filter_map(|c| match c {
            GpuCommand::BeginPickEntity { entity } => Some(entity.index),
            _ => None,
        })
        .collect()
}

#[test]
fn lod_categories_of_highest_detail() {
    assert!(LodCategory::MainGeom0.is_highest_detail());
    assert!(LodCategory::GripStock0.is_highest_detail());
    assert!(LodCategory::Stickers0.is_highest_detail());
    assert!(LodCategory::InternalGeom0.is_highest_detail());
    assert!(LodCategory::Detail0.is_highest_detail());
    assert!(!LodCategory::LowPolyGeom1.is_highest_detail());
    assert!(!LodCategory::LowPolyGeom2.is_highest_detail());
    assert!(!LodCategory::GripStockScope2.is_highest_detail());
    assert!(!LodCategory::LowPolyGeom3.is_highest_detail());
}

#[test]
fn mesh_ranges_and_layouts_per_stage() {
    let mut mesh = dg_mesh(vec![dg_part(1, 0, 3); 5], &[]);
    mesh.part_range_per_render_stage[7] = 2;
    mesh.part_range_per_render_stage[8] = 5;
    assert_eq!(mesh.get_range_for_stage(RenderStage::Transparents), (2, 5));
    assert_eq!(mesh.get_range_for_stage(RenderStage::GenerateGbuffer), (0, 0));
    assert_eq!(mesh.get_range_for_stage(RenderStage::Distortion), (5, 0));
    assert_eq!(mesh.get_input_layout_for_stage(RenderStage::Transparents), 8);
    assert_eq!(mesh.get_input_layout_for_stage(RenderStage::ComputeSkinning), 24);
}

#[test]
fn load_selects_the_first_mesh_and_variant() {
    let model = dg_simple_model(FeatureRenderer::RigidObject);
    assert_eq!(model.selected_mesh(), 0);
    assert_eq!(model.selected_variant(), 0);
    assert_eq!(model.mesh_count(), 1);
    assert_eq!(model.hash(), TagHash(0x8000_0001));
    assert_eq!(model.feature_type(), FeatureRenderer::RigidObject);
    assert_eq!(model.model().meshes.len(), 1);
}

#[test]
fn variant_count_is_the_length_of_the_first_main_run() {
    let map = vec![
        TechniqueMapEntry { technique_count: 9, technique_start: 0, unk8: 1 },
        TechniqueMapEntry { technique_count: 4, technique_start: 9, unk8: 0 },
        TechniqueMapEntry { technique_count: 7, technique_start: 13, unk8: 0 },
    ];
    let model = DynamicModel::load(
        DynamicModelData { meshes: vec![] },
        TagHash(1),
        map,
        vec![],
        FeatureRenderer::RigidObject,
    );
    assert_eq!(model.variant_count(), 4);
    let none = DynamicModel::load(
        DynamicModelData { meshes: vec![] },
        TagHash(1),
        vec![TechniqueMapEntry { technique_count: 9, technique_start: 0, unk8: 2 }],
        vec![],
        FeatureRenderer::RigidObject,
    );
    assert_eq!(none.variant_count(), 0);
    assert_eq!(dg_simple_model(FeatureRenderer::RigidObject).variant_count(), 0);
}

#[test]
fn identifier_count_is_one_more_than_the_greatest_identifier() {
    let mut a = dg_part(1, 0, 3);
    a.external_identifier = 2;
    let mut b = dg_part(1, 3, 3);
    b.external_identifier = 7;
    let mut c = dg_part(1, 6, 3);
    c.external_identifier = 4;
    let model = dg_model(
        vec![dg_mesh(vec![a, c], &[]), dg_mesh(vec![], &[]), dg_mesh(vec![b, a], &[])],
        FeatureRenderer::RigidObject,
    );
    assert_eq!(model.identifier_count(), 8);
    assert_eq!(dg_model(vec![], FeatureRenderer::RigidObject).identifier_count(), 1);
    assert_eq!(dg_simple_model(FeatureRenderer::RigidObject).identifier_count(), 1);
    let mut top = dg_part(1, 0, 3);
    top.external_identifier = u16::MAX;
    assert_eq!(
        dg_model(vec![dg_mesh(vec![top], &[])], FeatureRenderer::RigidObject).identifier_count(),
        65536
    );
}

#[test]
fn model_subscriptions_are_the_union_of_its_meshes() {
    let model = dg_model(
        vec![
            dg_mesh(vec![dg_part(1, 0, 3)], &[RenderStage::GenerateGbuffer, RenderStage::Transparents]),
            dg_mesh(vec![dg_part(1, 0, 3)], &[RenderStage::ShadowGenerate]),
            dg_mesh(vec![], &[RenderStage::Decals]),
        ],
        FeatureRenderer::RigidObject,
    );
    let stages = model.mesh_stages();
    assert_eq!(stages.len(), 3);
    assert_eq!(stages[0].bits(), (1 << 0) | (1 << 7));
    assert_eq!(stages[1].bits(), 1 << 3);
    // a mesh without parts has empty ranges whatever it is asked for
    assert_eq!(stages[2].bits(), 0);
    let mut union = RenderStageSubscriptions::empty();
    for s in stages {
        union = union.union(*s);
    }
    assert_eq!(model.subscribed_stages(), union);
    assert_eq!(model.subscribed_stages().bits(), (1 << 0) | (1 << 3) | (1 << 7));
    for (mesh, s) in model.model().meshes.iter().zip(stages) {
        assert_eq!(
            *s,
            RenderStageSubscriptions::from_partrange_list(&mesh.part_range_per_render_stage)
        );
    }
}

#[test]
fn draw_emits_layout_buffers_and_parts() {
    let renderer = dg_renderer();
    let model = dg_simple_model(FeatureRenderer::RigidObject);
    let commands = model
        .draw(&renderer, RenderStage::GenerateGbuffer, ALL_IDENTIFIERS, None)
        .unwrap();
    assert_eq!(
        commands,
        vec![
            GpuCommand::SetInputLayout { layout: 1 },
            GpuCommand::BindModelBuffers {
                vertex0: TagHash(0xa0),
                vertex1: TagHash(0xa1),
                color: TagHash(0xa2),
                index: TagHash(0xa3),
            },
            GpuCommand::SetInputTopology { topology: PrimitiveType::Triangles },
            GpuCommand::DrawIndexed { index_count: 30, index_start: 0, base_vertex: 0 },
        ]
    );
}

#[test]
fn draw_binds_loaded_techniques() {
    let mut renderer = dg_renderer();
    renderer.techniques.insert(TagHash(1), Technique { used_scopes: ScopeBits { bits: 4 } });
    let model = dg_simple_model(FeatureRenderer::RigidObject);
    let channels = Some(Entity { index: 9, generation: 2 });
    let commands =
        model.draw(&renderer, RenderStage::GenerateGbuffer, ALL_IDENTIFIERS, channels).unwrap();
    assert_eq!(
        commands[2],
        GpuCommand::BindTechnique { technique: TechniqueHandle(TagHash(1)), channels }
    );
    assert_eq!(commands.len(), 5);
    assert_eq!(dg_draws(&commands), 1);
}

#[test]
fn draw_binds_the_variant_after_the_base_and_wraps() {
    let mut renderer = dg_renderer();
    for tag in [1u32, 105, 106, 107] {
        renderer.techniques.insert(TagHash(tag), Technique { used_scopes: ScopeBits { bits: 1 } });
    }
    let mut part = dg_part(1, 0, 30);
    part.variant_shader_index = 0;
    let techniques: Vec<TagHash> = (100..108).map(TagHash).collect();
    let mut model = DynamicModel::load(
        DynamicModelData { meshes: vec![dg_mesh(vec![part], &[RenderStage::GenerateGbuffer])] },
        TagHash(7),
        vec![TechniqueMapEntry { technique_count: 3, technique_start: 5, unk8: 0 }],
        techniques,
        FeatureRenderer::RigidObject,
    );
    assert_eq!(model.variant_count(), 3);
    let mut bound = Vec::new();
    for variant in 0..5 {
        model.select_variant(variant);
        assert_eq!(model.selected_variant(), variant);
        let commands =
            model.draw(&renderer, RenderStage::GenerateGbuffer, ALL_IDENTIFIERS, None).unwrap();
        assert_eq!(
            commands[2],
            GpuCommand::BindTechnique { technique: TechniqueHandle(TagHash(1)), channels: None }
        );
        match commands[3] {
            GpuCommand::BindTechnique { technique, .. } => bound.push((technique.0).0),
            _ => panic!("the variant is bound after the base"),
        }
        assert_eq!(
            model.get_variant_technique(0, variant),
            Some(TechniqueHandle(TagHash(bound[variant])))
        );
    }
    assert_eq!(bound, vec![105, 106, 107, 105, 106]);
    assert_eq!(model.get_variant_technique(u16::MAX, 0), None);
}

#[test]
fn skinned_parts_get_the_entity_vertex_shader() {
    let mut renderer = dg_renderer();
    renderer.techniques.insert(TagHash(1), Technique { used_scopes: ScopeBits { bits: 0x80 } });
    renderer.techniques.insert(TagHash(2), Technique { used_scopes: ScopeBits { bits: 0x7f } });
    let model = dg_model(
        vec![dg_mesh(vec![dg_part(1, 0, 3), dg_part(2, 3, 3)], &[RenderStage::GenerateGbuffer])],
        FeatureRenderer::RigidObject,
    );
    let commands =
        model.draw(&renderer, RenderStage::GenerateGbuffer, ALL_IDENTIFIERS, None).unwrap();
    let overrides: Vec<usize> = commands
        .iter()
        .enumerate()
        .filter(|(_, c)| **c == GpuCommand::SetEntityVertexShaderOverride)
        .map(|(i, _)| i)
        .collect();
    // bound after the technique of the first part and before its topology
    assert_eq!(overrides, vec![3]);
    assert_eq!(dg_draws(&commands), 2);
}

#[test]
fn a_mesh_that_takes_part_in_skinning_overrides_every_part() {
    let renderer = dg_renderer();
    let model = dg_model(
        vec![dg_mesh(
            vec![dg_part(1, 0, 3), dg_part(2, 3, 3)],
            &[RenderStage::GenerateGbuffer, RenderStage::ComputeSkinning],
        )],
        FeatureRenderer::RigidObject,
    );
    let commands =
        model.draw(&renderer, RenderStage::GenerateGbuffer, ALL_IDENTIFIERS, None).unwrap();
    let overrides =
        commands.iter().filter(|c| **c == GpuCommand::SetEntityVertexShaderOverride).count();
    assert_eq!(overrides, 2);
}

#[test]
fn low_detail_parts_are_never_drawn() {
    let renderer = dg_renderer();
    let every_stage: Vec<RenderStage> =
        (0..24).step_by(2).map(|i| RenderStage::from_index(i).unwrap()).collect();
    for lod in [
        LodCategory::LowPolyGeom1,
        LodCategory::LowPolyGeom2,
        LodCategory::GripStockScope2,
        LodCategory::LowPolyGeom3,
    ] {
        let mut low = dg_part(1, 0, 30);
        low.lod_category = lod;
        let model = dg_model(vec![dg_mesh(vec![low], &every_stage)], FeatureRenderer::RigidObject);
        for i in 0..24 {
            let stage = RenderStage::from_index(i).unwrap();
            let drawn = model.draw(&renderer, stage, ALL_IDENTIFIERS, None).unwrap();
            assert_eq!(dg_draws(&drawn), 0);
            let wrapped = model.draw_wrapped(&renderer, stage, ALL_IDENTIFIERS, None).unwrap();
            assert_eq!(dg_draws(&wrapped), 0);
            let asked = model.draw(&renderer, stage, 0, None).unwrap();
            assert_eq!(dg_draws(&asked), 0);
        }
    }
}

#[test]
fn only_the_highest_detail_of_a_mixed_mesh_is_drawn() {
    let renderer = dg_renderer();
    let mut low = dg_part(1, 0, 10);
    low.lod_category = LodCategory::LowPolyGeom2;
    let mut detail = dg_part(1, 20, 5);
    detail.lod_category = LodCategory::Detail0;
    let model = dg_model(
        vec![dg_mesh(vec![low, dg_part(1, 10, 10), detail], &[RenderStage::GenerateGbuffer])],
        FeatureRenderer::RigidObject,
    );
    let commands =
        model.draw(&renderer, RenderStage::GenerateGbuffer, ALL_IDENTIFIERS, None).unwrap();
    let draws: Vec<GpuCommand> = commands.into_iter().filter(|c| c.is_draw()).collect();
    assert_eq!(
        draws,
        vec![
            GpuCommand::DrawIndexed { index_count: 10, index_start: 10, base_vertex: 0 },
            GpuCommand::DrawIndexed { index_count: 5, index_start: 20, base_vertex: 0 },
        ]
    );
}

#[test]
fn an_identifier_draws_one_piece_only() {
    let renderer = dg_renderer();
    let mut a = dg_part(1, 0, 10);
    a.external_identifier = 0;
    let mut b = dg_part(1, 10, 10);
    b.external_identifier = 1;
    let mut c = dg_part(1, 20, 10);
    c.external_identifier = 1;
    let model =
        dg_model(vec![dg_mesh(vec![a, b, c], &[RenderStage::GenerateGbuffer])], FeatureRenderer::RigidObject);
    let piece = model.draw_wrapped(&renderer, RenderStage::GenerateGbuffer, 1, None).unwrap();
    let parts: Vec<GpuCommand> = piece.into_iter().filter(|c| c.is_draw()).collect();
    assert_eq!(
        parts,
        vec![
            GpuCommand::SubmitPart { mesh: 0, part: 1 },
            GpuCommand::SubmitPart { mesh: 0, part: 2 },
        ]
    );
    let none = model.draw(&renderer, RenderStage::GenerateGbuffer, 5, None).unwrap();
    assert_eq!(dg_draws(&none), 0);
    let all = model.draw(&renderer, RenderStage::GenerateGbuffer, ALL_IDENTIFIERS, None).unwrap();
    assert_eq!(dg_draws(&all), 3);
}

#[test]
fn draw_wrapped_hands_parts_over_where_draw_draws_them() {
    let renderer = dg_renderer();
    let model = dg_model(
        vec![dg_mesh(vec![dg_part(1, 0, 10), dg_part(1, 10, 20)], &[RenderStage::GenerateGbuffer])],
        FeatureRenderer::RigidObject,
    );
    let drawn = model.draw(&renderer, RenderStage::GenerateGbuffer, ALL_IDENTIFIERS, None).unwrap();
    let wrapped =
        model.draw_wrapped(&renderer, RenderStage::GenerateGbuffer, ALL_IDENTIFIERS, None).unwrap();
    assert_eq!(drawn.len(), wrapped.len());
    for (d, w) in drawn.iter().zip(&wrapped) {
        match w {
            GpuCommand::SubmitPart { mesh, part } => {
                let p = model.model().meshes[*mesh].parts[*part];
                assert_eq!(
                    *d,
                    GpuCommand::DrawIndexed {
                        index_count: p.index_count,
                        index_start: p.index_start,
                        base_vertex: 0
                    }
                );
            }
            other => assert_eq!(d, other),
        }
    }
    assert_eq!(dg_draws(&wrapped), 2);
}

#[test]
fn a_stage_that_the_mesh_does_not_take_part_in_draws_nothing() {
    let renderer = dg_renderer();
    let model = dg_simple_model(FeatureRenderer::RigidObject);
    assert_eq!(
        model.draw(&renderer, RenderStage::ShadowGenerate, ALL_IDENTIFIERS, None),
        Ok(vec![])
    );
}

#[test]
fn transparents_switched_off_issue_no_draw() {
    let mut renderer = dg_renderer();
    let model = dg_simple_model(FeatureRenderer::RigidObject);
    let on = model.draw(&renderer, RenderStage::Transparents, ALL_IDENTIFIERS, None).unwrap();
    assert_eq!(dg_draws(&on), 1);
    renderer.settings.stage_transparent = false;
    let off = model.draw(&renderer, RenderStage::Transparents, ALL_IDENTIFIERS, None).unwrap();
    assert_eq!(dg_draws(&off), 0);
    assert!(off.is_empty());
    // the other stages are drawn as before
    let other =
        model.draw(&renderer, RenderStage::GenerateGbuffer, ALL_IDENTIFIERS, None).unwrap();
    assert_eq!(dg_draws(&other), 1);
}

#[test]
fn decal_stages_have_their_own_switches() {
    let mut renderer = dg_renderer();
    let model = dg_model(
        vec![dg_mesh(vec![dg_part(1, 0, 3)], &[RenderStage::Decals, RenderStage::DecalsAdditive])],
        FeatureRenderer::RigidObject,
    );
    renderer.settings.stage_decals = false;
    assert!(model.draw(&renderer, RenderStage::Decals, ALL_IDENTIFIERS, None).unwrap().is_empty());
    assert_eq!(
        dg_draws(&model.draw(&renderer, RenderStage::DecalsAdditive, ALL_IDENTIFIERS, None).unwrap()),
        1
    );
    renderer.settings.stage_decals = true;
    renderer.settings.stage_decals_additive = false;
    assert_eq!(
        dg_draws(&model.draw(&renderer, RenderStage::Decals, ALL_IDENTIFIERS, None).unwrap()),
        1
    );
    assert!(model
        .draw(&renderer, RenderStage::DecalsAdditive, ALL_IDENTIFIERS, None)
        .unwrap()
        .is_empty());
}

#[test]
fn a_mesh_that_the_model_does_not_have_is_an_error() {
    let mut renderer = dg_renderer();
    let mut model = dg_simple_model(FeatureRenderer::RigidObject);
    model.select_mesh(1);
    assert_eq!(model.selected_mesh(), 1);
    assert_eq!(
        model.draw(&renderer, RenderStage::GenerateGbuffer, ALL_IDENTIFIERS, None),
        Err(DrawError::InvalidMesh)
    );
    assert_eq!(
        model.draw_wrapped(&renderer, RenderStage::GenerateGbuffer, ALL_IDENTIFIERS, None),
        Err(DrawError::InvalidMesh)
    );
    // a stage that is switched off is skipped before the mesh is looked at
    renderer.settings.stage_transparent = false;
    assert_eq!(model.draw(&renderer, RenderStage::Transparents, ALL_IDENTIFIERS, None), Ok(vec![]));
    model.select_mesh(0);
    assert!(model.draw(&renderer, RenderStage::GenerateGbuffer, ALL_IDENTIFIERS, None).is_ok());
}

#[test]
fn a_part_range_beyond_the_parts_is_cut_off() {
    let renderer = dg_renderer();
    let mut mesh = dg_mesh(vec![dg_part(1, 0, 3), dg_part(1, 3, 3)], &[]);
    mesh.part_range_per_render_stage[0] = 1;
    mesh.part_range_per_render_stage[1] = 40;
    let model = dg_model(vec![mesh], FeatureRenderer::RigidObject);
    let commands =
        model.draw_wrapped(&renderer, RenderStage::GenerateGbuffer, ALL_IDENTIFIERS, None).unwrap();
    let parts: Vec<GpuCommand> = commands.into_iter().filter(|c| c.is_draw()).collect();
    assert_eq!(parts, vec![GpuCommand::SubmitPart { mesh: 0, part: 1 }]);
}

#[test]
fn the_selected_mesh_is_the_one_that_is_drawn() {
    let renderer = dg_renderer();
    let mut model = dg_model(
        vec![
            dg_mesh(vec![dg_part(1, 0, 3)], &[RenderStage::GenerateGbuffer]),
            dg_mesh(vec![dg_part(1, 0, 3), dg_part(1, 3, 3)], &[RenderStage::GenerateGbuffer]),
        ],
        FeatureRenderer::RigidObject,
    );
    model.select_mesh(1);
    let commands =
        model.draw_wrapped(&renderer, RenderStage::GenerateGbuffer, ALL_IDENTIFIERS, None).unwrap();
    let parts: Vec<GpuCommand> = commands.into_iter().filter(|c| c.is_draw()).collect();
    assert_eq!(
        parts,
        vec![
            GpuCommand::SubmitPart { mesh: 1, part: 0 },
            GpuCommand::SubmitPart { mesh: 1, part: 1 },
        ]
    );
}

#[test]
fn component_needs_its_skinning_buffer() {
    let skinned = dg_model(
        vec![dg_mesh(vec![dg_part(1, 0, 3)], &[RenderStage::ComputeSkinning])],
        FeatureRenderer::RigidObject,
    );
    assert!(DynamicModelComponent::needs_skinning_buffer(&skinned));
    assert_eq!(
        DynamicModelComponent::load(skinned, ResourceId(1), None).err(),
        Some(LoadError::MissingSkinningBuffer)
    );
    let skinned = dg_model(
        vec![dg_mesh(vec![dg_part(1, 0, 3)], &[RenderStage::ComputeSkinning])],
        FeatureRenderer::RigidObject,
    );
    let component = DynamicModelComponent::load(skinned, ResourceId(1), Some(ResourceId(2))).unwrap();
    assert_eq!(component.cbuffer, ResourceId(1));
    assert_eq!(component.cbuffer_skinning, Some(ResourceId(2)));
    assert_eq!(component.identifier, u16::MAX);
    assert!(component.cbuffer_dirty);
}

#[test]
fn component_without_skinning_keeps_no_skinning_buffer() {
    let rigid = dg_simple_model(FeatureRenderer::RigidObject);
    assert!(!DynamicModelComponent::needs_skinning_buffer(&rigid));
    let component = DynamicModelComponent::load(rigid, ResourceId(1), Some(ResourceId(2))).unwrap();
    assert_eq!(component.cbuffer_skinning, None);
    let component =
        DynamicModelComponent::load(dg_simple_model(FeatureRenderer::RigidObject), ResourceId(1), None)
            .unwrap();
    assert_eq!(component.cbuffer_skinning, None);
}

#[test]
fn component_mark_dirty() {
    let mut component =
        DynamicModelComponent::load(dg_simple_model(FeatureRenderer::RigidObject), ResourceId(1), None)
            .unwrap();
    component.cbuffer_dirty = false;
    component.mark_dirty();
    assert!(component.cbuffer_dirty);
    assert_eq!(component.cbuffer, ResourceId(1));
}

#[test]
fn component_draw_publishes_its_constants_first() {
    let renderer = dg_renderer();
    let component =
        DynamicModelComponent::load(dg_simple_model(FeatureRenderer::RigidObject), ResourceId(77), None)
            .unwrap();
    let commands = component.draw(&renderer, RenderStage::GenerateGbuffer, None).unwrap();
    assert_eq!(
        &commands[0..2],
        &[
            GpuCommand::SetRigidModelExtern { constants: ResourceId(77) },
            GpuCommand::BindConstantBuffer {
                buffer: ResourceId(77),
                slot: SLOT,
                stage: ShaderStage::Vertex
            },
        ]
    );
    assert_eq!(
        &commands[2..],
        &component.model.draw(&renderer, RenderStage::GenerateGbuffer, u16::MAX, None).unwrap()[..]
    );
}

#[test]
fn component_draws_its_own_piece() {
    let renderer = dg_renderer();
    let mut a = dg_part(1, 0, 10);
    a.external_identifier = 3;
    let model = dg_model(
        vec![dg_mesh(vec![a, dg_part(1, 10, 10)], &[RenderStage::GenerateGbuffer])],
        FeatureRenderer::RigidObject,
    );
    let mut component = DynamicModelComponent::load(model, ResourceId(1), None).unwrap();
    component.identifier = 3;
    let commands = component.draw(&renderer, RenderStage::GenerateGbuffer, None).unwrap();
    let draws: Vec<GpuCommand> = commands.into_iter().filter(|c| c.is_draw()).collect();
    assert_eq!(
        draws,
        vec![GpuCommand::DrawIndexed { index_count: 10, index_start: 0, base_vertex: 0 }]
    );
}

#[test]
fn component_update_writes_both_buffers() {
    let skinned = dg_model(
        vec![dg_mesh(vec![dg_part(1, 0, 3)], &[RenderStage::ComputeSkinning])],
        FeatureRenderer::RigidObject,
    );
    let component = DynamicModelComponent::load(skinned, ResourceId(1), Some(ResourceId(2))).unwrap();
    assert_eq!(
        component.update_cbuffer(),
        vec![
            GpuCommand::WriteRigidModelConstants { buffer: ResourceId(1) },
            GpuCommand::WriteSkinningConstants { buffer: ResourceId(2) },
        ]
    );
    let rigid =
        DynamicModelComponent::load(dg_simple_model(FeatureRenderer::RigidObject), ResourceId(5), None)
            .unwrap();
    assert_eq!(
        rigid.update_cbuffer(),
        vec![GpuCommand::WriteRigidModelConstants { buffer: ResourceId(5) }]
    );
}

#[test]
fn component_techniques_are_listed_once() {
    let model = DynamicModel::load(
        DynamicModelData {
            meshes: vec![
                dg_mesh(vec![dg_part(1, 0, 3), dg_part(2, 3, 3), dg_part(1, 6, 3)], &[]),
                dg_mesh(vec![dg_part(2, 0, 3), dg_part(9, 3, 3)], &[]),
            ],
        },
        TagHash(7),
        vec![],
        vec![TagHash(9), TagHash(4), TagHash(4)],
        FeatureRenderer::RigidObject,
    );
    assert_eq!(
        model.all_techniques(),
        [9u32, 4, 4, 1, 2, 1, 2, 9]
            .iter()
            .map(|&t| TechniqueHandle(TagHash(t)))
            .collect::<Vec<_>>()
    );
    let component = DynamicModelComponent::load(model, ResourceId(1), None).unwrap();
    let mut tags: Vec<u32> = component.techniques().iter().map(|h| (h.0).0).collect();
    tags.sort();
    assert_eq!(tags, vec![1, 2, 4, 9]);
}

#[test]
fn dynamic_models_are_drawn_by_priority() {
    let renderer = dg_renderer();
    let mut scene = Scene::new();
    let features = [
        FeatureRenderer::Cloth,
        FeatureRenderer::DynamicObjects,
        FeatureRenderer::Water,
        FeatureRenderer::RigidObject,
        FeatureRenderer::SkinnedObject,
        FeatureRenderer::Water,
        FeatureRenderer::DynamicObjects,
    ];
    for (i, f) in features.iter().enumerate() {
        scene.dynamic_models.push(dg_entity(i as u32, *f));
    }
    let commands = draw_dynamic_model_system(&renderer, &scene, RenderStage::GenerateGbuffer);
    // water, then rigid and dynamic objects in the order of the scene, then the rest
    assert_eq!(dg_drawn_entities(&commands), vec![2, 5, 1, 3, 6, 0, 4]);
    assert_eq!(dg_draws(&commands), 7);
    let ends = commands.iter().filter(|c| **c == GpuCommand::EndPickEntity).count();
    assert_eq!(ends, 7);
}

#[test]
fn each_entity_is_drawn_between_its_pick_marks() {
    let renderer = dg_renderer();
    let mut scene = Scene::new();
    scene.dynamic_models.push(dg_entity(4, FeatureRenderer::RigidObject));
    let commands = draw_dynamic_model_system(&renderer, &scene, RenderStage::GenerateGbuffer);
    let mut expected = vec![GpuCommand::BeginPickEntity { entity: Entity { index: 4, generation: 0 } }];
    expected.extend(
        scene.dynamic_models[0].component.draw(&renderer, RenderStage::GenerateGbuffer, None).unwrap(),
    );
    expected.push(GpuCommand::EndPickEntity);
    assert_eq!(commands, expected);
}

#[test]
fn object_channels_come_from_the_entity_that_has_them() {
    let mut renderer = dg_renderer();
    renderer.techniques.insert(TagHash(1), Technique { used_scopes: ScopeBits { bits: 0 } });
    let mut scene = Scene::new();
    let mut with = dg_entity(1, FeatureRenderer::RigidObject);
    with.has_channels = true;
    scene.dynamic_models.push(with);
    scene.dynamic_models.push(dg_entity(2, FeatureRenderer::RigidObject));
    let commands = draw_dynamic_model_system(&renderer, &scene, RenderStage::GenerateGbuffer);
    let channels: Vec<Option<Entity>> = commands
        .iter()
        .filter_map(|c| match c {
            GpuCommand::BindTechnique { channels, .. } => Some(*channels),
            _ => None,
        })
        .collect();
    assert_eq!(channels, vec![Some(Entity { index: 1, generation: 0 }), None]);
}

#[test]
fn sky_objects_are_left_to_the_sky_pass() {
    let renderer = dg_renderer();
    let mut scene = Scene::new();
    scene.dynamic_models.push(dg_entity(0, FeatureRenderer::SkyTransparent));
    scene.dynamic_models.push(dg_entity(1, FeatureRenderer::RigidObject));
    let commands = draw_dynamic_model_system(&renderer, &scene, RenderStage::GenerateGbuffer);
    assert_eq!(dg_drawn_entities(&commands), vec![1]);
}

#[test]
fn invisible_entities_are_not_drawn() {
    let mut renderer = dg_renderer();
    let mut scene = Scene::new();
    let mut hidden = dg_entity(0, FeatureRenderer::RigidObject);
    hidden.visibility = Some(ViewVisibility::new());
    let mut other_view = dg_entity(1, FeatureRenderer::RigidObject);
    let mut in_view_5 = ViewVisibility::new();
    in_view_5.set_visible(5);
    other_view.visibility = Some(in_view_5);
    scene.dynamic_models.push(hidden);
    scene.dynamic_models.push(other_view);
    scene.dynamic_models.push(dg_entity(2, FeatureRenderer::RigidObject));
    let commands = draw_dynamic_model_system(&renderer, &scene, RenderStage::GenerateGbuffer);
    assert_eq!(dg_drawn_entities(&commands), vec![2]);
    renderer.active_view = 5;
    let commands = draw_dynamic_model_system(&renderer, &scene, RenderStage::GenerateGbuffer);
    assert_eq!(dg_drawn_entities(&commands), vec![1, 2]);
}

#[test]
fn feature_switches_gate_their_entities() {
    let mut renderer = dg_renderer();
    renderer.settings.feature_dynamics = false;
    let mut scene = Scene::new();
    scene.dynamic_models.push(dg_entity(0, FeatureRenderer::RigidObject));
    scene.dynamic_models.push(dg_entity(1, FeatureRenderer::DynamicObjects));
    scene.dynamic_models.push(dg_entity(2, FeatureRenderer::Water));
    let commands = draw_dynamic_model_system(&renderer, &scene, RenderStage::GenerateGbuffer);
    assert_eq!(dg_drawn_entities(&commands), vec![2]);
}

#[test]
fn a_model_that_cannot_be_drawn_does_not_stop_the_others() {
    let renderer = dg_renderer();
    let mut scene = Scene::new();
    let mut broken = dg_entity(0, FeatureRenderer::Water);
    broken.component.model.select_mesh(9);
    scene.dynamic_models.push(broken);
    scene.dynamic_models.push(dg_entity(1, FeatureRenderer::RigidObject));
    let commands = draw_dynamic_model_system(&renderer, &scene, RenderStage::GenerateGbuffer);
    assert_eq!(dg_drawn_entities(&commands), vec![1]);
    assert_eq!(dg_draws(&commands), 1);
}

#[test]
fn decorators_follow_the_dynamic_models() {
    let mut renderer = dg_renderer();
    let mut scene = Scene::new();
    scene.dynamic_models.push(dg_entity(0, FeatureRenderer::RigidObject));
    scene.decorators.push(DecoratorEntity { entity: Entity { index: 10, generation: 0 }, visibility: None });
    scene.decorators.push(DecoratorEntity {
        entity: Entity { index: 11, generation: 0 },
        visibility: Some(ViewVisibility::new()),
    });
    scene.decorators.push(DecoratorEntity { entity: Entity { index: 12, generation: 0 }, visibility: None });
    let commands = draw_dynamic_model_system(&renderer, &scene, RenderStage::ShadowGenerate);
    // the model does not take part in the shadow stage; the decorators are drawn
    assert_eq!(
        commands,
        vec![
            GpuCommand::BeginPickEntity { entity: Entity { index: 0, generation: 0 } },
            GpuCommand::SetRigidModelExtern { constants: ResourceId(500) },
            GpuCommand::BindConstantBuffer { buffer: ResourceId(500), slot: SLOT, stage: ShaderStage::Vertex },
            GpuCommand::EndPickEntity,
            GpuCommand::BeginPickEntity { entity: Entity { index: 10, generation: 0 } },
            GpuCommand::DrawDecorator {
                entity: Entity { index: 10, generation: 0 },
                stage: RenderStage::ShadowGenerate
            },
            GpuCommand::EndPickEntity,
            GpuCommand::BeginPickEntity { entity: Entity { index: 12, generation: 0 } },
            GpuCommand::DrawDecorator {
                entity: Entity { index: 12, generation: 0 },
                stage: RenderStage::ShadowGenerate
            },
            GpuCommand::EndPickEntity,
        ]
    );
    renderer.settings.feature_decorators = false;
    let commands = draw_dynamic_model_system(&renderer, &scene, RenderStage::ShadowGenerate);
    assert_eq!(dg_drawn_entities(&commands), vec![0]);
}

#[test]
fn a_switched_off_stage_empties_the_general_pass() {
    let mut renderer = dg_renderer();
    renderer.settings.stage_transparent = false;
    let mut scene = Scene::new();
    scene.dynamic_models.push(dg_entity(0, FeatureRenderer::RigidObject));
    scene.decorators.push(DecoratorEntity { entity: Entity { index: 10, generation: 0 }, visibility: None });
    assert!(draw_dynamic_model_system(&renderer, &scene, RenderStage::Transparents).is_empty());
    assert!(draw_sky_objects_system(&renderer, &scene, RenderStage::Transparents).is_empty());
    assert!(!draw_dynamic_model_system(&renderer, &scene, RenderStage::GenerateGbuffer).is_empty());
}

#[test]
fn sky_objects_are_drawn_from_far_to_near() {
    let renderer = dg_renderer();
    let mut scene = Scene::new();
    let distances = [10u64, 500, 500, 3, u64::MAX, 0];
    for (i, d) in distances.iter().enumerate() {
        let mut e = dg_entity(i as u32, FeatureRenderer::SkyTransparent);
        e.view_distance_key = *d;
        e.component.cbuffer = ResourceId(i as u64);
        scene.dynamic_models.push(e);
    }
    scene.dynamic_models.push(dg_entity(99, FeatureRenderer::RigidObject));
    let commands = draw_sky_objects_system(&renderer, &scene, RenderStage::GenerateGbuffer);
    let drawn: Vec<u64> = commands
        .iter()
        .filter_map(|c| match c {
            GpuCommand::SetRigidModelExtern { constants } => Some(constants.0),
            _ => None,
        })
        .collect();
    assert_eq!(drawn, vec![4, 1, 2, 0, 3, 5]);
    assert_eq!(dg_draws(&commands), 6);
    // the sky pass marks no entity and feeds no object channels
    assert!(dg_drawn_entities(&commands).is_empty());
}

#[test]
fn sky_pass_respects_visibility_and_its_switch() {
    let mut renderer = dg_renderer();
    let mut scene = Scene::new();
    let mut hidden = dg_entity(0, FeatureRenderer::SkyTransparent);
    hidden.visibility = Some(ViewVisibility::new());
    scene.dynamic_models.push(hidden);
    scene.dynamic_models.push(dg_entity(1, FeatureRenderer::SkyTransparent));
    let commands = draw_sky_objects_system(&renderer, &scene, RenderStage::GenerateGbuffer);
    assert_eq!(dg_draws(&commands), 1);
    renderer.settings.feature_sky = false;
    assert!(draw_sky_objects_system(&renderer, &scene, RenderStage::GenerateGbuffer).is_empty());
}

#[test]
fn moved_entities_get_their_constants_written() {
    let mut scene = Scene::new();
    for i in 0..4 {
        let mut e = dg_entity(i, FeatureRenderer::RigidObject);
        e.transform_changed = i % 2 == 1;
        scene.dynamic_models.push(e);
    }
    assert_eq!(
        update_dynamic_model_system(&scene),
        vec![
            GpuCommand::WriteRigidModelConstants { buffer: ResourceId(501) },
            GpuCommand::WriteRigidModelConstants { buffer: ResourceId(503) },
        ]
    );
    assert!(update_dynamic_model_system(&Scene::new()).is_empty());
}
