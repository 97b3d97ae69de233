use alkahest_renderer::command::{
    GlobalPipeline, GpuCommand, PrimitiveType, ResourceId, ShaderStage,
};
use alkahest_renderer::gbuffer::{GBuffer, GBufferSlot};
use alkahest_renderer::renderer::Renderer;
use alkahest_renderer::scene::Scene;
use alkahest_renderer::settings::RendererSettings;
use alkahest_renderer::shader::{ShaderError, ShaderProgram};
use alkahest_renderer::ssao::{DeferredInputs, SsaoError, SsaoInputs, SsaoRenderer};

fn pp_renderer() -> Renderer {
    let objects: Vec<Option<ResourceId>> = (0..56u64).map(|i| Some(ResourceId(1000 + i))).collect();
    Renderer::new(RendererSettings::new(), GBuffer::create((64, 64), &objects).unwrap(), 3)
}

fn pp_unbind() -> Vec<GpuCommand> {
    vec![
        GpuCommand::SetRenderTargets { count: 0, first: None },
        GpuCommand::SetPixelShaderResources { slot: 0, count: 0, first: None, second: None },
    ]
}

fn pp_ssao() -> SsaoRenderer {
    let objects: Vec<Option<ResourceId>> = (0..5u64).map(|i| Some(ResourceId(70 + i))).collect();
    SsaoRenderer::new(&objects).unwrap()
}

#[test]
fn chain_with_anti_aliasing() {
    let mut renderer = pp_renderer();
    renderer.settings.feature_fxaa = true;
    renderer.settings.fxaa_noise = false;
    let commands = renderer.draw_postprocessing_pass(&Scene::new());
    // shading result: 1024..1026, ping: 1050..1052, pong: 1053..1055
    let mut expected = pp_unbind();
    expected.push(GpuCommand::BlitAlphaLuminance { source: ResourceId(1026), target: ResourceId(1054) });
    expected.extend(pp_unbind());
    expected.extend([
        GpuCommand::SetFxaaExtern { source: ResourceId(1055) },
        GpuCommand::SetRenderTargets { count: 2, first: Some(ResourceId(1051)) },
        GpuCommand::SelectStates { blend: 0, depth_stencil: 0, rasterizer: 0, depth_bias: 0 },
        GpuCommand::ExecutePipeline { pipeline: GlobalPipeline::Fxaa },
    ]);
    expected.extend(pp_unbind());
    expected.push(GpuCommand::Blit { source: ResourceId(1052), target: ResourceId(1025) });
    assert_eq!(commands, expected);
    // the roles are back where they were
    assert_eq!(renderer.gbuffers.get_postprocess_output().texture, ResourceId(1050));
}

#[test]
fn chain_without_anti_aliasing() {
    let mut renderer = pp_renderer();
    renderer.settings.feature_fxaa = false;
    let commands = renderer.draw_postprocessing_pass(&Scene::new());
    let mut expected = pp_unbind();
    expected.push(GpuCommand::BlitAlphaLuminance { source: ResourceId(1026), target: ResourceId(1054) });
    expected.extend(pp_unbind());
    expected.push(GpuCommand::Blit { source: ResourceId(1055), target: ResourceId(1025) });
    assert_eq!(commands, expected);
    assert_eq!(commands.len(), 6);
    // the roles are exchanged
    assert_eq!(renderer.gbuffers.get_postprocess_output().texture, ResourceId(1053));
}

#[test]
fn anti_aliasing_with_noise_runs_the_noise_pipeline() {
    let mut renderer = pp_renderer();
    renderer.settings.feature_fxaa = true;
    renderer.settings.fxaa_noise = true;
    let commands = renderer.draw_postprocessing_pass(&Scene::new());
    assert_eq!(commands.len(), 12);
    assert_eq!(commands[8], GpuCommand::ExecutePipeline { pipeline: GlobalPipeline::FxaaNoise });
}

#[test]
fn two_chains_without_anti_aliasing_alternate_the_targets() {
    let mut renderer = pp_renderer();
    renderer.settings.feature_fxaa = false;
    let first = renderer.draw_postprocessing_pass(&Scene::new());
    let second = renderer.draw_postprocessing_pass(&Scene::new());
    assert_eq!(first[2], GpuCommand::BlitAlphaLuminance { source: ResourceId(1026), target: ResourceId(1054) });
    assert_eq!(second[2], GpuCommand::BlitAlphaLuminance { source: ResourceId(1026), target: ResourceId(1051) });
    assert_eq!(second[5], GpuCommand::Blit { source: ResourceId(1052), target: ResourceId(1025) });
    assert_eq!(renderer.gbuffers.target(GBufferSlot::ShadingResult).unwrap().texture, ResourceId(1024));
}

#[test]
fn no_pass_of_the_chain_reads_what_it_writes() {
    for fxaa in [false, true] {
        let mut renderer = pp_renderer();
        renderer.settings.feature_fxaa = fxaa;
        let ping = renderer.gbuffers.target(GBufferSlot::PostprocessPing).unwrap();
        let pong = renderer.gbuffers.target(GBufferSlot::PostprocessPong).unwrap();
        let texture_of = |id: ResourceId| {
            if id == ping.view || id == ping.render_target {
                Some(ping.texture)
            } else if id == pong.view || id == pong.render_target {
                Some(pong.texture)
            } else {
                None
            }
        };
        let commands = renderer.draw_postprocessing_pass(&Scene::new());
        let mut input = None;
        for c in &commands {
            match c {
                GpuCommand::SetFxaaExtern { source } => input = texture_of(*source),
                GpuCommand::SetRenderTargets { first: Some(target), .. } => {
                    assert_ne!(texture_of(*target), input);
                }
                _ => {}
            }
        }
    }
}

#[test]
fn ssao_renderer_is_made_of_five_objects() {
    let ssao = pp_ssao();
    assert_eq!(
        ssao,
        SsaoRenderer {
            noise_texture: ResourceId(70),
            shader_vs: ResourceId(71),
            shader_ps: ResourceId(72),
            shader_blur_ps: ResourceId(73),
            scope: ResourceId(74),
        }
    );
    let expected = [
        SsaoError::NoiseTexture,
        SsaoError::VertexShader,
        SsaoError::PixelShader,
        SsaoError::BlurPixelShader,
        SsaoError::Constants,
    ];
    for missing in 0..5 {
        let mut objects: Vec<Option<ResourceId>> = (0..5u64).map(|i| Some(ResourceId(i))).collect();
        objects[missing] = None;
        assert_eq!(SsaoRenderer::new(&objects), Err(expected[missing]));
        assert_eq!(SsaoRenderer::new(&objects[..missing]), Err(expected[missing]));
    }
}

#[test]
fn ssao_without_a_view_only_clears() {
    let renderer = pp_renderer();
    let commands = pp_ssao().draw(
        &renderer,
        SsaoInputs {
            view_bound: false,
            deferred: Some(DeferredInputs { depth: ResourceId(1), rt1: ResourceId(2) }),
        },
    );
    assert_eq!(
        commands,
        vec![GpuCommand::ClearRenderTarget {
            view: ResourceId(1039),
            red: 0,
            green: 0,
            blue: 0,
            alpha: 0
        }]
    );
}

#[test]
fn ssao_without_deferred_targets_stops_after_the_constants() {
    let renderer = pp_renderer();
    let commands = pp_ssao().draw(&renderer, SsaoInputs { view_bound: true, deferred: None });
    assert_eq!(commands.len(), 2);
    assert_eq!(commands[1], GpuCommand::UpdateSsaoConstants { buffer: ResourceId(74) });
    assert_eq!(commands.iter().filter(|c| c.is_draw()).count(), 0);
}

#[test]
fn ssao_draws_two_full_screen_passes() {
    let renderer = pp_renderer();
    let commands = pp_ssao().draw(
        &renderer,
        SsaoInputs {
            view_bound: true,
            deferred: Some(DeferredInputs { depth: ResourceId(1), rt1: ResourceId(2) }),
        },
    );
    assert_eq!(
        commands,
        vec![
            GpuCommand::ClearRenderTarget { view: ResourceId(1039), red: 0, green: 0, blue: 0, alpha: 0 },
            GpuCommand::UpdateSsaoConstants { buffer: ResourceId(74) },
            GpuCommand::SetPixelShaderResources {
                slot: 0,
                count: 2,
                first: Some(ResourceId(1)),
                second: Some(ResourceId(2))
            },
            GpuCommand::SetPixelConstantBuffer { slot: 0, buffer: ResourceId(74) },
            GpuCommand::BindTexture { texture: ResourceId(70), slot: 2, stage: ShaderStage::Pixel },
            GpuCommand::BackupState,
            GpuCommand::SetRenderTargets { count: 1, first: Some(ResourceId(1039)) },
            GpuCommand::SetBlendState { index: 0 },
            GpuCommand::ResetRasterizerState,
            GpuCommand::SetInputTopology { topology: PrimitiveType::Triangles },
            GpuCommand::ResetDepthStencilState,
            GpuCommand::SetVertexShader { shader: ResourceId(71) },
            GpuCommand::SetPixelShader { shader: ResourceId(72) },
            GpuCommand::Draw { vertex_count: 3, vertex_start: 0 },
            GpuCommand::SelectStates { blend: 3, depth_stencil: 0, rasterizer: 1, depth_bias: 1 },
            GpuCommand::SetBlendState { index: 3 },
            GpuCommand::RestoreState,
            GpuCommand::SetPixelShader { shader: ResourceId(73) },
            GpuCommand::SetPixelShaderResources {
                slot: 0,
                count: 1,
                first: Some(ResourceId(1040)),
                second: None
            },
            GpuCommand::Draw { vertex_count: 3, vertex_start: 0 },
        ]
    );
}

#[test]
fn shader_program_without_geometry_shader() {
    let program = ShaderProgram::load(false, &[Some(ResourceId(1)), Some(ResourceId(2))]).unwrap();
    assert_eq!(program, ShaderProgram { vs: ResourceId(1), gs: None, ps: ResourceId(2) });
    assert_eq!(
        program.bind(),
        vec![
            GpuCommand::SetVertexShader { shader: ResourceId(1) },
            GpuCommand::SetPixelShader { shader: ResourceId(2) },
        ]
    );
}

#[test]
fn shader_program_with_geometry_shader() {
    let program =
        ShaderProgram::load(true, &[Some(ResourceId(1)), Some(ResourceId(2)), Some(ResourceId(3))])
            .unwrap();
    assert_eq!(
        program,
        ShaderProgram { vs: ResourceId(1), gs: Some(ResourceId(2)), ps: ResourceId(3) }
    );
    assert_eq!(
        program.bind(),
        vec![
            GpuCommand::SetVertexShader { shader: ResourceId(1) },
            GpuCommand::SetGeometryShader { shader: ResourceId(2) },
            GpuCommand::SetPixelShader { shader: ResourceId(3) },
        ]
    );
}

#[test]
fn shader_program_reports_the_missing_shader() {
    assert_eq!(ShaderProgram::load(false, &[]), Err(ShaderError::VertexShader));
    assert_eq!(ShaderProgram::load(true, &[None, None, None]), Err(ShaderError::VertexShader));
    assert_eq!(
        ShaderProgram::load(true, &[Some(ResourceId(1)), None, Some(ResourceId(3))]),
        Err(ShaderError::GeometryShader)
    );
    assert_eq!(
        ShaderProgram::load(true, &[Some(ResourceId(1)), Some(ResourceId(2))]),
        Err(ShaderError::PixelShader)
    );
    assert_eq!(
        ShaderProgram::load(false, &[Some(ResourceId(1)), None, Some(ResourceId(3))]),
        Err(ShaderError::PixelShader)
    );
    assert_eq!(ShaderProgram::load(false, &[Some(ResourceId(1))]), Err(ShaderError::PixelShader));
}

#[test]
fn every_pass_of_the_chain_starts_unbound() {
    for fxaa in [false, true] {
        let mut renderer = pp_renderer();
        renderer.settings.feature_fxaa = fxaa;
        let commands = renderer.draw_postprocessing_pass(&Scene::new());
        let mut unbound = false;
        let mut passes = 0;
        for pair in commands.windows(2) {
            if pair == &pp_unbind()[..] {
                unbound = true;
            }
            let is_pass = matches!(
                pair[1],
                GpuCommand::BlitAlphaLuminance { .. }
                    | GpuCommand::ExecutePipeline { .. }
                    | GpuCommand::Blit { .. }
            );
            if is_pass {
                assert!(unbound);
                unbound = false;
                passes += 1;
            }
        }
        assert_eq!(passes, if fxaa { 3 } else { 2 });
    }
}
