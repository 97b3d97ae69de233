//! The post-process compositor: the chain of full-screen passes that turns
//! the result of shading into what is shown.

use crate::command::{GlobalPipeline, GpuCommand};
use crate::gbuffer::{GBuffer, GBufferSlot};
use crate::renderer::Renderer;
use crate::scene::Scene;
use crate::settings::RendererSettings;
use vstd::prelude::*;

verus! {

/// The two commands that free every render target and every pixel shader
/// input, so that no texture is bound as input and as output at once.
pub open spec fn spec_unbind_all() -> Seq<GpuCommand> {
    seq![
        GpuCommand::SetRenderTargets { count: 0, first: None },
        GpuCommand::SetPixelShaderResources { slot: 0, count: 0, first: None, second: None },
    ]
}

/// The pipeline that anti-aliasing runs.
pub open spec fn spec_fxaa_pipeline(settings: RendererSettings) -> GlobalPipeline {
    if settings.fxaa_noise {
        GlobalPipeline::FxaaNoise
    } else {
        GlobalPipeline::Fxaa
    }
}

/// The chain of full-screen passes.
///
/// The result of shading is copied into the post-processing target that is
/// next to be written. Where anti-aliasing is on, it reads that target and
/// writes the other one. The target that was written last is then copied
/// back into the result of shading. Before each pass everything is
/// unbound.
pub open spec fn spec_postprocessing_pass(gbuffers: GBuffer, settings: RendererSettings) -> Seq<
    GpuCommand,
> {
    let pair = gbuffers.spec_postprocess_pair();
    let shading = gbuffers.spec_target(GBufferSlot::ShadingResult)->0;
    let latest = if settings.feature_fxaa {
        pair.0
    } else {
        pair.1
    };
    spec_unbind_all() + seq![
        GpuCommand::BlitAlphaLuminance { source: shading.view, target: pair.1.render_target },
    ] + (if settings.feature_fxaa {
        spec_unbind_all() + seq![
            GpuCommand::SetFxaaExtern { source: pair.1.view },
            GpuCommand::SetRenderTargets { count: 2, first: Some(pair.0.render_target) },
            GpuCommand::SelectStates { blend: 0, depth_stencil: 0, rasterizer: 0, depth_bias: 0 },
            GpuCommand::ExecutePipeline { pipeline: spec_fxaa_pipeline(settings) },
        ]
    } else {
        Seq::<GpuCommand>::empty()
    }) + spec_unbind_all() + seq![
        GpuCommand::Blit { source: latest.view, target: shading.render_target },
    ]
}

fn push_unbind_all(commands: &mut Vec<GpuCommand>)
    ensures
        final(commands)@ == old(commands)@ + spec_unbind_all(),
{
    commands.push(GpuCommand::SetRenderTargets { count: 0, first: None });
    commands.push(
        GpuCommand::SetPixelShaderResources { slot: 0, count: 0, first: None, second: None },
    );
    proof {
        assert(commands@ =~= old(commands)@ + spec_unbind_all());
    }
}

impl Renderer {
    /// Plans the chain of full-screen passes of a frame.
    ///
    /// Each pass takes the pair of post-processing targets and lets the two
    /// change roles. With anti-aliasing on the roles are back where they
    /// were when the chain is done; with anti-aliasing off they are
    /// exchanged.
    pub fn draw_postprocessing_pass(&mut self, _scene: &Scene) -> (commands: Vec<GpuCommand>)
        ensures
            commands@ == spec_postprocessing_pass(old(self).gbuffers, old(self).settings),
            final(self).gbuffers.wf(),
            final(self).gbuffers.spec_same_resources(old(self).gbuffers),
            final(self).gbuffers.spec_pingpong() == if old(self).settings.feature_fxaa {
                old(self).gbuffers.spec_pingpong()
            } else {
                old(self).gbuffers.spec_pingpong().spec_next()
            },
            final(self).settings == old(self).settings,
            final(self).techniques == old(self).techniques,
            final(self).active_view == old(self).active_view,
            final(self).frame_index == old(self).frame_index,
            final(self).active_shadow_generation_mode == old(self).active_shadow_generation_mode,
            final(self).assets_idle == old(self).assets_idle,
            final(self).rigid_model_vertex_slot == old(self).rigid_model_vertex_slot,
    {
        let mut commands: Vec<GpuCommand> = Vec::new();
        push_unbind_all(&mut commands);
        let shading = self.gbuffers.shading_result();
        let first = self.gbuffers.get_postprocess_rt(true);
        commands.push(
            GpuCommand::BlitAlphaLuminance { source: shading.view, target: first.1.render_target },
        );
        let ghost after_blit = commands@;
        if self.settings.feature_fxaa {
            let second = self.gbuffers.get_postprocess_rt(true);
            push_unbind_all(&mut commands);
            commands.push(GpuCommand::SetFxaaExtern { source: second.0.view });
            commands.push(
                GpuCommand::SetRenderTargets { count: 2, first: Some(second.1.render_target) },
            );
            commands.push(
                GpuCommand::SelectStates {
                    blend: 0,
                    depth_stencil: 0,
                    rasterizer: 0,
                    depth_bias: 0,
                },
            );
            let pipeline = if self.settings.fxaa_noise {
                GlobalPipeline::FxaaNoise
            } else {
                GlobalPipeline::Fxaa
            };
            commands.push(GpuCommand::ExecutePipeline { pipeline });
        }
        let ghost after_fxaa = commands@;
        push_unbind_all(&mut commands);
        let output = self.gbuffers.get_postprocess_output();
        let shading_now = self.gbuffers.shading_result();
        commands.push(GpuCommand::Blit { source: output.view, target: shading_now.render_target });
        proof {
            let pair = old(self).gbuffers.spec_postprocess_pair();
            assert(self.gbuffers.spec_target(GBufferSlot::ShadingResult) == old(
                self,
            ).gbuffers.spec_target(GBufferSlot::ShadingResult));
            assert(after_blit =~= spec_unbind_all() + seq![
                GpuCommand::BlitAlphaLuminance {
                    source: shading.view,
                    target: pair.1.render_target,
                },
            ]);
            assert(commands@ =~= spec_postprocessing_pass(old(self).gbuffers, old(self).settings));
        }
        commands
    }
}

/// The last pass of the chain reads what the pass before it wrote: with
/// anti-aliasing on, the target that anti-aliasing rendered to; else the
/// target that the result of shading was copied into. No pass reads the
/// texture that it writes.
pub proof fn lemma_chain_reads_latest(gbuffers: GBuffer, settings: RendererSettings)
    requires
        gbuffers.wf(),
    ensures
        ({
            let commands = spec_postprocessing_pass(gbuffers, settings);
            let pair = gbuffers.spec_postprocess_pair();
            &&& pair.0.texture != pair.1.texture
            &&& commands.len() == if settings.feature_fxaa {
                12int
            } else {
                6int
            }
            &&& commands.last() == (GpuCommand::Blit {
                source: if settings.feature_fxaa {
                    pair.0.view
                } else {
                    pair.1.view
                },
                target: gbuffers.spec_target(GBufferSlot::ShadingResult)->0.render_target,
            })
        }),
{
    gbuffers.lemma_pair();
}

/// Whether the command is a full-screen pass.
pub open spec fn spec_is_pass(command: GpuCommand) -> bool {
    command is BlitAlphaLuminance || command is ExecutePipeline || command is Blit
}

/// Where the commands of a pass begin: a copy is one command behind the two
/// that unbind, the anti-aliasing pipeline is run behind three commands
/// that set it up.
pub open spec fn spec_pass_start(commands: Seq<GpuCommand>, pass: int) -> int {
    if commands[pass] is ExecutePipeline {
        pass - 5
    } else {
        pass - 2
    }
}

/// Before each pass of the chain everything is unbound: the commands of
/// a pass begin with the two that unbind, and no other pass stands between
/// them and the pass.
pub proof fn lemma_each_pass_unbinds_first(
    gbuffers: GBuffer,
    settings: RendererSettings,
    pass: int,
)
    requires
        0 <= pass < spec_postprocessing_pass(gbuffers, settings).len(),
        spec_is_pass(spec_postprocessing_pass(gbuffers, settings)[pass]),
    ensures
        ({
            let commands = spec_postprocessing_pass(gbuffers, settings);
            let start = spec_pass_start(commands, pass);
            &&& 0 <= start
            &&& commands.subrange(start, start + 2) == spec_unbind_all()
            &&& forall|k: int| start <= k < pass ==> !spec_is_pass(#[trigger] commands[k])
        }),
{
    let commands = spec_postprocessing_pass(gbuffers, settings);
    let start = spec_pass_start(commands, pass);
    if settings.feature_fxaa {
        assert(commands.len() == 12);
        assert(pass == 2 || pass == 8 || pass == 11);
    } else {
        assert(commands.len() == 6);
        assert(pass == 2 || pass == 5);
    }
    assert(commands.subrange(start, start + 2) =~= spec_unbind_all());
}

} // verus!
