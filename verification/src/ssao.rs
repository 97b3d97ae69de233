//! Ambient occlusion in screen space: one pass that estimates occlusion
//! into an intermediate target, and one that blurs it and applies it.

use crate::command::{created, GpuCommand, PrimitiveType, ResourceId, ShaderStage};
use crate::gbuffer::{GBuffer, GBufferSlot};
use crate::renderer::Renderer;
use vstd::prelude::*;

verus! {

/// Number of samples of the occlusion kernel.
pub const KERNEL_SIZE: usize = 32;

/// Side of the square noise texture, in texels.
pub const NOISE_SIDE: u32 = 4;

/// The object of the occlusion renderer that the device did not create.
#[derive(Clone, Copy, PartialEq, Eq, Structural, Debug)]
pub enum SsaoError {
    NoiseTexture,
    VertexShader,
    PixelShader,
    BlurPixelShader,
    Constants,
}

/// The views of the deferred targets that occlusion is estimated from.
#[derive(Clone, Copy, PartialEq, Eq, Structural, Debug)]
pub struct DeferredInputs {
    pub depth: ResourceId,
    pub rt1: ResourceId,
}

/// What the externs hold when occlusion is drawn.
#[derive(Clone, Copy, PartialEq, Eq, Structural, Debug)]
pub struct SsaoInputs {
    /// Whether a view is bound.
    pub view_bound: bool,
    /// The deferred targets, once they are published.
    pub deferred: Option<DeferredInputs>,
}

/// The device objects of the occlusion renderer.
#[derive(Clone, Copy, PartialEq, Eq, Structural, Debug)]
pub struct SsaoRenderer {
    pub scope: ResourceId,
    pub noise_texture: ResourceId,
    pub shader_vs: ResourceId,
    pub shader_ps: ResourceId,
    pub shader_blur_ps: ResourceId,
}

impl SsaoRenderer {
    /// The failure that a missing object at place `step` means. The objects
    /// are created in the order noise texture, vertex shader, pixel shader,
    /// blur pixel shader, constants.
    pub open spec fn spec_step_error(step: int) -> SsaoError {
        if step == 0 {
            SsaoError::NoiseTexture
        } else if step == 1 {
            SsaoError::VertexShader
        } else if step == 2 {
            SsaoError::PixelShader
        } else if step == 3 {
            SsaoError::BlurPixelShader
        } else {
            SsaoError::Constants
        }
    }

    pub open spec fn spec_new(objects: Seq<Option<ResourceId>>) -> Result<
        SsaoRenderer,
        SsaoError,
    > {
        let missing = crate::command::first_missing(objects, 0, 5);
        if missing < 5 {
            Err(Self::spec_step_error(missing))
        } else {
            Ok(
                SsaoRenderer {
                    noise_texture: created(objects, 0)->0,
                    shader_vs: created(objects, 1)->0,
                    shader_ps: created(objects, 2)->0,
                    shader_blur_ps: created(objects, 3)->0,
                    scope: created(objects, 4)->0,
                },
            )
        }
    }

    /// The commands of the two occlusion passes.
    ///
    /// The intermediate target is cleared in any case. Without a bound view
    /// nothing else happens. With a view its transform goes into the
    /// constants; without the deferred targets nothing else happens. Else
    /// the first pass reads depth and normals and renders into the
    /// intermediate target, and the second pass reads the intermediate
    /// target and renders, blending, into what was bound before.
    pub open spec fn spec_draw(self, gbuffers: GBuffer, inputs: SsaoInputs) -> Seq<GpuCommand> {
        let intermediate = gbuffers.spec_target(GBufferSlot::SsaoIntermediate)->0;
        let clear = seq![
            GpuCommand::ClearRenderTarget {
                view: intermediate.render_target,
                red: 0,
                green: 0,
                blue: 0,
                alpha: 0,
            },
        ];
        if !inputs.view_bound {
            clear
        } else if inputs.deferred is None {
            clear + seq![GpuCommand::UpdateSsaoConstants { buffer: self.scope }]
        } else {
            clear + seq![
                GpuCommand::UpdateSsaoConstants { buffer: self.scope },
                GpuCommand::SetPixelShaderResources {
                    slot: 0,
                    count: 2,
                    first: Some(inputs.deferred->0.depth),
                    second: Some(inputs.deferred->0.rt1),
                },
                GpuCommand::SetPixelConstantBuffer { slot: 0, buffer: self.scope },
                GpuCommand::BindTexture {
                    texture: self.noise_texture,
                    slot: 2,
                    stage: ShaderStage::Pixel,
                },
                GpuCommand::BackupState,
                GpuCommand::SetRenderTargets { count: 1, first: Some(intermediate.render_target) },
                GpuCommand::SetBlendState { index: 0 },
                GpuCommand::ResetRasterizerState,
                GpuCommand::SetInputTopology { topology: PrimitiveType::Triangles },
                GpuCommand::ResetDepthStencilState,
                GpuCommand::SetVertexShader { shader: self.shader_vs },
                GpuCommand::SetPixelShader { shader: self.shader_ps },
                GpuCommand::Draw { vertex_count: 3, vertex_start: 0 },
                GpuCommand::SelectStates { blend: 3, depth_stencil: 0, rasterizer: 1, depth_bias: 1 },
                GpuCommand::SetBlendState { index: 3 },
                GpuCommand::RestoreState,
                GpuCommand::SetPixelShader { shader: self.shader_blur_ps },
                GpuCommand::SetPixelShaderResources {
                    slot: 0,
                    count: 1,
                    first: Some(intermediate.view),
                    second: None,
                },
                GpuCommand::Draw { vertex_count: 3, vertex_start: 0 },
            ]
        }
    }

    /// Puts the renderer together from the objects that the device created,
    /// and reports the first that is missing.
    pub fn new(objects: &[Option<ResourceId>]) -> (r: Result<SsaoRenderer, SsaoError>)
        ensures
            r == Self::spec_new(objects@),
    {
        let missing = crate::command::find_first_missing(objects, 0, 5);
        proof {
            crate::command::lemma_first_missing(objects@, 0, 5);
        }
        if missing < 5 {
            let e = if missing == 0 {
                SsaoError::NoiseTexture
            } else if missing == 1 {
                SsaoError::VertexShader
            } else if missing == 2 {
                SsaoError::PixelShader
            } else if missing == 3 {
                SsaoError::BlurPixelShader
            } else {
                SsaoError::Constants
            };
            return Err(e);
        }
        proof {
            assert(created(objects@, 0) is Some);
            assert(created(objects@, 1) is Some);
            assert(created(objects@, 2) is Some);
            assert(created(objects@, 3) is Some);
            assert(created(objects@, 4) is Some);
        }
        Ok(
            SsaoRenderer {
                noise_texture: objects[0].unwrap(),
                shader_vs: objects[1].unwrap(),
                shader_ps: objects[2].unwrap(),
                shader_blur_ps: objects[3].unwrap(),
                scope: objects[4].unwrap(),
            },
        )
    }

    /// Plans the two occlusion passes.
    pub fn draw(&self, renderer: &Renderer, inputs: SsaoInputs) -> (commands: Vec<GpuCommand>)
        ensures
            commands@ == self.spec_draw(renderer.gbuffers, inputs),
    {
        let intermediate = renderer.gbuffers.ssao_intermediate();
        let mut commands: Vec<GpuCommand> = Vec::new();
        commands.push(intermediate.clear([0, 0, 0, 0]));
        if !inputs.view_bound {
            proof {
                assert(commands@ =~= self.spec_draw(renderer.gbuffers, inputs));
            }
            return commands;
        }
        commands.push(GpuCommand::UpdateSsaoConstants { buffer: self.scope });
        let deferred = match inputs.deferred {
            Some(deferred) => deferred,
            None => {
                proof {
                    assert(commands@ =~= self.spec_draw(renderer.gbuffers, inputs));
                }
                return commands;
            },
        };
        commands.push(
            GpuCommand::SetPixelShaderResources {
                slot: 0,
                count: 2,
                first: Some(deferred.depth),
                second: Some(deferred.rt1),
            },
        );
        commands.push(GpuCommand::SetPixelConstantBuffer { slot: 0, buffer: self.scope });
        commands.push(
            GpuCommand::BindTexture {
                texture: self.noise_texture,
                slot: 2,
                stage: ShaderStage::Pixel,
            },
        );
        commands.push(GpuCommand::BackupState);
        commands.push(
            GpuCommand::SetRenderTargets { count: 1, first: Some(intermediate.render_target) },
        );
        commands.push(GpuCommand::SetBlendState { index: 0 });
        commands.push(GpuCommand::ResetRasterizerState);
        commands.push(GpuCommand::SetInputTopology { topology: PrimitiveType::Triangles });
        commands.push(GpuCommand::ResetDepthStencilState);
        commands.push(GpuCommand::SetVertexShader { shader: self.shader_vs });
        commands.push(GpuCommand::SetPixelShader { shader: self.shader_ps });
        commands.push(GpuCommand::Draw { vertex_count: 3, vertex_start: 0 });
        commands.push(
            GpuCommand::SelectStates { blend: 3, depth_stencil: 0, rasterizer: 1, depth_bias: 1 },
        );
        commands.push(GpuCommand::SetBlendState { index: 3 });
        commands.push(GpuCommand::RestoreState);
        commands.push(GpuCommand::SetPixelShader { shader: self.shader_blur_ps });
        commands.push(
            GpuCommand::SetPixelShaderResources {
                slot: 0,
                count: 1,
                first: Some(intermediate.view),
                second: None,
            },
        );
        commands.push(GpuCommand::Draw { vertex_count: 3, vertex_start: 0 });
        proof {
            assert(commands@ =~= self.spec_draw(renderer.gbuffers, inputs));
        }
        commands
    }
}

} // verus!
