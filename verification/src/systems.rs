//! The render-stage dispatcher: which drawers run in a stage, and in which
//! order.

use crate::command::{append_commands, GpuCommand};
use crate::dynamic_geometry::{draw_dynamic_model_system, spec_dynamic_model_system};
use crate::renderer::Renderer;
use crate::scene::Scene;
use crate::stage::{FeatureRenderer, RenderStage};
use vstd::prelude::*;

verus! {

/// The commands that come before the dynamic models in a stage: terrain
/// patches and the preview drawer in the stages that fill depth, and the
/// static instances in every stage, each where its feature is switched on.
pub open spec fn spec_stage_head(renderer: Renderer, stage: RenderStage) -> Seq<GpuCommand> {
    (if stage.spec_draws_terrain() {
        (if renderer.settings.spec_feature_enabled(FeatureRenderer::TerrainPatch) {
            seq![GpuCommand::DrawTerrainPatches]
        } else {
            Seq::<GpuCommand>::empty()
        }) + seq![GpuCommand::DrawShaderball]
    } else {
        Seq::<GpuCommand>::empty()
    }) + (if renderer.settings.spec_feature_enabled(FeatureRenderer::StaticObjects) {
        seq![GpuCommand::DrawStaticInstances { stage }]
    } else {
        Seq::<GpuCommand>::empty()
    })
}

/// What a stage emits: nothing if the stage is switched off; else terrain
/// patches, the preview drawer, the static instances and the dynamic
/// models, in this order.
pub open spec fn spec_run_stage(renderer: Renderer, scene: Scene, stage: RenderStage) -> Seq<
    GpuCommand,
> {
    if !renderer.settings.spec_stage_enabled(stage) {
        Seq::empty()
    } else {
        spec_stage_head(renderer, stage) + spec_dynamic_model_system(renderer, scene, stage)
    }
}

impl Renderer {
    /// Plans a render stage over the scene.
    ///
    /// A stage that is switched off is skipped before any entity is looked
    /// at. Else the drawers run in a fixed order: terrain patches and the
    /// preview drawer, in the three stages that fill depth only; then the
    /// static instances; then the dynamic models.
    pub fn run_renderstage_systems(&self, scene: &Scene, stage: RenderStage) -> (commands: Vec<
        GpuCommand,
    >)
        ensures
            commands@ == spec_run_stage(*self, *scene, stage),
            !self.settings.spec_stage_enabled(stage) ==> commands@.len() == 0,
    {
        let mut commands: Vec<GpuCommand> = Vec::new();
        if !self.settings.stage_enabled(stage) {
            return commands;
        }
        if stage.draws_terrain() {
            if self.settings.feature_enabled(FeatureRenderer::TerrainPatch) {
                commands.push(GpuCommand::DrawTerrainPatches);
            }
            commands.push(GpuCommand::DrawShaderball);
        }
        if self.settings.feature_enabled(FeatureRenderer::StaticObjects) {
            commands.push(GpuCommand::DrawStaticInstances { stage });
        }
        proof {
            assert(commands@ =~= spec_stage_head(*self, stage));
        }
        let dynamic = draw_dynamic_model_system(self, scene, stage);
        append_commands(&mut commands, &dynamic);
        commands
    }
}

/// Switching the transparents off leaves the transparents stage without a
/// single command, and so without a draw.
pub proof fn lemma_transparents_off_draws_nothing(renderer: Renderer, scene: Scene)
    requires
        !renderer.settings.stage_transparent,
    ensures
        spec_run_stage(renderer, scene, RenderStage::Transparents).len() == 0,
        forall|k: int|
            0 <= k < spec_run_stage(renderer, scene, RenderStage::Transparents).len() ==> !(
            #[trigger] spec_run_stage(renderer, scene, RenderStage::Transparents)[k]).spec_is_draw(),
{
}

/// Each of the three stage switches empties its own stage.
pub proof fn lemma_switched_off_stage_is_empty(renderer: Renderer, scene: Scene, stage: RenderStage)
    requires
        !renderer.settings.spec_stage_enabled(stage),
    ensures
        spec_run_stage(renderer, scene, stage) == Seq::<GpuCommand>::empty(),
        stage == RenderStage::Transparents || stage == RenderStage::Decals || stage
            == RenderStage::DecalsAdditive,
{
}

} // verus!
