//! The state that a frame is planned from.

use crate::command::ShadowGenerationMode;
use crate::gbuffer::GBuffer;
use crate::settings::RendererSettings;
use crate::technique::TechniqueStore;
use vstd::prelude::*;

verus! {

/// What the planner knows when it plans a frame: the settings, the loaded
/// techniques, the render targets, the view that is bound, the number of
/// the frame, and whether the asset loader has nothing left to load.
pub struct Renderer {
    pub settings: RendererSettings,
    pub techniques: TechniqueStore,
    pub gbuffers: GBuffer,
    /// The view that visibility is asked for.
    pub active_view: usize,
    pub frame_index: usize,
    pub active_shadow_generation_mode: ShadowGenerationMode,
    /// Whether the asset loader reported, when last asked, that it is idle.
    pub assets_idle: bool,
    /// The constant buffer slot of the rigid-model scope in vertex shaders.
    pub rigid_model_vertex_slot: u32,
}

impl Renderer {
    /// A renderer at its first frame, with the first view bound.
    pub fn new(settings: RendererSettings, gbuffers: GBuffer, rigid_model_vertex_slot: u32) -> (r:
        Self)
        ensures
            r.settings == settings,
            r.gbuffers == gbuffers,
            r.techniques@ == Map::<u32, crate::technique::Technique>::empty(),
            r.active_view == 0,
            r.frame_index == 0,
            r.active_shadow_generation_mode == ShadowGenerationMode::StationaryOnly,
            r.assets_idle,
            r.rigid_model_vertex_slot == rigid_model_vertex_slot,
    {
        Renderer {
            settings,
            techniques: TechniqueStore::new(),
            gbuffers,
            active_view: 0,
            frame_index: 0,
            active_shadow_generation_mode: ShadowGenerationMode::StationaryOnly,
            assets_idle: true,
            rigid_model_vertex_slot,
        }
    }
}

} // verus!
