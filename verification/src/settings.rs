//! The render settings that the planner reads each frame.

use crate::stage::{FeatureRenderer, RenderStage};
use vstd::prelude::*;

verus! {

/// How much is spent on shadows.
#[derive(Clone, Copy, PartialEq, Eq, Structural, Debug)]
pub enum ShadowQuality {
    Off,
    Lowest,
    Low,
    Medium,
    High,
    Highest,
}

/// How many samples the shadow filter takes.
#[derive(Clone, Copy, PartialEq, Eq, Structural, Debug)]
pub enum ShadowPcfSamples {
    Samples13,
    Samples17,
    Samples21,
}

impl ShadowPcfSamples {
    /// The number by which the shadow filter is told its tier.
    pub open spec fn spec_tier(self) -> u32 {
        match self {
            ShadowPcfSamples::Samples13 => 0,
            ShadowPcfSamples::Samples17 => 1,
            ShadowPcfSamples::Samples21 => 2,
        }
    }

    pub fn tier(self) -> (tier: u32)
        ensures
            tier == self.spec_tier(),
    {
        match self {
            ShadowPcfSamples::Samples13 => 0,
            ShadowPcfSamples::Samples17 => 1,
            ShadowPcfSamples::Samples21 => 2,
        }
    }
}

impl ShadowQuality {
    /// Position of the quality from `Off` to `Highest`.
    pub open spec fn spec_rank(self) -> nat {
        match self {
            ShadowQuality::Off => 0,
            ShadowQuality::Lowest => 1,
            ShadowQuality::Low => 2,
            ShadowQuality::Medium => 3,
            ShadowQuality::High => 4,
            ShadowQuality::Highest => 5,
        }
    }

    pub open spec fn spec_pcf_samples(self) -> ShadowPcfSamples {
        match self {
            ShadowQuality::Off => ShadowPcfSamples::Samples13,
            ShadowQuality::Lowest => ShadowPcfSamples::Samples13,
            ShadowQuality::Low => ShadowPcfSamples::Samples13,
            ShadowQuality::Medium => ShadowPcfSamples::Samples17,
            ShadowQuality::High => ShadowPcfSamples::Samples21,
            ShadowQuality::Highest => ShadowPcfSamples::Samples21,
        }
    }

    pub open spec fn spec_resolution(self) -> u32 {
        match self {
            ShadowQuality::Off => 256,
            ShadowQuality::Lowest => 256,
            ShadowQuality::Low => 512,
            ShadowQuality::Medium => 1024,
            ShadowQuality::High => 2048,
            ShadowQuality::Highest => 4096,
        }
    }

    /// The filter tier of the quality.
    pub fn pcf_samples(&self) -> (samples: ShadowPcfSamples)
        ensures
            samples == self.spec_pcf_samples(),
    {
        match self {
            ShadowQuality::Off => ShadowPcfSamples::Samples13,
            ShadowQuality::Low => ShadowPcfSamples::Samples13,
            ShadowQuality::Lowest => ShadowPcfSamples::Samples13,
            ShadowQuality::Medium => ShadowPcfSamples::Samples17,
            ShadowQuality::High => ShadowPcfSamples::Samples21,
            ShadowQuality::Highest => ShadowPcfSamples::Samples21,
        }
    }

    /// The side of a shadow map of the quality, in texels.
    pub fn resolution(&self) -> (side: u32)
        ensures
            side == self.spec_resolution(),
            side >= 256,
    {
        match self {
            ShadowQuality::Off => 256,
            ShadowQuality::Lowest => 256,
            ShadowQuality::Low => 512,
            ShadowQuality::Medium => 1024,
            ShadowQuality::High => 2048,
            ShadowQuality::Highest => 4096,
        }
    }
}

/// A better quality never has a smaller shadow map or a lower filter tier.
pub proof fn lemma_quality_is_monotonic(lower: ShadowQuality, higher: ShadowQuality)
    requires
        lower.spec_rank() <= higher.spec_rank(),
    ensures
        lower.spec_resolution() <= higher.spec_resolution(),
        lower.spec_pcf_samples().spec_tier() <= higher.spec_pcf_samples().spec_tier(),
{
}

/// What the user has switched on and off.
#[derive(Clone, Copy, PartialEq, Eq, Structural, Debug)]
pub struct RendererSettings {
    pub vsync: bool,
    pub ssao: bool,
    pub matcap: bool,
    pub shadows: bool,
    pub shadow_quality: ShadowQuality,
    pub shadow_updates_per_frame: usize,
    pub feature_statics: bool,
    pub feature_terrain: bool,
    pub feature_dynamics: bool,
    pub feature_sky: bool,
    pub feature_decorators: bool,
    pub feature_atmosphere: bool,
    pub feature_cubemaps: bool,
    pub feature_fxaa: bool,
    pub fxaa_noise: bool,
    pub stage_transparent: bool,
    pub stage_decals: bool,
    pub stage_decals_additive: bool,
}

impl RendererSettings {
    /// Whether the stage is switched on. Three stages have a switch; the
    /// others always run.
    pub open spec fn spec_stage_enabled(self, stage: RenderStage) -> bool {
        match stage {
            RenderStage::Transparents => self.stage_transparent,
            RenderStage::Decals => self.stage_decals,
            RenderStage::DecalsAdditive => self.stage_decals_additive,
            _ => true,
        }
    }

    /// Whether drawables of the feature are switched on.
    pub open spec fn spec_feature_enabled(self, feature: FeatureRenderer) -> bool {
        match feature {
            FeatureRenderer::StaticObjects => self.feature_statics,
            FeatureRenderer::TerrainPatch => self.feature_terrain,
            FeatureRenderer::RigidObject => self.feature_dynamics,
            FeatureRenderer::DynamicObjects => self.feature_dynamics,
            FeatureRenderer::SkyTransparent => self.feature_sky,
            FeatureRenderer::SpeedtreeTrees => self.feature_decorators,
            FeatureRenderer::Cubemaps => self.feature_cubemaps,
            _ => true,
        }
    }

    pub open spec fn spec_should_render(
        self,
        stage: Option<RenderStage>,
        feature: Option<FeatureRenderer>,
    ) -> bool {
        (stage is Some ==> self.spec_stage_enabled(stage->0)) && (feature is Some
            ==> self.spec_feature_enabled(feature->0))
    }

    /// The settings of a renderer that was just started: everything on, one
    /// shadow map a frame.
    pub fn new() -> (settings: Self)
        ensures
            forall|stage: RenderStage| settings.spec_stage_enabled(stage),
            forall|feature: FeatureRenderer| settings.spec_feature_enabled(feature),
            settings.shadow_updates_per_frame == 1,
            settings.shadow_quality == ShadowQuality::Medium,
            settings.shadows && settings.ssao && settings.vsync && !settings.matcap,
            settings.feature_atmosphere && settings.feature_fxaa && settings.fxaa_noise,
    {
        RendererSettings {
            vsync: true,
            ssao: true,
            matcap: false,
            shadows: true,
            shadow_quality: ShadowQuality::Medium,
            shadow_updates_per_frame: 1,
            feature_statics: true,
            feature_terrain: true,
            feature_dynamics: true,
            feature_sky: true,
            feature_decorators: true,
            feature_atmosphere: true,
            feature_cubemaps: true,
            feature_fxaa: true,
            fxaa_noise: true,
            stage_transparent: true,
            stage_decals: true,
            stage_decals_additive: true,
        }
    }

    pub fn stage_enabled(&self, stage: RenderStage) -> (r: bool)
        ensures
            r == self.spec_stage_enabled(stage),
    {
        match stage {
            RenderStage::Transparents => self.stage_transparent,
            RenderStage::Decals => self.stage_decals,
            RenderStage::DecalsAdditive => self.stage_decals_additive,
            _ => true,
        }
    }

    pub fn feature_enabled(&self, feature: FeatureRenderer) -> (r: bool)
        ensures
            r == self.spec_feature_enabled(feature),
    {
        match feature {
            FeatureRenderer::StaticObjects => self.feature_statics,
            FeatureRenderer::TerrainPatch => self.feature_terrain,
            FeatureRenderer::RigidObject => self.feature_dynamics,
            FeatureRenderer::DynamicObjects => self.feature_dynamics,
            FeatureRenderer::SkyTransparent => self.feature_sky,
            FeatureRenderer::SpeedtreeTrees => self.feature_decorators,
            FeatureRenderer::Cubemaps => self.feature_cubemaps,
            _ => true,
        }
    }

    /// Whether anything is drawn for a stage and a feature: both must be
    /// switched on, as far as one is given.
    pub fn should_render(&self, stage: Option<RenderStage>, feature: Option<FeatureRenderer>) -> (r:
        bool)
        ensures
            r == self.spec_should_render(stage, feature),
    {
        let stage_on = match stage {
            Some(stage) => self.stage_enabled(stage),
            None => true,
        };
        let feature_on = match feature {
            Some(feature) => self.feature_enabled(feature),
            None => true,
        };
        stage_on && feature_on
    }
}

} // verus!
