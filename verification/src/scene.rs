//! What the planner is told of the scene for one frame: the entities that
//! can be drawn and the lights that cast shadows, each list in the order in
//! which the scene hands its entities out.

use crate::command::Entity;
use crate::dynamic_geometry::DynamicModelComponent;
use crate::shadows::ShadowMapRenderer;
use crate::visibility::ViewVisibility;
use vstd::prelude::*;

verus! {

/// An entity with a dynamic model.
#[derive(Debug)]
pub struct DynamicModelEntity {
    pub entity: Entity,
    pub component: DynamicModelComponent,
    /// The views in which the entity is visible; none if culling has not
    /// looked at it.
    pub visibility: Option<ViewVisibility>,
    /// Whether the entity has object channels of its own.
    pub has_channels: bool,
    /// Stands for the distance of the entity from the position of the view:
    /// of two entities the farther has the greater key.
    pub view_distance_key: u64,
    /// Whether the entity was moved since its constants were last written.
    pub transform_changed: bool,
}

/// An entity that is drawn by the decorator renderer.
#[derive(Clone, Debug)]
pub struct DecoratorEntity {
    pub entity: Entity,
    pub visibility: Option<ViewVisibility>,
}

/// A light that casts shadows.
#[derive(Clone, PartialEq, Eq, Debug)]
pub struct ShadowLight {
    pub entity: Entity,
    pub shadow: ShadowMapRenderer,
    /// The views in which the light is visible; none if culling has not
    /// looked at it.
    pub visibility: Option<ViewVisibility>,
}

/// The scene of one frame.
#[derive(Debug)]
pub struct Scene {
    pub dynamic_models: Vec<DynamicModelEntity>,
    pub decorators: Vec<DecoratorEntity>,
    pub shadow_lights: Vec<ShadowLight>,
}

impl Scene {
    /// A scene without entities.
    pub fn new() -> (scene: Self)
        ensures
            scene.dynamic_models@.len() == 0,
            scene.decorators@.len() == 0,
            scene.shadow_lights@.len() == 0,
    {
        Scene { dynamic_models: Vec::new(), decorators: Vec::new(), shadow_lights: Vec::new() }
    }
}

} // verus!
