//! The shadow-update scheduler: which shadow maps are refreshed in a frame,
//! and what is rendered into each.

use crate::command::{
    append_commands, DepthMode, GpuCommand, ShadowGenerationMode,
};
use crate::order::{
    all_keys_of, comes_before, is_selection_in_order, lemma_select_in_order, marks_of, occurs_in,
    select_in_order, spec_select_in_order,
};
use crate::renderer::Renderer;
use crate::scene::{Scene, ShadowLight};
use crate::settings::{RendererSettings, ShadowQuality};
use crate::stage::RenderStage;
use crate::systems::spec_run_stage;
use crate::visibility::{is_visible, spec_is_visible};
use vstd::prelude::*;

verus! {

/// The state of the shadow map of one light.
#[derive(Clone, Copy, PartialEq, Eq, Structural, Debug)]
pub struct ShadowMapRenderer {
    /// The frame in which the map was refreshed last.
    pub last_update: usize,
    /// Whether what rarely moves has to be rendered anew.
    pub stationary_needs_update: bool,
}

impl ShadowMapRenderer {
    /// The state of a map after it was refreshed in frame `frame`. What
    /// rarely moves counts as rendered only if the asset loader was idle: a
    /// map that was rendered while assets were still coming in is rendered
    /// again the next time.
    pub open spec fn spec_refreshed(self, frame: usize, assets_idle: bool) -> Self {
        ShadowMapRenderer {
            last_update: frame,
            stationary_needs_update: self.stationary_needs_update && !assets_idle,
        }
    }

    /// The state of a light that was just added: never refreshed, and with
    /// everything still to render.
    pub fn new() -> (shadow: Self)
        ensures
            shadow.last_update == 0,
            shadow.stationary_needs_update,
    {
        ShadowMapRenderer { last_update: 0, stationary_needs_update: true }
    }

    /// Records that the map was refreshed in frame `frame`.
    pub fn refresh(&mut self, frame: usize, assets_idle: bool)
        ensures
            *final(self) == old(self).spec_refreshed(frame, assets_idle),
    {
        self.last_update = frame;
        self.stationary_needs_update = self.stationary_needs_update && !assets_idle;
    }
}

/// A map that has stationary content to render and is refreshed while the
/// asset loader is busy still has it to render afterwards, and counts as
/// refreshed in that frame all the same.
pub proof fn lemma_busy_loader_keeps_stationary_dirty(shadow: ShadowMapRenderer, frame: usize)
    requires
        shadow.stationary_needs_update,
    ensures
        shadow.spec_refreshed(frame, false).stationary_needs_update,
        shadow.spec_refreshed(frame, false).last_update == frame,
        !shadow.spec_refreshed(frame, true).stationary_needs_update,
        shadow.spec_refreshed(frame, true).last_update == frame,
{
}

/// Whether shadow maps are refreshed at all.
pub open spec fn spec_shadows_active(settings: RendererSettings) -> bool {
    settings.shadow_quality != ShadowQuality::Off && !settings.matcap
}

/// The view in which a light must be visible for its map to be refreshed.
pub const MAIN_VIEW: usize = 0;

/// For each light, whether its map may be refreshed: the light is visible
/// in the main view, or assets are still coming in, when every map is kept
/// warm.
pub open spec fn spec_light_marks(lights: Seq<ShadowLight>, assets_idle: bool) -> Seq<bool> {
    Seq::new(
        lights.len(),
        |i: int| spec_is_visible(lights[i].visibility, MAIN_VIEW) || !assets_idle,
    )
}

/// For each light, the frame of its last refresh.
pub open spec fn spec_light_keys(lights: Seq<ShadowLight>) -> Seq<u64> {
    Seq::new(lights.len(), |i: int| lights[i].shadow.last_update as u64)
}

/// The lights whose maps may be refreshed, the one refreshed longest ago
/// first; of two refreshed in the same frame, the one that comes first in
/// the scene.
pub open spec fn spec_light_candidates(lights: Seq<ShadowLight>, assets_idle: bool) -> Seq<usize> {
    spec_select_in_order(spec_light_marks(lights, assets_idle), spec_light_keys(lights))
}

/// The lights whose maps are refreshed this frame: the first `budget` of
/// the candidates, or all of them if they are fewer.
pub open spec fn spec_selected_lights(lights: Seq<ShadowLight>, assets_idle: bool, budget: usize)
    -> Seq<usize> {
    let candidates = spec_light_candidates(lights, assets_idle);
    if budget <= candidates.len() {
        candidates.take(budget as int)
    } else {
        candidates
    }
}

/// The renderer during a shadow pass: the view of the light is the active
/// view.
pub open spec fn spec_shadow_pass_renderer(
    renderer: Renderer,
    view: usize,
    mode: ShadowGenerationMode,
) -> Renderer {
    Renderer { active_view: view, active_shadow_generation_mode: mode, ..renderer }
}

/// The commands that refresh the map of one light: its view is bound; if
/// it has stationary content to render, the shadow stage runs for what is
/// stationary; then the shadow stage runs for what moves, always.
pub open spec fn spec_light_commands(renderer: Renderer, scene: Scene, light: ShadowLight) -> Seq<
    GpuCommand,
> {
    let view = light.entity.index as usize;
    seq![
        GpuCommand::BindShadowmapVertexTexture { slot: 2 },
        GpuCommand::BindView { light: light.entity, view },
    ] + (if light.shadow.stationary_needs_update {
        seq![
            GpuCommand::BindShadowGeneration {
                light: light.entity,
                mode: ShadowGenerationMode::StationaryOnly,
            },
        ] + spec_run_stage(
            spec_shadow_pass_renderer(renderer, view, ShadowGenerationMode::StationaryOnly),
            scene,
            RenderStage::ShadowGenerate,
        )
    } else {
        Seq::<GpuCommand>::empty()
    }) + seq![
        GpuCommand::BindShadowGeneration {
            light: light.entity,
            mode: ShadowGenerationMode::MovingOnly,
        },
    ] + spec_run_stage(
        spec_shadow_pass_renderer(renderer, view, ShadowGenerationMode::MovingOnly),
        scene,
        RenderStage::ShadowGenerate,
    )
}

/// The commands that refresh the maps of the first `n` selected lights.
pub open spec fn spec_lights_commands(
    renderer: Renderer,
    scene: Scene,
    lights: Seq<ShadowLight>,
    selected: Seq<usize>,
    n: nat,
) -> Seq<GpuCommand>
    decreases n,
{
    if n == 0 {
        Seq::empty()
    } else {
        spec_lights_commands(renderer, scene, lights, selected, (n - 1) as nat)
            + spec_light_commands(renderer, scene, lights[selected[n - 1] as int])
    }
}

/// The lights after the maps of the selected were refreshed.
pub open spec fn spec_lights_after(
    lights: Seq<ShadowLight>,
    selected: Seq<usize>,
    frame: usize,
    assets_idle: bool,
) -> Seq<ShadowLight> {
    Seq::new(
        lights.len(),
        |i: int|
            if occurs_in(selected, i) {
                ShadowLight {
                    shadow: lights[i].shadow.spec_refreshed(frame, assets_idle),
                    ..lights[i]
                }
            } else {
                lights[i]
            },
    )
}

/// The whole of a shadow update: depth is flipped and the states of the
/// shadow pass are selected, the maps of the selected lights are refreshed
/// one after the other, and depth is put back.
pub open spec fn spec_shadow_update(renderer: Renderer, scene: Scene) -> Seq<GpuCommand> {
    let selected = spec_selected_lights(
        scene.shadow_lights@,
        renderer.assets_idle,
        renderer.settings.shadow_updates_per_frame,
    );
    seq![
        GpuCommand::SetDepthMode { mode: DepthMode::Flipped },
        GpuCommand::SelectStates { blend: 0, depth_stencil: 2, rasterizer: 2, depth_bias: 6 },
        GpuCommand::FlushStates,
    ] + spec_lights_commands(renderer, scene, scene.shadow_lights@, selected, selected.len())
        + seq![GpuCommand::SetDepthMode { mode: DepthMode::Normal }]
}

/// No light is listed twice among the candidates.
pub proof fn lemma_candidates_are_distinct(pass: Seq<bool>, keys: Seq<u64>, listed: Seq<usize>)
    requires
        is_selection_in_order(pass, keys, listed),
    ensures
        forall|a: int, b: int|
            0 <= a < listed.len() && 0 <= b < listed.len() && a != b ==> listed[a] != listed[b],
{
    assert forall|a: int, b: int|
        0 <= a < listed.len() && 0 <= b < listed.len() && a != b implies listed[a]
        != listed[b] by {
        if a < b {
            assert(comes_before(keys, listed[a] as int, listed[b] as int));
        } else {
            assert(comes_before(keys, listed[b] as int, listed[a] as int));
        }
    }
}

/// Whether the map of light `first` is due before the map of light
/// `second`: it was refreshed longer ago, or in the same frame and `first`
/// comes first in the scene.
pub open spec fn spec_due_before(lights: Seq<ShadowLight>, first: int, second: int) -> bool {
    lights[first].shadow.last_update < lights[second].shadow.last_update || (
    lights[first].shadow.last_update == lights[second].shadow.last_update && first < second)
}

/// With more candidates than the budget allows, exactly as many maps are
/// refreshed as the budget allows, each of another light: those refreshed
/// longest ago, and of the lights refreshed in the same frame those that
/// come first in the scene. Every light that is refreshed is due before
/// every candidate that is not.
pub proof fn lemma_budget_takes_the_oldest(
    lights: Seq<ShadowLight>,
    assets_idle: bool,
    budget: usize,
)
    requires
        lights.len() <= usize::MAX,
        budget < spec_light_candidates(lights, assets_idle).len(),
    ensures
        spec_selected_lights(lights, assets_idle, budget).len() == budget,
        is_selection_in_order(
            spec_light_marks(lights, assets_idle),
            spec_light_keys(lights),
            spec_light_candidates(lights, assets_idle),
        ),
        forall|a: int|
            0 <= a < budget ==> #[trigger] spec_selected_lights(lights, assets_idle, budget)[a]
                == spec_light_candidates(lights, assets_idle)[a],
        forall|a: int, b: int|
            0 <= a < budget && 0 <= b < budget && a != b ==> spec_selected_lights(
                lights,
                assets_idle,
                budget,
            )[a] != spec_selected_lights(lights, assets_idle, budget)[b],
        forall|a: int, b: int|
            0 <= a < budget && budget <= b < spec_light_candidates(lights, assets_idle).len()
                ==> spec_due_before(
                lights,
                (#[trigger] spec_selected_lights(lights, assets_idle, budget)[a]) as int,
                (#[trigger] spec_light_candidates(lights, assets_idle)[b]) as int,
            ),
{
    let marks = spec_light_marks(lights, assets_idle);
    let keys = spec_light_keys(lights);
    lemma_select_in_order(marks, keys);
    let candidates = spec_light_candidates(lights, assets_idle);
    let selected = spec_selected_lights(lights, assets_idle, budget);
    lemma_candidates_are_distinct(marks, keys, candidates);
    assert forall|a: int, b: int| 0 <= a < budget && budget <= b < candidates.len() implies spec_due_before(
        lights,
        (#[trigger] selected[a]) as int,
        (#[trigger] candidates[b]) as int,
    ) by {
        assert(selected[a] == candidates[a]);
        assert(comes_before(keys, candidates[a] as int, candidates[b] as int));
        assert(candidates[a] < lights.len() && candidates[b] < lights.len());
    }
}

/// A light whose map is refreshed while the asset loader is busy keeps its
/// stationary content marked as due, if it was, and counts as refreshed in
/// this frame. A light whose map is not refreshed stays as it was.
pub proof fn lemma_pass_under_busy_loader(
    lights: Seq<ShadowLight>,
    selected: Seq<usize>,
    frame: usize,
    i: int,
)
    requires
        0 <= i < lights.len(),
    ensures
        occurs_in(selected, i) ==> {
            let after = spec_lights_after(lights, selected, frame, false)[i];
            &&& after.shadow.last_update == frame
            &&& after.shadow.stationary_needs_update == lights[i].shadow.stationary_needs_update
            &&& after.entity == lights[i].entity
        },
        !occurs_in(selected, i) ==> spec_lights_after(lights, selected, frame, false)[i]
            == lights[i],
        occurs_in(selected, i) ==> !spec_lights_after(
            lights,
            selected,
            frame,
            true,
        )[i].shadow.stationary_needs_update,
{
}

/// Refreshing is fair: a light whose map was refreshed in this frame is due
/// after every light whose map was not, as long as no map claims to have
/// been refreshed in this frame or later. So a light that had to wait comes
/// first the next time.
pub proof fn lemma_refreshed_lights_wait_longest(
    lights: Seq<ShadowLight>,
    selected: Seq<usize>,
    frame: usize,
    assets_idle: bool,
    refreshed: int,
    waiting: int,
)
    requires
        0 <= refreshed < lights.len(),
        0 <= waiting < lights.len(),
        occurs_in(selected, refreshed),
        !occurs_in(selected, waiting),
        lights[waiting].shadow.last_update < frame,
    ensures
        spec_due_before(
            spec_lights_after(lights, selected, frame, assets_idle),
            waiting,
            refreshed,
        ),
{
}

impl Renderer {
    fn refresh_light(&mut self, scene: &Scene, index: usize) -> (commands: Vec<GpuCommand>)
        requires
            index < scene.shadow_lights@.len(),
        ensures
            commands@ == spec_light_commands(*old(self), *scene, scene.shadow_lights@[index as int]),
            *final(self) == spec_shadow_pass_renderer(
                *old(self),
                scene.shadow_lights@[index as int].entity.index as usize,
                ShadowGenerationMode::MovingOnly,
            ),
    {
        let light = &scene.shadow_lights[index];
        let view: usize = light.entity.index as usize;
        let mut commands: Vec<GpuCommand> = Vec::new();
        commands.push(GpuCommand::BindShadowmapVertexTexture { slot: 2 });
        commands.push(GpuCommand::BindView { light: light.entity, view });
        self.active_view = view;
        let ghost head = commands@;
        if light.shadow.stationary_needs_update {
            self.active_shadow_generation_mode = ShadowGenerationMode::StationaryOnly;
            commands.push(
                GpuCommand::BindShadowGeneration {
                    light: light.entity,
                    mode: ShadowGenerationMode::StationaryOnly,
                },
            );
            let stationary = self.run_renderstage_systems(scene, RenderStage::ShadowGenerate);
            append_commands(&mut commands, &stationary);
        }
        let ghost middle = commands@;
        self.active_shadow_generation_mode = ShadowGenerationMode::MovingOnly;
        commands.push(
            GpuCommand::BindShadowGeneration {
                light: light.entity,
                mode: ShadowGenerationMode::MovingOnly,
            },
        );
        let moving = self.run_renderstage_systems(scene, RenderStage::ShadowGenerate);
        append_commands(&mut commands, &moving);
        proof {
            assert(head =~= seq![
                GpuCommand::BindShadowmapVertexTexture { slot: 2 },
                GpuCommand::BindView { light: light.entity, view },
            ]);
            let stationary_part = if light.shadow.stationary_needs_update {
                seq![
                    GpuCommand::BindShadowGeneration {
                        light: light.entity,
                        mode: ShadowGenerationMode::StationaryOnly,
                    },
                ] + spec_run_stage(
                    spec_shadow_pass_renderer(
                        *old(self),
                        view,
                        ShadowGenerationMode::StationaryOnly,
                    ),
                    *scene,
                    RenderStage::ShadowGenerate,
                )
            } else {
                Seq::<GpuCommand>::empty()
            };
            assert(middle =~= head + stationary_part);
            assert(commands@ =~= middle + seq![
                GpuCommand::BindShadowGeneration {
                    light: light.entity,
                    mode: ShadowGenerationMode::MovingOnly,
                },
            ] + moving@);
        }
        commands
    }

    /// Refreshes the shadow maps that are due this frame.
    ///
    /// Nothing happens where shadows are off or the preview material is on.
    /// Else the lights that are visible in the main view are candidates, and
    /// every light while assets are still loading. The candidates are taken
    /// in the order of their last refresh, the oldest first, as many as
    /// the settings allow in a frame. For each of them the view of the light
    /// is bound; the stationary content is rendered if it is marked as due,
    /// and stays marked if assets are still loading; the moving content is
    /// rendered in any case; and the map counts as refreshed in this frame.
    pub fn update_shadow_maps(&mut self, scene: &mut Scene) -> (commands: Vec<GpuCommand>)
        ensures
            final(scene).dynamic_models == old(scene).dynamic_models,
            final(scene).decorators == old(scene).decorators,
            final(self).settings == old(self).settings,
            final(self).techniques == old(self).techniques,
            final(self).gbuffers == old(self).gbuffers,
            final(self).frame_index == old(self).frame_index,
            final(self).assets_idle == old(self).assets_idle,
            final(self).rigid_model_vertex_slot == old(self).rigid_model_vertex_slot,
            !spec_shadows_active(old(self).settings) ==> {
                &&& commands@.len() == 0
                &&& *final(self) == *old(self)
                &&& *final(scene) == *old(scene)
            },
            spec_shadows_active(old(self).settings) ==> {
                let selected = spec_selected_lights(
                    old(scene).shadow_lights@,
                    old(self).assets_idle,
                    old(self).settings.shadow_updates_per_frame,
                );
                &&& commands@ == spec_shadow_update(*old(self), *old(scene))
                &&& final(scene).shadow_lights@ == spec_lights_after(
                    old(scene).shadow_lights@,
                    selected,
                    old(self).frame_index,
                    old(self).assets_idle,
                )
                &&& selected.len() == 0 ==> *final(self) == *old(self)
                &&& selected.len() > 0 ==> *final(self) == spec_shadow_pass_renderer(
                    *old(self),
                    old(scene).shadow_lights@[selected.last() as int].entity.index as usize,
                    ShadowGenerationMode::MovingOnly,
                )
            },
    {
        let mut commands: Vec<GpuCommand> = Vec::new();
        let quality_off = match self.settings.shadow_quality {
            ShadowQuality::Off => true,
            _ => false,
        };
        if quality_off || self.settings.matcap {
            return commands;
        }
        commands.push(GpuCommand::SetDepthMode { mode: DepthMode::Flipped });
        commands.push(
            GpuCommand::SelectStates { blend: 0, depth_stencil: 2, rasterizer: 2, depth_bias: 6 },
        );
        commands.push(GpuCommand::FlushStates);
        let ghost head = commands@;
        let ghost lights = scene.shadow_lights@;
        let mut items: Vec<(bool, u64)> = Vec::new();
        let mut i: usize = 0;
        while i < scene.shadow_lights.len()
            invariant
                i <= scene.shadow_lights@.len(),
                scene.shadow_lights@ == lights,
                items@.len() == i,
                forall|k: int|
                    0 <= k < i ==> (#[trigger] items@[k]).0 == spec_light_marks(
                        lights,
                        self.assets_idle,
                    )[k],
                forall|k: int| 0 <= k < i ==> (#[trigger] items@[k]).1 == spec_light_keys(lights)[k],
            decreases scene.shadow_lights.len() - i,
        {
            let light = &scene.shadow_lights[i];
            items.push(
                (
                    is_visible(&light.visibility, MAIN_VIEW) || !self.assets_idle,
                    light.shadow.last_update as u64,
                ),
            );
            i += 1;
        }
        let ghost marks = marks_of(items@);
        let ghost keys = all_keys_of(items@);
        proof {
            assert(marks =~= spec_light_marks(lights, self.assets_idle));
            assert(keys =~= spec_light_keys(lights));
        }
        let mut selected = select_in_order(&items);
        let ghost candidates = selected@;
        if self.settings.shadow_updates_per_frame < selected.len() {
            selected.truncate(self.settings.shadow_updates_per_frame);
        }
        proof {
            lemma_candidates_are_distinct(marks, keys, candidates);
            assert(selected@ =~= spec_selected_lights(
                lights,
                self.assets_idle,
                self.settings.shadow_updates_per_frame,
            ));
            assert forall|a: int| 0 <= a < selected@.len() implies selected@[a]
                == candidates[a] by {}
        }
        let frame = self.frame_index;
        let idle = self.assets_idle;
        let mut k: usize = 0;
        while k < selected.len()
            invariant
                k <= selected@.len(),
                selected@.len() <= candidates.len(),
                forall|a: int| 0 <= a < selected@.len() ==> selected@[a] == candidates[a],
                forall|a: int| 0 <= a < candidates.len() ==> (#[trigger] candidates[a]) < lights.len(),
                forall|a: int, b: int|
                    0 <= a < candidates.len() && 0 <= b < candidates.len() && a != b
                        ==> candidates[a] != candidates[b],
                scene.dynamic_models == old(scene).dynamic_models,
                scene.decorators == old(scene).decorators,
                scene.shadow_lights@.len() == lights.len(),
                lights == old(scene).shadow_lights@,
                frame == old(self).frame_index,
                idle == old(self).assets_idle,
                self.settings == old(self).settings,
                self.techniques == old(self).techniques,
                self.gbuffers == old(self).gbuffers,
                self.frame_index == old(self).frame_index,
                self.assets_idle == old(self).assets_idle,
                self.rigid_model_vertex_slot == old(self).rigid_model_vertex_slot,
                k == 0 ==> *self == *old(self),
                k > 0 ==> *self == spec_shadow_pass_renderer(
                    *old(self),
                    lights[selected@[k - 1] as int].entity.index as usize,
                    ShadowGenerationMode::MovingOnly,
                ),
                scene.shadow_lights@ == spec_lights_after(
                    lights,
                    selected@.take(k as int),
                    frame,
                    idle,
                ),
                commands@ == head + spec_lights_commands(
                    *old(self),
                    *old(scene),
                    lights,
                    selected@,
                    k as nat,
                ),
            decreases selected.len() - k,
        {
            let index = selected[k];
            let ghost taken = selected@.take(k as int);
            proof {
                assert(index == candidates[k as int]);
                assert(!occurs_in(taken, index as int)) by {
                    if occurs_in(taken, index as int) {
                        let a = choose|a: int| 0 <= a < taken.len() && #[trigger] taken[a] == index;
                        assert(candidates[a] == candidates[k as int]);
                    }
                }
            }
            let ghost light = scene.shadow_lights@[index as int];
            proof {
                assert(light == lights[index as int]);
            }
            let ghost before = commands@;
            let ghost scene_before = *scene;
            let own = self.refresh_light(scene, index);
            append_commands(&mut commands, &own);
            let mut shadow = scene.shadow_lights[index].shadow;
            shadow.refresh(frame, idle);
            scene.shadow_lights[index].shadow = shadow;
            proof {
                let next = selected@.take(k as int + 1);
                assert forall|i: int| occurs_in(next, i) == (occurs_in(taken, i) || i
                    == index) by {
                    if occurs_in(taken, i) {
                        let a = choose|a: int| 0 <= a < taken.len() && #[trigger] taken[a] == i;
                        assert(next[a] == i);
                    }
                    if i == index {
                        assert(next[k as int] == i);
                    }
                    if occurs_in(next, i) {
                        let a = choose|a: int| 0 <= a < next.len() && #[trigger] next[a] == i;
                        if a < k {
                            assert(taken[a] == i);
                        }
                    }
                }
                assert(scene.shadow_lights@ =~= spec_lights_after(lights, next, frame, idle));
                assert(spec_light_commands(*old(self), *old(scene), light) == own@) by {
                    assert(scene_before.dynamic_models == old(scene).dynamic_models);
                    assert(scene_before.decorators == old(scene).decorators);
                }
                assert(commands@ =~= head + spec_lights_commands(
                    *old(self),
                    *old(scene),
                    lights,
                    selected@,
                    (k + 1) as nat,
                ));
            }
            k += 1;
        }
        let ghost body = commands@;
        commands.push(GpuCommand::SetDepthMode { mode: DepthMode::Normal });
        proof {
            assert(selected@.take(selected@.len() as int) =~= selected@);
            assert(head =~= seq![
                GpuCommand::SetDepthMode { mode: DepthMode::Flipped },
                GpuCommand::SelectStates {
                    blend: 0,
                    depth_stencil: 2,
                    rasterizer: 2,
                    depth_bias: 6,
                },
                GpuCommand::FlushStates,
            ]);
            assert(commands@ =~= spec_shadow_update(*old(self), *old(scene)));
        }
        commands
    }
}

} // verus!
