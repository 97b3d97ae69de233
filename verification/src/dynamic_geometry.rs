//! Dynamic models: what is read of a model when it is loaded, and the
//! commands that draw it in a render stage.

use crate::command::{
    append_commands, Entity, GpuCommand, PrimitiveType, ResourceId, ShaderStage, TagHash,
    TechniqueHandle,
};
use crate::order::{
    all_keys_of, indices_where, lemma_indices_where, lemma_select_in_order, marked, marks_of,
    select_in_order, spec_select_in_order,
};
use crate::renderer::Renderer;
use crate::scene::{DecoratorEntity, DynamicModelEntity, Scene};
use crate::settings::RendererSettings;
use crate::stage::{
    lemma_partrange_view, lemma_union_view, FeatureRenderer, RenderStage, RenderStageSubscriptions,
};
use crate::technique::{
    bind_techniques, distinct_handles, spec_bind_commands, spec_bound_scopes, spec_variant_technique,
    variant_technique, TechniqueMapEntry, TechniqueStore, NO_VARIANT,
};
use crate::visibility::{is_visible, spec_is_visible};
use vstd::prelude::*;

verus! {

/// The level of detail that a part belongs to.
#[derive(Clone, Copy, PartialEq, Eq, Structural, Debug)]
pub enum LodCategory {
    MainGeom0,
    GripStock0,
    Stickers0,
    InternalGeom0,
    LowPolyGeom1,
    LowPolyGeom2,
    GripStockScope2,
    LowPolyGeom3,
    Detail0,
}

impl LodCategory {
    /// Whether the category is one of the most detailed.
    pub open spec fn spec_is_highest_detail(self) -> bool {
        self == LodCategory::MainGeom0 || self == LodCategory::GripStock0 || self
            == LodCategory::Stickers0 || self == LodCategory::InternalGeom0 || self
            == LodCategory::Detail0
    }

    pub fn is_highest_detail(&self) -> (r: bool)
        ensures
            r == self.spec_is_highest_detail(),
    {
        match self {
            LodCategory::MainGeom0 => true,
            LodCategory::GripStock0 => true,
            LodCategory::Stickers0 => true,
            LodCategory::InternalGeom0 => true,
            LodCategory::Detail0 => true,
            _ => false,
        }
    }
}

/// A run of indices of a mesh that is drawn with one technique.
#[derive(Clone, Copy, PartialEq, Eq, Structural, Debug)]
pub struct DynamicMeshPart {
    pub technique: TagHash,
    pub index_start: u32,
    pub index_count: u32,
    /// Place of the part's variant run in the technique map, or `NO_VARIANT`.
    pub variant_shader_index: u16,
    /// The logical piece of the object that the part belongs to.
    pub external_identifier: u16,
    pub primitive_type: PrimitiveType,
    pub lod_category: LodCategory,
}

/// A mesh of a model: its buffers, its parts, and for each render stage the
/// run of parts that is drawn in it and the input layout it is drawn with.
#[derive(Clone, Debug)]
pub struct DynamicMesh {
    pub vertex0_buffer: TagHash,
    pub vertex1_buffer: TagHash,
    pub color_buffer: TagHash,
    pub index_buffer: TagHash,
    pub parts: Vec<DynamicMeshPart>,
    /// Stage `i` draws the parts from entry `i` up to entry `i + 1`.
    pub part_range_per_render_stage: [u16; 25],
    pub input_layout_per_render_stage: [u8; 24],
}

impl DynamicMesh {
    /// First part of a stage and the part behind its last.
    pub open spec fn spec_range_for_stage(self, stage: RenderStage) -> (int, int) {
        (
            self.part_range_per_render_stage@[stage.spec_index() as int] as int,
            self.part_range_per_render_stage@[stage.spec_index() as int + 1] as int,
        )
    }

    pub open spec fn spec_input_layout_for_stage(self, stage: RenderStage) -> u8 {
        self.input_layout_per_render_stage@[stage.spec_index() as int]
    }

    pub fn get_range_for_stage(&self, stage: RenderStage) -> (range: (usize, usize))
        ensures
            range.0 == self.spec_range_for_stage(stage).0,
            range.1 == self.spec_range_for_stage(stage).1,
    {
        let i = stage.index();
        (
            self.part_range_per_render_stage[i] as usize,
            self.part_range_per_render_stage[i + 1] as usize,
        )
    }

    pub fn get_input_layout_for_stage(&self, stage: RenderStage) -> (layout: u8)
        ensures
            layout == self.spec_input_layout_for_stage(stage),
    {
        self.input_layout_per_render_stage[stage.index()]
    }
}

/// What is read of a packaged model.
#[derive(Clone, Debug)]
pub struct DynamicModelData {
    pub meshes: Vec<DynamicMesh>,
}

/// Why a model is not drawn.
#[derive(Clone, Copy, PartialEq, Eq, Structural, Debug)]
pub enum DrawError {
    /// The selected mesh is not a mesh of the model.
    InvalidMesh,
}

/// The number of variants that a model can show: the length of the first
/// run of the technique map that is marked as the main one; none without
/// such a run.
pub open spec fn spec_variant_count(technique_map: Seq<TechniqueMapEntry>) -> usize
    decreases technique_map.len(),
{
    if technique_map.len() == 0 {
        0
    } else if technique_map[0].unk8 == 0 {
        technique_map[0].technique_count as usize
    } else {
        spec_variant_count(technique_map.drop_first())
    }
}

/// The greatest identifier among the first `n` parts; zero if there is none.
pub open spec fn spec_max_identifier(parts: Seq<DynamicMeshPart>, n: nat) -> u16
    decreases n,
{
    if n == 0 {
        0
    } else {
        let rest = spec_max_identifier(parts, (n - 1) as nat);
        if parts[n - 1].external_identifier > rest {
            parts[n - 1].external_identifier
        } else {
            rest
        }
    }
}

/// The greatest identifier among the parts of the first `n` meshes.
pub open spec fn spec_max_model_identifier(meshes: Seq<DynamicMesh>, n: nat) -> u16
    decreases n,
{
    if n == 0 {
        0
    } else {
        let rest = spec_max_model_identifier(meshes, (n - 1) as nat);
        let own = spec_max_identifier(meshes[n - 1].parts@, meshes[n - 1].parts@.len());
        if own > rest {
            own
        } else {
            rest
        }
    }
}

/// The number of logical pieces of a model: one more than the greatest
/// identifier of its parts.
pub open spec fn spec_identifier_count(meshes: Seq<DynamicMesh>) -> usize {
    (spec_max_model_identifier(meshes, meshes.len()) + 1) as usize
}

/// No part has an identifier above the greatest, and some part has it
/// unless it is zero.
pub proof fn lemma_max_identifier(parts: Seq<DynamicMeshPart>, n: nat)
    requires
        n <= parts.len(),
    ensures
        forall|i: int|
            0 <= i < n ==> (#[trigger] parts[i]).external_identifier <= spec_max_identifier(
                parts,
                n,
            ),
        spec_max_identifier(parts, n) != 0 ==> exists|i: int|
            0 <= i < n && (#[trigger] parts[i]).external_identifier == spec_max_identifier(
                parts,
                n,
            ),
    decreases n,
{
    if n > 0 {
        lemma_max_identifier(parts, (n - 1) as nat);
        let rest = spec_max_identifier(parts, (n - 1) as nat);
        if parts[n - 1].external_identifier > rest {
            assert(parts[n - 1].external_identifier == spec_max_identifier(parts, n));
        } else if rest != 0 {
            let i = choose|i: int|
                0 <= i < n - 1 && (#[trigger] parts[i]).external_identifier == rest;
            assert(parts[i].external_identifier == spec_max_identifier(parts, n));
        }
    }
}

/// Every identifier of a part of the model is below the number of pieces.
pub proof fn lemma_identifier_count(meshes: Seq<DynamicMesh>, n: nat)
    requires
        n <= meshes.len(),
    ensures
        forall|m: int, p: int|
            0 <= m < n && 0 <= p < meshes[m].parts@.len() ==> (#[trigger] meshes[m].parts@[p]).external_identifier
                <= spec_max_model_identifier(meshes, n),
    decreases n,
{
    if n > 0 {
        lemma_identifier_count(meshes, (n - 1) as nat);
        lemma_max_identifier(meshes[n - 1].parts@, meshes[n - 1].parts@.len());
    }
}

/// The stages of the first `n` of these sets together.
pub open spec fn spec_union_of(stages: Seq<RenderStageSubscriptions>, n: nat)
    -> RenderStageSubscriptions
    decreases n,
{
    if n == 0 {
        RenderStageSubscriptions::spec_from_bits_truncate(0)
    } else {
        spec_union_of(stages, (n - 1) as nat).spec_union(stages[n - 1])
    }
}

/// The subscriptions of each mesh of a model.
pub open spec fn spec_mesh_stages(meshes: Seq<DynamicMesh>) -> Seq<RenderStageSubscriptions> {
    Seq::new(
        meshes.len(),
        |i: int|
            RenderStageSubscriptions::spec_from_partrange_list(
                meshes[i].part_range_per_render_stage@,
            ),
    )
}

/// A stage is in the union of some sets exactly when it is in one of them.
pub proof fn lemma_union_of(stages: Seq<RenderStageSubscriptions>, n: nat, stage: RenderStage)
    requires
        n <= stages.len(),
    ensures
        spec_union_of(stages, n)@.contains(stage) <==> exists|i: int|
            0 <= i < n && (#[trigger] stages[i])@.contains(stage),
        spec_union_of(stages, n).wf(),
    decreases n,
{
    if n == 0 {
        let none = RenderStageSubscriptions::spec_from_bits_truncate(0);
        crate::stage::lemma_truncated_bits(0);
        assert(!none@.contains(stage)) by {
            let i = stage.spec_index() as u32;
            assert(((0u32 & crate::stage::ALL_STAGE_BITS) >> i) & 1u32 == 0u32) by (bit_vector);
        }
    } else {
        let rest = spec_union_of(stages, (n - 1) as nat);
        lemma_union_of(stages, (n - 1) as nat, stage);
        lemma_union_view(rest, stages[n - 1]);
        if spec_union_of(stages, n)@.contains(stage) {
            if rest@.contains(stage) {
                let i = choose|i: int| 0 <= i < n - 1 && (#[trigger] stages[i])@.contains(stage);
                assert(stages[i]@.contains(stage));
            } else {
                assert(stages[n - 1]@.contains(stage));
            }
        }
    }
}

/// What can be seen of a model.
pub struct DynamicModelView {
    pub technique_map: Seq<TechniqueMapEntry>,
    pub techniques: Seq<TechniqueHandle>,
    pub meshes: Seq<DynamicMesh>,
    pub mesh_stages: Seq<RenderStageSubscriptions>,
    pub subscribed_stages: RenderStageSubscriptions,
    pub selected_mesh: usize,
    pub selected_variant: usize,
    pub variant_count: usize,
    pub identifier_count: usize,
    pub hash: TagHash,
    pub feature_type: FeatureRenderer,
}

impl DynamicModelView {
    /// What is fixed when a model is loaded: the stages of each mesh follow
    /// from its part ranges, the stages of the model are those of its
    /// meshes together, and the two counts follow from the technique map and
    /// from the parts.
    pub open spec fn wf(self) -> bool {
        &&& self.meshes.len() <= usize::MAX
        &&& self.mesh_stages == spec_mesh_stages(self.meshes)
        &&& self.subscribed_stages == spec_union_of(self.mesh_stages, self.mesh_stages.len())
        &&& self.variant_count == spec_variant_count(self.technique_map)
        &&& self.identifier_count == spec_identifier_count(self.meshes)
    }
}

/// A model that moves or is placed by the scene: meshes with their parts,
/// the variant techniques that its parts cycle through, and the choice of
/// the mesh and of the variant to draw.
#[derive(Debug)]
pub struct DynamicModel {
    technique_map: Vec<TechniqueMapEntry>,
    techniques: Vec<TechniqueHandle>,
    model: DynamicModelData,
    mesh_stages: Vec<RenderStageSubscriptions>,
    subscribed_stages: RenderStageSubscriptions,
    selected_mesh: usize,
    selected_variant: usize,
    variant_count: usize,
    identifier_count: usize,
    hash: TagHash,
    feature_type: FeatureRenderer,
}

impl View for DynamicModel {
    type V = DynamicModelView;

    closed spec fn view(&self) -> DynamicModelView {
        DynamicModelView {
            technique_map: self.technique_map@,
            techniques: self.techniques@,
            meshes: self.model.meshes@,
            mesh_stages: self.mesh_stages@,
            subscribed_stages: self.subscribed_stages,
            selected_mesh: self.selected_mesh,
            selected_variant: self.selected_variant,
            variant_count: self.variant_count,
            identifier_count: self.identifier_count,
            hash: self.hash,
            feature_type: self.feature_type,
        }
    }
}

/// The identifier that asks for every piece of a model.
pub const ALL_IDENTIFIERS: u16 = 0xffff;

/// Whether a part is drawn when the caller asks for the piece `identifier`,
/// or for every piece: the part belongs to the piece, and it is of the
/// highest detail.
pub open spec fn spec_part_eligible(part: DynamicMeshPart, identifier: u16) -> bool {
    (identifier == ALL_IDENTIFIERS || part.external_identifier == identifier)
        && part.lod_category.spec_is_highest_detail()
}

/// The commands of a plan, or the error.
pub open spec fn spec_plan_view(plan: Result<Vec<GpuCommand>, DrawError>) -> Result<
    Seq<GpuCommand>,
    DrawError,
> {
    match plan {
        Ok(commands) => Ok(commands@),
        Err(e) => Err(e),
    }
}

/// The commands that draw one part: bind the part's technique and then its
/// variant technique, put the entity vertex shader in place where the mesh
/// takes part in skinning or a bound technique needs the skinning scope, set
/// the topology, and draw, or, if `wrapped`, hand the part to the caller.
pub open spec fn spec_part_commands(
    model: DynamicModelView,
    store: TechniqueStore,
    mesh: int,
    part_index: int,
    channels: Option<Entity>,
    wrapped: bool,
) -> Seq<GpuCommand> {
    let part = model.meshes[mesh].parts@[part_index];
    let base = TechniqueHandle(part.technique);
    let variant = spec_variant_technique(
        model.technique_map,
        model.techniques,
        part.variant_shader_index,
        model.selected_variant as int,
    );
    let scopes = spec_bound_scopes(store, base, variant);
    let skinned = model.mesh_stages[mesh]@.contains(RenderStage::ComputeSkinning)
        || scopes.spec_needs_skinning();
    spec_bind_commands(store, base, variant, channels) + (if skinned {
        seq![GpuCommand::SetEntityVertexShaderOverride]
    } else {
        Seq::<GpuCommand>::empty()
    }) + seq![
        GpuCommand::SetInputTopology { topology: part.primitive_type },
        if wrapped {
            GpuCommand::SubmitPart { mesh: mesh as usize, part: part_index as usize }
        } else {
            GpuCommand::DrawIndexed {
                index_count: part.index_count,
                index_start: part.index_start,
                base_vertex: 0,
            }
        },
    ]
}

/// The commands that draw the eligible parts from `from` up to `to`, in the
/// order of the parts.
pub open spec fn spec_parts_commands(
    model: DynamicModelView,
    store: TechniqueStore,
    mesh: int,
    identifier: u16,
    channels: Option<Entity>,
    wrapped: bool,
    from: int,
    to: int,
) -> Seq<GpuCommand>
    decreases to - from,
{
    if from >= to {
        Seq::empty()
    } else {
        let before = spec_parts_commands(
            model,
            store,
            mesh,
            identifier,
            channels,
            wrapped,
            from,
            to - 1,
        );
        if spec_part_eligible(model.meshes[mesh].parts@[to - 1], identifier) {
            before + spec_part_commands(model, store, mesh, to - 1, channels, wrapped)
        } else {
            before
        }
    }
}

/// The commands that draw a model in a stage.
///
/// Nothing is drawn in a stage that is switched off, nor in a stage that
/// the selected mesh does not take part in. A selected mesh that the model
/// does not have is an error. Else the input layout of the stage is set, the
/// buffers of the mesh are bound, and the eligible parts of the stage's part
/// range are drawn, as far as the mesh has them.
pub open spec fn spec_draw(
    model: DynamicModelView,
    settings: RendererSettings,
    store: TechniqueStore,
    stage: RenderStage,
    identifier: u16,
    channels: Option<Entity>,
    wrapped: bool,
) -> Result<Seq<GpuCommand>, DrawError> {
    if !settings.spec_stage_enabled(stage) {
        Ok(Seq::empty())
    } else if model.selected_mesh >= model.meshes.len() {
        Err(DrawError::InvalidMesh)
    } else if !model.mesh_stages[model.selected_mesh as int]@.contains(stage) {
        Ok(Seq::empty())
    } else {
        let mesh = model.meshes[model.selected_mesh as int];
        let range = mesh.spec_range_for_stage(stage);
        let end = if range.1 <= mesh.parts@.len() {
            range.1
        } else {
            mesh.parts@.len() as int
        };
        Ok(
            seq![
                GpuCommand::SetInputLayout {
                    layout: mesh.spec_input_layout_for_stage(stage) as usize,
                },
                GpuCommand::BindModelBuffers {
                    vertex0: mesh.vertex0_buffer,
                    vertex1: mesh.vertex1_buffer,
                    color: mesh.color_buffer,
                    index: mesh.index_buffer,
                },
            ] + spec_parts_commands(
                model,
                store,
                model.selected_mesh as int,
                identifier,
                channels,
                wrapped,
                range.0,
                end,
            ),
        )
    }
}

impl DynamicModel {
    /// What holds of every model: what was fixed when it was loaded.
    #[verifier::type_invariant]
    pub open spec fn inv(self) -> bool {
        self@.wf()
    }

    fn count_variants(technique_map: &Vec<TechniqueMapEntry>) -> (count: usize)
        ensures
            count == spec_variant_count(technique_map@),
    {
        let mut i: usize = 0;
        proof {
            assert(technique_map@.subrange(0, technique_map@.len() as int) =~= technique_map@);
        }
        while i < technique_map.len()
            invariant
                i <= technique_map@.len(),
                spec_variant_count(technique_map@) == spec_variant_count(
                    technique_map@.subrange(i as int, technique_map@.len() as int),
                ),
            decreases technique_map.len() - i,
        {
            if technique_map[i].unk8 == 0 {
                return technique_map[i].technique_count as usize;
            }
            proof {
                assert(technique_map@.subrange(
                    i as int,
                    technique_map@.len() as int,
                ).drop_first() =~= technique_map@.subrange(
                    i as int + 1,
                    technique_map@.len() as int,
                ));
            }
            i += 1;
        }
        0
    }

    fn max_identifier(meshes: &Vec<DynamicMesh>) -> (max: u16)
        ensures
            max == spec_max_model_identifier(meshes@, meshes@.len()),
    {
        let mut max: u16 = 0;
        let mut m: usize = 0;
        while m < meshes.len()
            invariant
                m <= meshes@.len(),
                max == spec_max_model_identifier(meshes@, m as nat),
            decreases meshes.len() - m,
        {
            let parts = &meshes[m].parts;
            let mut own: u16 = 0;
            let mut p: usize = 0;
            while p < parts.len()
                invariant
                    p <= parts@.len(),
                    own == spec_max_identifier(parts@, p as nat),
                decreases parts.len() - p,
            {
                if parts[p].external_identifier > own {
                    own = parts[p].external_identifier;
                }
                p += 1;
            }
            if own > max {
                max = own;
            }
            m += 1;
        }
        max
    }

    /// Makes a model of what was read of it. The first mesh and the first
    /// variant are selected.
    pub fn load(
        model: DynamicModelData,
        hash: TagHash,
        technique_map: Vec<TechniqueMapEntry>,
        techniques: Vec<TagHash>,
        feature_type: FeatureRenderer,
    ) -> (loaded: Self)
        ensures
            loaded@.wf(),
            loaded@.meshes == model.meshes@,
            loaded@.technique_map == technique_map@,
            loaded@.techniques == techniques@.map_values(|tag: TagHash| TechniqueHandle(tag)),
            loaded@.selected_mesh == 0,
            loaded@.selected_variant == 0,
            loaded@.hash == hash,
            loaded@.feature_type == feature_type,
    {
        let mut handles: Vec<TechniqueHandle> = Vec::new();
        let mut i: usize = 0;
        while i < techniques.len()
            invariant
                i <= techniques@.len(),
                handles@ == techniques@.subrange(0, i as int).map_values(
                    |tag: TagHash| TechniqueHandle(tag),
                ),
            decreases techniques.len() - i,
        {
            handles.push(TechniqueHandle(techniques[i]));
            proof {
                assert(handles@ =~= techniques@.subrange(0, i as int + 1).map_values(
                    |tag: TagHash| TechniqueHandle(tag),
                ));
            }
            i += 1;
        }
        proof {
            assert(techniques@.subrange(0, techniques@.len() as int) =~= techniques@);
        }
        let mut mesh_stages: Vec<RenderStageSubscriptions> = Vec::new();
        let mut subscribed = RenderStageSubscriptions::empty();
        let mut m: usize = 0;
        while m < model.meshes.len()
            invariant
                m <= model.meshes@.len(),
                mesh_stages@.len() == m,
                forall|k: int|
                    0 <= k < m ==> mesh_stages@[k]
                        == RenderStageSubscriptions::spec_from_partrange_list(
                        model.meshes@[k].part_range_per_render_stage@,
                    ),
                subscribed == spec_union_of(mesh_stages@, m as nat),
            decreases model.meshes.len() - m,
        {
            let stages = RenderStageSubscriptions::from_partrange_list(
                &model.meshes[m].part_range_per_render_stage,
            );
            let ghost before = mesh_stages@;
            mesh_stages.push(stages);
            proof {
                lemma_union_of_prefix(before, mesh_stages@, m as nat);
            }
            subscribed = subscribed.union(stages);
            m += 1;
        }
        proof {
            assert(mesh_stages@ =~= spec_mesh_stages(model.meshes@));
        }
        let variant_count = Self::count_variants(&technique_map);
        let identifier_count = Self::max_identifier(&model.meshes) as usize + 1;
        DynamicModel {
            technique_map,
            techniques: handles,
            model,
            mesh_stages,
            subscribed_stages: subscribed,
            selected_mesh: 0,
            selected_variant: 0,
            variant_count,
            identifier_count,
            hash,
            feature_type,
        }
    }

    pub fn mesh_count(&self) -> (count: usize)
        ensures
            count == self@.meshes.len(),
    {
        self.model.meshes.len()
    }

    pub fn variant_count(&self) -> (count: usize)
        ensures
            count == self@.variant_count,
            count == spec_variant_count(self@.technique_map),
    {
        proof {
            use_type_invariant(self);
        }
        self.variant_count
    }

    pub fn identifier_count(&self) -> (count: usize)
        ensures
            count == self@.identifier_count,
            count == spec_identifier_count(self@.meshes),
            count >= 1,
    {
        proof {
            use_type_invariant(self);
        }
        self.identifier_count
    }

    /// What was read of the model.
    pub fn model(&self) -> (model: &DynamicModelData)
        ensures
            model.meshes@ == self@.meshes,
    {
        &self.model
    }

    /// The stages that each mesh takes part in.
    pub fn mesh_stages(&self) -> (stages: &Vec<RenderStageSubscriptions>)
        ensures
            stages@ == self@.mesh_stages,
            stages@ == spec_mesh_stages(self@.meshes),
    {
        proof {
            use_type_invariant(self);
        }
        &self.mesh_stages
    }

    /// The stages that some mesh of the model takes part in.
    pub fn subscribed_stages(&self) -> (stages: RenderStageSubscriptions)
        ensures
            stages == self@.subscribed_stages,
            stages == spec_union_of(self@.mesh_stages, self@.mesh_stages.len()),
    {
        proof {
            use_type_invariant(self);
        }
        self.subscribed_stages
    }

    pub fn hash(&self) -> (hash: TagHash)
        ensures
            hash == self@.hash,
    {
        self.hash
    }

    pub fn feature_type(&self) -> (feature: FeatureRenderer)
        ensures
            feature == self@.feature_type,
    {
        self.feature_type
    }

    pub fn selected_mesh(&self) -> (mesh: usize)
        ensures
            mesh == self@.selected_mesh,
    {
        self.selected_mesh
    }

    pub fn selected_variant(&self) -> (variant: usize)
        ensures
            variant == self@.selected_variant,
    {
        self.selected_variant
    }

    /// Selects the mesh to draw. A mesh that the model does not have can be
    /// selected; drawing then fails.
    pub fn select_mesh(&mut self, mesh: usize)
        ensures
            final(self)@ == (DynamicModelView { selected_mesh: mesh, ..old(self)@ }),
    {
        proof {
            use_type_invariant(&*self);
        }
        self.selected_mesh = mesh;
    }

    /// Selects the variant to draw. Variants beyond a part's run start over
    /// at the first of the run.
    pub fn select_variant(&mut self, variant: usize)
        ensures
            final(self)@ == (DynamicModelView { selected_variant: variant, ..old(self)@ }),
    {
        proof {
            use_type_invariant(&*self);
        }
        self.selected_variant = variant;
    }

    /// The variant technique of a part with this variant index.
    pub fn get_variant_technique(&self, index: u16, variant: usize) -> (technique: Option<
        TechniqueHandle,
    >)
        ensures
            technique == spec_variant_technique(
                self@.technique_map,
                self@.techniques,
                index,
                variant as int,
            ),
            index == NO_VARIANT ==> technique is None,
    {
        variant_technique(&self.technique_map, &self.techniques, index, variant)
    }
}

impl DynamicModel {
    fn plan_part(
        &self,
        renderer: &Renderer,
        part_index: usize,
        object_channels: Option<Entity>,
        wrapped: bool,
    ) -> (commands: Vec<GpuCommand>)
        requires
            self@.selected_mesh < self@.meshes.len(),
            part_index < self@.meshes[self@.selected_mesh as int].parts@.len(),
        ensures
            commands@ == spec_part_commands(
                self@,
                renderer.techniques,
                self@.selected_mesh as int,
                part_index as int,
                object_channels,
                wrapped,
            ),
    {
        proof {
            use_type_invariant(self);
        }
        let part = self.model.meshes[self.selected_mesh].parts[part_index];
        let stages = self.mesh_stages[self.selected_mesh];
        let variant = self.get_variant_technique(part.variant_shader_index, self.selected_variant);
        let bound = bind_techniques(
            &renderer.techniques,
            TechniqueHandle(part.technique),
            variant,
            object_channels,
        );
        let mut commands = bound.0;
        if stages.is_subscribed(RenderStage::ComputeSkinning) || bound.1.needs_skinning() {
            commands.push(GpuCommand::SetEntityVertexShaderOverride);
        }
        commands.push(GpuCommand::SetInputTopology { topology: part.primitive_type });
        if wrapped {
            commands.push(GpuCommand::SubmitPart { mesh: self.selected_mesh, part: part_index });
        } else {
            commands.push(
                GpuCommand::DrawIndexed {
                    index_count: part.index_count,
                    index_start: part.index_start,
                    base_vertex: 0,
                },
            );
        }
        proof {
            assert(commands@ =~= spec_part_commands(
                self@,
                renderer.techniques,
                self@.selected_mesh as int,
                part_index as int,
                object_channels,
                wrapped,
            ));
        }
        commands
    }

    fn plan_draw(
        &self,
        renderer: &Renderer,
        render_stage: RenderStage,
        identifier: u16,
        object_channels: Option<Entity>,
        wrapped: bool,
    ) -> (plan: Result<Vec<GpuCommand>, DrawError>)
        ensures
            spec_plan_view(plan) == spec_draw(
                self@,
                renderer.settings,
                renderer.techniques,
                render_stage,
                identifier,
                object_channels,
                wrapped,
            ),
    {
        proof {
            use_type_invariant(self);
        }
        if !renderer.settings.stage_enabled(render_stage) {
            return Ok(Vec::new());
        }
        if self.selected_mesh >= self.model.meshes.len() {
            return Err(DrawError::InvalidMesh);
        }
        let stages = self.mesh_stages[self.selected_mesh];
        if !stages.is_subscribed(render_stage) {
            return Ok(Vec::new());
        }
        let mesh = &self.model.meshes[self.selected_mesh];
        let mut commands: Vec<GpuCommand> = Vec::new();
        commands.push(
            GpuCommand::SetInputLayout {
                layout: mesh.get_input_layout_for_stage(render_stage) as usize,
            },
        );
        commands.push(
            GpuCommand::BindModelBuffers {
                vertex0: mesh.vertex0_buffer,
                vertex1: mesh.vertex1_buffer,
                color: mesh.color_buffer,
                index: mesh.index_buffer,
            },
        );
        let ghost head = commands@;
        let range = mesh.get_range_for_stage(render_stage);
        let start: usize = range.0;
        let end: usize = if range.1 <= mesh.parts.len() {
            range.1
        } else {
            mesh.parts.len()
        };
        let mut part_index: usize = start;
        while part_index < end
            invariant
                start <= part_index,
                part_index <= end || start >= end,
                start >= end ==> part_index == start,
                end <= mesh.parts@.len(),
                self.selected_mesh < self.model.meshes@.len(),
                *mesh == self.model.meshes@[self.selected_mesh as int],
                self@.mesh_stages[self.selected_mesh as int] == stages,
                commands@ == head + spec_parts_commands(
                    self@,
                    renderer.techniques,
                    self.selected_mesh as int,
                    identifier,
                    object_channels,
                    wrapped,
                    start as int,
                    part_index as int,
                ),
            decreases end - part_index,
        {
            let part = mesh.parts[part_index];
            let ghost before = commands@;
            if (identifier == ALL_IDENTIFIERS || part.external_identifier == identifier)
                && part.lod_category.is_highest_detail() {
                let own = self.plan_part(renderer, part_index, object_channels, wrapped);
                append_commands(&mut commands, &own);
            }
            proof {
                let so_far = spec_parts_commands(
                    self@,
                    renderer.techniques,
                    self.selected_mesh as int,
                    identifier,
                    object_channels,
                    wrapped,
                    start as int,
                    part_index as int,
                );
                let next = spec_parts_commands(
                    self@,
                    renderer.techniques,
                    self.selected_mesh as int,
                    identifier,
                    object_channels,
                    wrapped,
                    start as int,
                    part_index as int + 1,
                );
                assert(before == head + so_far);
                if spec_part_eligible(part, identifier) {
                    let own = spec_part_commands(
                        self@,
                        renderer.techniques,
                        self.selected_mesh as int,
                        part_index as int,
                        object_channels,
                        wrapped,
                    );
                    assert(next == so_far + own);
                    assert((head + so_far) + own =~= head + (so_far + own));
                } else {
                    assert(next == so_far);
                }
            }
            part_index += 1;
        }
        proof {
            assert(head =~= seq![
                GpuCommand::SetInputLayout {
                    layout: mesh.spec_input_layout_for_stage(render_stage) as usize,
                },
                GpuCommand::BindModelBuffers {
                    vertex0: mesh.vertex0_buffer,
                    vertex1: mesh.vertex1_buffer,
                    color: mesh.color_buffer,
                    index: mesh.index_buffer,
                },
            ]);
            if start >= end {
                assert(part_index == start);
            }
        }
        Ok(commands)
    }

    /// Plans the drawing of the selected mesh in a stage: for every part of
    /// the stage's part range that belongs to the piece `identifier`, or for
    /// every part with `ALL_IDENTIFIERS`, and that is of the highest detail,
    /// its techniques are bound and the part is drawn with its indices.
    ///
    /// `object_channels` names the entity whose object channels feed the
    /// techniques. The rigid-model scope is expected to be bound.
    pub fn draw(
        &self,
        renderer: &Renderer,
        render_stage: RenderStage,
        identifier: u16,
        object_channels: Option<Entity>,
    ) -> (plan: Result<Vec<GpuCommand>, DrawError>)
        ensures
            spec_plan_view(plan) == spec_draw(
                self@,
                renderer.settings,
                renderer.techniques,
                render_stage,
                identifier,
                object_channels,
                false,
            ),
            !renderer.settings.spec_stage_enabled(render_stage) ==> plan is Ok
                && plan->Ok_0@.len() == 0,
            plan is Err <==> renderer.settings.spec_stage_enabled(render_stage)
                && self@.selected_mesh >= self@.meshes.len(),
    {
        self.plan_draw(renderer, render_stage, identifier, object_channels, false)
    }

    /// As `draw`, but each part is handed to the caller with `SubmitPart` in
    /// place of the indexed draw, for the caller to draw it in its own way.
    pub fn draw_wrapped(
        &self,
        renderer: &Renderer,
        render_stage: RenderStage,
        identifier: u16,
        object_channels: Option<Entity>,
    ) -> (plan: Result<Vec<GpuCommand>, DrawError>)
        ensures
            spec_plan_view(plan) == spec_draw(
                self@,
                renderer.settings,
                renderer.techniques,
                render_stage,
                identifier,
                object_channels,
                true,
            ),
            !renderer.settings.spec_stage_enabled(render_stage) ==> plan is Ok
                && plan->Ok_0@.len() == 0,
            plan is Err <==> renderer.settings.spec_stage_enabled(render_stage)
                && self@.selected_mesh >= self@.meshes.len(),
    {
        self.plan_draw(renderer, render_stage, identifier, object_channels, true)
    }
}

/// Whether `command` hands over or draws the part `part` of mesh `mesh`.
pub open spec fn spec_draws_part(
    command: GpuCommand,
    model: DynamicModelView,
    mesh: int,
    part: int,
    wrapped: bool,
) -> bool {
    if wrapped {
        command == (GpuCommand::SubmitPart { mesh: mesh as usize, part: part as usize })
    } else {
        command == (GpuCommand::DrawIndexed {
            index_count: model.meshes[mesh].parts@[part].index_count,
            index_start: model.meshes[mesh].parts@[part].index_start,
            base_vertex: 0,
        })
    }
}

/// The commands of one part end with its draw, and hold no other draw.
pub proof fn lemma_part_commands_draw_once(
    model: DynamicModelView,
    store: TechniqueStore,
    mesh: int,
    part: int,
    channels: Option<Entity>,
    wrapped: bool,
)
    ensures
        spec_part_commands(model, store, mesh, part, channels, wrapped).len() >= 2,
        spec_draws_part(
            spec_part_commands(model, store, mesh, part, channels, wrapped).last(),
            model,
            mesh,
            part,
            wrapped,
        ),
        forall|k: int|
            0 <= k < spec_part_commands(model, store, mesh, part, channels, wrapped).len() - 1
                ==> !(#[trigger] spec_part_commands(
                model,
                store,
                mesh,
                part,
                channels,
                wrapped,
            )[k]).spec_is_draw(),
{
}

/// Every draw that the plan of a range of parts holds is the draw of a part
/// of that range which belongs to the piece asked for and is of the
/// highest detail.
pub proof fn lemma_parts_commands_draw_eligible(
    model: DynamicModelView,
    store: TechniqueStore,
    mesh: int,
    identifier: u16,
    channels: Option<Entity>,
    wrapped: bool,
    from: int,
    to: int,
)
    requires
        0 <= mesh < model.meshes.len(),
        0 <= from,
        to <= model.meshes[mesh].parts@.len(),
    ensures
        forall|k: int|
            #![trigger spec_parts_commands(model, store, mesh, identifier, channels, wrapped, from, to)[k]]
            0 <= k < spec_parts_commands(
                model,
                store,
                mesh,
                identifier,
                channels,
                wrapped,
                from,
                to,
            ).len() && spec_parts_commands(
                model,
                store,
                mesh,
                identifier,
                channels,
                wrapped,
                from,
                to,
            )[k].spec_is_draw() ==> exists|part: int|
                from <= part < to && #[trigger] spec_part_eligible(
                    model.meshes[mesh].parts@[part],
                    identifier,
                ) && spec_draws_part(
                    spec_parts_commands(
                        model,
                        store,
                        mesh,
                        identifier,
                        channels,
                        wrapped,
                        from,
                        to,
                    )[k],
                    model,
                    mesh,
                    part,
                    wrapped,
                ),
    decreases to - from,
{
    if from < to {
        let all = spec_parts_commands(model, store, mesh, identifier, channels, wrapped, from, to);
        let before = spec_parts_commands(
            model,
            store,
            mesh,
            identifier,
            channels,
            wrapped,
            from,
            to - 1,
        );
        lemma_parts_commands_draw_eligible(
            model,
            store,
            mesh,
            identifier,
            channels,
            wrapped,
            from,
            to - 1,
        );
        let own = spec_part_commands(model, store, mesh, to - 1, channels, wrapped);
        lemma_part_commands_draw_once(model, store, mesh, to - 1, channels, wrapped);
        assert forall|k: int| 0 <= k < all.len() && (#[trigger] all[k]).spec_is_draw() implies exists|
            part: int,
        |
            from <= part < to && #[trigger] spec_part_eligible(
                model.meshes[mesh].parts@[part],
                identifier,
            ) && spec_draws_part(all[k], model, mesh, part, wrapped) by {
            if k < before.len() {
                assert(all[k] == before[k]);
                let part = choose|part: int|
                    from <= part < to - 1 && #[trigger] spec_part_eligible(
                        model.meshes[mesh].parts@[part],
                        identifier,
                    ) && spec_draws_part(before[k], model, mesh, part, wrapped);
                assert(spec_part_eligible(model.meshes[mesh].parts@[part], identifier));
            } else {
                assert(all[k] == own[k - before.len()]);
                assert(k - before.len() == own.len() - 1);
                assert(spec_part_eligible(model.meshes[mesh].parts@[to - 1], identifier));
            }
        }
    }
}

/// A part that is not of the highest detail is never drawn, in no stage:
/// every draw of a plan is the draw of a part of the selected mesh that is
/// of the highest detail and belongs to the piece that was asked for.
pub proof fn lemma_only_highest_detail_is_drawn(
    model: DynamicModelView,
    settings: RendererSettings,
    store: TechniqueStore,
    stage: RenderStage,
    identifier: u16,
    channels: Option<Entity>,
    wrapped: bool,
)
    requires
        model.wf(),
    ensures
        match spec_draw(model, settings, store, stage, identifier, channels, wrapped) {
            Ok(commands) => forall|k: int|
                0 <= k < commands.len() && (#[trigger] commands[k]).spec_is_draw() ==> exists|
                    part: int,
                |
                    {
                        &&& 0 <= part < model.meshes[model.selected_mesh as int].parts@.len()
                        &&& #[trigger] spec_part_eligible(
                            model.meshes[model.selected_mesh as int].parts@[part],
                            identifier,
                        )
                        &&& model.meshes[model.selected_mesh as int].parts@[part].lod_category.spec_is_highest_detail()
                        &&& spec_draws_part(
                            commands[k],
                            model,
                            model.selected_mesh as int,
                            part,
                            wrapped,
                        )
                    },
            Err(_) => true,
        },
{
    match spec_draw(model, settings, store, stage, identifier, channels, wrapped) {
        Ok(commands) => {
            if commands.len() > 0 {
                let mesh = model.meshes[model.selected_mesh as int];
                let range = mesh.spec_range_for_stage(stage);
                let end = if range.1 <= mesh.parts@.len() {
                    range.1
                } else {
                    mesh.parts@.len() as int
                };
                let parts = spec_parts_commands(
                    model,
                    store,
                    model.selected_mesh as int,
                    identifier,
                    channels,
                    wrapped,
                    range.0,
                    end,
                );
                lemma_parts_commands_draw_eligible(
                    model,
                    store,
                    model.selected_mesh as int,
                    identifier,
                    channels,
                    wrapped,
                    range.0,
                    end,
                );
                assert forall|k: int|
                    0 <= k < commands.len() && (#[trigger] commands[k]).spec_is_draw() implies exists|
                    part: int,
                |
                    {
                        &&& 0 <= part < mesh.parts@.len()
                        &&& #[trigger] spec_part_eligible(mesh.parts@[part], identifier)
                        &&& mesh.parts@[part].lod_category.spec_is_highest_detail()
                        &&& spec_draws_part(
                            commands[k],
                            model,
                            model.selected_mesh as int,
                            part,
                            wrapped,
                        )
                    } by {
                    assert(k >= 2);
                    assert(commands[k] == parts[k - 2]);
                    let part = choose|part: int|
                        range.0 <= part < end && #[trigger] spec_part_eligible(
                            mesh.parts@[part],
                            identifier,
                        ) && spec_draws_part(
                            parts[k - 2],
                            model,
                            model.selected_mesh as int,
                            part,
                            wrapped,
                        );
                    assert(spec_part_eligible(mesh.parts@[part], identifier));
                }
            }
        },
        Err(_) => {},
    }
}

/// With a stage switched off, nothing is drawn in it: the plan of every
/// model is empty.
pub proof fn lemma_disabled_stage_draws_nothing(
    model: DynamicModelView,
    settings: RendererSettings,
    store: TechniqueStore,
    stage: RenderStage,
    identifier: u16,
    channels: Option<Entity>,
    wrapped: bool,
)
    requires
        !settings.spec_stage_enabled(stage),
    ensures
        spec_draw(model, settings, store, stage, identifier, channels, wrapped) == Ok::<
            Seq<GpuCommand>,
            DrawError,
        >(Seq::empty()),
        stage == RenderStage::Transparents && !settings.stage_transparent
            ==> !settings.spec_stage_enabled(stage),
{
}

/// The techniques of the first `n` parts, in the order of the parts.
pub open spec fn spec_part_techniques(parts: Seq<DynamicMeshPart>, n: nat) -> Seq<TechniqueHandle>
    decreases n,
{
    if n == 0 {
        Seq::empty()
    } else {
        spec_part_techniques(parts, (n - 1) as nat).push(TechniqueHandle(parts[n - 1].technique))
    }
}

/// The techniques of the parts of the first `n` meshes, mesh after mesh.
pub open spec fn spec_mesh_techniques(meshes: Seq<DynamicMesh>, n: nat) -> Seq<TechniqueHandle>
    decreases n,
{
    if n == 0 {
        Seq::empty()
    } else {
        spec_mesh_techniques(meshes, (n - 1) as nat) + spec_part_techniques(
            meshes[n - 1].parts@,
            meshes[n - 1].parts@.len(),
        )
    }
}

/// Every technique that a model can bind: its variant techniques, and then
/// the technique of each part of each mesh. A technique that is used more
/// than once is listed more than once.
pub open spec fn spec_all_techniques(model: DynamicModelView) -> Seq<TechniqueHandle> {
    model.techniques + spec_mesh_techniques(model.meshes, model.meshes.len())
}

impl DynamicModel {
    /// The variant techniques, and then the technique of each part of each
    /// mesh.
    pub fn all_techniques(&self) -> (listed: Vec<TechniqueHandle>)
        ensures
            listed@ == spec_all_techniques(self@),
    {
        let mut listed: Vec<TechniqueHandle> = Vec::new();
        let mut i: usize = 0;
        while i < self.techniques.len()
            invariant
                i <= self.techniques@.len(),
                listed@ == self.techniques@.subrange(0, i as int),
            decreases self.techniques.len() - i,
        {
            listed.push(self.techniques[i]);
            proof {
                assert(listed@ =~= self.techniques@.subrange(0, i as int + 1));
            }
            i += 1;
        }
        proof {
            assert(self.techniques@.subrange(0, self.techniques@.len() as int)
                =~= self.techniques@);
            assert(listed@ =~= self.techniques@ + spec_mesh_techniques(self.model.meshes@, 0));
        }
        let mut m: usize = 0;
        while m < self.model.meshes.len()
            invariant
                m <= self.model.meshes@.len(),
                listed@ == self.techniques@ + spec_mesh_techniques(self.model.meshes@, m as nat),
            decreases self.model.meshes.len() - m,
        {
            let parts = &self.model.meshes[m].parts;
            let ghost before_mesh = listed@;
            let mut p: usize = 0;
            proof {
                assert(listed@ =~= before_mesh + spec_part_techniques(parts@, 0));
            }
            while p < parts.len()
                invariant
                    p <= parts@.len(),
                    listed@ == before_mesh + spec_part_techniques(parts@, p as nat),
                decreases parts.len() - p,
            {
                listed.push(TechniqueHandle(parts[p].technique));
                proof {
                    assert(listed@ =~= before_mesh + spec_part_techniques(parts@, (p + 1) as nat));
                }
                p += 1;
            }
            proof {
                assert(listed@ =~= self.techniques@ + spec_mesh_techniques(
                    self.model.meshes@,
                    (m + 1) as nat,
                ));
            }
            m += 1;
        }
        listed
    }
}

/// Why a component could not be made of a model.
#[derive(Clone, Copy, PartialEq, Eq, Structural, Debug)]
pub enum LoadError {
    /// The model takes part in skinning, and no buffer for the skinning
    /// constants was given.
    MissingSkinningBuffer,
}

/// A dynamic model in the scene, with the constant buffers that hold its
/// placement.
#[derive(Debug)]
pub struct DynamicModelComponent {
    pub model: DynamicModel,
    pub cbuffer: ResourceId,
    pub cbuffer_skinning: Option<ResourceId>,
    /// The piece that is drawn, or `ALL_IDENTIFIERS`.
    pub identifier: u16,
    pub cbuffer_dirty: bool,
}

/// The commands that draw the model of a component: the constants of the
/// component are published and bound to the rigid-model slot of the vertex
/// shader, and the model is drawn.
pub open spec fn spec_component_draw(
    component: DynamicModelComponent,
    renderer: Renderer,
    stage: RenderStage,
    channels: Option<Entity>,
) -> Result<Seq<GpuCommand>, DrawError> {
    match spec_draw(
        component.model@,
        renderer.settings,
        renderer.techniques,
        stage,
        component.identifier,
        channels,
        false,
    ) {
        Ok(commands) => Ok(
            seq![
                GpuCommand::SetRigidModelExtern { constants: component.cbuffer },
                GpuCommand::BindConstantBuffer {
                    buffer: component.cbuffer,
                    slot: renderer.rigid_model_vertex_slot,
                    stage: ShaderStage::Vertex,
                },
            ] + commands,
        ),
        Err(e) => Err(e),
    }
}

/// The commands that write the constants of a component anew.
pub open spec fn spec_update_commands(component: DynamicModelComponent) -> Seq<GpuCommand> {
    seq![GpuCommand::WriteRigidModelConstants { buffer: component.cbuffer }] + (
    match component.cbuffer_skinning {
        Some(buffer) => seq![GpuCommand::WriteSkinningConstants { buffer }],
        None => Seq::<GpuCommand>::empty(),
    })
}

impl DynamicModelComponent {
    /// Whether a component of this model needs a buffer for skinning
    /// constants: it does when a mesh of the model takes part in skinning.
    pub fn needs_skinning_buffer(model: &DynamicModel) -> (needed: bool)
        ensures
            needed == model@.subscribed_stages@.contains(RenderStage::ComputeSkinning),
    {
        model.subscribed_stages().is_subscribed(RenderStage::ComputeSkinning)
    }

    /// Makes a component of a model and its constant buffers. Every piece
    /// of the model is drawn. The buffer for skinning constants is kept
    /// where the model takes part in skinning, and must be there then.
    pub fn load(model: DynamicModel, cbuffer: ResourceId, cbuffer_skinning: Option<ResourceId>) -> (r:
        Result<Self, LoadError>)
        ensures
            r is Err <==> model@.subscribed_stages@.contains(RenderStage::ComputeSkinning)
                && cbuffer_skinning is None,
            r is Ok ==> {
                &&& r->Ok_0.model == model
                &&& r->Ok_0.cbuffer == cbuffer
                &&& r->Ok_0.cbuffer_skinning == if model@.subscribed_stages@.contains(
                    RenderStage::ComputeSkinning,
                ) {
                    cbuffer_skinning
                } else {
                    None
                }
                &&& r->Ok_0.identifier == ALL_IDENTIFIERS
                &&& r->Ok_0.cbuffer_dirty
            },
    {
        let needed = Self::needs_skinning_buffer(&model);
        if needed && cbuffer_skinning.is_none() {
            return Err(LoadError::MissingSkinningBuffer);
        }
        Ok(
            DynamicModelComponent {
                model,
                cbuffer,
                cbuffer_skinning: if needed {
                    cbuffer_skinning
                } else {
                    None
                },
                identifier: ALL_IDENTIFIERS,
                cbuffer_dirty: true,
            },
        )
    }

    /// Marks the constants as out of date.
    pub fn mark_dirty(&mut self)
        ensures
            final(self).cbuffer_dirty,
            final(self).model == old(self).model,
            final(self).cbuffer == old(self).cbuffer,
            final(self).cbuffer_skinning == old(self).cbuffer_skinning,
            final(self).identifier == old(self).identifier,
    {
        self.cbuffer_dirty = true;
    }

    /// Writes the placement of the entity into the constants of the model,
    /// and into the skinning constants where the component has them.
    pub fn update_cbuffer(&self) -> (commands: Vec<GpuCommand>)
        ensures
            commands@ == spec_update_commands(*self),
    {
        let mut commands: Vec<GpuCommand> = Vec::new();
        commands.push(GpuCommand::WriteRigidModelConstants { buffer: self.cbuffer });
        match self.cbuffer_skinning {
            Some(buffer) => {
                commands.push(GpuCommand::WriteSkinningConstants { buffer });
            },
            None => {},
        }
        proof {
            assert(commands@ =~= spec_update_commands(*self));
        }
        commands
    }

    /// Every technique that the model can bind: the variant techniques and
    /// the technique of each part, each once, in no fixed order.
    pub fn techniques(&self) -> (techniques: Vec<TechniqueHandle>)
        ensures
            techniques@.no_duplicates(),
            forall|handle: TechniqueHandle|
                techniques@.contains(handle) <==> spec_all_techniques(self.model@).contains(
                    handle,
                ),
    {
        let listed = self.model.all_techniques();
        distinct_handles(&listed)
    }

    /// Plans the drawing of the component's model in a stage.
    pub fn draw(
        &self,
        renderer: &Renderer,
        render_stage: RenderStage,
        object_channels: Option<Entity>,
    ) -> (plan: Result<Vec<GpuCommand>, DrawError>)
        ensures
            spec_plan_view(plan) == spec_component_draw(
                *self,
                *renderer,
                render_stage,
                object_channels,
            ),
    {
        let drawn = self.model.draw(renderer, render_stage, self.identifier, object_channels);
        match drawn {
            Ok(model_commands) => {
                let mut commands: Vec<GpuCommand> = Vec::new();
                commands.push(GpuCommand::SetRigidModelExtern { constants: self.cbuffer });
                commands.push(
                    GpuCommand::BindConstantBuffer {
                        buffer: self.cbuffer,
                        slot: renderer.rigid_model_vertex_slot,
                        stage: ShaderStage::Vertex,
                    },
                );
                let ghost head = commands@;
                append_commands(&mut commands, &model_commands);
                proof {
                    assert(head =~= seq![
                        GpuCommand::SetRigidModelExtern { constants: self.cbuffer },
                        GpuCommand::BindConstantBuffer {
                            buffer: self.cbuffer,
                            slot: renderer.rigid_model_vertex_slot,
                            stage: ShaderStage::Vertex,
                        },
                    ]);
                }
                Ok(commands)
            },
            Err(e) => Err(e),
        }
    }
}

/// Whether a dynamic model is drawn by the general pass of a stage: it is
/// visible in the active view, its stage and its feature are switched on,
/// and it is no sky object, which the sky pass draws.
pub open spec fn spec_dynamic_passes(entry: DynamicModelEntity, renderer: Renderer, stage: RenderStage)
    -> bool {
    &&& spec_is_visible(entry.visibility, renderer.active_view)
    &&& renderer.settings.spec_should_render(Some(stage), Some(entry.component.model@.feature_type))
    &&& entry.component.model@.feature_type != FeatureRenderer::SkyTransparent
}

/// Whether a dynamic model is drawn by the sky pass: it is a sky object and
/// visible in the active view.
pub open spec fn spec_sky_passes(entry: DynamicModelEntity, renderer: Renderer) -> bool {
    &&& spec_is_visible(entry.visibility, renderer.active_view)
    &&& entry.component.model@.feature_type == FeatureRenderer::SkyTransparent
}

/// For each entity, whether the pass draws it.
pub open spec fn spec_pass_marks(
    entries: Seq<DynamicModelEntity>,
    renderer: Renderer,
    stage: RenderStage,
    sky: bool,
) -> Seq<bool> {
    Seq::new(
        entries.len(),
        |i: int|
            if sky {
                spec_sky_passes(entries[i], renderer)
            } else {
                spec_dynamic_passes(entries[i], renderer, stage)
            },
    )
}

/// For each entity, the key by which the pass orders it. The general pass
/// draws water first, rigid and dynamic objects next and everything else
/// last. The sky pass draws the farthest first.
pub open spec fn spec_pass_keys(entries: Seq<DynamicModelEntity>, sky: bool) -> Seq<u64> {
    Seq::new(
        entries.len(),
        |i: int|
            if sky {
                (u64::MAX - entries[i].view_distance_key) as u64
            } else {
                entries[i].component.model@.feature_type.spec_draw_priority()
            },
    )
}

/// The commands that a pass emits for one entity. An entity whose model
/// cannot be drawn is passed over. The general pass marks what it draws
/// with the entity, and feeds the techniques with the entity's own object
/// channels where it has them.
pub open spec fn spec_entity_commands(
    entry: DynamicModelEntity,
    renderer: Renderer,
    stage: RenderStage,
    sky: bool,
) -> Seq<GpuCommand> {
    if sky {
        match spec_component_draw(entry.component, renderer, stage, None) {
            Ok(commands) => commands,
            Err(_) => Seq::empty(),
        }
    } else {
        let channels = if entry.has_channels {
            Some(entry.entity)
        } else {
            None
        };
        match spec_component_draw(entry.component, renderer, stage, channels) {
            Ok(commands) => seq![GpuCommand::BeginPickEntity { entity: entry.entity }] + commands
                + seq![GpuCommand::EndPickEntity],
            Err(_) => Seq::empty(),
        }
    }
}

/// The commands for the first `n` of the listed entities, in their order.
pub open spec fn spec_listed_commands(
    entries: Seq<DynamicModelEntity>,
    listed: Seq<usize>,
    n: nat,
    renderer: Renderer,
    stage: RenderStage,
    sky: bool,
) -> Seq<GpuCommand>
    decreases n,
{
    if n == 0 {
        Seq::empty()
    } else {
        spec_listed_commands(entries, listed, (n - 1) as nat, renderer, stage, sky)
            + spec_entity_commands(entries[listed[n - 1] as int], renderer, stage, sky)
    }
}

/// The commands that draw the visible among the first `n` decorators.
pub open spec fn spec_decorator_commands(
    decorators: Seq<DecoratorEntity>,
    n: nat,
    view: usize,
    stage: RenderStage,
) -> Seq<GpuCommand>
    decreases n,
{
    if n == 0 {
        Seq::empty()
    } else {
        let before = spec_decorator_commands(decorators, (n - 1) as nat, view, stage);
        if spec_is_visible(decorators[n - 1].visibility, view) {
            before + seq![
                GpuCommand::BeginPickEntity { entity: decorators[n - 1].entity },
                GpuCommand::DrawDecorator { entity: decorators[n - 1].entity, stage },
                GpuCommand::EndPickEntity,
            ]
        } else {
            before
        }
    }
}

/// The entities that a pass draws, in the order in which it draws them.
pub open spec fn spec_pass_order(
    entries: Seq<DynamicModelEntity>,
    renderer: Renderer,
    stage: RenderStage,
    sky: bool,
) -> Seq<usize> {
    spec_select_in_order(spec_pass_marks(entries, renderer, stage, sky), spec_pass_keys(entries, sky))
}

/// What the general pass of a stage emits: the dynamic models that pass, in
/// the order of their priority, and then the decorators, where trees are
/// switched on.
pub open spec fn spec_dynamic_model_system(renderer: Renderer, scene: Scene, stage: RenderStage)
    -> Seq<GpuCommand> {
    let listed = spec_pass_order(scene.dynamic_models@, renderer, stage, false);
    spec_listed_commands(scene.dynamic_models@, listed, listed.len(), renderer, stage, false) + (
    if renderer.settings.spec_should_render(Some(stage), Some(FeatureRenderer::SpeedtreeTrees)) {
        spec_decorator_commands(
            scene.decorators@,
            scene.decorators@.len(),
            renderer.active_view,
            stage,
        )
    } else {
        Seq::<GpuCommand>::empty()
    })
}

/// What the sky pass of a stage emits: nothing where sky objects are
/// switched off; else the visible sky objects, the farthest first.
pub open spec fn spec_sky_objects_system(renderer: Renderer, scene: Scene, stage: RenderStage)
    -> Seq<GpuCommand> {
    if !renderer.settings.spec_should_render(Some(stage), Some(FeatureRenderer::SkyTransparent)) {
        Seq::empty()
    } else {
        let listed = spec_pass_order(scene.dynamic_models@, renderer, stage, true);
        spec_listed_commands(scene.dynamic_models@, listed, listed.len(), renderer, stage, true)
    }
}

/// What the update of the constants emits for the first `n` entities: the
/// constants of each entity that was moved are written anew.
pub open spec fn spec_update_system(entries: Seq<DynamicModelEntity>, n: nat) -> Seq<GpuCommand>
    decreases n,
{
    if n == 0 {
        Seq::empty()
    } else {
        let before = spec_update_system(entries, (n - 1) as nat);
        if entries[n - 1].transform_changed {
            before + spec_update_commands(entries[n - 1].component)
        } else {
            before
        }
    }
}

/// The order of a pass: every entity that passes is drawn once and no
/// other; in the general pass no entity is drawn before one of a lower
/// priority number, so that water comes before rigid and dynamic objects and
/// these before everything else, and in the sky pass no entity is drawn
/// before one that is farther away; entities that the pass cannot tell
/// apart are drawn in the order of the scene.
pub proof fn lemma_pass_order(
    entries: Seq<DynamicModelEntity>,
    renderer: Renderer,
    stage: RenderStage,
    sky: bool,
)
    requires
        entries.len() <= usize::MAX,
    ensures
        crate::order::is_selection_in_order(
            spec_pass_marks(entries, renderer, stage, sky),
            spec_pass_keys(entries, sky),
            spec_pass_order(entries, renderer, stage, sky),
        ),
        forall|a: int, b: int|
            #![trigger spec_pass_order(entries, renderer, stage, sky)[a], spec_pass_order(entries, renderer, stage, sky)[b]]
            0 <= a < b < spec_pass_order(entries, renderer, stage, sky).len() ==> {
                let first = entries[spec_pass_order(entries, renderer, stage, sky)[a] as int];
                let second = entries[spec_pass_order(entries, renderer, stage, sky)[b] as int];
                if sky {
                    first.view_distance_key >= second.view_distance_key
                } else {
                    first.component.model@.feature_type.spec_draw_priority()
                        <= second.component.model@.feature_type.spec_draw_priority()
                }
            },
{
    let marks = spec_pass_marks(entries, renderer, stage, sky);
    let keys = spec_pass_keys(entries, sky);
    lemma_select_in_order(marks, keys);
    let listed = spec_pass_order(entries, renderer, stage, sky);
    assert forall|a: int, b: int|
        #![trigger listed[a], listed[b]]
        0 <= a < b < listed.len() implies {
        let first = entries[listed[a] as int];
        let second = entries[listed[b] as int];
        if sky {
            first.view_distance_key >= second.view_distance_key
        } else {
            first.component.model@.feature_type.spec_draw_priority()
                <= second.component.model@.feature_type.spec_draw_priority()
        }
    } by {
        assert(crate::order::comes_before(keys, listed[a] as int, listed[b] as int));
        assert(listed[a] < entries.len() && listed[b] < entries.len());
    }
}

fn pass_order(renderer: &Renderer, entries: &Vec<DynamicModelEntity>, stage: RenderStage, sky: bool)
    -> (listed: Vec<usize>)
    ensures
        listed@ == spec_pass_order(entries@, *renderer, stage, sky),
        forall|k: int| 0 <= k < listed@.len() ==> (#[trigger] listed@[k]) < entries@.len(),
        !sky && !renderer.settings.spec_stage_enabled(stage) ==> listed@.len() == 0,
{
    let mut items: Vec<(bool, u64)> = Vec::new();
    let mut i: usize = 0;
    while i < entries.len()
        invariant
            i <= entries@.len(),
            items@.len() == i,
            forall|k: int|
                0 <= k < i ==> (#[trigger] items@[k]).0 == spec_pass_marks(
                    entries@,
                    *renderer,
                    stage,
                    sky,
                )[k],
            forall|k: int| 0 <= k < i ==> (#[trigger] items@[k]).1 == spec_pass_keys(entries@, sky)[k],
        decreases entries.len() - i,
    {
        let entry = &entries[i];
        let feature = entry.component.model.feature_type();
        let visible = is_visible(&entry.visibility, renderer.active_view);
        if sky {
            items.push(
                (
                    visible && feature == FeatureRenderer::SkyTransparent,
                    u64::MAX - entry.view_distance_key,
                ),
            );
        } else {
            items.push(
                (
                    visible && renderer.settings.should_render(Some(stage), Some(feature))
                        && feature != FeatureRenderer::SkyTransparent,
                    feature.draw_priority(),
                ),
            );
        }
        i += 1;
    }
    proof {
        let marks = marks_of(items@);
        let keys = all_keys_of(items@);
        assert(marks =~= spec_pass_marks(entries@, *renderer, stage, sky));
        assert(keys =~= spec_pass_keys(entries@, sky));
        lemma_select_in_order(marks, keys);
        if !sky && !renderer.settings.spec_stage_enabled(stage) {
            lemma_indices_where(marked(marks), marks.len());
            let chosen = indices_where(marked(marks), marks.len());
            if chosen.len() > 0 {
                assert(marked(marks)(chosen[0] as int));
            }
        }
    }
    select_in_order(&items)
}

fn emit_listed(
    renderer: &Renderer,
    entries: &Vec<DynamicModelEntity>,
    listed: &Vec<usize>,
    stage: RenderStage,
    sky: bool,
) -> (commands: Vec<GpuCommand>)
    requires
        forall|k: int| 0 <= k < listed@.len() ==> (#[trigger] listed@[k]) < entries@.len(),
    ensures
        commands@ == spec_listed_commands(
            entries@,
            listed@,
            listed@.len(),
            *renderer,
            stage,
            sky,
        ),
{
    let mut commands: Vec<GpuCommand> = Vec::new();
    let mut k: usize = 0;
    while k < listed.len()
        invariant
            k <= listed@.len(),
            forall|a: int| 0 <= a < listed@.len() ==> (#[trigger] listed@[a]) < entries@.len(),
            commands@ == spec_listed_commands(entries@, listed@, k as nat, *renderer, stage, sky),
        decreases listed.len() - k,
    {
        let entry = &entries[listed[k]];
        let ghost before = commands@;
        if sky {
            match entry.component.draw(renderer, stage, None) {
                Ok(drawn) => {
                    append_commands(&mut commands, &drawn);
                },
                Err(_) => {},
            }
        } else {
            let channels = if entry.has_channels {
                Some(entry.entity)
            } else {
                None
            };
            match entry.component.draw(renderer, stage, channels) {
                Ok(drawn) => {
                    commands.push(GpuCommand::BeginPickEntity { entity: entry.entity });
                    append_commands(&mut commands, &drawn);
                    commands.push(GpuCommand::EndPickEntity);
                    proof {
                        assert(commands@ =~= before + (seq![
                            GpuCommand::BeginPickEntity { entity: entry.entity },
                        ] + drawn@ + seq![GpuCommand::EndPickEntity]));
                    }
                },
                Err(_) => {},
            }
        }
        proof {
            assert(commands@ =~= before + spec_entity_commands(*entry, *renderer, stage, sky));
        }
        k += 1;
    }
    commands
}

/// Plans the general pass of a stage over the dynamic models of the scene.
///
/// The models that are visible in the active view and switched on, sky
/// objects apart, are drawn in the order of their priority: water first,
/// then rigid and dynamic objects, then everything else; among models of one
/// priority, in the order of the scene. A model that cannot be drawn is
/// passed over. Then the visible decorators are drawn, where trees are
/// switched on. In a stage that is switched off nothing is drawn.
pub fn draw_dynamic_model_system(renderer: &Renderer, scene: &Scene, render_stage: RenderStage) -> (commands:
    Vec<GpuCommand>)
    ensures
        commands@ == spec_dynamic_model_system(*renderer, *scene, render_stage),
        !renderer.settings.spec_stage_enabled(render_stage) ==> commands@.len() == 0,
{
    let listed = pass_order(renderer, &scene.dynamic_models, render_stage, false);
    let mut commands = emit_listed(renderer, &scene.dynamic_models, &listed, render_stage, false);
    if renderer.settings.should_render(Some(render_stage), Some(FeatureRenderer::SpeedtreeTrees)) {
        let ghost head = commands@;
        let mut i: usize = 0;
        while i < scene.decorators.len()
            invariant
                i <= scene.decorators@.len(),
                commands@ == head + spec_decorator_commands(
                    scene.decorators@,
                    i as nat,
                    renderer.active_view,
                    render_stage,
                ),
            decreases scene.decorators.len() - i,
        {
            let decorator = &scene.decorators[i];
            let ghost before = commands@;
            if is_visible(&decorator.visibility, renderer.active_view) {
                commands.push(GpuCommand::BeginPickEntity { entity: decorator.entity });
                commands.push(
                    GpuCommand::DrawDecorator { entity: decorator.entity, stage: render_stage },
                );
                commands.push(GpuCommand::EndPickEntity);
            }
            proof {
                assert(commands@ =~= head + spec_decorator_commands(
                    scene.decorators@,
                    (i + 1) as nat,
                    renderer.active_view,
                    render_stage,
                ));
            }
            i += 1;
        }
    } else {
        proof {
            assert(commands@ =~= commands@ + Seq::<GpuCommand>::empty());
        }
    }
    commands
}

/// Plans the sky pass of a stage: the visible sky objects are drawn from the
/// farthest to the nearest, so that the nearest wins where they overlap.
/// Nothing is drawn where sky objects, or the stage, are switched off.
pub fn draw_sky_objects_system(renderer: &Renderer, scene: &Scene, render_stage: RenderStage) -> (commands:
    Vec<GpuCommand>)
    ensures
        commands@ == spec_sky_objects_system(*renderer, *scene, render_stage),
        !renderer.settings.spec_stage_enabled(render_stage) ==> commands@.len() == 0,
{
    if !renderer.settings.should_render(Some(render_stage), Some(FeatureRenderer::SkyTransparent)) {
        return Vec::new();
    }
    let listed = pass_order(renderer, &scene.dynamic_models, render_stage, true);
    emit_listed(renderer, &scene.dynamic_models, &listed, render_stage, true)
}

/// Plans the update of the constants: the constants of every dynamic model
/// that was moved are written anew.
pub fn update_dynamic_model_system(scene: &Scene) -> (commands: Vec<GpuCommand>)
    ensures
        commands@ == spec_update_system(scene.dynamic_models@, scene.dynamic_models@.len()),
{
    let mut commands: Vec<GpuCommand> = Vec::new();
    let mut i: usize = 0;
    while i < scene.dynamic_models.len()
        invariant
            i <= scene.dynamic_models@.len(),
            commands@ == spec_update_system(scene.dynamic_models@, i as nat),
        decreases scene.dynamic_models.len() - i,
    {
        let entry = &scene.dynamic_models[i];
        if entry.transform_changed {
            let written = entry.component.update_cbuffer();
            append_commands(&mut commands, &written);
        }
        i += 1;
    }
    commands
}

/// Adding a set at the end leaves the union of the sets before it as it was.
pub proof fn lemma_union_of_prefix(
    before: Seq<RenderStageSubscriptions>,
    after: Seq<RenderStageSubscriptions>,
    n: nat,
)
    requires
        n <= before.len(),
        before.len() <= after.len(),
        forall|i: int| 0 <= i < n ==> before[i] == after[i],
    ensures
        spec_union_of(before, n) == spec_union_of(after, n),
    decreases n,
{
    if n > 0 {
        lemma_union_of_prefix(before, after, (n - 1) as nat);
    }
}

/// The stages that a model takes part in are the stages that one of its
/// meshes takes part in, and a mesh takes part in the stages whose part
/// range holds a part.
pub proof fn lemma_subscriptions_are_the_union(model: DynamicModelView, stage: RenderStage)
    requires
        model.wf(),
    ensures
        model.subscribed_stages@.contains(stage) <==> exists|m: int|
            0 <= m < model.meshes.len() && (#[trigger] model.mesh_stages[m])@.contains(stage),
        forall|m: int|
            0 <= m < model.meshes.len() ==> ((#[trigger] model.mesh_stages[m])@.contains(stage)
                <==> model.meshes[m].spec_range_for_stage(stage).0 < model.meshes[m].spec_range_for_stage(
                stage,
            ).1),
{
    lemma_union_of(model.mesh_stages, model.mesh_stages.len(), stage);
    assert forall|m: int| 0 <= m < model.meshes.len() implies ((#[trigger] model.mesh_stages[m])@.contains(
        stage,
    ) <==> model.meshes[m].spec_range_for_stage(stage).0 < model.meshes[m].spec_range_for_stage(
        stage,
    ).1) by {
        vstd::array::array_len_matches_n(&model.meshes[m].part_range_per_render_stage);
        lemma_partrange_view(model.meshes[m].part_range_per_render_stage@);
    }
}

} // verus!
