//! Render stages and the per-mesh set of stages that a mesh takes part in.

use vstd::prelude::*;

verus! {

/// Number of render stages, the skinning stage included.
pub const STAGE_COUNT: usize = 24;

/// Bit of the compute-skinning stage in a subscription set.
pub const COMPUTE_SKINNING_BITS: u32 = 0x0080_0000;

/// Every bit that stands for a stage.
pub const ALL_STAGE_BITS: u32 = 0x00ff_ffff;

/// A named phase of the frame.
#[derive(Clone, Copy, PartialEq, Eq, Structural, Debug)]
pub enum RenderStage {
    GenerateGbuffer,
    Decals,
    InvestmentDecals,
    ShadowGenerate,
    LightingApply,
    LightProbeApply,
    DecalsAdditive,
    Transparents,
    Distortion,
    LightShaftOcclusion,
    SkinPrepass,
    LensFlares,
    DepthPrepass,
    WaterReflection,
    PostprocessTransparentStencil,
    Impulse,
    Reticle,
    WaterRipples,
    MaskSunLight,
    Volumetrics,
    Cubemaps,
    PostprocessScreen,
    WorldForces,
    ComputeSkinning,
}

impl RenderStage {
    /// Position of the stage in a frame, which is also its bit in a
    /// subscription set and its slot in a per-stage table.
    pub open spec fn spec_index(self) -> nat {
        match self {
            RenderStage::GenerateGbuffer => 0,
            RenderStage::Decals => 1,
            RenderStage::InvestmentDecals => 2,
            RenderStage::ShadowGenerate => 3,
            RenderStage::LightingApply => 4,
            RenderStage::LightProbeApply => 5,
            RenderStage::DecalsAdditive => 6,
            RenderStage::Transparents => 7,
            RenderStage::Distortion => 8,
            RenderStage::LightShaftOcclusion => 9,
            RenderStage::SkinPrepass => 10,
            RenderStage::LensFlares => 11,
            RenderStage::DepthPrepass => 12,
            RenderStage::WaterReflection => 13,
            RenderStage::PostprocessTransparentStencil => 14,
            RenderStage::Impulse => 15,
            RenderStage::Reticle => 16,
            RenderStage::WaterRipples => 17,
            RenderStage::MaskSunLight => 18,
            RenderStage::Volumetrics => 19,
            RenderStage::Cubemaps => 20,
            RenderStage::PostprocessScreen => 21,
            RenderStage::WorldForces => 22,
            RenderStage::ComputeSkinning => 23,
        }
    }

    /// The stage at a position, if there is one.
    pub open spec fn spec_from_index(index: nat) -> Option<RenderStage> {
        if index == 0 {
            Some(RenderStage::GenerateGbuffer)
        } else if index == 1 {
            Some(RenderStage::Decals)
        } else if index == 2 {
            Some(RenderStage::InvestmentDecals)
        } else if index == 3 {
            Some(RenderStage::ShadowGenerate)
        } else if index == 4 {
            Some(RenderStage::LightingApply)
        } else if index == 5 {
            Some(RenderStage::LightProbeApply)
        } else if index == 6 {
            Some(RenderStage::DecalsAdditive)
        } else if index == 7 {
            Some(RenderStage::Transparents)
        } else if index == 8 {
            Some(RenderStage::Distortion)
        } else if index == 9 {
            Some(RenderStage::LightShaftOcclusion)
        } else if index == 10 {
            Some(RenderStage::SkinPrepass)
        } else if index == 11 {
            Some(RenderStage::LensFlares)
        } else if index == 12 {
            Some(RenderStage::DepthPrepass)
        } else if index == 13 {
            Some(RenderStage::WaterReflection)
        } else if index == 14 {
            Some(RenderStage::PostprocessTransparentStencil)
        } else if index == 15 {
            Some(RenderStage::Impulse)
        } else if index == 16 {
            Some(RenderStage::Reticle)
        } else if index == 17 {
            Some(RenderStage::WaterRipples)
        } else if index == 18 {
            Some(RenderStage::MaskSunLight)
        } else if index == 19 {
            Some(RenderStage::Volumetrics)
        } else if index == 20 {
            Some(RenderStage::Cubemaps)
        } else if index == 21 {
            Some(RenderStage::PostprocessScreen)
        } else if index == 22 {
            Some(RenderStage::WorldForces)
        } else if index == 23 {
            Some(RenderStage::ComputeSkinning)
        } else {
            None
        }
    }

    pub fn index(self) -> (index: usize)
        ensures
            index == self.spec_index(),
            index < STAGE_COUNT,
    {
        match self {
            RenderStage::GenerateGbuffer => 0,
            RenderStage::Decals => 1,
            RenderStage::InvestmentDecals => 2,
            RenderStage::ShadowGenerate => 3,
            RenderStage::LightingApply => 4,
            RenderStage::LightProbeApply => 5,
            RenderStage::DecalsAdditive => 6,
            RenderStage::Transparents => 7,
            RenderStage::Distortion => 8,
            RenderStage::LightShaftOcclusion => 9,
            RenderStage::SkinPrepass => 10,
            RenderStage::LensFlares => 11,
            RenderStage::DepthPrepass => 12,
            RenderStage::WaterReflection => 13,
            RenderStage::PostprocessTransparentStencil => 14,
            RenderStage::Impulse => 15,
            RenderStage::Reticle => 16,
            RenderStage::WaterRipples => 17,
            RenderStage::MaskSunLight => 18,
            RenderStage::Volumetrics => 19,
            RenderStage::Cubemaps => 20,
            RenderStage::PostprocessScreen => 21,
            RenderStage::WorldForces => 22,
            RenderStage::ComputeSkinning => 23,
        }
    }

    pub fn from_index(index: usize) -> (stage: Option<RenderStage>)
        ensures
            stage == Self::spec_from_index(index as nat),
            stage is Some <==> index < STAGE_COUNT,
            stage is Some ==> stage->0.spec_index() == index,
    {
        match index {
            0 => Some(RenderStage::GenerateGbuffer),
            1 => Some(RenderStage::Decals),
            2 => Some(RenderStage::InvestmentDecals),
            3 => Some(RenderStage::ShadowGenerate),
            4 => Some(RenderStage::LightingApply),
            5 => Some(RenderStage::LightProbeApply),
            6 => Some(RenderStage::DecalsAdditive),
            7 => Some(RenderStage::Transparents),
            8 => Some(RenderStage::Distortion),
            9 => Some(RenderStage::LightShaftOcclusion),
            10 => Some(RenderStage::SkinPrepass),
            11 => Some(RenderStage::LensFlares),
            12 => Some(RenderStage::DepthPrepass),
            13 => Some(RenderStage::WaterReflection),
            14 => Some(RenderStage::PostprocessTransparentStencil),
            15 => Some(RenderStage::Impulse),
            16 => Some(RenderStage::Reticle),
            17 => Some(RenderStage::WaterRipples),
            18 => Some(RenderStage::MaskSunLight),
            19 => Some(RenderStage::Volumetrics),
            20 => Some(RenderStage::Cubemaps),
            21 => Some(RenderStage::PostprocessScreen),
            22 => Some(RenderStage::WorldForces),
            23 => Some(RenderStage::ComputeSkinning),
            _ => None,
        }
    }

    /// Terrain patches and the preview drawer take part in these stages only.
    pub open spec fn spec_draws_terrain(self) -> bool {
        self == RenderStage::GenerateGbuffer || self == RenderStage::ShadowGenerate || self
            == RenderStage::DepthPrepass
    }

    pub fn draws_terrain(self) -> (r: bool)
        ensures
            r == self.spec_draws_terrain(),
    {
        match self {
            RenderStage::GenerateGbuffer => true,
            RenderStage::ShadowGenerate => true,
            RenderStage::DepthPrepass => true,
            _ => false,
        }
    }
}

/// Every stage index is the index of exactly one stage.
pub proof fn lemma_stage_index_round_trip(stage: RenderStage)
    ensures
        stage.spec_index() < STAGE_COUNT,
        RenderStage::spec_from_index(stage.spec_index()) == Some(stage),
{
}

/// Whether bit `i` of `bits` is set.
pub open spec fn has_bit(bits: u32, i: u32) -> bool {
    (bits >> i) & 1u32 == 1u32
}

/// The kind of drawable a model belongs to. It selects the feature toggle that
/// gates the drawable and its place in the draw order.
#[derive(Clone, Copy, PartialEq, Eq, Structural, Debug)]
pub enum FeatureRenderer {
    StaticObjects,
    DynamicObjects,
    ExampleEntity,
    SkinnedObject,
    Gear,
    RigidObject,
    Cloth,
    ChunkedInstanceObjects,
    SoftDeformable,
    TerrainPatch,
    SpeedtreeTrees,
    EditorTerrainTile,
    EditorMesh,
    BatchedEditorMesh,
    EditorDecal,
    Particles,
    ChunkedLights,
    DeferredLights,
    SkyTransparent,
    Widget,
    Decals,
    DynamicDecals,
    RoadDecals,
    Water,
    LensFlares,
    Volumetrics,
    Cubemaps,
}

impl FeatureRenderer {
    /// Draw order bucket: water first, rigid and dynamic objects next,
    /// everything else last.
    pub open spec fn spec_draw_priority(self) -> u64 {
        match self {
            FeatureRenderer::Water => 1,
            FeatureRenderer::RigidObject => 2,
            FeatureRenderer::DynamicObjects => 2,
            _ => 99,
        }
    }

    pub fn draw_priority(self) -> (priority: u64)
        ensures
            priority == self.spec_draw_priority(),
    {
        match self {
            FeatureRenderer::Water => 1,
            FeatureRenderer::RigidObject => 2,
            FeatureRenderer::DynamicObjects => 2,
            _ => 99,
        }
    }
}

/// The set of stages that a mesh takes part in, one bit per stage.
///
/// The view is the set of subscribed stages.
#[derive(Clone, Copy, PartialEq, Eq, Structural, Debug)]
pub struct RenderStageSubscriptions {
    bits: u32,
}

impl View for RenderStageSubscriptions {
    type V = Set<RenderStage>;

    open spec fn view(&self) -> Set<RenderStage> {
        Set::new(|stage: RenderStage| has_bit(self.spec_bits(), stage.spec_index() as u32))
    }
}

/// The subscription bits of a part range list, looking at the stages below
/// `upto` only: a stage is subscribed when its part range is not empty.
pub open spec fn partrange_bits(ranges: Seq<u16>, upto: nat) -> u32
    decreases upto,
{
    if upto == 0 {
        0u32
    } else {
        let rest = partrange_bits(ranges, (upto - 1) as nat);
        if ranges[upto - 1] < ranges[upto as int] {
            rest | (1u32 << ((upto - 1) as u32))
        } else {
            rest
        }
    }
}

impl RenderStageSubscriptions {
    pub closed spec fn spec_bits(self) -> u32 {
        self.bits
    }

    /// No bit outside the stages is ever set.
    #[verifier::type_invariant]
    pub open spec fn wf(self) -> bool {
        self.spec_bits() & !ALL_STAGE_BITS == 0
    }

    pub open spec fn spec_is_subscribed(self, stage: RenderStage) -> bool {
        has_bit(self.spec_bits(), stage.spec_index() as u32)
    }

    pub open spec fn spec_union(self, other: Self) -> Self {
        Self::spec_from_bits_truncate(self.spec_bits() | other.spec_bits())
    }

    pub closed spec fn spec_from_bits_truncate(bits: u32) -> Self {
        RenderStageSubscriptions { bits: bits & ALL_STAGE_BITS }
    }

    /// The subscriptions that a mesh with these part ranges has.
    pub open spec fn spec_from_partrange_list(ranges: Seq<u16>) -> Self {
        Self::spec_from_bits_truncate(partrange_bits(ranges, STAGE_COUNT as nat))
    }

    pub fn empty() -> (s: Self)
        ensures
            s.spec_bits() == 0,
            s@ == Set::<RenderStage>::empty(),
            s == Self::spec_from_bits_truncate(0),
    {
        proof {
            assert(0u32 & !ALL_STAGE_BITS == 0) by (bit_vector);
            assert(0u32 & ALL_STAGE_BITS == 0) by (bit_vector);
        }
        let s = RenderStageSubscriptions { bits: 0 };
        proof {
            assert forall|stage: RenderStage| !s@.contains(stage) by {
                let i = stage.spec_index() as u32;
                assert((0u32 >> i) & 1u32 == 0u32) by (bit_vector);
            }
            assert(s@ =~= Set::<RenderStage>::empty());
        }
        s
    }

    /// The one-stage set of the compute-skinning stage.
    pub fn compute_skinning() -> (s: Self)
        ensures
            s.spec_bits() == COMPUTE_SKINNING_BITS,
            s.spec_is_subscribed(RenderStage::ComputeSkinning),
    {
        proof {
            assert(COMPUTE_SKINNING_BITS & !ALL_STAGE_BITS == 0) by (bit_vector);
            assert((COMPUTE_SKINNING_BITS >> 23u32) & 1u32 == 1u32) by (bit_vector);
        }
        RenderStageSubscriptions { bits: COMPUTE_SKINNING_BITS }
    }

    pub fn bits(&self) -> (bits: u32)
        ensures
            bits == self.spec_bits(),
    {
        self.bits
    }

    /// Keeps the bits that stand for a stage and drops the others.
    pub fn from_bits_truncate(bits: u32) -> (s: Self)
        ensures
            s == Self::spec_from_bits_truncate(bits),
            s.spec_bits() == bits & ALL_STAGE_BITS,
    {
        proof {
            assert((bits & ALL_STAGE_BITS) & !ALL_STAGE_BITS == 0) by (bit_vector);
        }
        RenderStageSubscriptions { bits: bits & ALL_STAGE_BITS }
    }

    pub fn is_subscribed(&self, stage: RenderStage) -> (r: bool)
        ensures
            r == self.spec_is_subscribed(stage),
            r == self@.contains(stage),
    {
        let i: u32 = stage.index() as u32;
        (self.bits >> i) & 1u32 == 1u32
    }

    /// Whether every stage of `other` is subscribed here too.
    pub fn contains(&self, other: Self) -> (r: bool)
        ensures
            r == (self.spec_bits() & other.spec_bits() == other.spec_bits()),
            r == other@.subset_of(self@),
    {
        let r = self.bits & other.bits == other.bits;
        proof {
            use_type_invariant(self);
            use_type_invariant(&other);
            lemma_subset_bits(self.bits, other.bits);
            assert(r == other@.subset_of(self@)) by {
                if r {
                    assert forall|stage: RenderStage| other@.contains(stage) implies self@.contains(
                        stage,
                    ) by {
                        assert(stage.spec_index() < 24);
                    }
                } else {
                    let i = choose|i: u32|
                        i < 24 && has_bit(other.bits, i) && !has_bit(self.bits, i);
                    let stage = RenderStage::spec_from_index(i as nat)->0;
                    assert(stage.spec_index() == i);
                    assert(other@.contains(stage) && !self@.contains(stage));
                }
            }
        }
        r
    }

    pub fn union(self, other: Self) -> (s: Self)
        ensures
            s == self.spec_union(other),
            s@ == self@.union(other@),
    {
        let a = self.bits;
        let b = other.bits;
        proof {
            assert(((a | b) & ALL_STAGE_BITS) & !ALL_STAGE_BITS == 0) by (bit_vector);
        }
        let s = RenderStageSubscriptions { bits: (a | b) & ALL_STAGE_BITS };
        proof {
            assert forall|stage: RenderStage| s@.contains(stage) == (self@.contains(stage)
                || other@.contains(stage)) by {
                let i = stage.spec_index() as u32;
                assert(i < 24);
                lemma_union_bit(a, b, i);
            }
            assert(s@ =~= self@.union(other@));
        }
        s
    }

    /// The subscriptions of a mesh, from the boundaries of its per-stage part
    /// ranges: stage `i` owns the parts from `ranges[i]` up to `ranges[i + 1]`
    /// and is subscribed when that range holds a part.
    pub fn from_partrange_list(ranges: &[u16; 25]) -> (s: Self)
        ensures
            s == Self::spec_from_partrange_list(ranges@),
            forall|stage: RenderStage|
                s@.contains(stage) <==> ranges@[stage.spec_index() as int] < ranges@[
                    stage.spec_index() as int + 1],
    {
        let mut bits: u32 = 0;
        let mut i: usize = 0;
        proof {
            assert forall|j: u32| j < 24 implies !has_bit(0u32, j) by {
                assert((0u32 >> j) & 1u32 == 0u32) by (bit_vector);
            }
            assert(0u32 & !ALL_STAGE_BITS == 0) by (bit_vector);
        }
        while i < STAGE_COUNT
            invariant
                i <= STAGE_COUNT,
                bits == partrange_bits(ranges@, i as nat),
                bits & !ALL_STAGE_BITS == 0,
                forall|j: u32|
                    j < 24 ==> (#[trigger] has_bit(bits, j) <==> (j < i && ranges@[j as int]
                        < ranges@[j + 1])),
            decreases STAGE_COUNT - i,
        {
            let ghost before = bits;
            if ranges[i] < ranges[i + 1] {
                let shift: u32 = i as u32;
                bits = bits | (1u32 << shift);
                proof {
                    lemma_set_bit(before, shift);
                }
            }
            proof {
                assert forall|j: u32| j < 24 implies (#[trigger] has_bit(bits, j) <==> (j < i + 1
                    && ranges@[j as int] < ranges@[j + 1])) by {
                    assert(has_bit(before, j) <==> (j < i && ranges@[j as int] < ranges@[j + 1]));
                }
            }
            i += 1;
        }
        proof {
            assert(bits & ALL_STAGE_BITS == bits) by (bit_vector)
                requires
                    bits & !ALL_STAGE_BITS == 0,
            ;
        }
        let s = RenderStageSubscriptions { bits };
        proof {
            assert forall|stage: RenderStage|
                s@.contains(stage) <==> ranges@[stage.spec_index() as int] < ranges@[
                    stage.spec_index() as int + 1] by {
                let j = stage.spec_index() as u32;
                assert(j < 24);
            }
        }
        s
    }
}

/// The union holds the stages of both sets and no other.
pub proof fn lemma_union_view(a: RenderStageSubscriptions, b: RenderStageSubscriptions)
    ensures
        a.spec_union(b)@ == a@.union(b@),
        a.spec_union(b).wf(),
{
    let s = a.spec_union(b);
    let x = a.spec_bits();
    let y = b.spec_bits();
    lemma_truncated_bits(x | y);
    assert forall|stage: RenderStage| s@.contains(stage) == (a@.contains(stage) || b@.contains(
        stage,
    )) by {
        let i = stage.spec_index() as u32;
        assert(i < 24);
        lemma_union_bit(x, y, i);
    }
    assert(s@ =~= a@.union(b@));
}

/// Among sets in which no bit outside the stages is set, two sets with the
/// same stages are the same set.
pub proof fn lemma_view_is_injective(a: RenderStageSubscriptions, b: RenderStageSubscriptions)
    requires
        a.wf(),
        b.wf(),
        a@ == b@,
    ensures
        a == b,
{
    let x = a.spec_bits();
    let y = b.spec_bits();
    lemma_bits_of(a);
    lemma_bits_of(b);
    if x & y != y {
        lemma_subset_bits(x, y);
        let i = choose|i: u32| i < 24 && has_bit(y, i) && !has_bit(x, i);
        let stage = RenderStage::spec_from_index(i as nat)->0;
        assert(stage.spec_index() == i);
        assert(stage.spec_index() as u32 == i);
        assert(b.spec_is_subscribed(stage));
        assert(!a.spec_is_subscribed(stage));
        assert(b@.contains(stage));
        assert(a@.contains(stage));
        assert(false);
    }
    if y & x != x {
        lemma_subset_bits(y, x);
        let i = choose|i: u32| i < 24 && has_bit(x, i) && !has_bit(y, i);
        let stage = RenderStage::spec_from_index(i as nat)->0;
        assert(stage.spec_index() == i);
        assert(stage.spec_index() as u32 == i);
        assert(a.spec_is_subscribed(stage));
        assert(!b.spec_is_subscribed(stage));
        assert(a@.contains(stage));
        assert(b@.contains(stage));
        assert(false);
    }
    assert(x == y) by (bit_vector)
        requires
            x & y == y,
            y & x == x,
    ;
}

/// The stages of a mesh are those whose part range holds a part.
pub proof fn lemma_partrange_view(ranges: Seq<u16>)
    requires
        ranges.len() == 25,
    ensures
        RenderStageSubscriptions::spec_from_partrange_list(ranges).wf(),
        forall|stage: RenderStage|
            RenderStageSubscriptions::spec_from_partrange_list(ranges)@.contains(stage)
                <==> ranges[stage.spec_index() as int] < ranges[stage.spec_index() as int + 1],
{
    lemma_partrange_bits(ranges, 24);
    let bits = partrange_bits(ranges, 24);
    lemma_truncated_bits(bits);
    assert(bits & ALL_STAGE_BITS == bits) by (bit_vector)
        requires
            bits & !ALL_STAGE_BITS == 0,
    ;
    let s = RenderStageSubscriptions::spec_from_partrange_list(ranges);
    assert forall|stage: RenderStage|
        s@.contains(stage) <==> ranges[stage.spec_index() as int] < ranges[stage.spec_index() as int
            + 1] by {
        let j = stage.spec_index() as u32;
        assert(j < 24);
        assert(has_bit(bits, j) <==> (j < 24 && ranges[j as int] < ranges[j + 1]));
    }
}

/// Bit `j` of the bits of the first `upto` stages is set when stage `j` is
/// one of them and its part range holds a part.
pub proof fn lemma_partrange_bits(ranges: Seq<u16>, upto: nat)
    requires
        upto <= 24,
    ensures
        partrange_bits(ranges, upto) & !ALL_STAGE_BITS == 0,
        forall|j: u32|
            j < 24 ==> (#[trigger] has_bit(partrange_bits(ranges, upto), j) <==> (j < upto
                && ranges[j as int] < ranges[j + 1])),
    decreases upto,
{
    if upto == 0 {
        assert(0u32 & !ALL_STAGE_BITS == 0) by (bit_vector);
        assert forall|j: u32| j < 24 implies !has_bit(0u32, j) by {
            assert((0u32 >> j) & 1u32 == 0u32) by (bit_vector);
        }
    } else {
        let rest = partrange_bits(ranges, (upto - 1) as nat);
        lemma_partrange_bits(ranges, (upto - 1) as nat);
        if ranges[upto - 1] < ranges[upto as int] {
            lemma_set_bit(rest, (upto - 1) as u32);
        }
        let bits = partrange_bits(ranges, upto);
        assert forall|j: u32| j < 24 implies (#[trigger] has_bit(bits, j) <==> (j < upto
            && ranges[j as int] < ranges[j + 1])) by {
            assert(has_bit(rest, j) <==> (j < upto - 1 && ranges[j as int] < ranges[j + 1]));
        }
    }
}

/// What truncation keeps: the stage bits, and nothing outside them.
pub proof fn lemma_truncated_bits(bits: u32)
    ensures
        RenderStageSubscriptions::spec_from_bits_truncate(bits).spec_bits() == bits
            & ALL_STAGE_BITS,
        RenderStageSubscriptions::spec_from_bits_truncate(bits).wf(),
{
    assert((bits & ALL_STAGE_BITS) & !ALL_STAGE_BITS == 0) by (bit_vector);
}

/// A set of stages is its bits, truncated.
pub proof fn lemma_bits_of(s: RenderStageSubscriptions)
    requires
        s.wf(),
    ensures
        s == RenderStageSubscriptions::spec_from_bits_truncate(s.spec_bits()),
        s.spec_bits() & !ALL_STAGE_BITS == 0,
{
    let bits = s.spec_bits();
    assert(bits & ALL_STAGE_BITS == bits) by (bit_vector)
        requires
            bits & !ALL_STAGE_BITS == 0,
    ;
}

/// Setting bit `i` changes that bit and no other, and stays within the stages.
pub proof fn lemma_set_bit(bits: u32, i: u32)
    requires
        i < 24,
    ensures
        has_bit(bits | (1u32 << i), i),
        forall|j: u32|
            j < 32 && j != i ==> #[trigger] has_bit(bits | (1u32 << i), j) == has_bit(bits, j),
        bits & !ALL_STAGE_BITS == 0 ==> (bits | (1u32 << i)) & !ALL_STAGE_BITS == 0,
{
    assert(((bits | (1u32 << i)) >> i) & 1u32 == 1u32) by (bit_vector)
        requires
            i < 24,
    ;
    assert forall|j: u32| j < 32 && j != i implies has_bit(bits | (1u32 << i), j) == has_bit(
        bits,
        j,
    ) by {
        assert(((bits | (1u32 << i)) >> j) & 1u32 == (bits >> j) & 1u32) by (bit_vector)
            requires
                i < 24,
                j < 32,
                j != i,
        ;
    }
    assert(bits & !ALL_STAGE_BITS == 0 ==> (bits | (1u32 << i)) & !ALL_STAGE_BITS == 0)
        by (bit_vector)
        requires
            i < 24,
    ;
}

/// A bit of a union is set when it is set in one of the two.
pub proof fn lemma_union_bit(a: u32, b: u32, i: u32)
    requires
        i < 24,
    ensures
        has_bit((a | b) & ALL_STAGE_BITS, i) == (has_bit(a, i) || has_bit(b, i)),
{
    assert(((((a | b) & ALL_STAGE_BITS) >> i) & 1u32 == 1u32) == (((a >> i) & 1u32 == 1u32) || ((b
        >> i) & 1u32 == 1u32))) by (bit_vector)
        requires
            i < 24,
    ;
}

/// Among sets of stage bits, masking decides inclusion bit by bit.
pub proof fn lemma_subset_bits(a: u32, b: u32)
    requires
        a & !ALL_STAGE_BITS == 0,
        b & !ALL_STAGE_BITS == 0,
    ensures
        (a & b == b) <==> (forall|i: u32| i < 24 && has_bit(b, i) ==> has_bit(a, i)),
        !(a & b == b) ==> exists|i: u32| i < 24 && has_bit(b, i) && !has_bit(a, i),
{
    if a & b == b {
        assert forall|i: u32| i < 24 && has_bit(b, i) implies has_bit(a, i) by {
            assert((b >> i) & 1u32 == 1u32 ==> (a >> i) & 1u32 == 1u32) by (bit_vector)
                requires
                    a & b == b,
            ;
        }
    } else {
        lemma_differing_bit(a, b);
    }
}

/// Two sets of stage bits of which one is not within the other differ in a
/// stage bit.
proof fn lemma_differing_bit(a: u32, b: u32)
    requires
        a & !ALL_STAGE_BITS == 0,
        b & !ALL_STAGE_BITS == 0,
        a & b != b,
    ensures
        exists|i: u32| i < 24 && has_bit(b, i) && !has_bit(a, i),
{
    let d: u32 = b & !a;
    assert(d != 0 && d & !ALL_STAGE_BITS == 0) by (bit_vector)
        requires
            d == b & !a,
            a & b != b,
            b & !ALL_STAGE_BITS == 0,
    ;
    assert(d >> 0u32 == d) by (bit_vector);
    let i = lowest_bit(d, 0);
    assert(has_bit(b, i) && !has_bit(a, i)) by (bit_vector)
        requires
            d == b & !a,
            (d >> i) & 1u32 == 1u32,
            i < 24,
    ;
}

/// Finds a set stage bit of `d` at or above `from`.
proof fn lowest_bit(d: u32, from: u32) -> (i: u32)
    requires
        from <= 24,
        d & !ALL_STAGE_BITS == 0,
        d >> from != 0,
    ensures
        i < 24,
        has_bit(d, i),
    decreases 24 - from,
{
    if from == 24 {
        assert(d >> 24u32 == 0) by (bit_vector)
            requires
                d & !ALL_STAGE_BITS == 0,
        ;
        0
    } else if has_bit(d, from) {
        from
    } else {
        let next = (from + 1) as u32;
        assert(d >> next != 0) by (bit_vector)
            requires
                from < 24,
                next == from + 1,
                d >> from != 0,
                (d >> from) & 1u32 != 1u32,
        ;
        lowest_bit(d, next)
    }
}

} // verus!
