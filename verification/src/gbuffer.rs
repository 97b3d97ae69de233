//! The resource manager: every render target that depends on the size of the
//! output surface, the depth buffer, the staging surface for depth probes,
//! and the two targets that the full-screen passes write in turn.

use crate::command::{
    created, first_missing, lemma_first_missing, lemma_first_missing_split, CreateError,
    DeviceRequest, DxgiFormat, ResourceId,
};
use crate::target::{
    clamp_size, spec_clamp_size, CpuStagingBuffer, DepthState, RenderTarget,
};
use vstd::prelude::*;

verus! {

/// Which of the two post-processing targets holds the latest result.
#[derive(Clone, Copy, PartialEq, Eq, Structural, Debug)]
pub enum PingPong {
    Ping,
    Pong,
}

impl PingPong {
    pub open spec fn spec_next(self) -> Self {
        match self {
            PingPong::Ping => PingPong::Pong,
            PingPong::Pong => PingPong::Ping,
        }
    }

    /// The other one.
    pub fn next(&self) -> (other: Self)
        ensures
            other == self.spec_next(),
            other != *self,
            other.spec_next() == *self,
    {
        match self {
            PingPong::Ping => PingPong::Pong,
            PingPong::Pong => PingPong::Ping,
        }
    }
}

/// The resources of a G-buffer, by name.
#[derive(Clone, Copy, PartialEq, Eq, Structural, Debug)]
pub enum GBufferSlot {
    Rt0,
    Rt1,
    Rt1Read,
    Rt2,
    Rt3,
    LightDiffuse,
    LightSpecular,
    LightIblSpecular,
    ShadingResult,
    ShadingResultRead,
    Depth,
    DepthStaging,
    SsaoIntermediate,
    AtmosSsFarLookup,
    AtmosSsNearLookup,
    DepthAngleDensityLookup,
    PostprocessPing,
    PostprocessPong,
}

/// Number of device objects that a new G-buffer is made of.
pub const CREATE_OBJECT_COUNT: usize = 56;

/// Number of device objects that a resize replaces.
pub const RESIZE_OBJECT_COUNT: usize = 53;

impl GBufferSlot {
    /// Whether the slot holds a render target. The depth buffer and the
    /// staging surface are resources of their own kind.
    pub open spec fn spec_is_render_target(self) -> bool {
        self != GBufferSlot::Depth && self != GBufferSlot::DepthStaging
    }

    /// Whether a resize replaces the resource. The density lookup has a size
    /// of its own and stays.
    pub open spec fn spec_is_resized(self) -> bool {
        self != GBufferSlot::DepthAngleDensityLookup
    }

    pub open spec fn spec_format(self) -> DxgiFormat {
        match self {
            GBufferSlot::Rt0 => DxgiFormat::B8G8R8A8UnormSrgb,
            GBufferSlot::Rt1 => DxgiFormat::R10G10B10A2Unorm,
            GBufferSlot::Rt1Read => DxgiFormat::R10G10B10A2Unorm,
            GBufferSlot::Rt2 => DxgiFormat::B8G8R8A8Unorm,
            GBufferSlot::Rt3 => DxgiFormat::B8G8R8A8Unorm,
            GBufferSlot::LightDiffuse => DxgiFormat::R11G11B10Float,
            GBufferSlot::LightSpecular => DxgiFormat::R11G11B10Float,
            GBufferSlot::LightIblSpecular => DxgiFormat::R11G11B10Float,
            GBufferSlot::ShadingResult => DxgiFormat::R11G11B10Float,
            GBufferSlot::ShadingResultRead => DxgiFormat::R11G11B10Float,
            GBufferSlot::Depth => DxgiFormat::R32Typeless,
            GBufferSlot::DepthStaging => DxgiFormat::R32Typeless,
            GBufferSlot::SsaoIntermediate => DxgiFormat::R8Unorm,
            GBufferSlot::AtmosSsFarLookup => DxgiFormat::R16G16B16A16Float,
            GBufferSlot::AtmosSsNearLookup => DxgiFormat::R16G16B16A16Float,
            GBufferSlot::DepthAngleDensityLookup => DxgiFormat::R16G16B16A16Float,
            GBufferSlot::PostprocessPing => DxgiFormat::R8G8B8A8UnormSrgb,
            GBufferSlot::PostprocessPong => DxgiFormat::R8G8B8A8UnormSrgb,
        }
    }

    /// The size of the slot's resource in a G-buffer of size `size`, where
    /// `size` has no zero side: the two scattering lookups have a quarter of
    /// each side, the density lookup has a size of its own, every other
    /// resource has the size of the G-buffer. No resource has a zero side.
    pub open spec fn spec_size(self, size: (u32, u32)) -> (u32, u32) {
        match self {
            GBufferSlot::AtmosSsFarLookup => spec_clamp_size((size.0 / 4, size.1 / 4), 1),
            GBufferSlot::AtmosSsNearLookup => spec_clamp_size((size.0 / 4, size.1 / 4), 1),
            GBufferSlot::DepthAngleDensityLookup => (512u32, 512u32),
            _ => size,
        }
    }

    /// Where the slot's objects start among the objects of a new G-buffer,
    /// or, if `resizing`, among those of a resize.
    pub open spec fn spec_offset(self, resizing: bool) -> int {
        match self {
            GBufferSlot::Rt0 => 0,
            GBufferSlot::Rt1 => 3,
            GBufferSlot::Rt1Read => 6,
            GBufferSlot::Rt2 => 9,
            GBufferSlot::Rt3 => 12,
            GBufferSlot::LightDiffuse => 15,
            GBufferSlot::LightSpecular => 18,
            GBufferSlot::LightIblSpecular => 21,
            GBufferSlot::ShadingResult => 24,
            GBufferSlot::ShadingResultRead => 27,
            GBufferSlot::Depth => 30,
            GBufferSlot::DepthStaging => 37,
            GBufferSlot::SsaoIntermediate => if resizing {
                44
            } else {
                38
            },
            GBufferSlot::AtmosSsFarLookup => 41,
            GBufferSlot::AtmosSsNearLookup => if resizing {
                38
            } else {
                44
            },
            GBufferSlot::DepthAngleDensityLookup => if resizing {
                53
            } else {
                47
            },
            GBufferSlot::PostprocessPing => if resizing {
                47
            } else {
                50
            },
            GBufferSlot::PostprocessPong => if resizing {
                50
            } else {
                53
            },
        }
    }

    /// The slot that object `step` belongs to.
    pub open spec fn spec_of_step(step: int, resizing: bool) -> GBufferSlot {
        if step < 3 {
            GBufferSlot::Rt0
        } else if step < 6 {
            GBufferSlot::Rt1
        } else if step < 9 {
            GBufferSlot::Rt1Read
        } else if step < 12 {
            GBufferSlot::Rt2
        } else if step < 15 {
            GBufferSlot::Rt3
        } else if step < 18 {
            GBufferSlot::LightDiffuse
        } else if step < 21 {
            GBufferSlot::LightSpecular
        } else if step < 24 {
            GBufferSlot::LightIblSpecular
        } else if step < 27 {
            GBufferSlot::ShadingResult
        } else if step < 30 {
            GBufferSlot::ShadingResultRead
        } else if step < 37 {
            GBufferSlot::Depth
        } else if step < 38 {
            GBufferSlot::DepthStaging
        } else if resizing {
            if step < 41 {
                GBufferSlot::AtmosSsNearLookup
            } else if step < 44 {
                GBufferSlot::AtmosSsFarLookup
            } else if step < 47 {
                GBufferSlot::SsaoIntermediate
            } else if step < 50 {
                GBufferSlot::PostprocessPing
            } else {
                GBufferSlot::PostprocessPong
            }
        } else {
            if step < 41 {
                GBufferSlot::SsaoIntermediate
            } else if step < 44 {
                GBufferSlot::AtmosSsFarLookup
            } else if step < 47 {
                GBufferSlot::AtmosSsNearLookup
            } else if step < 50 {
                GBufferSlot::DepthAngleDensityLookup
            } else if step < 53 {
                GBufferSlot::PostprocessPing
            } else {
                GBufferSlot::PostprocessPong
            }
        }
    }

    /// The failure that a missing object at place `local` of the slot's own
    /// objects means.
    pub open spec fn spec_step_error(self, local: int) -> CreateError {
        match self {
            GBufferSlot::Depth => DepthState::spec_step_error(local),
            GBufferSlot::DepthStaging => CreateError::StagingBuffer,
            _ => if local == 0 {
                CreateError::Texture
            } else if local == 1 {
                CreateError::RenderTargetView
            } else {
                CreateError::ShaderResourceView
            },
        }
    }

    pub fn format(self) -> (format: DxgiFormat)
        ensures
            format == self.spec_format(),
    {
        match self {
            GBufferSlot::Rt0 => DxgiFormat::B8G8R8A8UnormSrgb,
            GBufferSlot::Rt1 => DxgiFormat::R10G10B10A2Unorm,
            GBufferSlot::Rt1Read => DxgiFormat::R10G10B10A2Unorm,
            GBufferSlot::Rt2 => DxgiFormat::B8G8R8A8Unorm,
            GBufferSlot::Rt3 => DxgiFormat::B8G8R8A8Unorm,
            GBufferSlot::LightDiffuse => DxgiFormat::R11G11B10Float,
            GBufferSlot::LightSpecular => DxgiFormat::R11G11B10Float,
            GBufferSlot::LightIblSpecular => DxgiFormat::R11G11B10Float,
            GBufferSlot::ShadingResult => DxgiFormat::R11G11B10Float,
            GBufferSlot::ShadingResultRead => DxgiFormat::R11G11B10Float,
            GBufferSlot::Depth => DxgiFormat::R32Typeless,
            GBufferSlot::DepthStaging => DxgiFormat::R32Typeless,
            GBufferSlot::SsaoIntermediate => DxgiFormat::R8Unorm,
            GBufferSlot::AtmosSsFarLookup => DxgiFormat::R16G16B16A16Float,
            GBufferSlot::AtmosSsNearLookup => DxgiFormat::R16G16B16A16Float,
            GBufferSlot::DepthAngleDensityLookup => DxgiFormat::R16G16B16A16Float,
            GBufferSlot::PostprocessPing => DxgiFormat::R8G8B8A8UnormSrgb,
            GBufferSlot::PostprocessPong => DxgiFormat::R8G8B8A8UnormSrgb,
        }
    }

    pub fn size(self, size: (u32, u32)) -> (r: (u32, u32))
        ensures
            r == self.spec_size(size),
            size.0 > 0 && size.1 > 0 ==> r.0 > 0 && r.1 > 0,
    {
        match self {
            GBufferSlot::AtmosSsFarLookup => clamp_size((size.0 / 4, size.1 / 4), 1),
            GBufferSlot::AtmosSsNearLookup => clamp_size((size.0 / 4, size.1 / 4), 1),
            GBufferSlot::DepthAngleDensityLookup => (512, 512),
            _ => size,
        }
    }

    /// The words by which the resource is named in reports.
    pub open spec fn spec_name(self) -> Seq<char> {
        match self {
            GBufferSlot::Rt0 => "RT0"@,
            GBufferSlot::Rt1 => "RT1"@,
            GBufferSlot::Rt1Read => "RT1_Clone"@,
            GBufferSlot::Rt2 => "RT2"@,
            GBufferSlot::Rt3 => "RT3"@,
            GBufferSlot::LightDiffuse => "Light_Diffuse"@,
            GBufferSlot::LightSpecular => "Light_Specular"@,
            GBufferSlot::LightIblSpecular => "Specular_IBL"@,
            GBufferSlot::ShadingResult => "Staging"@,
            GBufferSlot::ShadingResultRead => "Staging_Clone"@,
            GBufferSlot::Depth => "Depth"@,
            GBufferSlot::DepthStaging => "Depth_Buffer_Staging"@,
            GBufferSlot::SsaoIntermediate => "SSAO_Intermediate"@,
            GBufferSlot::AtmosSsFarLookup => "atmos_ss_far_lookup"@,
            GBufferSlot::AtmosSsNearLookup => "atmos_ss_near_lookup"@,
            GBufferSlot::DepthAngleDensityLookup => "depth_angle_density_lookup"@,
            GBufferSlot::PostprocessPing => "postprocess_ping"@,
            GBufferSlot::PostprocessPong => "postprocess_pong"@,
        }
    }

    /// The words by which the resource is named in reports.
    pub fn name(self) -> (name: &'static str)
        ensures
            name@ == self.spec_name(),
    {
        match self {
            GBufferSlot::Rt0 => "RT0",
            GBufferSlot::Rt1 => "RT1",
            GBufferSlot::Rt1Read => "RT1_Clone",
            GBufferSlot::Rt2 => "RT2",
            GBufferSlot::Rt3 => "RT3",
            GBufferSlot::LightDiffuse => "Light_Diffuse",
            GBufferSlot::LightSpecular => "Light_Specular",
            GBufferSlot::LightIblSpecular => "Specular_IBL",
            GBufferSlot::ShadingResult => "Staging",
            GBufferSlot::ShadingResultRead => "Staging_Clone",
            GBufferSlot::Depth => "Depth",
            GBufferSlot::DepthStaging => "Depth_Buffer_Staging",
            GBufferSlot::SsaoIntermediate => "SSAO_Intermediate",
            GBufferSlot::AtmosSsFarLookup => "atmos_ss_far_lookup",
            GBufferSlot::AtmosSsNearLookup => "atmos_ss_near_lookup",
            GBufferSlot::DepthAngleDensityLookup => "depth_angle_density_lookup",
            GBufferSlot::PostprocessPing => "postprocess_ping",
            GBufferSlot::PostprocessPong => "postprocess_pong",
        }
    }
}

/// A resource of the G-buffer that could not be created, and why.
#[derive(Clone, Copy, PartialEq, Eq, Structural, Debug)]
pub struct GBufferError {
    pub slot: GBufferSlot,
    pub cause: CreateError,
}

/// The failure that the first missing object `missing` means.
pub open spec fn spec_gbuffer_error(missing: int, resizing: bool) -> GBufferError {
    let slot = GBufferSlot::spec_of_step(missing, resizing);
    GBufferError { slot, cause: slot.spec_step_error(missing - slot.spec_offset(resizing)) }
}

/// A memory image of a staging surface: its bytes, and the number of bytes
/// from one row of texels to the next.
#[derive(Clone, Debug)]
pub struct MappedSubresource {
    pub data: Vec<u8>,
    pub row_pitch: u32,
}

/// The 32 bits stored little-endian at `offset`.
pub open spec fn spec_read_bits(data: Seq<u8>, offset: int) -> u32 {
    (data[offset] + data[offset + 1] * 0x100 + data[offset + 2] * 0x1_0000 + data[offset + 3]
        * 0x100_0000) as u32
}

/// The bits of the depth texel at column `x` of row `y`: zero where nothing
/// is mapped, and where the texel lies outside what is mapped.
pub open spec fn spec_depth_bits(mapped: Option<MappedSubresource>, x: int, y: int) -> u32 {
    match mapped {
        None => 0,
        Some(m) => {
            let offset = y * m.row_pitch + x * 4;
            if offset + 4 <= m.data@.len() {
                spec_read_bits(m.data@, offset)
            } else {
                0
            }
        },
    }
}

/// All per-frame-size render targets, the depth buffer and its staging copy,
/// and the two post-processing targets with the mark of which was written
/// last.
///
/// Every resource has the format of its slot and the size that its slot has
/// at the current size, and the two post-processing targets are never one
/// and the same texture.
#[derive(Debug)]
pub struct GBuffer {
    rt0: RenderTarget,
    rt1: RenderTarget,
    rt1_read: RenderTarget,
    rt2: RenderTarget,
    rt3: RenderTarget,
    light_diffuse: RenderTarget,
    light_specular: RenderTarget,
    light_ibl_specular: RenderTarget,
    shading_result: RenderTarget,
    shading_result_read: RenderTarget,
    depth: DepthState,
    depth_staging: CpuStagingBuffer,
    ssao_intermediate: RenderTarget,
    atmos_ss_far_lookup: RenderTarget,
    atmos_ss_near_lookup: RenderTarget,
    depth_angle_density_lookup: RenderTarget,
    postprocess_ping: RenderTarget,
    postprocess_pong: RenderTarget,
    postprocess_pingpong: PingPong,
    current_size: (u32, u32),
}

impl GBuffer {
    /// The render target in a slot; none where the slot holds the depth
    /// buffer or the staging surface.
    pub closed spec fn spec_target(self, slot: GBufferSlot) -> Option<RenderTarget> {
        match slot {
            GBufferSlot::Rt0 => Some(self.rt0),
            GBufferSlot::Rt1 => Some(self.rt1),
            GBufferSlot::Rt1Read => Some(self.rt1_read),
            GBufferSlot::Rt2 => Some(self.rt2),
            GBufferSlot::Rt3 => Some(self.rt3),
            GBufferSlot::LightDiffuse => Some(self.light_diffuse),
            GBufferSlot::LightSpecular => Some(self.light_specular),
            GBufferSlot::LightIblSpecular => Some(self.light_ibl_specular),
            GBufferSlot::ShadingResult => Some(self.shading_result),
            GBufferSlot::ShadingResultRead => Some(self.shading_result_read),
            GBufferSlot::Depth => None,
            GBufferSlot::DepthStaging => None,
            GBufferSlot::SsaoIntermediate => Some(self.ssao_intermediate),
            GBufferSlot::AtmosSsFarLookup => Some(self.atmos_ss_far_lookup),
            GBufferSlot::AtmosSsNearLookup => Some(self.atmos_ss_near_lookup),
            GBufferSlot::DepthAngleDensityLookup => Some(self.depth_angle_density_lookup),
            GBufferSlot::PostprocessPing => Some(self.postprocess_ping),
            GBufferSlot::PostprocessPong => Some(self.postprocess_pong),
        }
    }

    pub closed spec fn spec_depth(self) -> DepthState {
        self.depth
    }

    pub closed spec fn spec_depth_staging(self) -> CpuStagingBuffer {
        self.depth_staging
    }

    pub closed spec fn spec_pingpong(self) -> PingPong {
        self.postprocess_pingpong
    }

    pub closed spec fn spec_current_size(self) -> (u32, u32) {
        self.current_size
    }

    /// Size and format of the resource in a slot.
    pub open spec fn spec_descriptor(self, slot: GBufferSlot) -> ((u32, u32), DxgiFormat) {
        match slot {
            GBufferSlot::Depth => (self.spec_depth().size, DxgiFormat::R32Typeless),
            GBufferSlot::DepthStaging => (
                self.spec_depth_staging().size,
                self.spec_depth_staging().format,
            ),
            _ => (self.spec_target(slot)->0.size, self.spec_target(slot)->0.format),
        }
    }

    /// What holds of every G-buffer: sizes and formats are those of the
    /// slots at the current size, which has no zero side, and the two
    /// post-processing targets are two textures.
    #[verifier::type_invariant]
    pub closed spec fn wf(self) -> bool {
        &&& self.current_size.0 > 0 && self.current_size.1 > 0
        &&& forall|slot: GBufferSlot|
            #![trigger slot.spec_format()]
            self.spec_descriptor(slot) == (slot.spec_size(self.current_size), slot.spec_format())
        &&& self.postprocess_ping.texture != self.postprocess_pong.texture
    }

    /// What `wf` says, over what can be seen of a G-buffer.
    pub proof fn lemma_wf(self)
        requires
            self.wf(),
        ensures
            self.spec_current_size().0 > 0 && self.spec_current_size().1 > 0,
            forall|slot: GBufferSlot|
                #![trigger slot.spec_format()]
                self.spec_descriptor(slot) == (
                    slot.spec_size(self.spec_current_size()),
                    slot.spec_format(),
                ),
            self.spec_target(GBufferSlot::PostprocessPing)->0.texture != self.spec_target(
                GBufferSlot::PostprocessPong,
            )->0.texture,
            forall|slot: GBufferSlot| slot.spec_is_render_target() <==> self.spec_target(slot) is Some,
    {
    }

    /// The pair of post-processing targets is made of the two targets, in
    /// the one order or the other, and the two are not one texture.
    pub proof fn lemma_pair(self)
        requires
            self.wf(),
        ensures
            self.spec_postprocess_pair().0.texture != self.spec_postprocess_pair().1.texture,
            self.spec_postprocess_output() == self.spec_postprocess_pair().0,
            self.spec_pingpong() == PingPong::Ping ==> self.spec_postprocess_pair() == (
                self.spec_target(GBufferSlot::PostprocessPing)->0,
                self.spec_target(GBufferSlot::PostprocessPong)->0,
            ),
            self.spec_pingpong() == PingPong::Pong ==> self.spec_postprocess_pair() == (
                self.spec_target(GBufferSlot::PostprocessPong)->0,
                self.spec_target(GBufferSlot::PostprocessPing)->0,
            ),
    {
    }

    /// Whether the resource in `slot` is what the objects make up, at the
    /// place that the slot has among them.
    pub open spec fn spec_slot_made_of(
        self,
        slot: GBufferSlot,
        size: (u32, u32),
        objects: Seq<Option<ResourceId>>,
        resizing: bool,
    ) -> bool {
        let at = slot.spec_offset(resizing);
        match slot {
            GBufferSlot::Depth => Ok::<DepthState, CreateError>(self.spec_depth())
                == DepthState::spec_create(size, objects, at),
            GBufferSlot::DepthStaging => Ok::<CpuStagingBuffer, CreateError>(
                self.spec_depth_staging(),
            ) == CpuStagingBuffer::spec_create(size, DxgiFormat::R32Typeless, objects, at),
            _ => Ok::<RenderTarget, CreateError>(self.spec_target(slot)->0)
                == RenderTarget::spec_create(slot.spec_size(size), slot.spec_format(), objects, at),
        }
    }

    /// Whether `self` is the G-buffer of size `size` made of `objects`,
    /// with the first post-processing target marked as written last.
    pub open spec fn spec_created_from(self, size: (u32, u32), objects: Seq<Option<ResourceId>>)
        -> bool {
        let size = spec_clamp_size(size, 1);
        &&& self.spec_current_size() == size
        &&& self.spec_pingpong() == PingPong::Ping
        &&& forall|slot: GBufferSlot| #[trigger] self.spec_slot_made_of(slot, size, objects, false)
    }

    /// Whether `after` is `self` resized to `new_size` with `objects`:
    /// every resource but the density lookup is replaced, and the mark of the
    /// last written post-processing target stays.
    pub open spec fn spec_resized_to(
        self,
        new_size: (u32, u32),
        objects: Seq<Option<ResourceId>>,
        after: GBuffer,
    ) -> bool {
        let size = spec_clamp_size(new_size, 1);
        &&& after.spec_current_size() == size
        &&& after.spec_pingpong() == self.spec_pingpong()
        &&& after.spec_target(GBufferSlot::DepthAngleDensityLookup) == self.spec_target(
            GBufferSlot::DepthAngleDensityLookup,
        )
        &&& forall|slot: GBufferSlot|
            slot.spec_is_resized() ==> #[trigger] after.spec_slot_made_of(slot, size, objects, true)
    }

    /// Whether two G-buffers hold the same resources at the same size.
    pub open spec fn spec_same_resources(self, other: GBuffer) -> bool {
        &&& self.spec_current_size() == other.spec_current_size()
        &&& self.spec_depth() == other.spec_depth()
        &&& self.spec_depth_staging() == other.spec_depth_staging()
        &&& forall|slot: GBufferSlot| #[trigger] self.spec_target(slot) == other.spec_target(slot)
    }

    /// The pair that the next full-screen pass works on: the target written
    /// last, to read from, and the other, to write to.
    pub closed spec fn spec_postprocess_pair(self) -> (RenderTarget, RenderTarget) {
        match self.postprocess_pingpong {
            PingPong::Ping => (self.postprocess_ping, self.postprocess_pong),
            PingPong::Pong => (self.postprocess_pong, self.postprocess_ping),
        }
    }

    /// The target that the full-screen passes wrote last.
    pub closed spec fn spec_postprocess_output(self) -> RenderTarget {
        match self.postprocess_pingpong {
            PingPong::Ping => self.postprocess_ping,
            PingPong::Pong => self.postprocess_pong,
        }
    }

    /// The objects to create for a G-buffer of this size, slot after slot.
    pub open spec fn spec_creation_requests(size: (u32, u32)) -> Seq<DeviceRequest> {
        let size = spec_clamp_size(size, 1);
        Self::spec_target_requests(GBufferSlot::Rt0, size) + Self::spec_target_requests(
            GBufferSlot::Rt1,
            size,
        ) + Self::spec_target_requests(GBufferSlot::Rt1Read, size) + Self::spec_target_requests(
            GBufferSlot::Rt2,
            size,
        ) + Self::spec_target_requests(GBufferSlot::Rt3, size) + Self::spec_target_requests(
            GBufferSlot::LightDiffuse,
            size,
        ) + Self::spec_target_requests(GBufferSlot::LightSpecular, size)
            + Self::spec_target_requests(GBufferSlot::LightIblSpecular, size)
            + Self::spec_target_requests(GBufferSlot::ShadingResult, size)
            + Self::spec_target_requests(GBufferSlot::ShadingResultRead, size)
            + DepthState::spec_creation_requests(size) + CpuStagingBuffer::spec_creation_requests(
            size,
            DxgiFormat::R32Typeless,
        ) + Self::spec_target_requests(GBufferSlot::SsaoIntermediate, size)
            + Self::spec_target_requests(GBufferSlot::AtmosSsFarLookup, size)
            + Self::spec_target_requests(GBufferSlot::AtmosSsNearLookup, size)
            + Self::spec_target_requests(GBufferSlot::DepthAngleDensityLookup, size)
            + Self::spec_target_requests(GBufferSlot::PostprocessPing, size)
            + Self::spec_target_requests(GBufferSlot::PostprocessPong, size)
    }

    /// The objects to create for a resize to this size, slot after slot.
    pub open spec fn spec_resize_requests(new_size: (u32, u32)) -> Seq<DeviceRequest> {
        let size = spec_clamp_size(new_size, 1);
        Self::spec_target_requests(GBufferSlot::Rt0, size) + Self::spec_target_requests(
            GBufferSlot::Rt1,
            size,
        ) + Self::spec_target_requests(GBufferSlot::Rt1Read, size) + Self::spec_target_requests(
            GBufferSlot::Rt2,
            size,
        ) + Self::spec_target_requests(GBufferSlot::Rt3, size) + Self::spec_target_requests(
            GBufferSlot::LightDiffuse,
            size,
        ) + Self::spec_target_requests(GBufferSlot::LightSpecular, size)
            + Self::spec_target_requests(GBufferSlot::LightIblSpecular, size)
            + Self::spec_target_requests(GBufferSlot::ShadingResult, size)
            + Self::spec_target_requests(GBufferSlot::ShadingResultRead, size)
            + DepthState::spec_creation_requests(size) + CpuStagingBuffer::spec_creation_requests(
            size,
            DxgiFormat::R32Typeless,
        ) + Self::spec_target_requests(GBufferSlot::AtmosSsNearLookup, size)
            + Self::spec_target_requests(GBufferSlot::AtmosSsFarLookup, size)
            + Self::spec_target_requests(GBufferSlot::SsaoIntermediate, size)
            + Self::spec_target_requests(GBufferSlot::PostprocessPing, size)
            + Self::spec_target_requests(GBufferSlot::PostprocessPong, size)
    }

    /// The objects to create for the render target of a slot.
    pub open spec fn spec_target_requests(slot: GBufferSlot, size: (u32, u32)) -> Seq<
        DeviceRequest,
    > {
        RenderTarget::spec_creation_requests(slot.spec_size(size), slot.spec_format())
    }

    fn push_target_requests(requests: &mut Vec<DeviceRequest>, slot: GBufferSlot, size: (u32, u32))
        ensures
            final(requests)@ == old(requests)@ + Self::spec_target_requests(slot, size),
    {
        let ghost before = requests@;
        let target_size = slot.size(size);
        let format = slot.format();
        requests.push(
            DeviceRequest::Texture2D { desc: RenderTarget::texture_desc(target_size, format) },
        );
        requests.push(DeviceRequest::RenderTargetView { texture_back: 1 });
        requests.push(
            DeviceRequest::ShaderResourceView {
                texture_back: 2,
                desc: crate::target::plain_view(format),
            },
        );
        proof {
            assert(requests@ =~= before + Self::spec_target_requests(slot, size));
        }
    }

    fn push_requests(requests: &mut Vec<DeviceRequest>, more: Vec<DeviceRequest>)
        ensures
            final(requests)@ == old(requests)@ + more@,
    {
        let mut more = more;
        requests.append(&mut more);
    }

    /// Lists what the device has to create for a G-buffer of this size. A
    /// zero side makes the size one by one.
    pub fn creation_requests(size: (u32, u32)) -> (requests: Vec<DeviceRequest>)
        ensures
            requests@ == Self::spec_creation_requests(size),
            requests@.len() == CREATE_OBJECT_COUNT,
    {
        let size = clamp_size(size, 1);
        let mut requests: Vec<DeviceRequest> = Vec::new();
        proof {
            assert(requests@ =~= Seq::<DeviceRequest>::empty());
        }
        Self::push_target_requests(&mut requests, GBufferSlot::Rt0, size);
        proof {
            assert(requests@ =~= Self::spec_target_requests(GBufferSlot::Rt0, size));
        }
        Self::push_target_requests(&mut requests, GBufferSlot::Rt1, size);
        Self::push_target_requests(&mut requests, GBufferSlot::Rt1Read, size);
        Self::push_target_requests(&mut requests, GBufferSlot::Rt2, size);
        Self::push_target_requests(&mut requests, GBufferSlot::Rt3, size);
        Self::push_target_requests(&mut requests, GBufferSlot::LightDiffuse, size);
        Self::push_target_requests(&mut requests, GBufferSlot::LightSpecular, size);
        Self::push_target_requests(&mut requests, GBufferSlot::LightIblSpecular, size);
        Self::push_target_requests(&mut requests, GBufferSlot::ShadingResult, size);
        Self::push_target_requests(&mut requests, GBufferSlot::ShadingResultRead, size);
        Self::push_requests(&mut requests, DepthState::creation_requests(size));
        Self::push_requests(
            &mut requests,
            CpuStagingBuffer::creation_requests(size, DxgiFormat::R32Typeless),
        );
        Self::push_target_requests(&mut requests, GBufferSlot::SsaoIntermediate, size);
        Self::push_target_requests(&mut requests, GBufferSlot::AtmosSsFarLookup, size);
        Self::push_target_requests(&mut requests, GBufferSlot::AtmosSsNearLookup, size);
        Self::push_target_requests(&mut requests, GBufferSlot::DepthAngleDensityLookup, size);
        Self::push_target_requests(&mut requests, GBufferSlot::PostprocessPing, size);
        Self::push_target_requests(&mut requests, GBufferSlot::PostprocessPong, size);
        requests
    }

    /// Lists what the device has to create for a resize to this size.
    pub fn resize_requests(new_size: (u32, u32)) -> (requests: Vec<DeviceRequest>)
        ensures
            requests@ == Self::spec_resize_requests(new_size),
            requests@.len() == RESIZE_OBJECT_COUNT,
    {
        let size = clamp_size(new_size, 1);
        let mut requests: Vec<DeviceRequest> = Vec::new();
        proof {
            assert(requests@ =~= Seq::<DeviceRequest>::empty());
        }
        Self::push_target_requests(&mut requests, GBufferSlot::Rt0, size);
        proof {
            assert(requests@ =~= Self::spec_target_requests(GBufferSlot::Rt0, size));
        }
        Self::push_target_requests(&mut requests, GBufferSlot::Rt1, size);
        Self::push_target_requests(&mut requests, GBufferSlot::Rt1Read, size);
        Self::push_target_requests(&mut requests, GBufferSlot::Rt2, size);
        Self::push_target_requests(&mut requests, GBufferSlot::Rt3, size);
        Self::push_target_requests(&mut requests, GBufferSlot::LightDiffuse, size);
        Self::push_target_requests(&mut requests, GBufferSlot::LightSpecular, size);
        Self::push_target_requests(&mut requests, GBufferSlot::LightIblSpecular, size);
        Self::push_target_requests(&mut requests, GBufferSlot::ShadingResult, size);
        Self::push_target_requests(&mut requests, GBufferSlot::ShadingResultRead, size);
        Self::push_requests(&mut requests, DepthState::creation_requests(size));
        Self::push_requests(
            &mut requests,
            CpuStagingBuffer::creation_requests(size, DxgiFormat::R32Typeless),
        );
        Self::push_target_requests(&mut requests, GBufferSlot::AtmosSsNearLookup, size);
        Self::push_target_requests(&mut requests, GBufferSlot::AtmosSsFarLookup, size);
        Self::push_target_requests(&mut requests, GBufferSlot::SsaoIntermediate, size);
        Self::push_target_requests(&mut requests, GBufferSlot::PostprocessPing, size);
        Self::push_target_requests(&mut requests, GBufferSlot::PostprocessPong, size);
        requests
    }

    /// Number of objects of a creation, or of a resize.
    pub open spec fn spec_total(resizing: bool) -> int {
        if resizing {
            53
        } else {
            56
        }
    }

    /// Creates the render target of a slot from its place among the
    /// objects, given that no object before it is missing.
    fn target_step(
        slot: GBufferSlot,
        size: (u32, u32),
        objects: &[Option<ResourceId>],
        at: usize,
        resizing: bool,
    ) -> (r: Result<RenderTarget, GBufferError>)
        requires
            slot.spec_is_render_target(),
            resizing ==> slot.spec_is_resized(),
            at == slot.spec_offset(resizing),
            first_missing(objects@, 0, at as int) == at,
        ensures
            match r {
                Ok(target) => {
                    &&& first_missing(objects@, 0, at + 3) == at + 3
                    &&& Ok::<RenderTarget, CreateError>(target) == RenderTarget::spec_create(
                        slot.spec_size(size),
                        slot.spec_format(),
                        objects@,
                        at as int,
                    )
                },
                Err(e) => {
                    &&& first_missing(objects@, 0, Self::spec_total(resizing)) < Self::spec_total(
                        resizing,
                    )
                    &&& e == spec_gbuffer_error(
                        first_missing(objects@, 0, Self::spec_total(resizing)),
                        resizing,
                    )
                },
            },
    {
        proof {
            lemma_first_missing_split(objects@, 0, at as int, at + 3);
            lemma_first_missing_split(objects@, 0, at + 3, Self::spec_total(resizing));
            lemma_first_missing(objects@, at as int, at + 3);
            reveal_with_fuel(first_missing, 4);
        }
        match RenderTarget::create_at(slot.size(size), slot.format(), objects, at) {
            Ok(target) => Ok(target),
            Err(cause) => Err(GBufferError { slot, cause }),
        }
    }

    fn depth_step(size: (u32, u32), objects: &[Option<ResourceId>], resizing: bool) -> (r: Result<
        DepthState,
        GBufferError,
    >)
        requires
            first_missing(objects@, 0, 30) == 30,
            size.0 > 0 && size.1 > 0,
        ensures
            match r {
                Ok(depth) => {
                    &&& first_missing(objects@, 0, 37) == 37
                    &&& Ok::<DepthState, CreateError>(depth) == DepthState::spec_create(
                        size,
                        objects@,
                        30,
                    )
                    &&& depth.size == size
                },
                Err(e) => {
                    &&& first_missing(objects@, 0, Self::spec_total(resizing)) < Self::spec_total(
                        resizing,
                    )
                    &&& e == spec_gbuffer_error(
                        first_missing(objects@, 0, Self::spec_total(resizing)),
                        resizing,
                    )
                },
            },
    {
        proof {
            lemma_first_missing_split(objects@, 0, 30, 37);
            lemma_first_missing_split(objects@, 0, 37, Self::spec_total(resizing));
            lemma_first_missing(objects@, 30, 37);
        }
        match DepthState::create_at(size, objects, 30) {
            Ok(depth) => Ok(depth),
            Err(cause) => Err(GBufferError { slot: GBufferSlot::Depth, cause }),
        }
    }

    fn staging_step(size: (u32, u32), objects: &[Option<ResourceId>], resizing: bool) -> (r:
        Result<CpuStagingBuffer, GBufferError>)
        requires
            first_missing(objects@, 0, 37) == 37,
            size.0 > 0 && size.1 > 0,
        ensures
            match r {
                Ok(staging) => {
                    &&& first_missing(objects@, 0, 38) == 38
                    &&& Ok::<CpuStagingBuffer, CreateError>(staging)
                        == CpuStagingBuffer::spec_create(
                        size,
                        DxgiFormat::R32Typeless,
                        objects@,
                        37,
                    )
                    &&& staging.size == size
                },
                Err(e) => {
                    &&& first_missing(objects@, 0, Self::spec_total(resizing)) < Self::spec_total(
                        resizing,
                    )
                    &&& e == spec_gbuffer_error(
                        first_missing(objects@, 0, Self::spec_total(resizing)),
                        resizing,
                    )
                },
            },
    {
        proof {
            lemma_first_missing_split(objects@, 0, 37, 38);
            lemma_first_missing_split(objects@, 0, 38, Self::spec_total(resizing));
            lemma_first_missing(objects@, 37, 38);
        }
        match CpuStagingBuffer::create_at(size, DxgiFormat::R32Typeless, objects, 37) {
            Ok(staging) => Ok(staging),
            Err(cause) => Err(GBufferError { slot: GBufferSlot::DepthStaging, cause }),
        }
    }

    /// Puts a G-buffer together from the objects created for its requests.
    ///
    /// A zero side makes the size one by one. The first object that is
    /// missing names the resource that failed. Where all are there, the two
    /// post-processing targets must be two textures.
    pub fn create(size: (u32, u32), objects: &[Option<ResourceId>]) -> (r: Result<
        GBuffer,
        GBufferError,
    >)
        ensures
            match r {
                Ok(gbuffer) => {
                    &&& first_missing(objects@, 0, 56) == 56
                    &&& created(objects@, 50) != created(objects@, 53)
                    &&& gbuffer.wf()
                    &&& gbuffer.spec_created_from(size, objects@)
                },
                Err(e) => if first_missing(objects@, 0, 56) < 56 {
                    e == spec_gbuffer_error(first_missing(objects@, 0, 56), false)
                } else {
                    &&& created(objects@, 50) == created(objects@, 53)
                    &&& e == (GBufferError {
                        slot: GBufferSlot::PostprocessPong,
                        cause: CreateError::Aliased,
                    })
                },
            },
    {
        let size = clamp_size(size, 1);
        let rt0 = Self::target_step(GBufferSlot::Rt0, size, objects, 0, false)?;
        let rt1 = Self::target_step(GBufferSlot::Rt1, size, objects, 3, false)?;
        let rt1_read = Self::target_step(GBufferSlot::Rt1Read, size, objects, 6, false)?;
        let rt2 = Self::target_step(GBufferSlot::Rt2, size, objects, 9, false)?;
        let rt3 = Self::target_step(GBufferSlot::Rt3, size, objects, 12, false)?;
        let light_diffuse = Self::target_step(GBufferSlot::LightDiffuse, size, objects, 15, false)?;
        let light_specular = Self::target_step(
            GBufferSlot::LightSpecular,
            size,
            objects,
            18,
            false,
        )?;
        let light_ibl_specular = Self::target_step(
            GBufferSlot::LightIblSpecular,
            size,
            objects,
            21,
            false,
        )?;
        let shading_result = Self::target_step(
            GBufferSlot::ShadingResult,
            size,
            objects,
            24,
            false,
        )?;
        let shading_result_read = Self::target_step(
            GBufferSlot::ShadingResultRead,
            size,
            objects,
            27,
            false,
        )?;
        let depth = Self::depth_step(size, objects, false)?;
        let depth_staging = Self::staging_step(size, objects, false)?;
        let ssao_intermediate = Self::target_step(
            GBufferSlot::SsaoIntermediate,
            size,
            objects,
            38,
            false,
        )?;
        let atmos_ss_far_lookup = Self::target_step(
            GBufferSlot::AtmosSsFarLookup,
            size,
            objects,
            41,
            false,
        )?;
        let atmos_ss_near_lookup = Self::target_step(
            GBufferSlot::AtmosSsNearLookup,
            size,
            objects,
            44,
            false,
        )?;
        let depth_angle_density_lookup = Self::target_step(
            GBufferSlot::DepthAngleDensityLookup,
            size,
            objects,
            47,
            false,
        )?;
        let postprocess_ping = Self::target_step(
            GBufferSlot::PostprocessPing,
            size,
            objects,
            50,
            false,
        )?;
        let postprocess_pong = Self::target_step(
            GBufferSlot::PostprocessPong,
            size,
            objects,
            53,
            false,
        )?;
        if postprocess_ping.texture.0 == postprocess_pong.texture.0 {
            return Err(
                GBufferError { slot: GBufferSlot::PostprocessPong, cause: CreateError::Aliased },
            );
        }
        let gbuffer = GBuffer {
            rt0,
            rt1,
            rt1_read,
            rt2,
            rt3,
            light_diffuse,
            light_specular,
            light_ibl_specular,
            shading_result,
            shading_result_read,
            depth,
            depth_staging,
            ssao_intermediate,
            atmos_ss_far_lookup,
            atmos_ss_near_lookup,
            depth_angle_density_lookup,
            postprocess_ping,
            postprocess_pong,
            postprocess_pingpong: PingPong::Ping,
            current_size: size,
        };
        proof {
            assert forall|slot: GBufferSlot| #[trigger]
                gbuffer.spec_slot_made_of(slot, size, objects@, false) by {}
        }
        Ok(gbuffer)
    }

    /// Replaces every resource but the density lookup by one of the new
    /// size, made of the objects created for the requests of the resize.
    ///
    /// A zero side makes the size one by one. If an object is missing, or the
    /// two post-processing targets would be one texture, nothing is replaced:
    /// the G-buffer stays whole at its old size.
    pub fn resize(&mut self, new_size: (u32, u32), objects: &[Option<ResourceId>]) -> (r: Result<
        (),
        GBufferError,
    >)
        ensures
            final(self).wf(),
            match r {
                Ok(_) => {
                    &&& first_missing(objects@, 0, 53) == 53
                    &&& created(objects@, 47) != created(objects@, 50)
                    &&& old(self).spec_resized_to(new_size, objects@, *final(self))
                },
                Err(e) => {
                    &&& *final(self) == *old(self)
                    &&& if first_missing(objects@, 0, 53) < 53 {
                        e == spec_gbuffer_error(first_missing(objects@, 0, 53), true)
                    } else {
                        &&& created(objects@, 47) == created(objects@, 50)
                        &&& e == (GBufferError {
                            slot: GBufferSlot::PostprocessPong,
                            cause: CreateError::Aliased,
                        })
                    }
                },
            },
    {
        proof {
            use_type_invariant(&*self);
        }
        let size = clamp_size(new_size, 1);
        let rt0 = Self::target_step(GBufferSlot::Rt0, size, objects, 0, true)?;
        let rt1 = Self::target_step(GBufferSlot::Rt1, size, objects, 3, true)?;
        let rt1_read = Self::target_step(GBufferSlot::Rt1Read, size, objects, 6, true)?;
        let rt2 = Self::target_step(GBufferSlot::Rt2, size, objects, 9, true)?;
        let rt3 = Self::target_step(GBufferSlot::Rt3, size, objects, 12, true)?;
        let light_diffuse = Self::target_step(GBufferSlot::LightDiffuse, size, objects, 15, true)?;
        let light_specular = Self::target_step(GBufferSlot::LightSpecular, size, objects, 18, true)?;
        let light_ibl_specular = Self::target_step(
            GBufferSlot::LightIblSpecular,
            size,
            objects,
            21,
            true,
        )?;
        let shading_result = Self::target_step(GBufferSlot::ShadingResult, size, objects, 24, true)?;
        let shading_result_read = Self::target_step(
            GBufferSlot::ShadingResultRead,
            size,
            objects,
            27,
            true,
        )?;
        let depth = Self::depth_step(size, objects, true)?;
        let depth_staging = Self::staging_step(size, objects, true)?;
        let atmos_ss_near_lookup = Self::target_step(
            GBufferSlot::AtmosSsNearLookup,
            size,
            objects,
            38,
            true,
        )?;
        let atmos_ss_far_lookup = Self::target_step(
            GBufferSlot::AtmosSsFarLookup,
            size,
            objects,
            41,
            true,
        )?;
        let ssao_intermediate = Self::target_step(
            GBufferSlot::SsaoIntermediate,
            size,
            objects,
            44,
            true,
        )?;
        let postprocess_ping = Self::target_step(
            GBufferSlot::PostprocessPing,
            size,
            objects,
            47,
            true,
        )?;
        let postprocess_pong = Self::target_step(
            GBufferSlot::PostprocessPong,
            size,
            objects,
            50,
            true,
        )?;
        if postprocess_ping.texture.0 == postprocess_pong.texture.0 {
            return Err(
                GBufferError { slot: GBufferSlot::PostprocessPong, cause: CreateError::Aliased },
            );
        }
        let resized = GBuffer {
            rt0,
            rt1,
            rt1_read,
            rt2,
            rt3,
            light_diffuse,
            light_specular,
            light_ibl_specular,
            shading_result,
            shading_result_read,
            depth,
            depth_staging,
            ssao_intermediate,
            atmos_ss_far_lookup,
            atmos_ss_near_lookup,
            depth_angle_density_lookup: self.depth_angle_density_lookup,
            postprocess_ping,
            postprocess_pong,
            postprocess_pingpong: self.postprocess_pingpong,
            current_size: size,
        };
        proof {
            assert forall|slot: GBufferSlot| slot.spec_is_resized() implies #[trigger]
                resized.spec_slot_made_of(slot, size, objects@, true) by {}
        }
        *self = resized;
        Ok(())
    }

    /// The render target in a slot; none for the slots of the depth buffer
    /// and of the staging surface.
    pub fn target(&self, slot: GBufferSlot) -> (target: Option<RenderTarget>)
        ensures
            target == self.spec_target(slot),
            target is Some <==> slot.spec_is_render_target(),
    {
        match slot {
            GBufferSlot::Rt0 => Some(self.rt0),
            GBufferSlot::Rt1 => Some(self.rt1),
            GBufferSlot::Rt1Read => Some(self.rt1_read),
            GBufferSlot::Rt2 => Some(self.rt2),
            GBufferSlot::Rt3 => Some(self.rt3),
            GBufferSlot::LightDiffuse => Some(self.light_diffuse),
            GBufferSlot::LightSpecular => Some(self.light_specular),
            GBufferSlot::LightIblSpecular => Some(self.light_ibl_specular),
            GBufferSlot::ShadingResult => Some(self.shading_result),
            GBufferSlot::ShadingResultRead => Some(self.shading_result_read),
            GBufferSlot::Depth => None,
            GBufferSlot::DepthStaging => None,
            GBufferSlot::SsaoIntermediate => Some(self.ssao_intermediate),
            GBufferSlot::AtmosSsFarLookup => Some(self.atmos_ss_far_lookup),
            GBufferSlot::AtmosSsNearLookup => Some(self.atmos_ss_near_lookup),
            GBufferSlot::DepthAngleDensityLookup => Some(self.depth_angle_density_lookup),
            GBufferSlot::PostprocessPing => Some(self.postprocess_ping),
            GBufferSlot::PostprocessPong => Some(self.postprocess_pong),
        }
    }

    /// Size and format of the resource in a slot: those that the slot has at
    /// the current size.
    pub fn descriptor(&self, slot: GBufferSlot) -> (descriptor: ((u32, u32), DxgiFormat))
        ensures
            descriptor == self.spec_descriptor(slot),
            descriptor == (slot.spec_size(self.spec_current_size()), slot.spec_format()),
    {
        proof {
            use_type_invariant(self);
            let format = slot.spec_format();
        }
        match slot {
            GBufferSlot::Depth => (self.depth.size, DxgiFormat::R32Typeless),
            GBufferSlot::DepthStaging => (self.depth_staging.size, self.depth_staging.format),
            GBufferSlot::Rt0 => (self.rt0.size, self.rt0.format),
            GBufferSlot::Rt1 => (self.rt1.size, self.rt1.format),
            GBufferSlot::Rt1Read => (self.rt1_read.size, self.rt1_read.format),
            GBufferSlot::Rt2 => (self.rt2.size, self.rt2.format),
            GBufferSlot::Rt3 => (self.rt3.size, self.rt3.format),
            GBufferSlot::LightDiffuse => (self.light_diffuse.size, self.light_diffuse.format),
            GBufferSlot::LightSpecular => (self.light_specular.size, self.light_specular.format),
            GBufferSlot::LightIblSpecular => (
                self.light_ibl_specular.size,
                self.light_ibl_specular.format,
            ),
            GBufferSlot::ShadingResult => (self.shading_result.size, self.shading_result.format),
            GBufferSlot::ShadingResultRead => (
                self.shading_result_read.size,
                self.shading_result_read.format,
            ),
            GBufferSlot::SsaoIntermediate => (
                self.ssao_intermediate.size,
                self.ssao_intermediate.format,
            ),
            GBufferSlot::AtmosSsFarLookup => (
                self.atmos_ss_far_lookup.size,
                self.atmos_ss_far_lookup.format,
            ),
            GBufferSlot::AtmosSsNearLookup => (
                self.atmos_ss_near_lookup.size,
                self.atmos_ss_near_lookup.format,
            ),
            GBufferSlot::DepthAngleDensityLookup => (
                self.depth_angle_density_lookup.size,
                self.depth_angle_density_lookup.format,
            ),
            GBufferSlot::PostprocessPing => (
                self.postprocess_ping.size,
                self.postprocess_ping.format,
            ),
            GBufferSlot::PostprocessPong => (
                self.postprocess_pong.size,
                self.postprocess_pong.format,
            ),
        }
    }

    /// The target that holds the result of shading.
    pub fn shading_result(&self) -> (target: RenderTarget)
        ensures
            Some(target) == self.spec_target(GBufferSlot::ShadingResult),
    {
        self.shading_result
    }

    /// The target between the two passes of ambient occlusion.
    pub fn ssao_intermediate(&self) -> (target: RenderTarget)
        ensures
            Some(target) == self.spec_target(GBufferSlot::SsaoIntermediate),
    {
        self.ssao_intermediate
    }

    pub fn depth(&self) -> (depth: DepthState)
        ensures
            depth == self.spec_depth(),
    {
        self.depth
    }

    pub fn depth_staging(&self) -> (staging: CpuStagingBuffer)
        ensures
            staging == self.spec_depth_staging(),
    {
        self.depth_staging
    }

    pub fn current_size(&self) -> (size: (u32, u32))
        ensures
            size == self.spec_current_size(),
            size.0 > 0 && size.1 > 0,
    {
        proof {
            use_type_invariant(self);
        }
        self.current_size
    }

    /// Reads one depth texel from a memory image of the staging surface and
    /// returns its bits. Where nothing is mapped, or the texel lies outside
    /// the image, the bits are zero.
    pub fn depth_buffer_read(&self, mapped: Option<&MappedSubresource>, x: usize, y: usize) -> (bits:
        u32)
        ensures
            bits == spec_depth_bits(
                match mapped {
                    Some(m) => Some(*m),
                    None => None,
                },
                x as int,
                y as int,
            ),
    {
        read_depth_bits(mapped, x, y)
    }

    /// Reads the depth texel at the centre of the current size.
    pub fn depth_buffer_read_center(&self, mapped: Option<&MappedSubresource>) -> (bits: u32)
        ensures
            bits == spec_depth_bits(
                match mapped {
                    Some(m) => Some(*m),
                    None => None,
                },
                self.spec_current_size().0 as int / 2,
                self.spec_current_size().1 as int / 2,
            ),
    {
        read_depth_bits(
            mapped,
            (self.current_size.0 / 2) as usize,
            (self.current_size.1 / 2) as usize,
        )
    }

    /// Returns the pair (source, target) for the next full-screen pass: the
    /// post-processing target that was written last and the other one. If
    /// `swap_after_use`, the two change roles for the call after this one.
    pub fn get_postprocess_rt(&mut self, swap_after_use: bool) -> (pair: (
        RenderTarget,
        RenderTarget,
    ))
        ensures
            pair == old(self).spec_postprocess_pair(),
            pair.0.texture != pair.1.texture,
            final(self).wf(),
            final(self).spec_pingpong() == if swap_after_use {
                old(self).spec_pingpong().spec_next()
            } else {
                old(self).spec_pingpong()
            },
            final(self).spec_same_resources(*old(self)),
            swap_after_use ==> final(self).spec_postprocess_pair() == (pair.1, pair.0),
            !swap_after_use ==> final(self).spec_postprocess_pair() == pair,
    {
        proof {
            use_type_invariant(&*self);
        }
        let current = self.postprocess_pingpong;
        let pair = match current {
            PingPong::Ping => (self.postprocess_ping, self.postprocess_pong),
            PingPong::Pong => (self.postprocess_pong, self.postprocess_ping),
        };
        if swap_after_use {
            self.postprocess_pingpong = current.next();
        }
        pair
    }

    /// The post-processing target that was written last.
    pub fn get_postprocess_output(&self) -> (target: RenderTarget)
        ensures
            target == self.spec_postprocess_output(),
            target == self.spec_postprocess_pair().0,
    {
        match self.postprocess_pingpong {
            PingPong::Ping => self.postprocess_ping,
            PingPong::Pong => self.postprocess_pong,
        }
    }
}

/// Reads the bits of a depth texel from a memory image.
pub fn read_depth_bits(mapped: Option<&MappedSubresource>, x: usize, y: usize) -> (bits: u32)
    ensures
        bits == spec_depth_bits(
            match mapped {
                Some(m) => Some(*m),
                None => None,
            },
            x as int,
            y as int,
        ),
{
    let m = match mapped {
        Some(m) => m,
        None => { return 0; },
    };
    let len = m.data.len();
    let pitch: u128 = m.row_pitch as u128;
    assert(y as u128 * pitch <= 0xffff_ffff_ffff_ffff * 0xffff_ffff) by (nonlinear_arith)
        requires
            y as u128 <= 0xffff_ffff_ffff_ffff,
            pitch <= 0xffff_ffff,
    ;
    let offset: u128 = y as u128 * pitch + x as u128 * 4;
    if offset + 4 <= len as u128 {
        let at: usize = offset as usize;
        let b0: u32 = m.data[at] as u32;
        let b1: u32 = m.data[at + 1] as u32;
        let b2: u32 = m.data[at + 2] as u32;
        let b3: u32 = m.data[at + 3] as u32;
        b0 + b1 * 0x100 + b2 * 0x1_0000 + b3 * 0x100_0000
    } else {
        0
    }
}

/// Resizing to the size that a G-buffer was resized to last changes no
/// descriptor: every resource keeps its size and its format.
pub proof fn lemma_resize_same_size_twice(
    before: GBuffer,
    once: GBuffer,
    twice: GBuffer,
    size: (u32, u32),
    first: Seq<Option<ResourceId>>,
    second: Seq<Option<ResourceId>>,
)
    requires
        before.wf(),
        once.wf(),
        twice.wf(),
        before.spec_resized_to(size, first, once),
        once.spec_resized_to(size, second, twice),
    ensures
        twice.spec_current_size() == once.spec_current_size(),
        forall|slot: GBufferSlot| #[trigger]
            twice.spec_descriptor(slot) == once.spec_descriptor(slot),
{
    once.lemma_wf();
    twice.lemma_wf();
    assert forall|slot: GBufferSlot| #[trigger]
        twice.spec_descriptor(slot) == once.spec_descriptor(slot) by {
        let format = slot.spec_format();
    }
}

/// Two full-screen passes that each swap after use work on the same two
/// targets with their roles exchanged, and the two are never one texture.
pub proof fn lemma_postprocess_roles_alternate(
    start: GBuffer,
    after_first: GBuffer,
    after_second: GBuffer,
)
    requires
        start.wf(),
        after_first.spec_same_resources(start),
        after_first.spec_pingpong() == start.spec_pingpong().spec_next(),
        after_second.spec_same_resources(after_first),
        after_second.spec_pingpong() == after_first.spec_pingpong().spec_next(),
    ensures
        after_first.spec_postprocess_pair() == (
            start.spec_postprocess_pair().1,
            start.spec_postprocess_pair().0,
        ),
        start.spec_postprocess_pair().0.texture != start.spec_postprocess_pair().1.texture,
        after_first.spec_postprocess_pair() != start.spec_postprocess_pair(),
        after_second.spec_postprocess_pair() == start.spec_postprocess_pair(),
{
    assert(after_first.spec_target(GBufferSlot::PostprocessPing) == start.spec_target(
        GBufferSlot::PostprocessPing,
    ));
    assert(after_first.spec_target(GBufferSlot::PostprocessPong) == start.spec_target(
        GBufferSlot::PostprocessPong,
    ));
    assert(after_second.spec_target(GBufferSlot::PostprocessPing) == after_first.spec_target(
        GBufferSlot::PostprocessPing,
    ));
    assert(after_second.spec_target(GBufferSlot::PostprocessPong) == after_first.spec_target(
        GBufferSlot::PostprocessPong,
    ));
}

} // verus!
