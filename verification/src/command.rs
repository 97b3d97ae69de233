//! Plain values that stand for device objects, and the commands that the
//! planner hands to whoever owns the graphics device.

use crate::stage::RenderStage;
use vstd::prelude::*;

verus! {

/// Handle of an object that lives on the graphics device.
#[derive(Clone, Copy, PartialEq, Eq, Structural, Debug)]
pub struct ResourceId(pub u64);

/// Content hash of a packaged asset. Shared assets are found again by it.
#[derive(Clone, Copy, PartialEq, Eq, Structural, Debug)]
pub struct TagHash(pub u32);

/// Identity of an entity of the scene.
#[derive(Clone, Copy, PartialEq, Eq, Structural, Debug)]
pub struct Entity {
    pub index: u32,
    pub generation: u32,
}

/// Shared handle of a technique, keyed by the technique's content hash.
#[derive(Clone, Copy, PartialEq, Eq, Structural, Debug)]
pub struct TechniqueHandle(pub TagHash);

#[derive(Clone, Copy, PartialEq, Eq, Structural, Debug)]
pub enum ShaderStage {
    Vertex,
    Pixel,
    Geometry,
    Compute,
}

#[derive(Clone, Copy, PartialEq, Eq, Structural, Debug)]
pub enum PrimitiveType {
    LineList,
    Triangles,
    TriangleStrip,
}

#[derive(Clone, Copy, PartialEq, Eq, Structural, Debug)]
pub enum DepthMode {
    Normal,
    Flipped,
}

/// Which of a light's occluders a shadow pass renders.
#[derive(Clone, Copy, PartialEq, Eq, Structural, Debug)]
pub enum ShadowGenerationMode {
    StationaryOnly,
    MovingOnly,
}

/// A full-screen pipeline of the render globals.
#[derive(Clone, Copy, PartialEq, Eq, Structural, Debug)]
pub enum GlobalPipeline {
    Fxaa,
    FxaaNoise,
}

/// Pixel formats in use by the render targets.
#[derive(Clone, Copy, PartialEq, Eq, Structural, Debug)]
pub enum DxgiFormat {
    R32G32B32A32Float,
    R32G32B32Float,
    R16G16B16A16Float,
    R10G10B10A2Unorm,
    R11G11B10Float,
    R8G8B8A8UnormSrgb,
    D32Float,
    R32Typeless,
    R32Float,
    R16Uint,
    R8Unorm,
    B8G8R8A8Unorm,
    B8G8R8A8UnormSrgb,
}

impl DxgiFormat {
    /// The number by which the device knows the format.
    pub open spec fn spec_code(self) -> u32 {
        match self {
            DxgiFormat::R32G32B32A32Float => 2,
            DxgiFormat::R32G32B32Float => 6,
            DxgiFormat::R16G16B16A16Float => 10,
            DxgiFormat::R10G10B10A2Unorm => 24,
            DxgiFormat::R11G11B10Float => 26,
            DxgiFormat::R8G8B8A8UnormSrgb => 29,
            DxgiFormat::D32Float => 40,
            DxgiFormat::R32Typeless => 39,
            DxgiFormat::R32Float => 41,
            DxgiFormat::R16Uint => 57,
            DxgiFormat::R8Unorm => 61,
            DxgiFormat::B8G8R8A8Unorm => 87,
            DxgiFormat::B8G8R8A8UnormSrgb => 91,
        }
    }

    pub fn code(self) -> (code: u32)
        ensures
            code == self.spec_code(),
    {
        match self {
            DxgiFormat::R32G32B32A32Float => 2,
            DxgiFormat::R32G32B32Float => 6,
            DxgiFormat::R16G16B16A16Float => 10,
            DxgiFormat::R10G10B10A2Unorm => 24,
            DxgiFormat::R11G11B10Float => 26,
            DxgiFormat::R8G8B8A8UnormSrgb => 29,
            DxgiFormat::D32Float => 40,
            DxgiFormat::R32Typeless => 39,
            DxgiFormat::R32Float => 41,
            DxgiFormat::R16Uint => 57,
            DxgiFormat::R8Unorm => 61,
            DxgiFormat::B8G8R8A8Unorm => 87,
            DxgiFormat::B8G8R8A8UnormSrgb => 91,
        }
    }
}

#[derive(Clone, Copy, PartialEq, Eq, Structural, Debug)]
pub enum Usage {
    Default,
    Immutable,
    Staging,
}

/// What a 2D texture is created from.
#[derive(Clone, Copy, PartialEq, Eq, Structural, Debug)]
pub struct TextureDesc {
    pub width: u32,
    pub height: u32,
    pub mip_levels: u32,
    pub array_size: u32,
    pub format: DxgiFormat,
    pub sample_count: u32,
    pub sample_quality: u32,
    pub usage: Usage,
    pub bind_render_target: bool,
    pub bind_shader_resource: bool,
    pub bind_depth_stencil: bool,
    pub cpu_read: bool,
}

#[derive(Clone, Copy, PartialEq, Eq, Structural, Debug)]
pub enum ComparisonFunc {
    LessEqual,
    GreaterEqual,
    Always,
}

#[derive(Clone, Copy, PartialEq, Eq, Structural, Debug)]
pub enum StencilOp {
    Keep,
    Increment,
    Decrement,
}

#[derive(Clone, Copy, PartialEq, Eq, Structural, Debug)]
pub struct StencilFaceDesc {
    pub fail: StencilOp,
    pub depth_fail: StencilOp,
    pub pass: StencilOp,
    pub func: ComparisonFunc,
}

/// What a depth/stencil state is created from.
#[derive(Clone, Copy, PartialEq, Eq, Structural, Debug)]
pub struct DepthStencilDesc {
    pub depth_enable: bool,
    pub depth_write: bool,
    pub depth_func: ComparisonFunc,
    pub stencil_enable: bool,
    pub stencil_read_mask: u8,
    pub stencil_write_mask: u8,
    pub front_face: StencilFaceDesc,
    pub back_face: StencilFaceDesc,
}

/// Which part of a texture a view shows.
#[derive(Clone, Copy, PartialEq, Eq, Structural, Debug)]
pub enum ViewDimension {
    Texture2D,
    Texture2DArray { first_slice: u32, slice_count: u32 },
}

/// What a view of a texture is created from.
#[derive(Clone, Copy, PartialEq, Eq, Structural, Debug)]
pub struct ViewDesc {
    pub format: DxgiFormat,
    pub dimension: ViewDimension,
    pub first_mip: u32,
    pub mip_levels: u32,
}

/// One object that the device is asked to create.
///
/// A view names its texture by `texture_back`: the number of requests between
/// the view's request and the request of its texture, counted backwards in the
/// list that holds both. A list of requests therefore stays valid when it is
/// appended to another.
#[allow(inconsistent_fields)]
#[derive(Clone, Copy, PartialEq, Eq, Structural, Debug)]
pub enum DeviceRequest {
    Texture2D { desc: TextureDesc },
    RenderTargetView { texture_back: usize },
    ShaderResourceView { texture_back: usize, desc: ViewDesc },
    DepthStencilState { desc: DepthStencilDesc },
    DepthStencilView { texture_back: usize, desc: ViewDesc },
}

/// Why a resource could not be assembled: the first object that the device
/// did not hand back.
#[derive(Clone, Copy, PartialEq, Eq, Structural, Debug)]
pub enum CreateError {
    Texture,
    RenderTargetView,
    ShaderResourceView,
    StagingBuffer,
    DepthTexture,
    DepthStencilState,
    ReadOnlyDepthStencilState,
    DepthStencilView,
    DepthShaderResourceView,
    DepthCopyTexture,
    DepthCopyShaderResourceView,
    /// Two resources that must differ were created on the same device object.
    Aliased,
}

impl CreateError {
    /// The words in which the failure is reported.
    pub open spec fn spec_message(self) -> Seq<char> {
        match self {
            CreateError::Texture => "Failed to create texture"@,
            CreateError::RenderTargetView => "Failed to create RTV"@,
            CreateError::ShaderResourceView => "Failed to create SRV"@,
            CreateError::StagingBuffer => "Failed to create staging buffer"@,
            CreateError::DepthTexture => "Failed to create depth texture"@,
            CreateError::DepthStencilState => "Failed to create depth stencil state"@,
            CreateError::ReadOnlyDepthStencilState => "Failed to create read-only depth stencil state"@,
            CreateError::DepthStencilView => "Failed to create depth stencil view"@,
            CreateError::DepthShaderResourceView => "Failed to create depth SRV"@,
            CreateError::DepthCopyTexture => "Failed to create depth texture"@,
            CreateError::DepthCopyShaderResourceView => "Failed to create depth copy SRV"@,
            CreateError::Aliased => "Two targets share one texture"@,
        }
    }

    /// The words in which the failure is reported.
    pub fn message(&self) -> (text: &'static str)
        ensures
            text@ == self.spec_message(),
    {
        match self {
            CreateError::Texture => "Failed to create texture",
            CreateError::RenderTargetView => "Failed to create RTV",
            CreateError::ShaderResourceView => "Failed to create SRV",
            CreateError::StagingBuffer => "Failed to create staging buffer",
            CreateError::DepthTexture => "Failed to create depth texture",
            CreateError::DepthStencilState => "Failed to create depth stencil state",
            CreateError::ReadOnlyDepthStencilState => "Failed to create read-only depth stencil state",
            CreateError::DepthStencilView => "Failed to create depth stencil view",
            CreateError::DepthShaderResourceView => "Failed to create depth SRV",
            CreateError::DepthCopyTexture => "Failed to create depth texture",
            CreateError::DepthCopyShaderResourceView => "Failed to create depth copy SRV",
            CreateError::Aliased => "Two targets share one texture",
        }
    }
}

/// The object that the device created for request `i`, if it created one.
/// A request that the list does not reach was never answered.
pub open spec fn created(objects: Seq<Option<ResourceId>>, i: int) -> Option<ResourceId> {
    if 0 <= i < objects.len() {
        objects[i]
    } else {
        None
    }
}

/// The first request from `from` up to `to` that was not answered with an
/// object, or `to` if there is none.
pub open spec fn first_missing(objects: Seq<Option<ResourceId>>, from: int, to: int) -> int
    decreases to - from,
{
    if from >= to {
        to
    } else if created(objects, from) is None {
        from
    } else {
        first_missing(objects, from + 1, to)
    }
}

/// What `first_missing` finds: everything before it is there, and it is not.
pub proof fn lemma_first_missing(objects: Seq<Option<ResourceId>>, from: int, to: int)
    requires
        from <= to,
    ensures
        from <= first_missing(objects, from, to) <= to,
        forall|i: int|
            from <= i < first_missing(objects, from, to) ==> (#[trigger] created(objects, i))
                is Some,
        first_missing(objects, from, to) < to ==> created(
            objects,
            first_missing(objects, from, to),
        ) is None,
    decreases to - from,
{
    if from < to && created(objects, from) is Some {
        lemma_first_missing(objects, from + 1, to);
    }
}

/// The first missing object of a range is the first missing of its first
/// part, or else of its second.
pub proof fn lemma_first_missing_split(
    objects: Seq<Option<ResourceId>>,
    from: int,
    mid: int,
    to: int,
)
    requires
        from <= mid <= to,
    ensures
        first_missing(objects, from, to) == if first_missing(objects, from, mid) < mid {
            first_missing(objects, from, mid)
        } else {
            first_missing(objects, mid, to)
        },
    decreases mid - from,
{
    if from < mid {
        if created(objects, from) is Some {
            lemma_first_missing_split(objects, from + 1, mid, to);
        }
    }
}

/// The object created for request `i`.
pub fn object_at(objects: &[Option<ResourceId>], i: usize) -> (object: Option<ResourceId>)
    ensures
        object == created(objects@, i as int),
{
    if i < objects.len() {
        objects[i]
    } else {
        None
    }
}

/// The object created for the request `k` places behind request `at`.
pub fn object_after(objects: &[Option<ResourceId>], at: usize, k: usize) -> (object: Option<
    ResourceId,
>)
    ensures
        object == created(objects@, at + k),
{
    let len: usize = objects.len();
    if k <= usize::MAX - at && at + k < len {
        objects[at + k]
    } else {
        None
    }
}

/// Finds the first of the `count` requests from `at` on that got no object,
/// and returns how far behind `at` it stands; `count` if each got one.
pub fn first_missing_offset(objects: &[Option<ResourceId>], at: usize, count: usize) -> (offset:
    usize)
    ensures
        at + offset == first_missing(objects@, at as int, at + count),
        offset <= count,
{
    let mut k: usize = 0;
    while k < count
        invariant
            k <= count,
            first_missing(objects@, at as int, at + count) == first_missing(
                objects@,
                at + k,
                at + count,
            ),
        decreases count - k,
    {
        if object_after(objects, at, k).is_none() {
            return k;
        }
        k += 1;
    }
    k
}

/// Finds the first of the requests `from..to` that got no object; `to` if
/// each got one, and if there is no request between the two.
pub fn find_first_missing(objects: &[Option<ResourceId>], from: usize, to: usize) -> (at: usize)
    ensures
        at == first_missing(objects@, from as int, to as int),
        from <= to ==> from <= at <= to,
{
    if from >= to {
        return to;
    }
    let mut i: usize = from;
    proof {
        lemma_first_missing(objects@, from as int, to as int);
    }
    while i < to
        invariant
            from <= i <= to,
            first_missing(objects@, from as int, to as int) == first_missing(
                objects@,
                i as int,
                to as int,
            ),
        decreases to - i,
    {
        if object_at(objects, i).is_none() {
            return i;
        }
        i += 1;
    }
    i
}

/// One step of a plan: a draw, a copy or a change of state that the owner
/// of the device is asked for.
///
/// The commands of a list are submitted in order. A command names device
/// objects by handle, scene entities by identity, and assets by content hash.
#[allow(inconsistent_fields)]
#[derive(Clone, Copy, PartialEq, Eq, Structural, Debug)]
pub enum GpuCommand {
    SetInputLayout { layout: usize },
    BindModelBuffers { vertex0: TagHash, vertex1: TagHash, color: TagHash, index: TagHash },
    /// Bind a technique: its shaders, its constants and its samplers. The
    /// object channels of `channels`, if any, feed its constants.
    BindTechnique { technique: TechniqueHandle, channels: Option<Entity> },
    /// Replace the bound vertex shader by the one that serves skinned and
    /// rigid entities alike.
    SetEntityVertexShaderOverride,
    SetInputTopology { topology: PrimitiveType },
    /// Hand a part of a mesh of the model being drawn to the caller's own draw.
    SubmitPart { mesh: usize, part: usize },
    DrawIndexed { index_count: u32, index_start: u32, base_vertex: i32 },
    Draw { vertex_count: u32, vertex_start: u32 },
    /// Publish the rigid-model constants held in `constants` to the externs.
    SetRigidModelExtern { constants: ResourceId },
    BindConstantBuffer { buffer: ResourceId, slot: u32, stage: ShaderStage },
    WriteRigidModelConstants { buffer: ResourceId },
    WriteSkinningConstants { buffer: ResourceId },
    /// What is drawn until `EndPickEntity` belongs to this entity.
    BeginPickEntity { entity: Entity },
    EndPickEntity,
    DrawDecorator { entity: Entity, stage: RenderStage },
    DrawTerrainPatches,
    DrawShaderball,
    DrawStaticInstances { stage: RenderStage },
    SetDepthMode { mode: DepthMode },
    SelectStates { blend: u32, depth_stencil: u32, rasterizer: u32, depth_bias: u32 },
    FlushStates,
    BindShadowmapVertexTexture { slot: u32 },
    /// Make the view of a shadow-casting light the active view.
    BindView { light: Entity, view: usize },
    BindShadowGeneration { light: Entity, mode: ShadowGenerationMode },
    /// Bind `count` render target slots, the first to `first`, the others to
    /// nothing, without a depth buffer.
    SetRenderTargets { count: u32, first: Option<ResourceId> },
    /// Bind `count` pixel shader resources from `slot` on.
    SetPixelShaderResources {
        slot: u32,
        count: u32,
        first: Option<ResourceId>,
        second: Option<ResourceId>,
    },
    SetPixelConstantBuffer { slot: u32, buffer: ResourceId },
    SetViewport { width: u32, height: u32 },
    BlitAlphaLuminance { source: ResourceId, target: ResourceId },
    Blit { source: ResourceId, target: ResourceId },
    /// Publish the anti-aliasing input to the externs.
    SetFxaaExtern { source: ResourceId },
    ExecutePipeline { pipeline: GlobalPipeline },
    CopyResource { dest: ResourceId, source: ResourceId },
    /// Clear to a colour given by the bit patterns of its four channels.
    ClearRenderTarget { view: ResourceId, red: u32, green: u32, blue: u32, alpha: u32 },
    /// Clear depth to the value with these bits, and stencil.
    ClearDepthStencil { view: ResourceId, depth: u32, stencil: u8 },
    SetVertexShader { shader: ResourceId },
    SetGeometryShader { shader: ResourceId },
    SetPixelShader { shader: ResourceId },
    BindTexture { texture: ResourceId, slot: u32, stage: ShaderStage },
    BackupState,
    RestoreState,
    SetBlendState { index: u32 },
    ResetRasterizerState,
    ResetDepthStencilState,
    /// Copy the active view's pixel-to-world transform into the constants.
    UpdateSsaoConstants { buffer: ResourceId },
    SetInputLayoutObject { layout: ResourceId },
    SetVertexBuffer { buffer: ResourceId, stride: u32 },
    SetIndexBuffer { buffer: ResourceId, format: DxgiFormat },
    /// Write transform and colour of the shape at `shape` of the drawn list
    /// into the shape constants; `translucent` asks for the faint side colour.
    WriteShapeConstants { buffer: ResourceId, shape: usize, translucent: bool },
    WriteLineConstants { buffer: ResourceId, shape: usize },
}

impl GpuCommand {
    /// Whether the command makes the device draw.
    pub open spec fn spec_is_draw(self) -> bool {
        self is DrawIndexed || self is Draw || self is SubmitPart
    }

    pub fn is_draw(&self) -> (r: bool)
        ensures
            r == self.spec_is_draw(),
    {
        match self {
            GpuCommand::DrawIndexed { .. } => true,
            GpuCommand::Draw { .. } => true,
            GpuCommand::SubmitPart { .. } => true,
            _ => false,
        }
    }
}

/// Appends `more` to `commands`.
pub fn append_commands(commands: &mut Vec<GpuCommand>, more: &Vec<GpuCommand>)
    ensures
        final(commands)@ == old(commands)@ + more@,
{
    let mut i: usize = 0;
    while i < more.len()
        invariant
            i <= more.len(),
            commands@ == old(commands)@ + more@.subrange(0, i as int),
        decreases more.len() - i,
    {
        commands.push(more[i]);
        proof {
            assert(more@.subrange(0, i as int).push(more@[i as int]) =~= more@.subrange(
                0,
                i as int + 1,
            ));
        }
        i += 1;
    }
    proof {
        assert(more@.subrange(0, more@.len() as int) =~= more@);
    }
}

} // verus!
