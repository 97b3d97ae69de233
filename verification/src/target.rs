//! Render targets, depth targets and staging surfaces: what each is created
//! from, and how each is put together from the objects the device hands back.
//!
//! Creating a resource takes two calls. `creation_requests` lists, in order,
//! the objects that the device has to create. The caller creates them, stops
//! at the first that fails, and hands the objects it got to `create`, one for
//! each request and in the same order. `create` reports the first request
//! that has no object.

use crate::command::{
    created, find_first_missing, first_missing, first_missing_offset, lemma_first_missing,
    object_after, ComparisonFunc,
    CreateError, DepthStencilDesc, DeviceRequest, DxgiFormat, GpuCommand, ResourceId,
    StencilFaceDesc, StencilOp, TextureDesc, Usage, ViewDesc, ViewDimension,
};
use vstd::prelude::*;

verus! {

/// A size with no zero side: a request for an empty surface is served with
/// the smallest surface instead, `minimum` texels on each side.
pub open spec fn spec_clamp_size(size: (u32, u32), minimum: u32) -> (u32, u32) {
    if size.0 == 0 || size.1 == 0 {
        (minimum, minimum)
    } else {
        size
    }
}

/// Whether a surface of this size would hold no texel.
pub fn is_zero_size(size: (u32, u32)) -> (r: bool)
    ensures
        r == (size.0 == 0 || size.1 == 0),
{
    size.0 == 0 || size.1 == 0
}

pub fn clamp_size(size: (u32, u32), minimum: u32) -> (clamped: (u32, u32))
    ensures
        clamped == spec_clamp_size(size, minimum),
        minimum > 0 ==> clamped.0 > 0 && clamped.1 > 0,
{
    if is_zero_size(size) {
        (minimum, minimum)
    } else {
        size
    }
}

/// A view of a whole single-layer texture in the given format.
pub open spec fn spec_plain_view(format: DxgiFormat) -> ViewDesc {
    ViewDesc { format, dimension: ViewDimension::Texture2D, first_mip: 0, mip_levels: 1 }
}

pub fn plain_view(format: DxgiFormat) -> (desc: ViewDesc)
    ensures
        desc == spec_plain_view(format),
{
    ViewDesc { format, dimension: ViewDimension::Texture2D, first_mip: 0, mip_levels: 1 }
}

/// The part of the output surface that a target covers: from its top left
/// corner, over its whole size, at full depth range.
#[derive(Clone, Copy, PartialEq, Eq, Structural, Debug)]
pub struct Viewport {
    pub width: u32,
    pub height: u32,
}

/// One texture with the view it is rendered through and the view it is
/// sampled through. Format and size are fixed when it is created.
#[derive(Clone, Copy, PartialEq, Eq, Debug)]
pub struct RenderTarget {
    pub texture: ResourceId,
    pub render_target: ResourceId,
    pub view: ResourceId,
    pub format: DxgiFormat,
    pub size: (u32, u32),
}

impl RenderTarget {
    /// Number of device objects of a render target.
    pub open spec fn spec_object_count() -> nat {
        3
    }

    pub open spec fn spec_texture_desc(size: (u32, u32), format: DxgiFormat) -> TextureDesc {
        let size = spec_clamp_size(size, 1);
        TextureDesc {
            width: size.0,
            height: size.1,
            mip_levels: 1,
            array_size: 1,
            format,
            sample_count: 1,
            sample_quality: 0,
            usage: Usage::Default,
            bind_render_target: true,
            bind_shader_resource: true,
            bind_depth_stencil: false,
            cpu_read: false,
        }
    }

    pub open spec fn spec_creation_requests(size: (u32, u32), format: DxgiFormat) -> Seq<
        DeviceRequest,
    > {
        seq![
            DeviceRequest::Texture2D { desc: Self::spec_texture_desc(size, format) },
            DeviceRequest::RenderTargetView { texture_back: 1 },
            DeviceRequest::ShaderResourceView { texture_back: 2, desc: spec_plain_view(format) },
        ]
    }

    /// The target that the objects from `at` on make up, or the first of its
    /// three objects that is missing.
    pub open spec fn spec_create(
        size: (u32, u32),
        format: DxgiFormat,
        objects: Seq<Option<ResourceId>>,
        at: int,
    ) -> Result<RenderTarget, CreateError> {
        if created(objects, at) is None {
            Err(CreateError::Texture)
        } else if created(objects, at + 1) is None {
            Err(CreateError::RenderTargetView)
        } else if created(objects, at + 2) is None {
            Err(CreateError::ShaderResourceView)
        } else {
            Ok(
                RenderTarget {
                    texture: created(objects, at)->0,
                    render_target: created(objects, at + 1)->0,
                    view: created(objects, at + 2)->0,
                    format,
                    size: spec_clamp_size(size, 1),
                },
            )
        }
    }

    pub fn texture_desc(size: (u32, u32), format: DxgiFormat) -> (desc: TextureDesc)
        ensures
            desc == Self::spec_texture_desc(size, format),
    {
        let size = clamp_size(size, 1);
        TextureDesc {
            width: size.0,
            height: size.1,
            mip_levels: 1,
            array_size: 1,
            format,
            sample_count: 1,
            sample_quality: 0,
            usage: Usage::Default,
            bind_render_target: true,
            bind_shader_resource: true,
            bind_depth_stencil: false,
            cpu_read: false,
        }
    }

    /// The objects to create for a target of this size and format: the
    /// texture, the view to render through, the view to sample through.
    pub fn creation_requests(size: (u32, u32), format: DxgiFormat) -> (requests: Vec<
        DeviceRequest,
    >)
        ensures
            requests@ == Self::spec_creation_requests(size, format),
            requests@.len() == Self::spec_object_count(),
    {
        let mut requests: Vec<DeviceRequest> = Vec::new();
        requests.push(DeviceRequest::Texture2D { desc: Self::texture_desc(size, format) });
        requests.push(DeviceRequest::RenderTargetView { texture_back: 1 });
        requests.push(
            DeviceRequest::ShaderResourceView { texture_back: 2, desc: plain_view(format) },
        );
        proof {
            assert(requests@ =~= Self::spec_creation_requests(size, format));
        }
        requests
    }

    /// Puts a target together from the objects created for its requests.
    pub fn create(size: (u32, u32), format: DxgiFormat, objects: &[Option<ResourceId>]) -> (r:
        Result<RenderTarget, CreateError>)
        ensures
            r == Self::spec_create(size, format, objects@, 0),
            r is Ok <==> objects@.len() >= 3 && objects@[0] is Some && objects@[1] is Some
                && objects@[2] is Some,
    {
        Self::create_at(size, format, objects, 0)
    }

    /// As `create`, with the target's objects starting at `at` in a longer list.
    pub fn create_at(
        size: (u32, u32),
        format: DxgiFormat,
        objects: &[Option<ResourceId>],
        at: usize,
    ) -> (r: Result<RenderTarget, CreateError>)
        ensures
            r == Self::spec_create(size, format, objects@, at as int),
            r is Ok <==> first_missing(objects@, at as int, at + 3) == at + 3,
    {
        proof {
            reveal_with_fuel(first_missing, 4);
        }
        let texture = match object_after(objects, at, 0) {
            Some(id) => id,
            None => { return Err(CreateError::Texture); },
        };
        let render_target = match object_after(objects, at, 1) {
            Some(id) => id,
            None => { return Err(CreateError::RenderTargetView); },
        };
        let view = match object_after(objects, at, 2) {
            Some(id) => id,
            None => { return Err(CreateError::ShaderResourceView); },
        };
        Ok(RenderTarget { texture, render_target, view, format, size: clamp_size(size, 1) })
    }

    /// Copies this target's texture into `dest`'s.
    pub fn copy_to(&self, dest: &RenderTarget) -> (command: GpuCommand)
        ensures
            command == (GpuCommand::CopyResource { dest: dest.texture, source: self.texture }),
    {
        GpuCommand::CopyResource { dest: dest.texture, source: self.texture }
    }

    /// Copies this target's texture to where the processor can read it.
    pub fn copy_to_staging(&self, dest: &CpuStagingBuffer) -> (command: GpuCommand)
        ensures
            command == (GpuCommand::CopyResource { dest: dest.texture, source: self.texture }),
    {
        GpuCommand::CopyResource { dest: dest.texture, source: self.texture }
    }

    /// Replaces the target by one of the new size and the same format. If an
    /// object is missing the target stays as it was.
    pub fn resize(&mut self, new_size: (u32, u32), objects: &[Option<ResourceId>]) -> (r: Result<
        (),
        CreateError,
    >)
        ensures
            match Self::spec_create(new_size, old(self).format, objects@, 0) {
                Ok(target) => r is Ok && *final(self) == target,
                Err(e) => r == Err::<(), CreateError>(e) && *final(self) == *old(self),
            },
    {
        match Self::create_at(new_size, self.format, objects, 0) {
            Ok(target) => {
                *self = target;
                Ok(())
            },
            Err(e) => Err(e),
        }
    }

    /// Clears the target to the colour whose four channels have these bits.
    pub fn clear(&self, color: [u32; 4]) -> (command: GpuCommand)
        ensures
            command == (GpuCommand::ClearRenderTarget {
                view: self.render_target,
                red: color@[0],
                green: color@[1],
                blue: color@[2],
                alpha: color@[3],
            }),
    {
        GpuCommand::ClearRenderTarget {
            view: self.render_target,
            red: color[0],
            green: color[1],
            blue: color[2],
            alpha: color[3],
        }
    }

    /// What the target's texture was created from.
    pub fn get_desc(&self) -> (desc: TextureDesc)
        ensures
            desc == Self::spec_texture_desc(self.size, self.format),
    {
        Self::texture_desc(self.size, self.format)
    }

    pub fn viewport(&self) -> (viewport: Viewport)
        ensures
            viewport.width == Self::spec_texture_desc(self.size, self.format).width,
            viewport.height == Self::spec_texture_desc(self.size, self.format).height,
    {
        let desc = self.get_desc();
        Viewport { width: desc.width, height: desc.height }
    }

    pub open spec fn spec_bind(self) -> Seq<GpuCommand> {
        let desc = Self::spec_texture_desc(self.size, self.format);
        seq![
            GpuCommand::SetRenderTargets { count: 1, first: Some(self.render_target) },
            GpuCommand::SetViewport { width: desc.width, height: desc.height },
        ]
    }

    /// Binds the target as the only render target, without depth, and fits
    /// the viewport to it.
    pub fn bind(&self) -> (commands: Vec<GpuCommand>)
        ensures
            commands@ == self.spec_bind(),
    {
        let viewport = self.viewport();
        let mut commands: Vec<GpuCommand> = Vec::new();
        commands.push(GpuCommand::SetRenderTargets { count: 1, first: Some(self.render_target) });
        commands.push(GpuCommand::SetViewport { width: viewport.width, height: viewport.height });
        proof {
            assert(commands@ =~= self.spec_bind());
        }
        commands
    }
}

/// A texture that the processor can read, the target of copies for probes
/// of single texels.
#[derive(Clone, Copy, PartialEq, Eq, Debug)]
pub struct CpuStagingBuffer {
    pub texture: ResourceId,
    pub format: DxgiFormat,
    pub size: (u32, u32),
}

impl CpuStagingBuffer {
    pub open spec fn spec_texture_desc(size: (u32, u32), format: DxgiFormat) -> TextureDesc {
        let size = spec_clamp_size(size, 1);
        TextureDesc {
            width: size.0,
            height: size.1,
            mip_levels: 1,
            array_size: 1,
            format,
            sample_count: 1,
            sample_quality: 0,
            usage: Usage::Staging,
            bind_render_target: false,
            bind_shader_resource: false,
            bind_depth_stencil: false,
            cpu_read: true,
        }
    }

    pub open spec fn spec_creation_requests(size: (u32, u32), format: DxgiFormat) -> Seq<
        DeviceRequest,
    > {
        seq![DeviceRequest::Texture2D { desc: Self::spec_texture_desc(size, format) }]
    }

    pub open spec fn spec_create(
        size: (u32, u32),
        format: DxgiFormat,
        objects: Seq<Option<ResourceId>>,
        at: int,
    ) -> Result<CpuStagingBuffer, CreateError> {
        if created(objects, at) is None {
            Err(CreateError::StagingBuffer)
        } else {
            Ok(
                CpuStagingBuffer {
                    texture: created(objects, at)->0,
                    format,
                    size: spec_clamp_size(size, 1),
                },
            )
        }
    }

    pub fn creation_requests(size: (u32, u32), format: DxgiFormat) -> (requests: Vec<
        DeviceRequest,
    >)
        ensures
            requests@ == Self::spec_creation_requests(size, format),
    {
        let size = clamp_size(size, 1);
        let mut requests: Vec<DeviceRequest> = Vec::new();
        requests.push(
            DeviceRequest::Texture2D {
                desc: TextureDesc {
                    width: size.0,
                    height: size.1,
                    mip_levels: 1,
                    array_size: 1,
                    format,
                    sample_count: 1,
                    sample_quality: 0,
                    usage: Usage::Staging,
                    bind_render_target: false,
                    bind_shader_resource: false,
                    bind_depth_stencil: false,
                    cpu_read: true,
                },
            },
        );
        proof {
            assert(requests@ =~= Self::spec_creation_requests(size, format));
        }
        requests
    }

    pub fn create(size: (u32, u32), format: DxgiFormat, objects: &[Option<ResourceId>]) -> (r:
        Result<CpuStagingBuffer, CreateError>)
        ensures
            r == Self::spec_create(size, format, objects@, 0),
            r is Ok <==> objects@.len() >= 1 && objects@[0] is Some,
    {
        Self::create_at(size, format, objects, 0)
    }

    /// As `create`, with the buffer's object at place `at` of a longer list.
    pub fn create_at(
        size: (u32, u32),
        format: DxgiFormat,
        objects: &[Option<ResourceId>],
        at: usize,
    ) -> (r: Result<CpuStagingBuffer, CreateError>)
        ensures
            r == Self::spec_create(size, format, objects@, at as int),
            r is Ok <==> first_missing(objects@, at as int, at + 1) == at + 1,
    {
        proof {
            reveal_with_fuel(first_missing, 2);
        }
        match object_after(objects, at, 0) {
            Some(texture) => Ok(CpuStagingBuffer { texture, format, size: clamp_size(size, 1) }),
            None => Err(CreateError::StagingBuffer),
        }
    }

    /// Replaces the buffer by one of the new size and the same format. If the
    /// object is missing the buffer stays as it was.
    pub fn resize(&mut self, new_size: (u32, u32), objects: &[Option<ResourceId>]) -> (r: Result<
        (),
        CreateError,
    >)
        ensures
            match Self::spec_create(new_size, old(self).format, objects@, 0) {
                Ok(buffer) => r is Ok && *final(self) == buffer,
                Err(e) => r == Err::<(), CreateError>(e) && *final(self) == *old(self),
            },
    {
        match Self::create_at(new_size, self.format, objects, 0) {
            Ok(buffer) => {
                *self = buffer;
                Ok(())
            },
            Err(e) => Err(e),
        }
    }
}

/// The depth buffer: its texture, the state that writes depth and the state
/// that only tests it, the view it is rendered through, the view it is
/// sampled through, and a copy of the same size that later passes sample
/// while the buffer itself is bound.
#[derive(Clone, Copy, PartialEq, Eq, Debug)]
pub struct DepthState {
    pub texture: ResourceId,
    pub state: ResourceId,
    pub state_readonly: ResourceId,
    pub view: ResourceId,
    pub texture_view: ResourceId,
    pub texture_copy: ResourceId,
    pub texture_copy_view: ResourceId,
    pub size: (u32, u32),
}

/// What both faces do with the stencil when depth is tested: count up on the
/// front face and down on the back face where the depth test fails.
pub open spec fn spec_stencil_face(front: bool) -> StencilFaceDesc {
    StencilFaceDesc {
        fail: StencilOp::Keep,
        depth_fail: if front {
            StencilOp::Increment
        } else {
            StencilOp::Decrement
        },
        pass: StencilOp::Keep,
        func: ComparisonFunc::Always,
    }
}

/// A state that tests depth with `func`, writes it if `write`, and leaves
/// the stencil test off.
pub open spec fn spec_depth_stencil_desc(write: bool, func: ComparisonFunc) -> DepthStencilDesc {
    DepthStencilDesc {
        depth_enable: true,
        depth_write: write,
        depth_func: func,
        stencil_enable: false,
        stencil_read_mask: 0xff,
        stencil_write_mask: 0xff,
        front_face: spec_stencil_face(true),
        back_face: spec_stencil_face(false),
    }
}

pub fn depth_stencil_desc(write: bool, func: ComparisonFunc) -> (desc: DepthStencilDesc)
    ensures
        desc == spec_depth_stencil_desc(write, func),
{
    DepthStencilDesc {
        depth_enable: true,
        depth_write: write,
        depth_func: func,
        stencil_enable: false,
        stencil_read_mask: 0xff,
        stencil_write_mask: 0xff,
        front_face: StencilFaceDesc {
            fail: StencilOp::Keep,
            depth_fail: StencilOp::Increment,
            pass: StencilOp::Keep,
            func: ComparisonFunc::Always,
        },
        back_face: StencilFaceDesc {
            fail: StencilOp::Keep,
            depth_fail: StencilOp::Decrement,
            pass: StencilOp::Keep,
            func: ComparisonFunc::Always,
        },
    }
}

/// A typeless 32-bit texture of `layers` layers, bound for sampling and, if
/// `depth_stencil`, for depth.
pub open spec fn spec_depth_texture_desc(size: (u32, u32), layers: u32, depth_stencil: bool)
    -> TextureDesc {
    TextureDesc {
        width: size.0,
        height: size.1,
        mip_levels: 1,
        array_size: layers,
        format: DxgiFormat::R32Typeless,
        sample_count: 1,
        sample_quality: 0,
        usage: Usage::Default,
        bind_render_target: false,
        bind_shader_resource: true,
        bind_depth_stencil: depth_stencil,
        cpu_read: false,
    }
}

pub fn depth_texture_desc(size: (u32, u32), layers: u32, depth_stencil: bool) -> (desc:
    TextureDesc)
    ensures
        desc == spec_depth_texture_desc(size, layers, depth_stencil),
{
    TextureDesc {
        width: size.0,
        height: size.1,
        mip_levels: 1,
        array_size: layers,
        format: DxgiFormat::R32Typeless,
        sample_count: 1,
        sample_quality: 0,
        usage: Usage::Default,
        bind_render_target: false,
        bind_shader_resource: true,
        bind_depth_stencil: depth_stencil,
        cpu_read: false,
    }
}

impl DepthState {
    /// Number of device objects of a depth buffer.
    pub open spec fn spec_object_count() -> nat {
        7
    }

    pub open spec fn spec_creation_requests(size: (u32, u32)) -> Seq<DeviceRequest> {
        let size = spec_clamp_size(size, 4);
        seq![
            DeviceRequest::Texture2D { desc: spec_depth_texture_desc(size, 1, true) },
            DeviceRequest::DepthStencilState {
                desc: spec_depth_stencil_desc(true, ComparisonFunc::GreaterEqual),
            },
            DeviceRequest::DepthStencilState {
                desc: spec_depth_stencil_desc(false, ComparisonFunc::GreaterEqual),
            },
            DeviceRequest::DepthStencilView {
                texture_back: 3,
                desc: spec_plain_view(DxgiFormat::D32Float),
            },
            DeviceRequest::ShaderResourceView {
                texture_back: 4,
                desc: spec_plain_view(DxgiFormat::R32Float),
            },
            DeviceRequest::Texture2D { desc: spec_depth_texture_desc(size, 1, false) },
            DeviceRequest::ShaderResourceView {
                texture_back: 1,
                desc: spec_plain_view(DxgiFormat::R32Float),
            },
        ]
    }

    /// The failure that a missing object at place `step` of the requests means.
    pub open spec fn spec_step_error(step: int) -> CreateError {
        if step == 0 {
            CreateError::DepthTexture
        } else if step == 1 {
            CreateError::DepthStencilState
        } else if step == 2 {
            CreateError::ReadOnlyDepthStencilState
        } else if step == 3 {
            CreateError::DepthStencilView
        } else if step == 4 {
            CreateError::DepthShaderResourceView
        } else if step == 5 {
            CreateError::DepthCopyTexture
        } else {
            CreateError::DepthCopyShaderResourceView
        }
    }

    /// The depth buffer that the seven objects from `at` on make up, or the
    /// failure of the first that is missing.
    pub open spec fn spec_create(size: (u32, u32), objects: Seq<Option<ResourceId>>, at: int)
        -> Result<DepthState, CreateError> {
        let missing = first_missing(objects, at, at + 7);
        if missing < at + 7 {
            Err(Self::spec_step_error(missing - at))
        } else {
            Ok(
                DepthState {
                    texture: created(objects, at)->0,
                    state: created(objects, at + 1)->0,
                    state_readonly: created(objects, at + 2)->0,
                    view: created(objects, at + 3)->0,
                    texture_view: created(objects, at + 4)->0,
                    texture_copy: created(objects, at + 5)->0,
                    texture_copy_view: created(objects, at + 6)->0,
                    size: spec_clamp_size(size, 4),
                },
            )
        }
    }

    pub fn step_error(step: usize) -> (e: CreateError)
        ensures
            e == Self::spec_step_error(step as int),
    {
        if step == 0 {
            CreateError::DepthTexture
        } else if step == 1 {
            CreateError::DepthStencilState
        } else if step == 2 {
            CreateError::ReadOnlyDepthStencilState
        } else if step == 3 {
            CreateError::DepthStencilView
        } else if step == 4 {
            CreateError::DepthShaderResourceView
        } else if step == 5 {
            CreateError::DepthCopyTexture
        } else {
            CreateError::DepthCopyShaderResourceView
        }
    }

    /// The objects to create for a depth buffer of this size, in order: the
    /// depth texture, the writing state, the read-only state, the depth view,
    /// the sampling view, the copy texture, the copy's sampling view.
    pub fn creation_requests(size: (u32, u32)) -> (requests: Vec<DeviceRequest>)
        ensures
            requests@ == Self::spec_creation_requests(size),
            requests@.len() == Self::spec_object_count(),
    {
        let size = clamp_size(size, 4);
        let mut requests: Vec<DeviceRequest> = Vec::new();
        requests.push(DeviceRequest::Texture2D { desc: depth_texture_desc(size, 1, true) });
        requests.push(
            DeviceRequest::DepthStencilState {
                desc: depth_stencil_desc(true, ComparisonFunc::GreaterEqual),
            },
        );
        requests.push(
            DeviceRequest::DepthStencilState {
                desc: depth_stencil_desc(false, ComparisonFunc::GreaterEqual),
            },
        );
        requests.push(
            DeviceRequest::DepthStencilView {
                texture_back: 3,
                desc: plain_view(DxgiFormat::D32Float),
            },
        );
        requests.push(
            DeviceRequest::ShaderResourceView {
                texture_back: 4,
                desc: plain_view(DxgiFormat::R32Float),
            },
        );
        requests.push(DeviceRequest::Texture2D { desc: depth_texture_desc(size, 1, false) });
        requests.push(
            DeviceRequest::ShaderResourceView {
                texture_back: 1,
                desc: plain_view(DxgiFormat::R32Float),
            },
        );
        proof {
            assert(requests@ =~= Self::spec_creation_requests(size));
        }
        requests
    }

    /// Puts a depth buffer together from the objects created for its requests.
    pub fn create(size: (u32, u32), objects: &[Option<ResourceId>]) -> (r: Result<
        DepthState,
        CreateError,
    >)
        ensures
            r == Self::spec_create(size, objects@, 0),
            r is Ok <==> first_missing(objects@, 0, 7) == 7,
    {
        Self::create_at(size, objects, 0)
    }

    /// As `create`, with the buffer's objects starting at `at` in a longer list.
    pub fn create_at(size: (u32, u32), objects: &[Option<ResourceId>], at: usize) -> (r: Result<
        DepthState,
        CreateError,
    >)
        ensures
            r == Self::spec_create(size, objects@, at as int),
            r is Ok <==> first_missing(objects@, at as int, at + 7) == at + 7,
    {
        let offset = first_missing_offset(objects, at, 7);
        proof {
            lemma_first_missing(objects@, at as int, at + 7);
        }
        if offset < 7 {
            return Err(Self::step_error(offset));
        }
        proof {
            assert(created(objects@, at as int) is Some);
            assert(created(objects@, at + 1) is Some);
            assert(created(objects@, at + 2) is Some);
            assert(created(objects@, at + 3) is Some);
            assert(created(objects@, at + 4) is Some);
            assert(created(objects@, at + 5) is Some);
            assert(created(objects@, at + 6) is Some);
        }
        Ok(
            DepthState {
                texture: object_after(objects, at, 0).unwrap(),
                state: object_after(objects, at, 1).unwrap(),
                state_readonly: object_after(objects, at, 2).unwrap(),
                view: object_after(objects, at, 3).unwrap(),
                texture_view: object_after(objects, at, 4).unwrap(),
                texture_copy: object_after(objects, at, 5).unwrap(),
                texture_copy_view: object_after(objects, at, 6).unwrap(),
                size: clamp_size(size, 4),
            },
        )
    }

    /// Copies the depth texture to the copy that later passes sample.
    pub fn copy_depth(&self) -> (command: GpuCommand)
        ensures
            command == (GpuCommand::CopyResource {
                dest: self.texture_copy,
                source: self.texture,
            }),
    {
        GpuCommand::CopyResource { dest: self.texture_copy, source: self.texture }
    }

    /// Copies the depth texture to where the processor can read it.
    pub fn copy_to_staging(&self, dest: &CpuStagingBuffer) -> (command: GpuCommand)
        ensures
            command == (GpuCommand::CopyResource { dest: dest.texture, source: self.texture }),
    {
        GpuCommand::CopyResource { dest: dest.texture, source: self.texture }
    }

    /// Replaces the depth buffer by one of the new size. If an object is
    /// missing the buffer stays as it was.
    pub fn resize(&mut self, new_size: (u32, u32), objects: &[Option<ResourceId>]) -> (r: Result<
        (),
        CreateError,
    >)
        ensures
            match Self::spec_create(new_size, objects@, 0) {
                Ok(depth) => r is Ok && *final(self) == depth,
                Err(e) => r == Err::<(), CreateError>(e) && *final(self) == *old(self),
            },
    {
        match Self::create_at(new_size, objects, 0) {
            Ok(depth) => {
                *self = depth;
                Ok(())
            },
            Err(e) => Err(e),
        }
    }

    /// Clears depth to the value whose bits are `depth`, and the stencil.
    pub fn clear(&self, depth: u32, stencil: u8) -> (command: GpuCommand)
        ensures
            command == (GpuCommand::ClearDepthStencil { view: self.view, depth, stencil }),
    {
        GpuCommand::ClearDepthStencil { view: self.view, depth, stencil }
    }
}

/// The depth maps of the shadow-casting lights: one texture of `layers`
/// layers, a depth view for each layer, and one view to sample them all.
#[derive(Debug)]
pub struct ShadowDepthMap {
    pub texture: ResourceId,
    pub state: ResourceId,
    pub views: Vec<ResourceId>,
    pub texture_view: ResourceId,
    pub layers: u16,
    pub size: (u32, u32),
}

impl ShadowDepthMap {
    /// Number of device objects of a shadow depth map of `layers` layers.
    pub open spec fn spec_object_count(layers: u16) -> nat {
        (layers + 3) as nat
    }

    /// The depth view of layer `layer`.
    pub open spec fn spec_layer_view(layer: int) -> DeviceRequest {
        DeviceRequest::DepthStencilView {
            texture_back: (layer + 2) as usize,
            desc: ViewDesc {
                format: DxgiFormat::D32Float,
                dimension: ViewDimension::Texture2DArray {
                    first_slice: layer as u32,
                    slice_count: 1,
                },
                first_mip: 0,
                mip_levels: 1,
            },
        }
    }

    /// The view through which all layers are sampled.
    pub open spec fn spec_sampling_view(layers: u16) -> DeviceRequest {
        DeviceRequest::ShaderResourceView {
            texture_back: (layers + 2) as usize,
            desc: ViewDesc {
                format: DxgiFormat::R32Float,
                dimension: ViewDimension::Texture2DArray {
                    first_slice: 0,
                    slice_count: layers as u32,
                },
                first_mip: 0,
                mip_levels: 1,
            },
        }
    }

    /// Request `i` of a shadow depth map: the texture, the depth state, one
    /// depth view for each layer, the sampling view.
    pub open spec fn spec_request(size: (u32, u32), layers: u16, i: int) -> DeviceRequest {
        if i == 0 {
            DeviceRequest::Texture2D {
                desc: spec_depth_texture_desc(spec_clamp_size(size, 4), layers as u32, true),
            }
        } else if i == 1 {
            DeviceRequest::DepthStencilState {
                desc: spec_depth_stencil_desc(true, ComparisonFunc::LessEqual),
            }
        } else if i < layers + 2 {
            Self::spec_layer_view(i - 2)
        } else {
            Self::spec_sampling_view(layers)
        }
    }

    pub open spec fn spec_creation_requests(size: (u32, u32), layers: u16) -> Seq<DeviceRequest> {
        Seq::new(Self::spec_object_count(layers), |i: int| Self::spec_request(size, layers, i))
    }

    /// The failure that a missing object at place `step` of the requests means.
    pub open spec fn spec_step_error(layers: u16, step: int) -> CreateError {
        if step == 0 {
            CreateError::DepthTexture
        } else if step == 1 {
            CreateError::DepthStencilState
        } else if step < layers + 2 {
            CreateError::DepthStencilView
        } else {
            CreateError::DepthShaderResourceView
        }
    }

    /// Whether `map` is what the objects make up.
    pub open spec fn spec_made_of(
        map: ShadowDepthMap,
        size: (u32, u32),
        layers: u16,
        objects: Seq<Option<ResourceId>>,
    ) -> bool {
        &&& map.texture == created(objects, 0)->0
        &&& map.state == created(objects, 1)->0
        &&& map.views@.len() == layers
        &&& forall|i: int| 0 <= i < layers ==> map.views@[i] == (#[trigger] created(objects, i + 2))->0
        &&& map.texture_view == created(objects, layers + 2)->0
        &&& map.layers == layers
        &&& map.size == spec_clamp_size(size, 4)
    }

    pub fn creation_requests(size: (u32, u32), layers: u16) -> (requests: Vec<DeviceRequest>)
        ensures
            requests@ == Self::spec_creation_requests(size, layers),
    {
        let clamped = clamp_size(size, 4);
        let mut requests: Vec<DeviceRequest> = Vec::new();
        requests.push(
            DeviceRequest::Texture2D { desc: depth_texture_desc(clamped, layers as u32, true) },
        );
        requests.push(
            DeviceRequest::DepthStencilState {
                desc: depth_stencil_desc(true, ComparisonFunc::LessEqual),
            },
        );
        let mut layer: u16 = 0;
        while layer < layers
            invariant
                layer <= layers,
                clamped == spec_clamp_size(size, 4),
                requests@.len() == layer + 2,
                forall|i: int|
                    0 <= i < layer + 2 ==> requests@[i] == Self::spec_request(size, layers, i),
            decreases layers - layer,
        {
            requests.push(
                DeviceRequest::DepthStencilView {
                    texture_back: layer as usize + 2,
                    desc: ViewDesc {
                        format: DxgiFormat::D32Float,
                        dimension: ViewDimension::Texture2DArray {
                            first_slice: layer as u32,
                            slice_count: 1,
                        },
                        first_mip: 0,
                        mip_levels: 1,
                    },
                },
            );
            layer += 1;
        }
        requests.push(
            DeviceRequest::ShaderResourceView {
                texture_back: layers as usize + 2,
                desc: ViewDesc {
                    format: DxgiFormat::R32Float,
                    dimension: ViewDimension::Texture2DArray {
                        first_slice: 0,
                        slice_count: layers as u32,
                    },
                    first_mip: 0,
                    mip_levels: 1,
                },
            },
        );
        proof {
            assert(requests@ =~= Self::spec_creation_requests(size, layers));
        }
        requests
    }

    /// Puts a shadow depth map together from the objects created for its
    /// requests. It fails with the failure of the first object that is missing.
    pub fn create(size: (u32, u32), layers: u16, objects: &[Option<ResourceId>]) -> (r: Result<
        ShadowDepthMap,
        CreateError,
    >)
        ensures
            r is Ok <==> first_missing(objects@, 0, layers + 3) == layers + 3,
            r is Ok ==> Self::spec_made_of(r->Ok_0, size, layers, objects@),
            r is Err ==> r->Err_0 == Self::spec_step_error(
                layers,
                first_missing(objects@, 0, layers + 3),
            ),
    {
        let count: usize = layers as usize + 3;
        let missing = find_first_missing(objects, 0, count);
        proof {
            lemma_first_missing(objects@, 0, count as int);
        }
        if missing < count {
            let e = if missing == 0 {
                CreateError::DepthTexture
            } else if missing == 1 {
                CreateError::DepthStencilState
            } else if missing < layers as usize + 2 {
                CreateError::DepthStencilView
            } else {
                CreateError::DepthShaderResourceView
            };
            return Err(e);
        }
        proof {
            assert(created(objects@, 0) is Some);
            assert(created(objects@, 1) is Some);
            assert(created(objects@, layers + 2) is Some);
        }
        let mut views: Vec<ResourceId> = Vec::new();
        let mut layer: usize = 0;
        while layer < layers as usize
            invariant
                layer <= layers,
                objects@.len() >= layers + 3,
                views@.len() == layer,
                forall|i: int| 0 <= i < layers + 3 ==> (#[trigger] created(objects@, i)) is Some,
                forall|i: int|
                    0 <= i < layer ==> views@[i] == (#[trigger] created(objects@, i + 2))->0,
            decreases layers - layer,
        {
            proof {
                assert(created(objects@, layer + 2) is Some);
            }
            views.push(objects[layer + 2].unwrap());
            layer += 1;
        }
        Ok(
            ShadowDepthMap {
                texture: objects[0].unwrap(),
                state: objects[1].unwrap(),
                views,
                texture_view: objects[layers as usize + 2].unwrap(),
                layers,
                size: clamp_size(size, 4),
            },
        )
    }

    /// Replaces the map by one of the new size with as many layers. If an
    /// object is missing the map stays as it was.
    pub fn resize(&mut self, new_size: (u32, u32), objects: &[Option<ResourceId>]) -> (r: Result<
        (),
        CreateError,
    >)
        ensures
            r is Ok <==> first_missing(objects@, 0, old(self).layers + 3) == old(self).layers + 3,
            r is Ok ==> Self::spec_made_of(*final(self), new_size, old(self).layers, objects@),
            r is Err ==> *final(self) == *old(self) && r->Err_0 == Self::spec_step_error(
                old(self).layers,
                first_missing(objects@, 0, old(self).layers + 3),
            ),
    {
        match Self::create(new_size, self.layers, objects) {
            Ok(map) => {
                *self = map;
                Ok(())
            },
            Err(e) => Err(e),
        }
    }
}

} // verus!
