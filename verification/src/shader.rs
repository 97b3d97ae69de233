//! Shader programs: a vertex shader, a pixel shader, and between them a
//! geometry shader where the program has one.

use crate::command::{created, GpuCommand, ResourceId};
use vstd::prelude::*;

verus! {

/// The shader of a program that the device did not create.
#[derive(Clone, Copy, PartialEq, Eq, Structural, Debug)]
pub enum ShaderError {
    VertexShader,
    GeometryShader,
    PixelShader,
}

/// The shaders that are bound together.
#[derive(Clone, Copy, PartialEq, Eq, Structural, Debug)]
pub struct ShaderProgram {
    pub vs: ResourceId,
    pub gs: Option<ResourceId>,
    pub ps: ResourceId,
}

impl ShaderProgram {
    /// The program that the created shaders make up. The shaders are
    /// created in the order vertex, geometry, pixel; a program without a
    /// geometry shader has the pixel shader in second place.
    pub open spec fn spec_load(with_geometry: bool, objects: Seq<Option<ResourceId>>) -> Result<
        ShaderProgram,
        ShaderError,
    > {
        let pixel_at: int = if with_geometry {
            2
        } else {
            1
        };
        if created(objects, 0) is None {
            Err(ShaderError::VertexShader)
        } else if with_geometry && created(objects, 1) is None {
            Err(ShaderError::GeometryShader)
        } else if created(objects, pixel_at) is None {
            Err(ShaderError::PixelShader)
        } else {
            Ok(
                ShaderProgram {
                    vs: created(objects, 0)->0,
                    gs: if with_geometry {
                        created(objects, 1)
                    } else {
                        None
                    },
                    ps: created(objects, pixel_at)->0,
                },
            )
        }
    }

    pub open spec fn spec_bind(self) -> Seq<GpuCommand> {
        seq![GpuCommand::SetVertexShader { shader: self.vs }] + (match self.gs {
            Some(shader) => seq![GpuCommand::SetGeometryShader { shader }],
            None => Seq::<GpuCommand>::empty(),
        }) + seq![GpuCommand::SetPixelShader { shader: self.ps }]
    }

    /// Puts a program together from the shaders that the device created
    /// from its byte code, and reports the first that is missing.
    pub fn load(with_geometry: bool, objects: &[Option<ResourceId>]) -> (r: Result<
        ShaderProgram,
        ShaderError,
    >)
        ensures
            r == Self::spec_load(with_geometry, objects@),
    {
        let vs = match crate::command::object_at(objects, 0) {
            Some(shader) => shader,
            None => { return Err(ShaderError::VertexShader); },
        };
        let mut gs: Option<ResourceId> = None;
        let mut pixel_at: usize = 1;
        if with_geometry {
            match crate::command::object_at(objects, 1) {
                Some(shader) => {
                    gs = Some(shader);
                },
                None => { return Err(ShaderError::GeometryShader); },
            }
            pixel_at = 2;
        }
        let ps = match crate::command::object_at(objects, pixel_at) {
            Some(shader) => shader,
            None => { return Err(ShaderError::PixelShader); },
        };
        Ok(ShaderProgram { vs, gs, ps })
    }

    /// Binds the vertex shader, the geometry shader if the program has one,
    /// and the pixel shader. A geometry shader that is bound already stays
    /// bound where the program has none.
    pub fn bind(&self) -> (commands: Vec<GpuCommand>)
        ensures
            commands@ == self.spec_bind(),
    {
        let mut commands: Vec<GpuCommand> = Vec::new();
        commands.push(GpuCommand::SetVertexShader { shader: self.vs });
        match self.gs {
            Some(shader) => {
                commands.push(GpuCommand::SetGeometryShader { shader });
            },
            None => {},
        }
        commands.push(GpuCommand::SetPixelShader { shader: self.ps });
        proof {
            assert(commands@ =~= self.spec_bind());
        }
        commands
    }
}

} // verus!
