//! Debug shapes: wire cubes, lines and custom meshes that are drawn over
//! the scene, and the index lists they are drawn with.

use crate::command::{
    append_commands, created, find_first_missing, first_missing, lemma_first_missing, DxgiFormat,
    GpuCommand, PrimitiveType, ResourceId, ShaderStage,
};
use genmesh::generators::{Cube, IndexedPolygon};
use genmesh::{Quad, Triangulate};
use vstd::prelude::*;

verus! {

/// The constant buffer slot of the shape constants.
pub const SHAPE_SCOPE_SLOT: u32 = 10;

/// Bytes of one vertex of a shape: four channels of 32 bits.
pub const SHAPE_VERTEX_STRIDE: u32 = 16;

/// The faces of the cube of `genmesh`, each by the four places that its
/// corners have among the shared vertices, as `Cube::new` and
/// `indexed_polygon_iter` give them. What is taken on trust: the cube has
/// six faces, and face `i` has the corners `4i`, `4i + 1`, `4i + 2` and
/// `4i + 3`, in this order.
#[verifier::external_body]
fn cube_quads() -> (quads: Vec<(usize, usize, usize, usize)>)
    ensures
        quads@.len() == 6,
        forall|i: int|
            0 <= i < 6 ==> #[trigger] quads@[i] == (
                (4 * i) as usize,
                (4 * i + 1) as usize,
                (4 * i + 2) as usize,
                (4 * i + 3) as usize,
            ),
{
    Cube::new().indexed_polygon_iter().map(|q| (q.x, q.y, q.z, q.w)).collect()
}

/// Cuts quads into triangles with `triangulate` of `genmesh`. What is taken
/// on trust: each quad with the corners x, y, z, w gives the triangle x, y,
/// z and then the triangle z, w, x, and the quads are cut in their order.
#[verifier::external_body]
fn triangulate_quads(quads: &Vec<(usize, usize, usize, usize)>) -> (triangles: Vec<
    (usize, usize, usize),
>)
    ensures
        triangles@.len() == 2 * quads@.len(),
        forall|i: int|
            0 <= i < quads@.len() ==> (#[trigger] triangles@[2 * i]) == (
                quads@[i].0,
                quads@[i].1,
                quads@[i].2,
            ) && triangles@[2 * i + 1] == (quads@[i].2, quads@[i].3, quads@[i].0),
{
    quads.iter().map(|q| Quad::new(q.0, q.1, q.2, q.3)).triangulate().map(
        |t| (t.x, t.y, t.z),
    ).collect()
}

/// The corner of a face at which place `j` of the face's eight outline
/// indices stands: the four edges of the face, one after the other.
pub open spec fn spec_outline_corner(j: int) -> int {
    if j == 0 {
        0
    } else if j == 1 || j == 2 {
        1
    } else if j == 3 || j == 4 {
        2
    } else if j == 5 || j == 6 {
        3
    } else {
        0
    }
}

/// The corner of a face at which place `j` of the face's six side indices
/// stands: the two triangles that the face is cut into.
pub open spec fn spec_side_corner(j: int) -> int {
    if j == 0 {
        0
    } else if j == 1 {
        1
    } else if j == 2 || j == 3 {
        2
    } else if j == 4 {
        3
    } else {
        0
    }
}

/// The indices that draw the edges of the cube as a list of lines.
pub open spec fn spec_cube_outline_indices() -> Seq<u16> {
    Seq::new(48, |k: int| (4 * (k / 8) + spec_outline_corner(k % 8)) as u16)
}

/// The indices that draw the faces of the cube as a list of triangles.
pub open spec fn spec_cube_side_indices() -> Seq<u16> {
    Seq::new(36, |k: int| (4 * (k / 6) + spec_side_corner(k % 6)) as u16)
}

/// Lists the indices that draw the twelve edges of the cube, each edge of
/// each face as one line.
pub fn cube_outline_indices() -> (indices: Vec<u16>)
    ensures
        indices@ == spec_cube_outline_indices(),
{
    let quads = cube_quads();
    let mut indices: Vec<u16> = Vec::new();
    let mut f: usize = 0;
    while f < 6
        invariant
            f <= 6,
            quads@.len() == 6,
            forall|i: int|
                0 <= i < 6 ==> #[trigger] quads@[i] == (
                    (4 * i) as usize,
                    (4 * i + 1) as usize,
                    (4 * i + 2) as usize,
                    (4 * i + 3) as usize,
                ),
            indices@.len() == 8 * f,
            forall|k: int|
                0 <= k < 8 * f ==> indices@[k] == (4 * (k / 8) + spec_outline_corner(k % 8)) as u16,
        decreases 6 - f,
    {
        let quad = quads[f];
        let x: u16 = quad.0 as u16;
        let y: u16 = quad.1 as u16;
        let z: u16 = quad.2 as u16;
        let w: u16 = quad.3 as u16;
        indices.push(x);
        indices.push(y);
        indices.push(y);
        indices.push(z);
        indices.push(z);
        indices.push(w);
        indices.push(w);
        indices.push(x);
        f += 1;
    }
    proof {
        assert(indices@ =~= spec_cube_outline_indices());
    }
    indices
}

/// Lists the indices that draw the six faces of the cube, each face as two
/// triangles.
pub fn cube_side_indices() -> (indices: Vec<u16>)
    ensures
        indices@ == spec_cube_side_indices(),
{
    let quads = cube_quads();
    let triangles = triangulate_quads(&quads);
    let mut indices: Vec<u16> = Vec::new();
    let mut t: usize = 0;
    while t < 12
        invariant
            t <= 12,
            quads@.len() == 6,
            triangles@.len() == 12,
            forall|i: int|
                0 <= i < 6 ==> #[trigger] quads@[i] == (
                    (4 * i) as usize,
                    (4 * i + 1) as usize,
                    (4 * i + 2) as usize,
                    (4 * i + 3) as usize,
                ),
            forall|i: int|
                0 <= i < 6 ==> (#[trigger] triangles@[2 * i]) == (
                    quads@[i].0,
                    quads@[i].1,
                    quads@[i].2,
                ) && triangles@[2 * i + 1] == (quads@[i].2, quads@[i].3, quads@[i].0),
            indices@.len() == 3 * t,
            forall|k: int|
                0 <= k < 3 * t ==> indices@[k] == (4 * (k / 6) + spec_side_corner(k % 6)) as u16,
        decreases 12 - t,
    {
        proof {
            let face = (t / 2) as int;
            assert(quads@[face] == (
                (4 * face) as usize,
                (4 * face + 1) as usize,
                (4 * face + 2) as usize,
                (4 * face + 3) as usize,
            ));
            assert(triangles@[2 * face] == (quads@[face].0, quads@[face].1, quads@[face].2));
            assert(triangles@[2 * face + 1] == (quads@[face].2, quads@[face].3, quads@[face].0));
        }
        let triangle = triangles[t];
        indices.push(triangle.0 as u16);
        indices.push(triangle.1 as u16);
        indices.push(triangle.2 as u16);
        t += 1;
    }
    proof {
        assert(indices@ =~= spec_cube_side_indices());
    }
    indices
}

/// The corner of a triangle at which place `j` of the triangle's six
/// outline indices stands: its three edges, one after the other.
pub open spec fn spec_triangle_edge_corner(j: int) -> int {
    if j == 0 || j == 5 {
        0
    } else if j == 1 || j == 2 {
        1
    } else {
        2
    }
}

/// The list of lines that draws the edges of the triangles of a list of
/// triangles. Indices behind the last whole triangle are left out.
pub open spec fn spec_outline_indices(indices: Seq<u16>) -> Seq<u16> {
    Seq::new(
        (6 * (indices.len() / 3)) as nat,
        |k: int| indices[3 * (k / 6) + spec_triangle_edge_corner(k % 6)],
    )
}

/// Turns the indices of a list of triangles into the indices of the list of
/// lines that draws the edges of the triangles.
pub fn outline_indices(indices: &[u16]) -> (outline: Vec<u16>)
    ensures
        outline@ == spec_outline_indices(indices@),
{
    let triangles: usize = indices.len() / 3;
    let mut outline: Vec<u16> = Vec::new();
    let mut t: usize = 0;
    while t < triangles
        invariant
            t <= triangles,
            indices@.len() <= usize::MAX,
            triangles == indices@.len() / 3,
            outline@.len() == 6 * t,
            forall|k: int|
                0 <= k < 6 * t ==> outline@[k] == indices@[3 * (k / 6) + spec_triangle_edge_corner(
                    k % 6,
                )],
        decreases triangles - t,
    {
        assert(3 * t + 2 < indices@.len());
        let a = indices[3 * t];
        let b = indices[3 * t + 1];
        let c = indices[3 * t + 2];
        outline.push(a);
        outline.push(b);
        outline.push(b);
        outline.push(c);
        outline.push(c);
        outline.push(a);
        t += 1;
    }
    proof {
        assert(outline@ =~= spec_outline_indices(indices@));
    }
    outline
}

/// Each triangle gives three lines, and each line joins two corners of the
/// triangle: the first with the second, the second with the third, the third
/// with the first.
pub proof fn lemma_outline_joins_corners(indices: Seq<u16>, t: int)
    requires
        0 <= t < indices.len() / 3,
    ensures
        spec_outline_indices(indices).len() == 6 * (indices.len() / 3),
        spec_outline_indices(indices).subrange(6 * t, 6 * t + 6) == seq![
            indices[3 * t],
            indices[3 * t + 1],
            indices[3 * t + 1],
            indices[3 * t + 2],
            indices[3 * t + 2],
            indices[3 * t],
        ],
{
    assert(spec_outline_indices(indices).subrange(6 * t, 6 * t + 6) =~= seq![
        indices[3 * t],
        indices[3 * t + 1],
        indices[3 * t + 1],
        indices[3 * t + 2],
        indices[3 * t + 2],
        indices[3 * t],
    ]);
}

/// Why a shape could not be made.
#[derive(Clone, Copy, PartialEq, Eq, Structural, Debug)]
pub enum ShapeError {
    /// A buffer of the shape would be larger than a buffer can be.
    TooLarge,
    OutlineIndexBuffer,
    SideIndexBuffer,
    VertexBuffer,
}

/// The sizes of the three buffers of a custom shape, in bytes.
#[derive(Clone, Copy, PartialEq, Eq, Structural, Debug)]
pub struct ShapeBufferSizes {
    pub outline_index_bytes: u32,
    pub side_index_bytes: u32,
    pub vertex_bytes: u32,
}

/// A mesh that is drawn as a debug shape: its vertices, the indices of its
/// edges and the indices of its faces.
#[derive(Clone, Copy, PartialEq, Eq, Structural, Debug)]
pub struct CustomDebugShape {
    pub vb: ResourceId,
    pub ib: ResourceId,
    pub ib_sides: ResourceId,
    pub outline_index_count: u32,
    pub index_count: u32,
}

impl CustomDebugShape {
    /// The sizes of the buffers of a shape with so many vertices and
    /// indices; none where one of them does not fit in 32 bits.
    pub open spec fn spec_buffer_sizes(vertex_count: int, index_count: int) -> Option<
        ShapeBufferSizes,
    > {
        if 12 * (index_count / 3) > u32::MAX || 2 * index_count > u32::MAX || 16 * vertex_count
            > u32::MAX {
            None
        } else {
            Some(
                ShapeBufferSizes {
                    outline_index_bytes: (12 * (index_count / 3)) as u32,
                    side_index_bytes: (2 * index_count) as u32,
                    vertex_bytes: (16 * vertex_count) as u32,
                },
            )
        }
    }

    /// The shape made of the three buffers that the device created: the
    /// outline index buffer, the side index buffer and the vertex buffer, in
    /// this order.
    pub open spec fn spec_new(
        vertex_count: int,
        index_count: int,
        objects: Seq<Option<ResourceId>>,
    ) -> Result<CustomDebugShape, ShapeError> {
        if Self::spec_buffer_sizes(vertex_count, index_count) is None {
            Err(ShapeError::TooLarge)
        } else if created(objects, 0) is None {
            Err(ShapeError::OutlineIndexBuffer)
        } else if created(objects, 1) is None {
            Err(ShapeError::SideIndexBuffer)
        } else if created(objects, 2) is None {
            Err(ShapeError::VertexBuffer)
        } else {
            Ok(
                CustomDebugShape {
                    ib: created(objects, 0)->0,
                    ib_sides: created(objects, 1)->0,
                    vb: created(objects, 2)->0,
                    outline_index_count: (6 * (index_count / 3)) as u32,
                    index_count: index_count as u32,
                },
            )
        }
    }

    pub fn buffer_sizes(vertex_count: usize, index_count: usize) -> (sizes: Option<
        ShapeBufferSizes,
    >)
        ensures
            sizes == Self::spec_buffer_sizes(vertex_count as int, index_count as int),
    {
        let outline: u128 = 12 * (index_count as u128 / 3);
        let side: u128 = 2 * (index_count as u128);
        let vertex: u128 = 16 * (vertex_count as u128);
        if outline > 0xffff_ffff || side > 0xffff_ffff || vertex > 0xffff_ffff {
            return None;
        }
        Some(
            ShapeBufferSizes {
                outline_index_bytes: outline as u32,
                side_index_bytes: side as u32,
                vertex_bytes: vertex as u32,
            },
        )
    }

    /// Puts a shape together from the buffers that the device created for
    /// `vertex_count` vertices, the outline of `indices` and `indices`.
    pub fn new(vertex_count: usize, indices: &[u16], objects: &[Option<ResourceId>]) -> (r: Result<
        CustomDebugShape,
        ShapeError,
    >)
        ensures
            r == Self::spec_new(vertex_count as int, indices@.len() as int, objects@),
    {
        if Self::buffer_sizes(vertex_count, indices.len()).is_none() {
            return Err(ShapeError::TooLarge);
        }
        let ib = match crate::command::object_at(objects, 0) {
            Some(buffer) => buffer,
            None => { return Err(ShapeError::OutlineIndexBuffer); },
        };
        let ib_sides = match crate::command::object_at(objects, 1) {
            Some(buffer) => buffer,
            None => { return Err(ShapeError::SideIndexBuffer); },
        };
        let vb = match crate::command::object_at(objects, 2) {
            Some(buffer) => buffer,
            None => { return Err(ShapeError::VertexBuffer); },
        };
        Ok(
            CustomDebugShape {
                vb,
                ib,
                ib_sides,
                outline_index_count: (6 * (indices.len() / 3)) as u32,
                index_count: indices.len() as u32,
            },
        )
    }
}

/// What is drawn as a debug shape. Where the shape is and which colour it
/// has is kept by the caller, under the place of the shape in the list.
#[allow(inconsistent_fields)]
#[derive(Clone, Copy, PartialEq, Eq, Structural, Debug)]
pub enum DebugShape {
    Cube { sides: bool },
    Line,
    Custom { shape: CustomDebugShape, sides: bool },
}

/// The debug shapes that wait to be drawn.
#[derive(Debug)]
pub struct DebugShapes {
    shapes: Vec<DebugShape>,
}

impl View for DebugShapes {
    type V = Seq<DebugShape>;

    closed spec fn view(&self) -> Seq<DebugShape> {
        self.shapes@
    }
}

impl DebugShapes {
    pub fn new() -> (shapes: Self)
        ensures
            shapes@ == Seq::<DebugShape>::empty(),
    {
        DebugShapes { shapes: Vec::new() }
    }

    /// Adds a cube, with or without its faces.
    pub fn cube(&mut self, sides: bool)
        ensures
            final(self)@ == old(self)@.push(DebugShape::Cube { sides }),
    {
        self.shapes.push(DebugShape::Cube { sides });
    }

    /// Adds a line.
    pub fn line(&mut self)
        ensures
            final(self)@ == old(self)@.push(DebugShape::Line),
    {
        self.shapes.push(DebugShape::Line);
    }

    /// Adds a custom shape, with or without its faces.
    pub fn custom_shape(&mut self, shape: CustomDebugShape, sides: bool)
        ensures
            final(self)@ == old(self)@.push(DebugShape::Custom { shape, sides }),
    {
        self.shapes.push(DebugShape::Custom { shape, sides });
    }

    /// Returns the shapes that wait, in the order in which they were added,
    /// and leaves none waiting.
    pub fn shape_list(&mut self) -> (list: Vec<DebugShape>)
        ensures
            list@ == old(self)@,
            final(self)@ == Seq::<DebugShape>::empty(),
    {
        let mut list: Vec<DebugShape> = Vec::new();
        list.append(&mut self.shapes);
        list
    }
}

/// The object of the shape renderer that the device did not create.
#[derive(Clone, Copy, PartialEq, Eq, Structural, Debug)]
pub enum DebugRendererError {
    VertexShader,
    LineVertexShader,
    InputLayout,
    PixelShader,
    LinePixelShader,
    OutlineIndexBuffer,
    SideIndexBuffer,
    VertexBuffer,
    ShapeConstants,
    LineConstants,
}

/// The device objects that debug shapes are drawn with.
#[derive(Clone, Copy, PartialEq, Eq, Structural, Debug)]
pub struct DebugShapeRenderer {
    pub scope: ResourceId,
    pub scope_line: ResourceId,
    pub vshader: ResourceId,
    pub vshader_line: ResourceId,
    pub pshader: ResourceId,
    pub pshader_line: ResourceId,
    pub input_layout: ResourceId,
    pub vb_cube: ResourceId,
    pub ib_cube: ResourceId,
    pub ib_cube_sides: ResourceId,
    pub cube_outline_index_count: u32,
    pub cube_index_count: u32,
}

impl DebugShapeRenderer {
    /// The failure that a missing object at place `step` means. The objects
    /// are created in the order of the variants of the error.
    pub open spec fn spec_step_error(step: int) -> DebugRendererError {
        if step == 0 {
            DebugRendererError::VertexShader
        } else if step == 1 {
            DebugRendererError::LineVertexShader
        } else if step == 2 {
            DebugRendererError::InputLayout
        } else if step == 3 {
            DebugRendererError::PixelShader
        } else if step == 4 {
            DebugRendererError::LinePixelShader
        } else if step == 5 {
            DebugRendererError::OutlineIndexBuffer
        } else if step == 6 {
            DebugRendererError::SideIndexBuffer
        } else if step == 7 {
            DebugRendererError::VertexBuffer
        } else if step == 8 {
            DebugRendererError::ShapeConstants
        } else {
            DebugRendererError::LineConstants
        }
    }

    pub open spec fn spec_new(objects: Seq<Option<ResourceId>>) -> Result<
        DebugShapeRenderer,
        DebugRendererError,
    > {
        let missing = first_missing(objects, 0, 10);
        if missing < 10 {
            Err(Self::spec_step_error(missing))
        } else {
            Ok(
                DebugShapeRenderer {
                    vshader: created(objects, 0)->0,
                    vshader_line: created(objects, 1)->0,
                    input_layout: created(objects, 2)->0,
                    pshader: created(objects, 3)->0,
                    pshader_line: created(objects, 4)->0,
                    ib_cube: created(objects, 5)->0,
                    ib_cube_sides: created(objects, 6)->0,
                    vb_cube: created(objects, 7)->0,
                    scope: created(objects, 8)->0,
                    scope_line: created(objects, 9)->0,
                    cube_outline_index_count: 48,
                    cube_index_count: 36,
                },
            )
        }
    }

    /// The commands that draw a mesh as a shape: its edges as lines, and,
    /// if `sides`, its faces as triangles in a faint colour.
    pub open spec fn spec_mesh_commands(
        self,
        place: usize,
        vb: ResourceId,
        ib: ResourceId,
        ib_sides: ResourceId,
        outline_index_count: u32,
        index_count: u32,
        sides: bool,
    ) -> Seq<GpuCommand> {
        seq![
            GpuCommand::WriteShapeConstants { buffer: self.scope, shape: place, translucent: false },
            GpuCommand::BindConstantBuffer {
                buffer: self.scope,
                slot: SHAPE_SCOPE_SLOT,
                stage: ShaderStage::Vertex,
            },
            GpuCommand::BindConstantBuffer {
                buffer: self.scope,
                slot: SHAPE_SCOPE_SLOT,
                stage: ShaderStage::Pixel,
            },
            GpuCommand::SetInputLayoutObject { layout: self.input_layout },
            GpuCommand::SetVertexShader { shader: self.vshader },
            GpuCommand::SetPixelShader { shader: self.pshader },
            GpuCommand::SetVertexBuffer { buffer: vb, stride: SHAPE_VERTEX_STRIDE },
            GpuCommand::SetIndexBuffer { buffer: ib, format: DxgiFormat::R16Uint },
            GpuCommand::SetInputTopology { topology: PrimitiveType::LineList },
            GpuCommand::DrawIndexed {
                index_count: outline_index_count,
                index_start: 0,
                base_vertex: 0,
            },
        ] + (if sides {
            seq![
                GpuCommand::WriteShapeConstants {
                    buffer: self.scope,
                    shape: place,
                    translucent: true,
                },
                GpuCommand::SetVertexBuffer { buffer: vb, stride: SHAPE_VERTEX_STRIDE },
                GpuCommand::SetIndexBuffer { buffer: ib_sides, format: DxgiFormat::R16Uint },
                GpuCommand::SetInputTopology { topology: PrimitiveType::Triangles },
                GpuCommand::DrawIndexed { index_count, index_start: 0, base_vertex: 0 },
            ]
        } else {
            Seq::<GpuCommand>::empty()
        })
    }

    /// The commands that draw the shape at place `place` of the list.
    pub open spec fn spec_shape_commands(self, place: usize, shape: DebugShape) -> Seq<GpuCommand> {
        match shape {
            DebugShape::Custom { shape, sides } => self.spec_mesh_commands(
                place,
                shape.vb,
                shape.ib,
                shape.ib_sides,
                shape.outline_index_count,
                shape.index_count,
                sides,
            ),
            DebugShape::Cube { sides } => self.spec_mesh_commands(
                place,
                self.vb_cube,
                self.ib_cube,
                self.ib_cube_sides,
                self.cube_outline_index_count,
                self.cube_index_count,
                sides,
            ),
            DebugShape::Line => seq![
                GpuCommand::WriteLineConstants { buffer: self.scope_line, shape: place },
                GpuCommand::BindConstantBuffer {
                    buffer: self.scope_line,
                    slot: SHAPE_SCOPE_SLOT,
                    stage: ShaderStage::Vertex,
                },
                GpuCommand::BindConstantBuffer {
                    buffer: self.scope_line,
                    slot: SHAPE_SCOPE_SLOT,
                    stage: ShaderStage::Pixel,
                },
                GpuCommand::SetVertexShader { shader: self.vshader_line },
                GpuCommand::SetPixelShader { shader: self.pshader_line },
                GpuCommand::SetInputTopology { topology: PrimitiveType::LineList },
                GpuCommand::Draw { vertex_count: 2, vertex_start: 0 },
            ],
        }
    }

    /// The commands that draw the first `n` shapes of a list.
    pub open spec fn spec_draw_all(self, shapes: Seq<DebugShape>, n: nat) -> Seq<GpuCommand>
        decreases n,
    {
        if n == 0 {
            Seq::empty()
        } else {
            self.spec_draw_all(shapes, (n - 1) as nat) + self.spec_shape_commands(
                (n - 1) as usize,
                shapes[n - 1],
            )
        }
    }

    /// Puts the renderer together from the objects that the device created,
    /// and reports the first that is missing. The cube is drawn with the
    /// index lists of `cube_outline_indices` and `cube_side_indices`.
    pub fn new(objects: &[Option<ResourceId>]) -> (r: Result<
        DebugShapeRenderer,
        DebugRendererError,
    >)
        ensures
            r == Self::spec_new(objects@),
            r is Ok ==> r->Ok_0.cube_outline_index_count == spec_cube_outline_indices().len()
                && r->Ok_0.cube_index_count == spec_cube_side_indices().len(),
    {
        let missing = find_first_missing(objects, 0, 10);
        proof {
            lemma_first_missing(objects@, 0, 10);
        }
        if missing < 10 {
            let e = if missing == 0 {
                DebugRendererError::VertexShader
            } else if missing == 1 {
                DebugRendererError::LineVertexShader
            } else if missing == 2 {
                DebugRendererError::InputLayout
            } else if missing == 3 {
                DebugRendererError::PixelShader
            } else if missing == 4 {
                DebugRendererError::LinePixelShader
            } else if missing == 5 {
                DebugRendererError::OutlineIndexBuffer
            } else if missing == 6 {
                DebugRendererError::SideIndexBuffer
            } else if missing == 7 {
                DebugRendererError::VertexBuffer
            } else if missing == 8 {
                DebugRendererError::ShapeConstants
            } else {
                DebugRendererError::LineConstants
            };
            return Err(e);
        }
        proof {
            assert(created(objects@, 0) is Some);
            assert(created(objects@, 1) is Some);
            assert(created(objects@, 2) is Some);
            assert(created(objects@, 3) is Some);
            assert(created(objects@, 4) is Some);
            assert(created(objects@, 5) is Some);
            assert(created(objects@, 6) is Some);
            assert(created(objects@, 7) is Some);
            assert(created(objects@, 8) is Some);
            assert(created(objects@, 9) is Some);
        }
        Ok(
            DebugShapeRenderer {
                vshader: objects[0].unwrap(),
                vshader_line: objects[1].unwrap(),
                input_layout: objects[2].unwrap(),
                pshader: objects[3].unwrap(),
                pshader_line: objects[4].unwrap(),
                ib_cube: objects[5].unwrap(),
                ib_cube_sides: objects[6].unwrap(),
                vb_cube: objects[7].unwrap(),
                scope: objects[8].unwrap(),
                scope_line: objects[9].unwrap(),
                cube_outline_index_count: 48,
                cube_index_count: 36,
            },
        )
    }

    fn mesh_commands(
        &self,
        place: usize,
        vb: ResourceId,
        ib: ResourceId,
        ib_sides: ResourceId,
        outline_index_count: u32,
        index_count: u32,
        sides: bool,
    ) -> (commands: Vec<GpuCommand>)
        ensures
            commands@ == self.spec_mesh_commands(
                place,
                vb,
                ib,
                ib_sides,
                outline_index_count,
                index_count,
                sides,
            ),
    {
        let mut commands: Vec<GpuCommand> = Vec::new();
        commands.push(
            GpuCommand::WriteShapeConstants { buffer: self.scope, shape: place, translucent: false },
        );
        commands.push(
            GpuCommand::BindConstantBuffer {
                buffer: self.scope,
                slot: SHAPE_SCOPE_SLOT,
                stage: ShaderStage::Vertex,
            },
        );
        commands.push(
            GpuCommand::BindConstantBuffer {
                buffer: self.scope,
                slot: SHAPE_SCOPE_SLOT,
                stage: ShaderStage::Pixel,
            },
        );
        commands.push(GpuCommand::SetInputLayoutObject { layout: self.input_layout });
        commands.push(GpuCommand::SetVertexShader { shader: self.vshader });
        commands.push(GpuCommand::SetPixelShader { shader: self.pshader });
        commands.push(GpuCommand::SetVertexBuffer { buffer: vb, stride: SHAPE_VERTEX_STRIDE });
        commands.push(GpuCommand::SetIndexBuffer { buffer: ib, format: DxgiFormat::R16Uint });
        commands.push(GpuCommand::SetInputTopology { topology: PrimitiveType::LineList });
        commands.push(
            GpuCommand::DrawIndexed {
                index_count: outline_index_count,
                index_start: 0,
                base_vertex: 0,
            },
        );
        if sides {
            commands.push(
                GpuCommand::WriteShapeConstants {
                    buffer: self.scope,
                    shape: place,
                    translucent: true,
                },
            );
            commands.push(GpuCommand::SetVertexBuffer { buffer: vb, stride: SHAPE_VERTEX_STRIDE });
            commands.push(
                GpuCommand::SetIndexBuffer { buffer: ib_sides, format: DxgiFormat::R16Uint },
            );
            commands.push(GpuCommand::SetInputTopology { topology: PrimitiveType::Triangles });
            commands.push(GpuCommand::DrawIndexed { index_count, index_start: 0, base_vertex: 0 });
        }
        proof {
            assert(commands@ =~= self.spec_mesh_commands(
                place,
                vb,
                ib,
                ib_sides,
                outline_index_count,
                index_count,
                sides,
            ));
        }
        commands
    }

    /// Plans the drawing of every shape that waits, in the order in which
    /// the shapes were added, and leaves none waiting.
    pub fn draw_all(&self, shapes: &mut DebugShapes) -> (commands: Vec<GpuCommand>)
        ensures
            commands@ == self.spec_draw_all(old(shapes)@, old(shapes)@.len()),
            final(shapes)@ == Seq::<DebugShape>::empty(),
    {
        let list = shapes.shape_list();
        let mut commands: Vec<GpuCommand> = Vec::new();
        let mut i: usize = 0;
        while i < list.len()
            invariant
                i <= list@.len(),
                commands@ == self.spec_draw_all(list@, i as nat),
            decreases list.len() - i,
        {
            let own = match list[i] {
                DebugShape::Custom { shape, sides } => self.mesh_commands(
                    i,
                    shape.vb,
                    shape.ib,
                    shape.ib_sides,
                    shape.outline_index_count,
                    shape.index_count,
                    sides,
                ),
                DebugShape::Cube { sides } => self.mesh_commands(
                    i,
                    self.vb_cube,
                    self.ib_cube,
                    self.ib_cube_sides,
                    self.cube_outline_index_count,
                    self.cube_index_count,
                    sides,
                ),
                DebugShape::Line => {
                    let mut line: Vec<GpuCommand> = Vec::new();
                    line.push(GpuCommand::WriteLineConstants { buffer: self.scope_line, shape: i });
                    line.push(
                        GpuCommand::BindConstantBuffer {
                            buffer: self.scope_line,
                            slot: SHAPE_SCOPE_SLOT,
                            stage: ShaderStage::Vertex,
                        },
                    );
                    line.push(
                        GpuCommand::BindConstantBuffer {
                            buffer: self.scope_line,
                            slot: SHAPE_SCOPE_SLOT,
                            stage: ShaderStage::Pixel,
                        },
                    );
                    line.push(GpuCommand::SetVertexShader { shader: self.vshader_line });
                    line.push(GpuCommand::SetPixelShader { shader: self.pshader_line });
                    line.push(GpuCommand::SetInputTopology { topology: PrimitiveType::LineList });
                    line.push(GpuCommand::Draw { vertex_count: 2, vertex_start: 0 });
                    proof {
                        assert(line@ =~= self.spec_shape_commands(i, DebugShape::Line));
                    }
                    line
                },
            };
            append_commands(&mut commands, &own);
            i += 1;
        }
        commands
    }
}

} // verus!
