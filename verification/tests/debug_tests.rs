use alkahest_renderer::command::{
    DxgiFormat, GpuCommand, PrimitiveType, ResourceId, ShaderStage,
};
use alkahest_renderer::debug::{
    cube_outline_indices, cube_side_indices, outline_indices, CustomDebugShape, DebugRendererError,
    DebugShape, DebugShapeRenderer, DebugShapes, ShapeBufferSizes, ShapeError,
};
use genmesh::generators::{Cube, IndexedPolygon};
use genmesh::Triangulate;

fn db_renderer() -> DebugShapeRenderer {
    let objects: Vec<Option<ResourceId>> = (0..10u64).map(|i| Some(ResourceId(20 + i))).collect();
    DebugShapeRenderer::new(&objects).unwrap()
}

fn db_shape() -> CustomDebugShape {
    CustomDebugShape::new(
        4,
        &[0, 1, 2, 2, 3, 0],
        &[Some(ResourceId(1)), Some(ResourceId(2)), Some(ResourceId(3))],
    )
    .unwrap()
}

#[test]
fn cube_outline_is_the_four_edges_of_each_face() {
    let mut expected: Vec<u16> = Vec::new();
    for f in 0..6u16 {
        let c = [4 * f, 4 * f + 1, 4 * f + 2, 4 * f + 3];
        expected.extend([c[0], c[1], c[1], c[2], c[2], c[3], c[3], c[0]]);
    }
    assert_eq!(cube_outline_indices(), expected);
    assert_eq!(cube_outline_indices().len(), 48);
}

#[test]
fn cube_sides_are_two_triangles_for_each_face() {
    let mut expected: Vec<u16> = Vec::new();
    for f in 0..6u16 {
        let c = [4 * f, 4 * f + 1, 4 * f + 2, 4 * f + 3];
        expected.extend([c[0], c[1], c[2], c[2], c[3], c[0]]);
    }
    assert_eq!(cube_side_indices(), expected);
    assert_eq!(cube_side_indices().len(), 36);
}

#[test]
fn cube_lists_are_those_of_the_mesh_generator() {
    let mesh = Cube::new();
    let mut sides: Vec<u16> = Vec::new();
    for t in mesh.indexed_polygon_iter().triangulate() {
        sides.extend_from_slice(&[t.x as u16, t.y as u16, t.z as u16]);
    }
    let mut outline: Vec<u16> = Vec::new();
    for q in mesh.indexed_polygon_iter() {
        outline.extend_from_slice(&[
            q.x as u16, q.y as u16, q.y as u16, q.z as u16, q.z as u16, q.w as u16, q.w as u16,
            q.x as u16,
        ]);
    }
    assert_eq!(cube_side_indices(), sides);
    assert_eq!(cube_outline_indices(), outline);
}

#[test]
fn triangles_become_their_three_edges() {
    assert_eq!(outline_indices(&[7, 8, 9]), vec![7, 8, 8, 9, 9, 7]);
    assert_eq!(
        outline_indices(&[0, 1, 2, 2, 3, 0]),
        vec![0, 1, 1, 2, 2, 0, 2, 3, 3, 0, 0, 2]
    );
}

#[test]
fn indices_behind_the_last_whole_triangle_are_left_out() {
    assert_eq!(outline_indices(&[]), Vec::<u16>::new());
    assert_eq!(outline_indices(&[1]), Vec::<u16>::new());
    assert_eq!(outline_indices(&[1, 2]), Vec::<u16>::new());
    assert_eq!(outline_indices(&[1, 2, 3, 4]), vec![1, 2, 2, 3, 3, 1]);
    assert_eq!(outline_indices(&[1, 2, 3, 4, 5]), vec![1, 2, 2, 3, 3, 1]);
}

#[test]
fn shape_buffer_sizes() {
    assert_eq!(
        CustomDebugShape::buffer_sizes(4, 6),
        Some(ShapeBufferSizes { outline_index_bytes: 24, side_index_bytes: 12, vertex_bytes: 64 })
    );
    assert_eq!(
        CustomDebugShape::buffer_sizes(0, 7),
        Some(ShapeBufferSizes { outline_index_bytes: 24, side_index_bytes: 14, vertex_bytes: 0 })
    );
    assert_eq!(
        CustomDebugShape::buffer_sizes(0x0fff_ffff, 0),
        Some(ShapeBufferSizes { outline_index_bytes: 0, side_index_bytes: 0, vertex_bytes: 0xffff_fff0 })
    );
    assert_eq!(CustomDebugShape::buffer_sizes(0x1000_0000, 0), None);
    // 12 bytes of outline for each whole triangle: 357913941 triangles fit
    assert!(CustomDebugShape::buffer_sizes(0, 3 * 357_913_941).is_some());
    assert_eq!(CustomDebugShape::buffer_sizes(0, 3 * 357_913_942), None);
}

#[test]
fn custom_shape_is_made_of_three_buffers() {
    let shape = db_shape();
    assert_eq!(
        shape,
        CustomDebugShape {
            ib: ResourceId(1),
            ib_sides: ResourceId(2),
            vb: ResourceId(3),
            outline_index_count: 12,
            index_count: 6,
        }
    );
    assert_eq!(shape.outline_index_count as usize, outline_indices(&[0, 1, 2, 2, 3, 0]).len());
}

#[test]
fn custom_shape_reports_the_missing_buffer() {
    let indices = [0u16, 1, 2];
    assert_eq!(CustomDebugShape::new(3, &indices, &[]), Err(ShapeError::OutlineIndexBuffer));
    assert_eq!(
        CustomDebugShape::new(3, &indices, &[Some(ResourceId(1)), None, Some(ResourceId(3))]),
        Err(ShapeError::SideIndexBuffer)
    );
    assert_eq!(
        CustomDebugShape::new(3, &indices, &[Some(ResourceId(1)), Some(ResourceId(2))]),
        Err(ShapeError::VertexBuffer)
    );
    assert_eq!(
        CustomDebugShape::new(
            0x1000_0000,
            &indices,
            &[Some(ResourceId(1)), Some(ResourceId(2)), Some(ResourceId(3))]
        ),
        Err(ShapeError::TooLarge)
    );
}

#[test]
fn shapes_wait_in_the_order_in_which_they_were_added() {
    let mut shapes = DebugShapes::new();
    shapes.line();
    shapes.cube(true);
    shapes.custom_shape(db_shape(), false);
    shapes.cube(false);
    assert_eq!(
        shapes.shape_list(),
        vec![
            DebugShape::Line,
            DebugShape::Cube { sides: true },
            DebugShape::Custom { shape: db_shape(), sides: false },
            DebugShape::Cube { sides: false },
        ]
    );
    assert!(shapes.shape_list().is_empty());
}

#[test]
fn shape_renderer_is_made_of_ten_objects() {
    let renderer = db_renderer();
    assert_eq!(renderer.vshader, ResourceId(20));
    assert_eq!(renderer.vshader_line, ResourceId(21));
    assert_eq!(renderer.input_layout, ResourceId(22));
    assert_eq!(renderer.pshader, ResourceId(23));
    assert_eq!(renderer.pshader_line, ResourceId(24));
    assert_eq!(renderer.ib_cube, ResourceId(25));
    assert_eq!(renderer.ib_cube_sides, ResourceId(26));
    assert_eq!(renderer.vb_cube, ResourceId(27));
    assert_eq!(renderer.scope, ResourceId(28));
    assert_eq!(renderer.scope_line, ResourceId(29));
    assert_eq!(renderer.cube_outline_index_count as usize, cube_outline_indices().len());
    assert_eq!(renderer.cube_index_count as usize, cube_side_indices().len());
    let expected = [
        DebugRendererError::VertexShader,
        DebugRendererError::LineVertexShader,
        DebugRendererError::InputLayout,
        DebugRendererError::PixelShader,
        DebugRendererError::LinePixelShader,
        DebugRendererError::OutlineIndexBuffer,
        DebugRendererError::SideIndexBuffer,
        DebugRendererError::VertexBuffer,
        DebugRendererError::ShapeConstants,
        DebugRendererError::LineConstants,
    ];
    for missing in 0..10 {
        let mut objects: Vec<Option<ResourceId>> = (0..10u64).map(|i| Some(ResourceId(i))).collect();
        objects[missing] = None;
        assert_eq!(DebugShapeRenderer::new(&objects), Err(expected[missing]));
    }
}

#[test]
fn a_line_is_drawn_with_two_vertices() {
    let renderer = db_renderer();
    let mut shapes = DebugShapes::new();
    shapes.line();
    assert_eq!(
        renderer.draw_all(&mut shapes),
        vec![
            GpuCommand::WriteLineConstants { buffer: ResourceId(29), shape: 0 },
            GpuCommand::BindConstantBuffer { buffer: ResourceId(29), slot: 10, stage: ShaderStage::Vertex },
            GpuCommand::BindConstantBuffer { buffer: ResourceId(29), slot: 10, stage: ShaderStage::Pixel },
            GpuCommand::SetVertexShader { shader: ResourceId(21) },
            GpuCommand::SetPixelShader { shader: ResourceId(24) },
            GpuCommand::SetInputTopology { topology: PrimitiveType::LineList },
            GpuCommand::Draw { vertex_count: 2, vertex_start: 0 },
        ]
    );
    assert!(shapes.shape_list().is_empty());
}

#[test]
fn a_cube_with_sides_is_drawn_twice() {
    let renderer = db_renderer();
    let mut shapes = DebugShapes::new();
    shapes.cube(true);
    assert_eq!(
        renderer.draw_all(&mut shapes),
        vec![
            GpuCommand::WriteShapeConstants { buffer: ResourceId(28), shape: 0, translucent: false },
            GpuCommand::BindConstantBuffer { buffer: ResourceId(28), slot: 10, stage: ShaderStage::Vertex },
            GpuCommand::BindConstantBuffer { buffer: ResourceId(28), slot: 10, stage: ShaderStage::Pixel },
            GpuCommand::SetInputLayoutObject { layout: ResourceId(22) },
            GpuCommand::SetVertexShader { shader: ResourceId(20) },
            GpuCommand::SetPixelShader { shader: ResourceId(23) },
            GpuCommand::SetVertexBuffer { buffer: ResourceId(27), stride: 16 },
            GpuCommand::SetIndexBuffer { buffer: ResourceId(25), format: DxgiFormat::R16Uint },
            GpuCommand::SetInputTopology { topology: PrimitiveType::LineList },
            GpuCommand::DrawIndexed { index_count: 48, index_start: 0, base_vertex: 0 },
            GpuCommand::WriteShapeConstants { buffer: ResourceId(28), shape: 0, translucent: true },
            GpuCommand::SetVertexBuffer { buffer: ResourceId(27), stride: 16 },
            GpuCommand::SetIndexBuffer { buffer: ResourceId(26), format: DxgiFormat::R16Uint },
            GpuCommand::SetInputTopology { topology: PrimitiveType::Triangles },
            GpuCommand::DrawIndexed { index_count: 36, index_start: 0, base_vertex: 0 },
        ]
    );
}

#[test]
fn shapes_are_drawn_in_their_order_under_their_place() {
    let renderer = db_renderer();
    let mut shapes = DebugShapes::new();
    shapes.cube(false);
    shapes.line();
    shapes.custom_shape(db_shape(), true);
    let commands = renderer.draw_all(&mut shapes);
    let places: Vec<(usize, bool)> = commands
        .iter()
        .filter_map(|c| match c {
            GpuCommand::WriteShapeConstants { shape, translucent, .. } => Some((*shape, *translucent)),
            GpuCommand::WriteLineConstants { shape, .. } => Some((*shape, false)),
            _ => None,
        })
        .collect();
    assert_eq!(places, vec![(0, false), (1, false), (2, false), (2, true)]);
    let draws: Vec<GpuCommand> = commands.into_iter().filter(|c| c.is_draw()).collect();
    assert_eq!(
        draws,
        vec![
            GpuCommand::DrawIndexed { index_count: 48, index_start: 0, base_vertex: 0 },
            GpuCommand::Draw { vertex_count: 2, vertex_start: 0 },
            GpuCommand::DrawIndexed { index_count: 12, index_start: 0, base_vertex: 0 },
            GpuCommand::DrawIndexed { index_count: 6, index_start: 0, base_vertex: 0 },
        ]
    );
}
