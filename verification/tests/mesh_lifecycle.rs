use opengl_renderer::gpu::{Buffer, BufferTarget, BufferUsage, GlCommand, VertexArray};
use opengl_renderer::mesh::{GpuResources, Mesh, MeshError};
use opengl_renderer::tangent::TangentFrame;
use opengl_renderer::vertex::{VertIndicies, Vector2, Vector3, Vertex, VertexAttribute};

fn numbered_vertex(n: u32) -> Vertex {
    // Every scalar of every vertex is a different number.
    let s = |k: u32| ((n * 14 + k) as f32).to_bits();
    Vertex {
        position: Vector3 { x: s(0), y: s(1), z: s(2) },
        normal: Vector3 { x: s(3), y: s(4), z: s(5) },
        tex_coords: Vector2 { x: s(6), y: s(7) },
        tangent: Vector3 { x: s(8), y: s(9), z: s(10) },
        bitangent: Vector3 { x: s(11), y: s(12), z: s(13) },
    }
}

fn frame(n: u32) -> TangentFrame {
    let s = |k: u32| ((1000 + n * 6 + k) as f32).to_bits();
    TangentFrame {
        determinant: 1.0f32.to_bits(),
        tangent: Vector3 { x: s(0), y: s(1), z: s(2) },
        bitangent: Vector3 { x: s(3), y: s(4), z: s(5) },
    }
}

fn mesh_of(vertex_count: u32, triangles: Vec<VertIndicies>) -> Mesh {
    Mesh::new((0..vertex_count).map(numbered_vertex).collect(), triangles)
}

fn frames_for(mesh: &Mesh) -> Vec<TangentFrame> {
    (0..mesh.indices().len() as u32).map(frame).collect()
}

fn ready_mesh(vertex_count: u32, triangles: Vec<VertIndicies>, names: (u32, u32, u32)) -> Mesh {
    let mut mesh = mesh_of(vertex_count, triangles);
    let frames = frames_for(&mesh);
    mesh.setup(&frames, names.0, names.1, names.2).unwrap();
    mesh
}

/// A context that only counts what is generated and what is given back.
struct Ledger {
    next_name: u32,
    live_arrays: Vec<u32>,
    live_buffers: Vec<u32>,
    generated: usize,
    deleted: usize,
}

impl Ledger {
    fn new() -> Self {
        Ledger { next_name: 1, live_arrays: Vec::new(), live_buffers: Vec::new(), generated: 0, deleted: 0 }
    }

    fn gen_vertex_array(&mut self) -> u32 {
        let name = self.next_name;
        self.next_name += 1;
        self.live_arrays.push(name);
        self.generated += 1;
        name
    }

    fn gen_buffer(&mut self) -> u32 {
        let name = self.next_name;
        self.next_name += 1;
        self.live_buffers.push(name);
        self.generated += 1;
        name
    }

    fn run(&mut self, commands: &[GlCommand]) {
        for command in commands {
            match command {
                GlCommand::DeleteVertexArray(name) => {
                    let at = self.live_arrays.iter().position(|n| n == name).unwrap();
                    self.live_arrays.remove(at);
                    self.deleted += 1;
                }
                GlCommand::DeleteBuffer(name) => {
                    let at = self.live_buffers.iter().position(|n| n == name).unwrap();
                    self.live_buffers.remove(at);
                    self.deleted += 1;
                }
                _ => {}
            }
        }
    }
}

#[test]
fn new_mesh_is_unprepared_and_keeps_its_geometry() {
    let vertices: Vec<Vertex> = (0..3).map(numbered_vertex).collect();
    let mesh = Mesh::new(vertices.clone(), vec![[0, 1, 2]]);
    assert_eq!(mesh.vertices(), &vertices);
    assert_eq!(mesh.indices(), &vec![[0, 1, 2]]);
    assert_eq!(mesh.resources(), None);
}

#[test]
fn draw_before_setup_is_refused() {
    let mesh = mesh_of(3, vec![[0, 1, 2]]);
    assert!(matches!(mesh.draw(), Err(MeshError::NotReady)));
}

#[test]
fn draw_requests_three_indices_per_triangle() {
    for n in [0usize, 1, 2, 5, 100] {
        let mesh = ready_mesh(3, vec![[0, 1, 2]; n], (1, 2, 3));
        let plan = mesh.draw().unwrap();
        assert_eq!(plan.len(), 3);
        assert!(matches!(plan[0], GlCommand::BindVertexArray(1)));
        match plan[1] {
            GlCommand::DrawTriangles(count) => assert_eq!(count as usize, 3 * n),
            _ => panic!("the second command of a draw is the draw call"),
        }
        assert!(matches!(plan[2], GlCommand::BindVertexArray(0)));
    }
}

#[test]
fn draw_can_be_repeated_and_changes_nothing() {
    let mesh = ready_mesh(4, vec![[0, 1, 2], [0, 2, 3]], (4, 5, 6));
    let before = mesh.vertices().clone();
    for _ in 0..3 {
        let plan = mesh.draw().unwrap();
        assert!(matches!(plan[0], GlCommand::BindVertexArray(4)));
        assert!(matches!(plan[1], GlCommand::DrawTriangles(6)));
    }
    assert_eq!(mesh.vertices(), &before);
    assert_eq!(mesh.resources().unwrap().vertex_array, VertexArray(4));
}

#[test]
fn setup_makes_the_mesh_ready_with_the_names_it_was_given() {
    let mesh = ready_mesh(3, vec![[0, 1, 2]], (11, 12, 13));
    assert_eq!(
        mesh.resources(),
        Some(GpuResources {
            vertex_array: VertexArray(11),
            vertex_buffer: Buffer(12, BufferTarget::Array, BufferUsage::StaticDraw),
            element_buffer: Buffer(13, BufferTarget::ElementArray, BufferUsage::StaticDraw),
        })
    );
}

#[test]
fn setup_plan_binds_uploads_configures_and_unbinds_in_order() {
    let mut mesh = mesh_of(4, vec![[0, 1, 2], [0, 2, 3]]);
    let frames = frames_for(&mesh);
    let plan = mesh.setup(&frames, 7, 8, 9).unwrap();
    assert_eq!(plan.len(), 16);
    assert!(matches!(plan[0], GlCommand::BindVertexArray(7)));
    assert!(matches!(plan[1], GlCommand::BindBuffer(BufferTarget::Array, 8)));
    assert!(matches!(plan[2], GlCommand::BufferData(BufferTarget::Array, _, BufferUsage::StaticDraw)));
    assert!(matches!(plan[3], GlCommand::BindBuffer(BufferTarget::ElementArray, 9)));
    assert!(matches!(
        plan[4],
        GlCommand::BufferData(BufferTarget::ElementArray, _, BufferUsage::StaticDraw)
    ));
    let expected = [(3, 0usize), (3, 12), (2, 24), (3, 32), (3, 44)];
    for (slot, (components, offset)) in expected.iter().enumerate() {
        match plan[5 + 2 * slot] {
            GlCommand::VertexAttribPointer(attribute) => assert_eq!(
                attribute,
                VertexAttribute { index: slot as u32, components: *components, stride: 56, offset: *offset }
            ),
            _ => panic!("attribute pointer expected"),
        }
        match plan[6 + 2 * slot] {
            GlCommand::EnableVertexAttribArray(index) => assert_eq!(index, slot as u32),
            _ => panic!("attribute enable expected"),
        }
    }
    assert!(matches!(plan[15], GlCommand::BindVertexArray(0)));
}

#[test]
fn setup_uploads_the_vertices_as_they_are_after_tangents() {
    let mut mesh = mesh_of(4, vec![[0, 1, 2], [0, 2, 3]]);
    let frames = frames_for(&mesh);
    let plan = mesh.setup(&frames, 7, 8, 9).unwrap();
    // Tangents were written: last writer wins at the shared vertices.
    assert_eq!(mesh.vertices()[0].tangent, frames[1].tangent);
    assert_eq!(mesh.vertices()[1].bitangent, frames[0].bitangent);
    let mut expected: Vec<u8> = Vec::new();
    for v in mesh.vertices() {
        for word in [
            v.position.x, v.position.y, v.position.z,
            v.normal.x, v.normal.y, v.normal.z,
            v.tex_coords.x, v.tex_coords.y,
            v.tangent.x, v.tangent.y, v.tangent.z,
            v.bitangent.x, v.bitangent.y, v.bitangent.z,
        ] {
            expected.extend_from_slice(&f32::from_bits(word).to_ne_bytes());
        }
    }
    match &plan[2] {
        GlCommand::BufferData(_, data, _) => {
            assert_eq!(data.len(), 4 * 56);
            assert_eq!(data, &expected);
        }
        _ => panic!("vertex upload expected"),
    }
}

#[test]
fn setup_uploads_the_indices_three_to_the_triangle() {
    let mut mesh = mesh_of(4, vec![[0, 1, 2], [0, 2, 3]]);
    let frames = frames_for(&mesh);
    let plan = mesh.setup(&frames, 7, 8, 9).unwrap();
    let mut expected: Vec<u8> = Vec::new();
    for index in [0u32, 1, 2, 0, 2, 3] {
        expected.extend_from_slice(&index.to_ne_bytes());
    }
    match &plan[4] {
        GlCommand::BufferData(_, data, _) => assert_eq!(data, &expected),
        _ => panic!("index upload expected"),
    }
}

#[test]
fn configured_attributes_read_back_the_declared_fields() {
    let mut mesh = mesh_of(5, vec![[0, 1, 2], [2, 3, 4]]);
    let frames = frames_for(&mesh);
    let plan = mesh.setup(&frames, 7, 8, 9).unwrap();
    let data = match &plan[2] {
        GlCommand::BufferData(_, data, _) => data.clone(),
        _ => panic!("vertex upload expected"),
    };
    let read = |attribute: &VertexAttribute, vertex: usize| -> Vec<u32> {
        (0..attribute.components as usize)
            .map(|c| {
                let at = vertex * attribute.stride as usize + attribute.offset + 4 * c;
                u32::from_ne_bytes([data[at], data[at + 1], data[at + 2], data[at + 3]])
            })
            .collect()
    };
    for (i, v) in mesh.vertices().iter().enumerate() {
        let fields: [Vec<u32>; 5] = [
            vec![v.position.x, v.position.y, v.position.z],
            vec![v.normal.x, v.normal.y, v.normal.z],
            vec![v.tex_coords.x, v.tex_coords.y],
            vec![v.tangent.x, v.tangent.y, v.tangent.z],
            vec![v.bitangent.x, v.bitangent.y, v.bitangent.z],
        ];
        for slot in 0..5 {
            match &plan[5 + 2 * slot] {
                GlCommand::VertexAttribPointer(attribute) => {
                    assert_eq!(attribute.index as usize, slot);
                    assert_eq!(attribute.stride as usize, std::mem::size_of::<[f32; 14]>());
                    assert_eq!(read(attribute, i), fields[slot]);
                }
                _ => panic!("attribute pointer expected"),
            }
        }
    }
}

#[test]
fn second_setup_gives_back_what_the_first_acquired() {
    let mut ledger = Ledger::new();
    let mut mesh = mesh_of(4, vec![[0, 1, 2], [0, 2, 3]]);
    let frames = frames_for(&mesh);

    let first = (ledger.gen_vertex_array(), ledger.gen_buffer(), ledger.gen_buffer());
    let plan = mesh.setup(&frames, first.0, first.1, first.2).unwrap();
    ledger.run(&plan);
    assert_eq!((ledger.generated, ledger.deleted), (3, 0));

    let second = (ledger.gen_vertex_array(), ledger.gen_buffer(), ledger.gen_buffer());
    let plan = mesh.setup(&frames, second.0, second.1, second.2).unwrap();
    assert_eq!(plan.len(), 19);
    assert!(matches!(plan[0], GlCommand::DeleteVertexArray(n) if n == first.0));
    assert!(matches!(plan[1], GlCommand::DeleteBuffer(n) if n == first.1));
    assert!(matches!(plan[2], GlCommand::DeleteBuffer(n) if n == first.2));
    assert!(matches!(plan[3], GlCommand::BindVertexArray(n) if n == second.0));
    ledger.run(&plan);

    assert_eq!((ledger.generated, ledger.deleted), (6, 3));
    assert_eq!(ledger.live_arrays, vec![second.0]);
    assert_eq!(ledger.live_buffers, vec![second.1, second.2]);
    assert_eq!(mesh.resources().unwrap().vertex_array, VertexArray(second.0));

    ledger.run(&mesh.release());
    assert_eq!((ledger.generated, ledger.deleted), (6, 6));
    assert!(ledger.live_arrays.is_empty() && ledger.live_buffers.is_empty());
}

#[test]
fn refused_setup_gives_back_the_names_that_were_generated() {
    let mut ledger = Ledger::new();
    let mut mesh = mesh_of(3, vec![[0, 1, 2]]);
    let frames = frames_for(&mesh);
    let array = ledger.gen_vertex_array();
    let buffer = ledger.gen_buffer();
    // The context failed to generate the second buffer.
    let failure = mesh.setup(&frames, array, buffer, 0).unwrap_err();
    assert_eq!(failure.reason, MeshError::ElementBufferUnavailable);
    ledger.run(&failure.cleanup);
    assert_eq!((ledger.generated, ledger.deleted), (2, 2));
    assert_eq!(mesh.resources(), None);
    assert!(matches!(mesh.draw(), Err(MeshError::NotReady)));
}

#[test]
fn each_missing_name_has_its_own_error() {
    let cases = [
        ((0, 2, 3), MeshError::VertexArrayUnavailable, 2),
        ((1, 0, 3), MeshError::VertexBufferUnavailable, 2),
        ((1, 2, 0), MeshError::ElementBufferUnavailable, 2),
        ((0, 0, 3), MeshError::VertexArrayUnavailable, 1),
        ((0, 0, 0), MeshError::VertexArrayUnavailable, 0),
        ((1, 0, 0), MeshError::VertexBufferUnavailable, 1),
    ];
    for (names, reason, cleanup_len) in cases {
        let mut mesh = mesh_of(3, vec![[0, 1, 2]]);
        let frames = frames_for(&mesh);
        let failure = mesh.setup(&frames, names.0, names.1, names.2).unwrap_err();
        assert_eq!(failure.reason, reason);
        assert_eq!(failure.cleanup.len(), cleanup_len);
    }
}

#[test]
fn cleanup_deletes_arrays_as_arrays_and_buffers_as_buffers() {
    let mut mesh = mesh_of(3, vec![[0, 1, 5]]);
    let failure = mesh.setup(&vec![frame(0)], 21, 22, 23).unwrap_err();
    assert_eq!(failure.reason, MeshError::IndexOutOfRange);
    assert_eq!(failure.cleanup.len(), 3);
    assert!(matches!(failure.cleanup[0], GlCommand::DeleteVertexArray(21)));
    assert!(matches!(failure.cleanup[1], GlCommand::DeleteBuffer(22)));
    assert!(matches!(failure.cleanup[2], GlCommand::DeleteBuffer(23)));
}

#[test]
fn setup_checks_geometry_before_names() {
    let mut mesh = mesh_of(3, vec![[0, 1, 2]]);
    let failure = mesh.setup(&Vec::new(), 0, 0, 0).unwrap_err();
    assert_eq!(failure.reason, MeshError::FrameCountMismatch);
    let mut mesh = mesh_of(3, vec![[0, 1, 3]]);
    let failure = mesh.setup(&Vec::new(), 0, 0, 0).unwrap_err();
    assert_eq!(failure.reason, MeshError::IndexOutOfRange);
}

#[test]
fn refused_setup_leaves_the_mesh_as_it_was() {
    let mut mesh = mesh_of(3, vec![[0, 1, 2]]);
    let before = mesh.vertices().clone();
    let frames = frames_for(&mesh);
    assert!(mesh.setup(&frames, 1, 0, 3).is_err());
    assert_eq!(mesh.vertices(), &before);
    assert_eq!(mesh.resources(), None);

    // A ready mesh stays ready, with the objects it had.
    let mut mesh = ready_mesh(3, vec![[0, 1, 2]], (4, 5, 6));
    let before = mesh.vertices().clone();
    let other = vec![TangentFrame {
        determinant: 1.0f32.to_bits(),
        tangent: Vector3 { x: 1, y: 2, z: 3 },
        bitangent: Vector3 { x: 4, y: 5, z: 6 },
    }];
    let failure = mesh.setup(&other, 7, 8, 0).unwrap_err();
    assert_eq!(failure.cleanup.len(), 2);
    assert_eq!(mesh.vertices(), &before);
    assert_eq!(mesh.resources().unwrap().vertex_array, VertexArray(4));
    assert!(matches!(mesh.draw().unwrap()[0], GlCommand::BindVertexArray(4)));
}

#[test]
fn release_gives_back_three_objects_once() {
    let mut mesh = ready_mesh(3, vec![[0, 1, 2]], (4, 5, 6));
    let plan = mesh.release();
    assert_eq!(plan.len(), 3);
    assert!(matches!(plan[0], GlCommand::DeleteVertexArray(4)));
    assert!(matches!(plan[1], GlCommand::DeleteBuffer(5)));
    assert!(matches!(plan[2], GlCommand::DeleteBuffer(6)));
    assert_eq!(mesh.resources(), None);
    assert!(matches!(mesh.draw(), Err(MeshError::NotReady)));
    assert!(mesh.release().is_empty());
}

#[test]
fn release_of_an_unprepared_mesh_is_empty() {
    let mut mesh = mesh_of(3, vec![[0, 1, 2]]);
    assert!(mesh.release().is_empty());
    assert_eq!(mesh.indices().len(), 1);
}

#[test]
fn every_error_has_its_message() {
    assert_eq!(MeshError::VertexArrayUnavailable.message(), "Failed to create vertex array");
    assert_eq!(MeshError::VertexBufferUnavailable.message(), "Failed to create vertex buffer");
    assert_eq!(MeshError::ElementBufferUnavailable.message(), "Failed to create element buffer");
    assert_eq!(MeshError::IndexOutOfRange.message(), "Triangle index out of range");
    assert_eq!(
        MeshError::FrameCountMismatch.message(),
        "Tangent frame count does not match triangle count"
    );
    assert_eq!(MeshError::TooManyIndices.message(), "Too many indices for one draw call");
    assert_eq!(MeshError::NotReady.message(), "Mesh has not been set up");
}

#[test]
fn plans_end_with_no_vertex_array_bound() {
    let current_after = |plan: &[GlCommand]| -> u32 {
        let mut current = 99;
        for command in plan {
            match command {
                GlCommand::BindVertexArray(name) => current = *name,
                GlCommand::DeleteVertexArray(name) if *name == current => current = 0,
                _ => {}
            }
        }
        current
    };
    let mut mesh = mesh_of(3, vec![[0, 1, 2]]);
    let frames = frames_for(&mesh);
    let first = mesh.setup(&frames, 1, 2, 3).unwrap();
    assert_eq!(current_after(&first), 0);
    assert_eq!(current_after(&mesh.draw().unwrap()), 0);
    let second = mesh.setup(&frames, 4, 5, 6).unwrap();
    assert_eq!(current_after(&second), 0);
}

#[test]
fn setup_describes_exactly_the_five_declared_attributes() {
    for (vertex_count, triangles) in [(0u32, vec![]), (3, vec![[0, 1, 2]]), (4, vec![[0, 1, 2]; 7])] {
        let mut mesh = mesh_of(vertex_count, triangles);
        let frames = frames_for(&mesh);
        for names in [(1, 2, 3), (4, 5, 6)] {
            let plan = mesh.setup(&frames, names.0, names.1, names.2).unwrap();
            let described: Vec<VertexAttribute> = plan
                .iter()
                .filter_map(|command| match command {
                    GlCommand::VertexAttribPointer(attribute) => Some(*attribute),
                    _ => None,
                })
                .collect();
            assert_eq!(described, opengl_renderer::vertex::vertex_attributes());
            assert_eq!(described.len(), 5);
            let mut scalars_before = 0;
            for (slot, attribute) in described.iter().enumerate() {
                assert_eq!(attribute.index as usize, slot);
                assert_eq!(attribute.stride, 56);
                assert_eq!(attribute.offset, 4 * scalars_before);
                scalars_before += attribute.components as usize;
            }
            assert_eq!(scalars_before, 14);
        }
    }
}

#[test]
fn setup_accepts_a_mesh_without_triangles_or_vertices() {
    let mut mesh = mesh_of(0, Vec::new());
    let plan = mesh.setup(&Vec::new(), 1, 2, 3).unwrap();
    assert_eq!(plan.len(), 16);
    assert!(matches!(&plan[2], GlCommand::BufferData(_, data, _) if data.is_empty()));
    assert!(matches!(mesh.draw().unwrap()[1], GlCommand::DrawTriangles(0)));
}
