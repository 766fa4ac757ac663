//! A mesh: geometry on the CPU side and, once set up, the GPU objects that
//! hold a copy of it.
//!
//! A mesh is either unprepared, with no GPU object to its name, or ready,
//! with a vertex array, a vertex buffer and an element buffer. There is no
//! state in between. [`Mesh::setup`] takes it to ready, [`Mesh::draw`] works
//! only there, and [`Mesh::release`] takes it back.

use vstd::prelude::*;
use vstd::multiset::Multiset;
use crate::bytes::{is_memory_image, lemma_memory_image_word, memory_image};
use crate::gpu::{
    configured_attributes, is_delete, lemma_configured_concat, lemma_configured_push,
    lemma_released_concat, lemma_released_nothing, lemma_released_push, released,
    vertex_array_after, Buffer, BufferTarget, BufferUsage, Command, GlCommand, Resource, VertexArray,
};
use crate::tangent::{
    all_corners, gather_corners, in_range, indices_in_range, with_frames, write_frames,
    TangentFrame, TriangleCorners,
};
use crate::vertex::{
    attribute, attribute_table, components_of, flatten_indices, flatten_vertices, index_words,
    lemma_attribute_selects_field, scalars_before, vertex_attributes, vertex_words, VertIndicies,
    Vertex, VertexAttribute, ATTRIBUTE_COUNT,
};

verus! {

/// Largest number of triangles whose indices one draw call can count: a
/// draw call counts indices in a signed 32-bit number.
pub const MAX_TRIANGLES: usize = 715_827_882;

/// Why a mesh operation was refused.
#[derive(Clone, Copy, Debug, PartialEq, Eq, Structural)]
pub enum MeshError {
    /// A triangle names a vertex that is not in the vertex list.
    IndexOutOfRange,
    /// There is not exactly one tangent frame for each triangle.
    FrameCountMismatch,
    /// The context could not generate a vertex array.
    VertexArrayUnavailable,
    /// The context could not generate the vertex buffer.
    VertexBufferUnavailable,
    /// The context could not generate the element buffer.
    ElementBufferUnavailable,
    /// The mesh has more indices than a draw call can count.
    TooManyIndices,
    /// The mesh has not been set up.
    NotReady,
}

impl MeshError {
    /// What to tell a person about the error.
    pub fn message(&self) -> (text: &'static str)
        ensures
            text@ == match *self {
                MeshError::IndexOutOfRange => "Triangle index out of range"@,
                MeshError::FrameCountMismatch =>
                    "Tangent frame count does not match triangle count"@,
                MeshError::VertexArrayUnavailable => "Failed to create vertex array"@,
                MeshError::VertexBufferUnavailable => "Failed to create vertex buffer"@,
                MeshError::ElementBufferUnavailable => "Failed to create element buffer"@,
                MeshError::TooManyIndices => "Too many indices for one draw call"@,
                MeshError::NotReady => "Mesh has not been set up"@,
            },
    {
        match self {
            MeshError::IndexOutOfRange => "Triangle index out of range",
            MeshError::FrameCountMismatch => "Tangent frame count does not match triangle count",
            MeshError::VertexArrayUnavailable => "Failed to create vertex array",
            MeshError::VertexBufferUnavailable => "Failed to create vertex buffer",
            MeshError::ElementBufferUnavailable => "Failed to create element buffer",
            MeshError::TooManyIndices => "Too many indices for one draw call",
            MeshError::NotReady => "Mesh has not been set up",
        }
    }
}

/// The GPU objects of a ready mesh.
#[derive(Clone, Copy, Debug, PartialEq, Eq, Structural)]
pub struct GpuResources {
    pub vertex_array: VertexArray,
    pub vertex_buffer: Buffer,
    pub element_buffer: Buffer,
}

impl GpuResources {
    /// The objects a mesh keeps for three names handed out by a context.
    pub open spec fn of(vertex_array: u32, vertex_buffer: u32, element_buffer: u32) -> GpuResources {
        GpuResources {
            vertex_array: VertexArray(vertex_array),
            vertex_buffer: Buffer(vertex_buffer, BufferTarget::Array, BufferUsage::StaticDraw),
            element_buffer: Buffer(
                element_buffer,
                BufferTarget::ElementArray,
                BufferUsage::StaticDraw,
            ),
        }
    }

    /// Every name is a live one, and each buffer is of the kind its place
    /// asks for.
    pub open spec fn valid(self) -> bool {
        &&& self.vertex_array.0 != 0
        &&& self.vertex_buffer.0 != 0
        &&& self.element_buffer.0 != 0
        &&& self == GpuResources::of(
            self.vertex_array.0,
            self.vertex_buffer.0,
            self.element_buffer.0,
        )
    }
}

/// A mesh as a value.
pub struct MeshView {
    pub vertices: Seq<Vertex>,
    pub triangles: Seq<VertIndicies>,
    /// The GPU objects of the mesh where it is ready, nothing where it is
    /// unprepared.
    pub resources: Option<GpuResources>,
}

impl MeshView {
    /// What holds of every mesh: a ready one has valid GPU objects.
    pub open spec fn valid(self) -> bool {
        self.resources matches Some(resources) ==> resources.valid()
    }
}

/// The commands that give the GPU objects of a mesh back to the context:
/// none for an unprepared mesh, three for a ready one.
pub open spec fn release_commands(resources: Option<GpuResources>) -> Seq<Command> {
    match resources {
        None => Seq::empty(),
        Some(held) => seq![
            Command::DeleteVertexArray(held.vertex_array.0),
            Command::DeleteBuffer(held.vertex_buffer.0),
            Command::DeleteBuffer(held.element_buffer.0),
        ],
    }
}

/// The commands that give back those of three freshly generated names that
/// are live, after a setup that could not use them.
pub open spec fn discard_commands(vertex_array: u32, vertex_buffer: u32, element_buffer: u32) -> Seq<
    Command,
> {
    let first = if vertex_array != 0 {
        seq![Command::DeleteVertexArray(vertex_array)]
    } else {
        Seq::empty()
    };
    let second = if vertex_buffer != 0 {
        first.push(Command::DeleteBuffer(vertex_buffer))
    } else {
        first
    };
    if element_buffer != 0 {
        second.push(Command::DeleteBuffer(element_buffer))
    } else {
        second
    }
}

/// The commands that draw a ready mesh of `triangle_count` triangles: make
/// its vertex array current, draw three indices per triangle, make no
/// vertex array current.
pub open spec fn draw_commands(resources: GpuResources, triangle_count: nat) -> Seq<Command> {
    seq![
        Command::BindVertexArray(resources.vertex_array.0),
        Command::DrawTriangles((3 * triangle_count) as i32),
        Command::BindVertexArray(0),
    ]
}

/// Number of commands in an upload.
pub const UPLOAD_LEN: usize = 16;

/// Whether `commands` puts the given geometry into the given GPU objects:
/// make the vertex array current; bind the vertex buffer and fill it with
/// the memory image of all vertices; bind the element buffer and fill it
/// with the memory image of all indices; describe and switch on the five
/// attributes of the vertex layout in slot order; make no vertex array
/// current.
pub open spec fn is_upload(
    commands: Seq<Command>,
    resources: GpuResources,
    vertices: Seq<Vertex>,
    triangles: Seq<VertIndicies>,
) -> bool {
    &&& commands.len() == UPLOAD_LEN
    &&& commands[0] == Command::BindVertexArray(resources.vertex_array.0)
    &&& commands[1] == Command::BindBuffer(BufferTarget::Array, resources.vertex_buffer.0)
    &&& commands[2] matches Command::BufferData(target, bytes, usage) && target
        == BufferTarget::Array && usage == BufferUsage::StaticDraw && is_memory_image(
        bytes,
        vertex_words(vertices),
    )
    &&& commands[3] == Command::BindBuffer(BufferTarget::ElementArray, resources.element_buffer.0)
    &&& commands[4] matches Command::BufferData(target, bytes, usage) && target
        == BufferTarget::ElementArray && usage == BufferUsage::StaticDraw && is_memory_image(
        bytes,
        index_words(triangles),
    )
    &&& forall|slot: int|
        0 <= slot < ATTRIBUTE_COUNT ==> #[trigger] commands[5 + 2 * slot]
            == Command::VertexAttribPointer(attribute(slot))
    &&& forall|slot: int|
        0 <= slot < ATTRIBUTE_COUNT ==> #[trigger] commands[6 + 2 * slot]
            == Command::EnableVertexAttribArray(slot as u32)
    &&& commands[15] == Command::BindVertexArray(0)
}

/// Whether `commands` is what a successful setup asks of the context: first
/// give back what the mesh held before, then upload.
pub open spec fn is_setup_plan(
    commands: Seq<Command>,
    previous: Option<GpuResources>,
    resources: GpuResources,
    vertices: Seq<Vertex>,
    triangles: Seq<VertIndicies>,
) -> bool {
    let given_back = release_commands(previous);
    &&& commands.len() == given_back.len() + UPLOAD_LEN
    &&& commands.subrange(0, given_back.len() as int) == given_back
    &&& is_upload(
        commands.subrange(given_back.len() as int, commands.len() as int),
        resources,
        vertices,
        triangles,
    )
}

/// The GPU objects a mesh holds, by kind and name.
pub open spec fn held(resources: Option<GpuResources>) -> Multiset<Resource> {
    match resources {
        None => Multiset::empty(),
        Some(held) => Multiset::empty().insert(Resource::VertexArray(held.vertex_array.0)).insert(
            Resource::Buffer(held.vertex_buffer.0),
        ).insert(Resource::Buffer(held.element_buffer.0)),
    }
}

/// The objects that a context has generated when it handed out these three
/// names: one for each name that is not zero.
pub open spec fn acquired(vertex_array: u32, vertex_buffer: u32, element_buffer: u32) -> Multiset<
    Resource,
> {
    let first = if vertex_array != 0 {
        Multiset::empty().insert(Resource::VertexArray(vertex_array))
    } else {
        Multiset::empty()
    };
    let second = if vertex_buffer != 0 {
        first.insert(Resource::Buffer(vertex_buffer))
    } else {
        first
    };
    if element_buffer != 0 {
        second.insert(Resource::Buffer(element_buffer))
    } else {
        second
    }
}

/// Releasing a mesh gives back exactly what it held.
pub proof fn lemma_release_gives_back_held(resources: Option<GpuResources>)
    ensures
        released(release_commands(resources)) == held(resources),
{
    match resources {
        None => {},
        Some(r) => {
            let none = Seq::<Command>::empty();
            let one = none.push(Command::DeleteVertexArray(r.vertex_array.0));
            let two = one.push(Command::DeleteBuffer(r.vertex_buffer.0));
            let three = two.push(Command::DeleteBuffer(r.element_buffer.0));
            lemma_released_push(none, Command::DeleteVertexArray(r.vertex_array.0));
            lemma_released_push(one, Command::DeleteBuffer(r.vertex_buffer.0));
            lemma_released_push(two, Command::DeleteBuffer(r.element_buffer.0));
            assert(three =~= release_commands(resources));
        },
    }
}

/// The cleanup of a refused setup gives back exactly the live ones of the
/// three names that were generated for it.
pub proof fn lemma_discard_gives_back_acquired(
    vertex_array: u32,
    vertex_buffer: u32,
    element_buffer: u32,
)
    ensures
        released(discard_commands(vertex_array, vertex_buffer, element_buffer)) == acquired(
            vertex_array,
            vertex_buffer,
            element_buffer,
        ),
{
    let none = Seq::<Command>::empty();
    let first = if vertex_array != 0 {
        seq![Command::DeleteVertexArray(vertex_array)]
    } else {
        none
    };
    let second = if vertex_buffer != 0 {
        first.push(Command::DeleteBuffer(vertex_buffer))
    } else {
        first
    };
    if vertex_array != 0 {
        assert(first =~= none.push(Command::DeleteVertexArray(vertex_array)));
        lemma_released_push(none, Command::DeleteVertexArray(vertex_array));
    }
    if vertex_buffer != 0 {
        lemma_released_push(first, Command::DeleteBuffer(vertex_buffer));
    }
    if element_buffer != 0 {
        lemma_released_push(second, Command::DeleteBuffer(element_buffer));
    }
}

/// An upload gives nothing back.
pub proof fn lemma_upload_gives_back_nothing(
    commands: Seq<Command>,
    resources: GpuResources,
    vertices: Seq<Vertex>,
    triangles: Seq<VertIndicies>,
)
    requires
        is_upload(commands, resources, vertices, triangles),
    ensures
        released(commands) == Multiset::<Resource>::empty(),
{
    assert forall|k: int| 0 <= k < commands.len() implies !is_delete(#[trigger] commands[k]) by {
        if 5 <= k < 15 {
            let slot = (k - 5) / 2;
            if k == 5 + 2 * slot {
                assert(commands[5 + 2 * slot] == Command::VertexAttribPointer(attribute(slot)));
            } else {
                assert(k == 6 + 2 * slot);
                assert(commands[6 + 2 * slot] == Command::EnableVertexAttribArray(slot as u32));
            }
        }
    }
    lemma_released_nothing(commands);
}

/// Setting a mesh up again does not leak what the first setup acquired:
/// the plan of a successful setup gives back exactly the objects that the
/// mesh held before it, each once, and no other.
pub proof fn lemma_setup_gives_back_previous(
    commands: Seq<Command>,
    previous: Option<GpuResources>,
    resources: GpuResources,
    vertices: Seq<Vertex>,
    triangles: Seq<VertIndicies>,
)
    requires
        is_setup_plan(commands, previous, resources, vertices, triangles),
    ensures
        released(commands) == held(previous),
{
    let given_back = release_commands(previous);
    let upload = commands.subrange(given_back.len() as int, commands.len() as int);
    assert(commands =~= given_back + upload);
    lemma_released_concat(given_back, upload);
    lemma_release_gives_back_held(previous);
    lemma_upload_gives_back_nothing(upload, resources, vertices, triangles);
    assert(held(previous).add(Multiset::empty()) =~= held(previous));
}

/// Number of attributes described by the first `n` commands of an upload.
pub open spec fn described_before(n: int) -> int {
    if n <= 5 {
        0
    } else if n >= 15 {
        5
    } else {
        (n - 4) / 2
    }
}

/// The first `n` commands of an upload configure the attributes of the
/// first slots, in slot order.
proof fn lemma_upload_prefix_configures(
    commands: Seq<Command>,
    resources: GpuResources,
    vertices: Seq<Vertex>,
    triangles: Seq<VertIndicies>,
    n: int,
)
    requires
        is_upload(commands, resources, vertices, triangles),
        0 <= n <= commands.len(),
    ensures
        configured_attributes(commands.take(n)) == attribute_table().take(described_before(n)),
    decreases n,
{
    if n == 0 {
        assert(commands.take(0) =~= Seq::<Command>::empty());
        assert(attribute_table().take(0) =~= Seq::empty());
    } else {
        let m = n - 1;
        lemma_upload_prefix_configures(commands, resources, vertices, triangles, m);
        assert(commands.take(n) =~= commands.take(m).push(commands[m]));
        lemma_configured_push(commands.take(m), commands[m]);
        if 5 <= m < 15 {
            let slot = (m - 5) / 2;
            if m == 5 + 2 * slot {
                assert(commands[5 + 2 * slot] == Command::VertexAttribPointer(attribute(slot)));
                assert(described_before(m) == slot && described_before(n) == slot + 1);
                assert(attribute_table().take(slot + 1) =~= attribute_table().take(slot).push(
                    attribute(slot),
                ));
            } else {
                assert(m == 6 + 2 * slot);
                assert(commands[6 + 2 * slot] == Command::EnableVertexAttribArray(slot as u32));
                assert(described_before(m) == described_before(n));
            }
        }
    }
}

/// Every successful setup configures the declared vertex layout and no
/// other, whatever the mesh: the attributes its plan describes are exactly
/// the five of the attribute table, in slot order.
pub proof fn lemma_setup_configures_layout(
    commands: Seq<Command>,
    previous: Option<GpuResources>,
    resources: GpuResources,
    vertices: Seq<Vertex>,
    triangles: Seq<VertIndicies>,
)
    requires
        is_setup_plan(commands, previous, resources, vertices, triangles),
    ensures
        configured_attributes(commands) == attribute_table(),
{
    let given_back = release_commands(previous);
    let upload = commands.subrange(given_back.len() as int, commands.len() as int);
    assert(commands =~= given_back + upload);
    lemma_configured_concat(given_back, upload);
    assert(configured_attributes(given_back) == Seq::<VertexAttribute>::empty()) by {
        match previous {
            None => {},
            Some(r) => {
                let none = Seq::<Command>::empty();
                let one = none.push(Command::DeleteVertexArray(r.vertex_array.0));
                let two = one.push(Command::DeleteBuffer(r.vertex_buffer.0));
                let three = two.push(Command::DeleteBuffer(r.element_buffer.0));
                lemma_configured_push(none, Command::DeleteVertexArray(r.vertex_array.0));
                lemma_configured_push(one, Command::DeleteBuffer(r.vertex_buffer.0));
                lemma_configured_push(two, Command::DeleteBuffer(r.element_buffer.0));
                assert(three =~= given_back);
            },
        }
    }
    lemma_upload_prefix_configures(upload, resources, vertices, triangles, 16);
    assert(upload.take(16) =~= upload);
    assert(attribute_table().take(5) =~= attribute_table());
    assert(Seq::<VertexAttribute>::empty() + attribute_table() =~= attribute_table());
}

/// The attributes that an upload configures read the uploaded vertex data
/// as the vertex record declares it. For every slot, the attribute
/// configured for it strides by the size of a record, and the scalars it
/// selects for vertex `i` are the scalars of the field of vertex `i` that
/// the slot is declared for: in the uploaded words, and in the uploaded
/// bytes, where component `c` lies at byte `i * stride + offset + 4 * c`.
pub proof fn lemma_upload_matches_layout(
    commands: Seq<Command>,
    resources: GpuResources,
    vertices: Seq<Vertex>,
    triangles: Seq<VertIndicies>,
    slot: int,
    i: int,
    c: int,
)
    requires
        is_upload(commands, resources, vertices, triangles),
        0 <= slot < ATTRIBUTE_COUNT,
        0 <= i < vertices.len(),
        0 <= c < components_of(slot),
    ensures
        commands[5 + 2 * slot] matches Command::VertexAttribPointer(configured) && {
            &&& configured.index == slot
            &&& configured.components == components_of(slot)
            &&& configured.stride == 4 * vertices[i].words().len()
            &&& (i * configured.stride + configured.offset) % 4 == 0
            &&& (i * configured.stride + configured.offset) / 4 + c < vertex_words(vertices).len()
            &&& vertex_words(vertices)[(i * configured.stride + configured.offset) / 4 + c]
                == vertices[i].field(slot)[c]
        },
        commands[2] matches Command::BufferData(target, bytes, usage) && {
            let at = i * attribute(slot).stride + attribute(slot).offset + 4 * c;
            &&& 0 <= at
            &&& at + 4 <= bytes.len()
            &&& is_memory_image(bytes.subrange(at, at + 4), seq![vertices[i].field(slot)[c]])
        },
{
    lemma_attribute_selects_field(vertices[i], slot);
    match commands[2] {
        Command::BufferData(target, bytes, usage) => {
            lemma_memory_image_word(
                bytes,
                vertex_words(vertices),
                14 * i + scalars_before(slot) + c,
            );
        },
        _ => {},
    }
    assert(commands[5 + 2 * slot] == Command::VertexAttribPointer(attribute(slot)));
    let configured = attribute(slot);
    let before = scalars_before(slot);
    assert(i * configured.stride + configured.offset == 4 * (14 * i + before));
    assert((14 * i + before + c) / 14 == i);
    assert((14 * i + before + c) % 14 == before + c);
    assert(vertices[i].words().subrange(before, before + configured.components)[c]
        == vertices[i].words()[before + c]);
}

/// A draw asks for exactly the indices that a setup uploads: three for
/// each triangle, no more and no fewer.
pub proof fn lemma_draw_counts_uploaded_indices(
    resources: GpuResources,
    triangles: Seq<VertIndicies>,
)
    requires
        3 * triangles.len() <= i32::MAX,
    ensures
        draw_commands(resources, triangles.len())[1] matches Command::DrawTriangles(count) && count
            == 3 * triangles.len() && count == index_words(triangles).len(),
{
}

/// Neither a setup nor a draw leaves its vertex array bound: whatever was
/// current before, no vertex array is current once the plan has run.
pub proof fn lemma_plans_leave_nothing_bound(
    commands: Seq<Command>,
    previous: Option<GpuResources>,
    resources: GpuResources,
    vertices: Seq<Vertex>,
    triangles: Seq<VertIndicies>,
    before: u32,
)
    requires
        is_setup_plan(commands, previous, resources, vertices, triangles) || commands
            == draw_commands(resources, triangles.len()),
    ensures
        vertex_array_after(commands, before) == 0,
{
    if is_setup_plan(commands, previous, resources, vertices, triangles) {
        let start = release_commands(previous).len() as int;
        assert(commands.subrange(start, commands.len() as int)[15] == commands.last());
    }
}

/// A setup that was refused: why, and the commands that give back whatever
/// the caller had generated for it.
#[derive(Debug)]
pub struct SetupFailure {
    pub reason: MeshError,
    pub cleanup: Vec<GlCommand>,
}

/// The commands that a setup hands back, whether it succeeded or not.
pub open spec fn commands_of(outcome: Result<Vec<GlCommand>, SetupFailure>) -> Seq<Command> {
    match outcome {
        Ok(plan) => plan.deep_view(),
        Err(failure) => failure.cleanup.deep_view(),
    }
}

/// Appends one command to a plan.
fn push_command(plan: &mut Vec<GlCommand>, command: GlCommand)
    ensures
        final(plan).deep_view() == old(plan).deep_view().push(command.deep_view()),
{
    let ghost before = plan.deep_view();
    plan.push(command);
    assert(plan.deep_view() =~= before.push(command.deep_view()));
}

/// The commands that give back the GPU objects of a mesh.
fn release_plan(resources: Option<GpuResources>) -> (plan: Vec<GlCommand>)
    ensures
        plan.deep_view() == release_commands(resources),
{
    let mut plan: Vec<GlCommand> = Vec::new();
    assert(plan.deep_view() =~= Seq::empty());
    if let Some(held) = resources {
        push_command(&mut plan, GlCommand::DeleteVertexArray(held.vertex_array.0));
        push_command(&mut plan, GlCommand::DeleteBuffer(held.vertex_buffer.0));
        push_command(&mut plan, GlCommand::DeleteBuffer(held.element_buffer.0));
        assert(plan.deep_view() =~= release_commands(resources));
    }
    plan
}

/// The commands that give back the live ones of three generated names.
fn discard_plan(vertex_array: u32, vertex_buffer: u32, element_buffer: u32) -> (plan: Vec<GlCommand>)
    ensures
        plan.deep_view() == discard_commands(vertex_array, vertex_buffer, element_buffer),
{
    let mut plan: Vec<GlCommand> = Vec::new();
    assert(plan.deep_view() =~= Seq::empty());
    if vertex_array != 0 {
        push_command(&mut plan, GlCommand::DeleteVertexArray(vertex_array));
        assert(plan.deep_view() =~= seq![Command::DeleteVertexArray(vertex_array)]);
    }
    if vertex_buffer != 0 {
        push_command(&mut plan, GlCommand::DeleteBuffer(vertex_buffer));
    }
    if element_buffer != 0 {
        push_command(&mut plan, GlCommand::DeleteBuffer(element_buffer));
    }
    plan
}

/// Geometry, and the GPU objects that hold a copy of it once it is set up.
pub struct Mesh {
    vertices: Vec<Vertex>,
    indices: Vec<VertIndicies>,
    resources: Option<GpuResources>,
}

impl View for Mesh {
    type V = MeshView;

    closed spec fn view(&self) -> MeshView {
        MeshView { vertices: self.vertices@, triangles: self.indices@, resources: self.resources }
    }
}

impl Mesh {
    #[verifier::type_invariant]
    closed spec fn type_invariant(self) -> bool {
        self@.valid()
    }

    /// An unprepared mesh of the given geometry.
    pub fn new(v: Vec<Vertex>, i: Vec<VertIndicies>) -> (mesh: Self)
        ensures
            mesh@ == (MeshView { vertices: v@, triangles: i@, resources: None }),
    {
        Mesh { vertices: v, indices: i, resources: None }
    }

    /// The vertex list.
    pub fn vertices(&self) -> (vertices: &Vec<Vertex>)
        ensures
            vertices@ == self@.vertices,
    {
        &self.vertices
    }

    /// The triangle list.
    pub fn indices(&self) -> (indices: &Vec<VertIndicies>)
        ensures
            indices@ == self@.triangles,
    {
        &self.indices
    }

    /// The GPU objects of the mesh, if it is ready.
    pub fn resources(&self) -> (resources: Option<GpuResources>)
        ensures
            resources == self@.resources,
            self@.valid(),
    {
        proof {
            use_type_invariant(self);
        }
        self.resources
    }

    /// What the frame arithmetic needs for each triangle, in list order.
    ///
    /// Refused where a triangle names a vertex that does not exist.
    pub fn tangent_inputs(&self) -> (inputs: Result<Vec<TriangleCorners>, MeshError>)
        ensures
            in_range(self@.triangles, self@.vertices.len() as int) ==> inputs is Ok
                && inputs->Ok_0@ == all_corners(self@.vertices, self@.triangles),
            !in_range(self@.triangles, self@.vertices.len() as int) ==> inputs == Err::<
                Vec<TriangleCorners>,
                MeshError,
            >(MeshError::IndexOutOfRange),
    {
        if !indices_in_range(&self.indices, self.vertices.len()) {
            return Err(MeshError::IndexOutOfRange);
        }
        Ok(gather_corners(&self.vertices, &self.indices))
    }

    /// Which error, if any, keeps `frames` from being written to a mesh.
    pub open spec fn tangent_error(mesh: MeshView, frames: Seq<TangentFrame>) -> Option<MeshError> {
        if !in_range(mesh.triangles, mesh.vertices.len() as int) {
            Some(MeshError::IndexOutOfRange)
        } else if frames.len() != mesh.triangles.len() {
            Some(MeshError::FrameCountMismatch)
        } else {
            None
        }
    }

    /// Writes the frame of each triangle to its three corners, in list
    /// order, so that a shared vertex ends with the frame of the last
    /// triangle it belongs to. Nothing else changes.
    ///
    /// Refused, with the mesh untouched, where a triangle names a vertex
    /// that does not exist or where there is not one frame per triangle.
    pub fn calculate_tangents(&mut self, frames: &Vec<TangentFrame>) -> (done: Result<(), MeshError>)
        ensures
            Self::tangent_error(old(self)@, frames@) matches Some(error) ==> done == Err::<
                (),
                MeshError,
            >(error) && final(self)@ == old(self)@,
            Self::tangent_error(old(self)@, frames@) is None ==> done is Ok && final(self)@ == (
            MeshView {
                vertices: with_frames(
                    old(self)@.vertices,
                    old(self)@.triangles,
                    frames@,
                    old(self)@.triangles.len() as int,
                ),
                ..old(self)@
            }),
    {
        proof {
            use_type_invariant(&*self);
        }
        if !indices_in_range(&self.indices, self.vertices.len()) {
            return Err(MeshError::IndexOutOfRange);
        }
        if frames.len() != self.indices.len() {
            return Err(MeshError::FrameCountMismatch);
        }
        write_frames(&mut self.vertices, &self.indices, frames);
        Ok(())
    }

    /// Which error, if any, keeps a mesh from being drawn. The first that
    /// applies is the one reported.
    pub open spec fn draw_error(mesh: MeshView) -> Option<MeshError> {
        if mesh.resources is None {
            Some(MeshError::NotReady)
        } else if mesh.triangles.len() > MAX_TRIANGLES {
            Some(MeshError::TooManyIndices)
        } else {
            None
        }
    }

    /// The commands that draw the mesh: make its vertex array current, draw
    /// exactly three indices for each of its triangles, make no vertex array
    /// current.
    ///
    /// Refused where the mesh has not been set up, and where three times
    /// its number of triangles is more than a draw call can count.
    pub fn draw(&self) -> (plan: Result<Vec<GlCommand>, MeshError>)
        ensures
            Self::draw_error(self@) matches Some(error) ==> plan == Err::<
                Vec<GlCommand>,
                MeshError,
            >(error),
            Self::draw_error(self@) is None ==> plan is Ok && plan->Ok_0.deep_view()
                == draw_commands(self@.resources->Some_0, self@.triangles.len()) && 3
                * self@.triangles.len() <= i32::MAX,
    {
        match self.resources {
            None => Err(MeshError::NotReady),
            Some(resources) => {
                if self.indices.len() > MAX_TRIANGLES {
                    return Err(MeshError::TooManyIndices);
                }
                let count: i32 = (3 * self.indices.len()) as i32;
                let mut plan: Vec<GlCommand> = Vec::new();
                assert(plan.deep_view() =~= Seq::empty());
                push_command(&mut plan, resources.vertex_array.bind());
                push_command(&mut plan, GlCommand::DrawTriangles(count));
                push_command(&mut plan, resources.vertex_array.unbind());
                assert(plan.deep_view() =~= draw_commands(resources, self@.triangles.len()));
                Ok(plan)
            },
        }
    }

    /// Takes the mesh back to unprepared and returns the commands that give
    /// its GPU objects back to the context. On an unprepared mesh there is
    /// nothing to give back.
    pub fn release(&mut self) -> (plan: Vec<GlCommand>)
        ensures
            plan.deep_view() == release_commands(old(self)@.resources),
            final(self)@ == (MeshView { resources: None, ..old(self)@ }),
    {
        let plan = release_plan(self.resources);
        self.resources = None;
        plan
    }

    /// Which error, if any, keeps a mesh from being set up with `frames`
    /// and three names handed out by the context. The first that applies is
    /// the one reported.
    pub open spec fn setup_error(
        mesh: MeshView,
        frames: Seq<TangentFrame>,
        vertex_array: u32,
        vertex_buffer: u32,
        element_buffer: u32,
    ) -> Option<MeshError> {
        if Self::tangent_error(mesh, frames) is Some {
            Self::tangent_error(mesh, frames)
        } else if vertex_array == 0 {
            Some(MeshError::VertexArrayUnavailable)
        } else if vertex_buffer == 0 {
            Some(MeshError::VertexBufferUnavailable)
        } else if element_buffer == 0 {
            Some(MeshError::ElementBufferUnavailable)
        } else {
            None
        }
    }

    /// Prepares the mesh for drawing with three object names that the
    /// caller had the context generate: one vertex array and two buffers.
    ///
    /// On success the frames have been written as by
    /// [`Mesh::calculate_tangents`], the mesh is ready with the three
    /// names, and the commands returned give back whatever the mesh held
    /// before and then upload the geometry as it now is.
    ///
    /// On refusal the mesh is exactly as it was, ready or not, and the
    /// commands returned give back those of the three names that are live,
    /// so that nothing the caller generated stays behind.
    pub fn setup(
        &mut self,
        frames: &Vec<TangentFrame>,
        vertex_array: u32,
        vertex_buffer: u32,
        element_buffer: u32,
    ) -> (outcome: Result<Vec<GlCommand>, SetupFailure>)
        ensures
            Self::setup_error(old(self)@, frames@, vertex_array, vertex_buffer, element_buffer)
                matches Some(error) ==> {
                &&& outcome matches Err(failure)
                &&& failure.reason == error
                &&& failure.cleanup.deep_view() == discard_commands(
                    vertex_array,
                    vertex_buffer,
                    element_buffer,
                )
                &&& final(self)@ == old(self)@
            },
            Self::setup_error(old(self)@, frames@, vertex_array, vertex_buffer, element_buffer)
                is None ==> {
                &&& outcome matches Ok(plan)
                &&& final(self)@ == (MeshView {
                    vertices: with_frames(
                        old(self)@.vertices,
                        old(self)@.triangles,
                        frames@,
                        old(self)@.triangles.len() as int,
                    ),
                    triangles: old(self)@.triangles,
                    resources: Some(
                        GpuResources::of(vertex_array, vertex_buffer, element_buffer),
                    ),
                })
                &&& is_setup_plan(
                    plan.deep_view(),
                    old(self)@.resources,
                    GpuResources::of(vertex_array, vertex_buffer, element_buffer),
                    final(self)@.vertices,
                    final(self)@.triangles,
                )
            },
            held(old(self)@.resources).add(acquired(vertex_array, vertex_buffer, element_buffer))
                == held(final(self)@.resources).add(released(commands_of(outcome))),
            outcome is Ok ==> configured_attributes(commands_of(outcome)) == attribute_table(),
    {
        proof {
            use_type_invariant(&*self);
            lemma_discard_gives_back_acquired(vertex_array, vertex_buffer, element_buffer);
            assert(held(self@.resources).add(
                acquired(vertex_array, vertex_buffer, element_buffer),
            ) =~= acquired(vertex_array, vertex_buffer, element_buffer).add(held(self@.resources)));
        }
        if let Some(reason) = self.check_setup(frames, vertex_array, vertex_buffer, element_buffer) {
            let cleanup = discard_plan(vertex_array, vertex_buffer, element_buffer);
            return Err(SetupFailure { reason, cleanup });
        }
        let vao = VertexArray(vertex_array);
        let vbo = Buffer(vertex_buffer, BufferTarget::Array, BufferUsage::StaticDraw);
        let ebo = Buffer(element_buffer, BufferTarget::ElementArray, BufferUsage::StaticDraw);
        write_frames(&mut self.vertices, &self.indices, frames);

        let mut plan = release_plan(self.resources);
        let ghost given_back = plan.deep_view();
        let resources = GpuResources { vertex_array: vao, vertex_buffer: vbo, element_buffer: ebo };
        self.resources = Some(resources);

        let mut upload: Vec<GlCommand> = Vec::new();
        assert(upload.deep_view() =~= Seq::empty());
        push_command(&mut upload, vao.bind());
        push_command(&mut upload, vbo.bind());
        let vertex_data = memory_image(&flatten_vertices(&self.vertices));
        push_command(&mut upload, vbo.set_data(vertex_data));
        push_command(&mut upload, ebo.bind());
        let index_data = memory_image(&flatten_indices(&self.indices));
        push_command(&mut upload, ebo.set_data(index_data));
        let table = vertex_attributes();
        let mut slot: usize = 0;
        while slot < ATTRIBUTE_COUNT
            invariant
                slot <= ATTRIBUTE_COUNT,
                table@.len() == ATTRIBUTE_COUNT,
                forall|k: int| 0 <= k < ATTRIBUTE_COUNT ==> table@[k] == attribute(k),
                upload.deep_view().len() == 5 + 2 * slot,
                upload.deep_view()[0] == Command::BindVertexArray(vertex_array),
                upload.deep_view()[1] == Command::BindBuffer(BufferTarget::Array, vertex_buffer),
                upload.deep_view()[2] == Command::BufferData(
                    BufferTarget::Array,
                    vertex_data@,
                    BufferUsage::StaticDraw,
                ),
                upload.deep_view()[3] == Command::BindBuffer(
                    BufferTarget::ElementArray,
                    element_buffer,
                ),
                upload.deep_view()[4] == Command::BufferData(
                    BufferTarget::ElementArray,
                    index_data@,
                    BufferUsage::StaticDraw,
                ),
                forall|k: int|
                    0 <= k < slot ==> #[trigger] upload.deep_view()[5 + 2 * k]
                        == Command::VertexAttribPointer(attribute(k)),
                forall|k: int|
                    0 <= k < slot ==> #[trigger] upload.deep_view()[6 + 2 * k]
                        == Command::EnableVertexAttribArray(k as u32),
            decreases ATTRIBUTE_COUNT - slot,
        {
            let entry = table[slot];
            assert(entry == attribute(slot as int));
            push_command(&mut upload, GlCommand::VertexAttribPointer(entry));
            push_command(&mut upload, GlCommand::EnableVertexAttribArray(entry.index));
            assert(upload.deep_view()[6 + 2 * slot] == Command::EnableVertexAttribArray(
                slot as u32,
            ));
            slot = slot + 1;
        }
        push_command(&mut upload, vao.unbind());
        assert(is_upload(upload.deep_view(), resources, self.vertices@, self.indices@));

        let ghost uploaded = upload.deep_view();
        plan.append(&mut upload);
        proof {
            assert(plan.deep_view() =~= given_back + uploaded);
            assert(plan.deep_view().subrange(0, given_back.len() as int) =~= given_back);
            assert(plan.deep_view().subrange(
                given_back.len() as int,
                plan.deep_view().len() as int,
            ) =~= uploaded);
            lemma_setup_gives_back_previous(
                plan.deep_view(),
                old(self)@.resources,
                resources,
                self.vertices@,
                self.indices@,
            );
            lemma_setup_configures_layout(
                plan.deep_view(),
                old(self)@.resources,
                resources,
                self.vertices@,
                self.indices@,
            );
        }
        Ok(plan)
    }

    /// Finds the first error that keeps the mesh from being set up.
    fn check_setup(
        &self,
        frames: &Vec<TangentFrame>,
        vertex_array: u32,
        vertex_buffer: u32,
        element_buffer: u32,
    ) -> (error: Option<MeshError>)
        ensures
            error == Self::setup_error(
                self@,
                frames@,
                vertex_array,
                vertex_buffer,
                element_buffer,
            ),
    {
        if !indices_in_range(&self.indices, self.vertices.len()) {
            Some(MeshError::IndexOutOfRange)
        } else if frames.len() != self.indices.len() {
            Some(MeshError::FrameCountMismatch)
        } else if VertexArray::new(vertex_array).is_none() {
            Some(MeshError::VertexArrayUnavailable)
        } else if Buffer::new(BufferUsage::StaticDraw, BufferTarget::Array, vertex_buffer).is_none() {
            Some(MeshError::VertexBufferUnavailable)
        } else if Buffer::new(
            BufferUsage::StaticDraw,
            BufferTarget::ElementArray,
            element_buffer,
        ).is_none() {
            Some(MeshError::ElementBufferUnavailable)
        } else {
            None
        }
    }
}

} // verus!
