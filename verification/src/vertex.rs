//! The vertex record and its interleaved layout.

use vstd::prelude::*;

verus! {

/// Number of scalars in one vertex record.
pub const SCALARS_PER_VERTEX: usize = 14;

/// Size in bytes of one scalar.
pub const SCALAR_SIZE: usize = 4;

/// Size in bytes of one vertex record, which is also the distance between
/// the same field of two neighbouring vertices.
pub const VERTEX_STRIDE: i32 = 56;

/// Number of shader inputs fed from one vertex record.
pub const ATTRIBUTE_COUNT: usize = 5;

/// The three vertices of one triangle, as positions in the vertex list.
pub type VertIndicies = [u32; 3];

/// Two scalars, each held by its bit pattern.
#[derive(Clone, Copy, Debug, PartialEq, Eq, Structural)]
pub struct Vector2 {
    pub x: u32,
    pub y: u32,
}

/// Three scalars, each held by its bit pattern.
#[derive(Clone, Copy, Debug, PartialEq, Eq, Structural)]
pub struct Vector3 {
    pub x: u32,
    pub y: u32,
    pub z: u32,
}

impl Vector2 {
    /// The scalars in memory order.
    pub open spec fn words(self) -> Seq<u32> {
        seq![self.x, self.y]
    }

    /// The vector whose scalars are all positive zero.
    pub fn zero() -> (v: Self)
        ensures
            v == (Vector2 { x: 0, y: 0 }),
        no_unwind
    {
        Vector2 { x: 0, y: 0 }
    }
}

impl Vector3 {
    /// The scalars in memory order.
    pub open spec fn words(self) -> Seq<u32> {
        seq![self.x, self.y, self.z]
    }

    /// The vector whose scalars are all positive zero.
    pub fn zero() -> (v: Self)
        ensures
            v == (Vector3 { x: 0, y: 0, z: 0 }),
        no_unwind
    {
        Vector3 { x: 0, y: 0, z: 0 }
    }
}

/// One vertex: position, normal, texture coordinate, tangent, bitangent.
///
/// The fields are declared in the order in which they lie in a vertex
/// buffer; [`Vertex::words`] is that order written out.
#[derive(Clone, Copy, Debug, PartialEq, Eq, Structural)]
pub struct Vertex {
    pub position: Vector3,
    pub normal: Vector3,
    pub tex_coords: Vector2,
    pub tangent: Vector3,
    pub bitangent: Vector3,
}

impl Vertex {
    /// The fourteen scalars of the record in buffer order.
    pub open spec fn words(self) -> Seq<u32> {
        seq![
            self.position.x,
            self.position.y,
            self.position.z,
            self.normal.x,
            self.normal.y,
            self.normal.z,
            self.tex_coords.x,
            self.tex_coords.y,
            self.tangent.x,
            self.tangent.y,
            self.tangent.z,
            self.bitangent.x,
            self.bitangent.y,
            self.bitangent.z,
        ]
    }

    /// The scalars of the field that feeds shader input `slot`.
    pub open spec fn field(self, slot: int) -> Seq<u32> {
        if slot == 0 {
            self.position.words()
        } else if slot == 1 {
            self.normal.words()
        } else if slot == 2 {
            self.tex_coords.words()
        } else if slot == 3 {
            self.tangent.words()
        } else {
            self.bitangent.words()
        }
    }

    /// A vertex as a loader supplies it: tangent and bitangent are zero
    /// until tangents are calculated.
    pub fn new(position: Vector3, normal: Vector3, tex_coords: Vector2) -> (v: Self)
        ensures
            v == (Vertex {
                position,
                normal,
                tex_coords,
                tangent: Vector3 { x: 0, y: 0, z: 0 },
                bitangent: Vector3 { x: 0, y: 0, z: 0 },
            }),
    {
        Vertex { position, normal, tex_coords, tangent: Vector3::zero(), bitangent: Vector3::zero() }
    }

    /// The same vertex with another tangent and bitangent.
    pub open spec fn with_tangents(self, tangent: Vector3, bitangent: Vector3) -> Vertex {
        Vertex { tangent, bitangent, ..self }
    }

    /// Appends the scalars of the record to `out` in buffer order.
    pub fn write_words(&self, out: &mut Vec<u32>)
        ensures
            final(out)@ == old(out)@ + self.words(),
    {
        out.push(self.position.x);
        out.push(self.position.y);
        out.push(self.position.z);
        out.push(self.normal.x);
        out.push(self.normal.y);
        out.push(self.normal.z);
        out.push(self.tex_coords.x);
        out.push(self.tex_coords.y);
        out.push(self.tangent.x);
        out.push(self.tangent.y);
        out.push(self.tangent.z);
        out.push(self.bitangent.x);
        out.push(self.bitangent.y);
        out.push(self.bitangent.z);
    }
}

impl Default for Vertex {
    /// The vertex whose scalars are all positive zero.
    fn default() -> (v: Self)
        ensures
            v.words() == Seq::new(14, |k: int| 0u32),
    {
        Vertex::new(Vector3::zero(), Vector3::zero(), Vector2::zero())
    }
}

/// The scalars of a vertex list in buffer order: record after record,
/// fourteen scalars each.
pub open spec fn vertex_words(vertices: Seq<Vertex>) -> Seq<u32> {
    Seq::new(14 * vertices.len(), |k: int| vertices[k / 14].words()[k % 14])
}

/// The indices of a triangle list in buffer order: three to the triangle.
pub open spec fn index_words(triangles: Seq<VertIndicies>) -> Seq<u32> {
    Seq::new(3 * triangles.len(), |k: int| triangles[k / 3][k % 3])
}

/// Lays a vertex list out as the scalars of a vertex buffer.
pub fn flatten_vertices(vertices: &Vec<Vertex>) -> (words: Vec<u32>)
    ensures
        words@ == vertex_words(vertices@),
{
    let n = vertices.len();
    let mut words: Vec<u32> = Vec::new();
    let mut i: usize = 0;
    while i < n
        invariant
            i <= n,
            n == vertices@.len(),
            words@ == vertex_words(vertices@.take(i as int)),
        decreases n - i,
    {
        let ghost before = words@;
        vertices[i].write_words(&mut words);
        assert(words@ =~= vertex_words(vertices@.take(i + 1))) by {
            assert(words@.len() == 14 * (i + 1));
            assert forall|k: int| 0 <= k < 14 * (i + 1) implies words@[k] == vertex_words(
                vertices@.take(i + 1),
            )[k] by {
                if k < 14 * i {
                    assert(words@[k] == before[k]);
                    assert(vertices@.take(i as int)[k / 14] == vertices@.take(i + 1)[k / 14]);
                } else {
                    assert(k / 14 == i);
                    assert(words@[k] == vertices@[i as int].words()[k - 14 * i]);
                }
            }
        }
        i = i + 1;
    }
    assert(vertices@.take(n as int) =~= vertices@);
    words
}

/// Lays a triangle list out as the indices of an element buffer.
pub fn flatten_indices(indices: &Vec<VertIndicies>) -> (words: Vec<u32>)
    ensures
        words@ == index_words(indices@),
{
    let n = indices.len();
    let mut words: Vec<u32> = Vec::new();
    let mut t: usize = 0;
    while t < n
        invariant
            t <= n,
            n == indices@.len(),
            words@ == index_words(indices@.take(t as int)),
        decreases n - t,
    {
        let ghost before = words@;
        let triangle = indices[t];
        words.push(triangle[0]);
        words.push(triangle[1]);
        words.push(triangle[2]);
        assert(words@ =~= index_words(indices@.take(t + 1))) by {
            assert forall|k: int| 0 <= k < 3 * (t + 1) implies words@[k] == index_words(
                indices@.take(t + 1),
            )[k] by {
                if k < 3 * t {
                    assert(words@[k] == before[k]);
                    assert(indices@.take(t as int)[k / 3] == indices@.take(t + 1)[k / 3]);
                } else {
                    assert(k / 3 == t);
                }
            }
        }
        t = t + 1;
    }
    assert(indices@.take(n as int) =~= indices@);
    words
}

/// How one shader input is fed from the vertex buffer. The components are
/// binary32 scalars and are handed to the shader as they are.
#[derive(Clone, Copy, Debug, PartialEq, Eq, Structural)]
pub struct VertexAttribute {
    /// Shader input slot.
    pub index: u32,
    /// Number of scalars per vertex.
    pub components: i32,
    /// Bytes from one vertex to the next.
    pub stride: i32,
    /// Bytes from the start of a vertex record to the first scalar.
    pub offset: usize,
}

/// Number of scalars of the field that feeds shader input `slot`.
pub open spec fn components_of(slot: int) -> int {
    if slot == 2 {
        2
    } else {
        3
    }
}

/// Number of scalars that lie before the field of `slot` in a record.
pub open spec fn scalars_before(slot: int) -> int
    decreases slot,
{
    if slot <= 0 {
        0
    } else {
        scalars_before(slot - 1) + components_of(slot - 1)
    }
}

/// The attribute that feeds shader input `slot`: full-record stride, and an
/// offset equal to the byte size of the fields before it.
pub open spec fn attribute(slot: int) -> VertexAttribute {
    VertexAttribute {
        index: slot as u32,
        components: components_of(slot) as i32,
        stride: VERTEX_STRIDE,
        offset: (SCALAR_SIZE * scalars_before(slot)) as usize,
    }
}

/// The five attributes of the vertex layout, by slot.
pub open spec fn attribute_table() -> Seq<VertexAttribute> {
    Seq::new(ATTRIBUTE_COUNT as nat, |slot: int| attribute(slot))
}

/// The attributes of the vertex layout, in slot order.
pub fn vertex_attributes() -> (table: Vec<VertexAttribute>)
    ensures
        table@ == attribute_table(),
{
    let counts: [i32; 5] = [3, 3, 2, 3, 3];
    let mut table: Vec<VertexAttribute> = Vec::new();
    let mut offset: usize = 0;
    let mut slot: u32 = 0;
    while slot < 5
        invariant
            slot <= 5,
            table@.len() == slot,
            offset == SCALAR_SIZE * scalars_before(slot as int),
            offset <= 12 * slot,
            counts@ == seq![3i32, 3i32, 2i32, 3i32, 3i32],
            forall|k: int| 0 <= k < slot ==> table@[k] == attribute(k),
        decreases 5 - slot,
    {
        let components: i32 = counts[slot as usize];
        assert(components == components_of(slot as int));
        table.push(VertexAttribute { index: slot, components, stride: VERTEX_STRIDE, offset });
        assert(scalars_before(slot as int + 1) == scalars_before(slot as int) + components_of(
            slot as int,
        ));
        offset = offset + SCALAR_SIZE * (components as usize);
        slot = slot + 1;
    }
    assert(table@ =~= attribute_table());
    table
}

/// The attribute table written out: five attributes in field order, three
/// scalars each but for the two of the texture coordinate, every one
/// striding by the fifty-six bytes of the fourteen scalars of a record, each
/// starting four bytes times the scalars before it into the record.
pub proof fn lemma_attribute_table_written_out()
    ensures
        attribute_table() == seq![
            VertexAttribute { index: 0, components: 3, stride: 56, offset: 0 },
            VertexAttribute { index: 1, components: 3, stride: 56, offset: 12 },
            VertexAttribute { index: 2, components: 2, stride: 56, offset: 24 },
            VertexAttribute { index: 3, components: 3, stride: 56, offset: 32 },
            VertexAttribute { index: 4, components: 3, stride: 56, offset: 44 },
        ],
        scalars_before(ATTRIBUTE_COUNT as int) == SCALARS_PER_VERTEX,
        VERTEX_STRIDE == SCALAR_SIZE * SCALARS_PER_VERTEX,
{
    reveal_with_fuel(scalars_before, 6);
    assert(attribute_table() =~= seq![
        VertexAttribute { index: 0, components: 3, stride: 56, offset: 0 },
        VertexAttribute { index: 1, components: 3, stride: 56, offset: 12 },
        VertexAttribute { index: 2, components: 2, stride: 56, offset: 24 },
        VertexAttribute { index: 3, components: 3, stride: 56, offset: 32 },
        VertexAttribute { index: 4, components: 3, stride: 56, offset: 44 },
    ]);
}

/// The stride of every attribute is the size of the whole record, its
/// offset is a whole number of scalars, and the scalars it selects from a
/// record are exactly those of the field it is declared for.
pub proof fn lemma_attribute_selects_field(v: Vertex, slot: int)
    requires
        0 <= slot < ATTRIBUTE_COUNT,
    ensures
        attribute(slot).index == slot,
        attribute(slot).stride == SCALAR_SIZE * v.words().len(),
        attribute(slot).offset == SCALAR_SIZE * scalars_before(slot),
        0 <= scalars_before(slot),
        scalars_before(slot) + attribute(slot).components <= v.words().len(),
        v.words().subrange(
            scalars_before(slot),
            scalars_before(slot) + attribute(slot).components,
        ) == v.field(slot),
{
    reveal_with_fuel(scalars_before, 6);
    assert(v.words().subrange(
        scalars_before(slot),
        scalars_before(slot) + attribute(slot).components,
    ) =~= v.field(slot));
}

/// The attributes tile the record: the first starts at byte zero, each
/// starts where the one before it ends, and the last ends at the stride.
pub proof fn lemma_attributes_tile_record(slot: int)
    requires
        0 <= slot < ATTRIBUTE_COUNT,
    ensures
        attribute(0).offset == 0,
        slot + 1 < ATTRIBUTE_COUNT ==> attribute(slot + 1).offset == attribute(slot).offset
            + SCALAR_SIZE * attribute(slot).components,
        attribute(4).offset + SCALAR_SIZE * attribute(4).components == VERTEX_STRIDE,
{
    reveal_with_fuel(scalars_before, 6);
}

} // verus!
