//! Tangent frames: what is read from each triangle, what is handed back for
//! it, and which frame ends up at which vertex.
//!
//! The arithmetic of a frame is the caller's. For a triangle with corner
//! positions `a b c`, corner texture coordinates `uva uvb uvc` and the
//! normal `n` of its first corner, with `e1 = b - a`, `e2 = c - a`,
//! `d1 = uvb - uva`, `d2 = uvc - uva`, the caller reports
//!
//! * `determinant = d1.x * d2.y - d1.y * d2.x`, and with `r = 1 / determinant`,
//! * `bitangent = (e2 * d1.x - e1 * d2.x) * r`,
//! * `tangent = normalize(t - n * dot(n, t))` where
//!   `t = (e1 * d2.y - e2 * d1.y) * r`.
//!
//! A triangle whose determinant is zero has no frame. For such a triangle
//! the reported tangent and bitangent are ignored and the zero vector is
//! written for both, so that no infinity or NaN born of the division reaches
//! a vertex.
//!
//! Frames are written triangle by triangle in list order, each one to all
//! three corners. A vertex shared by several triangles keeps the frame of
//! the last of them; nothing is averaged.

use vstd::prelude::*;
use crate::vertex::{Vector2, Vector3, VertIndicies, Vertex};

verus! {

/// What the frame arithmetic reads from one triangle.
#[derive(Clone, Copy, Debug, PartialEq, Eq, Structural)]
pub struct TriangleCorners {
    pub position0: Vector3,
    pub position1: Vector3,
    pub position2: Vector3,
    /// Normal of the first corner.
    pub normal: Vector3,
    pub tex_coords0: Vector2,
    pub tex_coords1: Vector2,
    pub tex_coords2: Vector2,
}

/// What the frame arithmetic reports for one triangle.
#[derive(Clone, Copy, Debug, PartialEq, Eq, Structural)]
pub struct TangentFrame {
    /// Determinant of the texture-coordinate edges.
    pub determinant: u32,
    /// Tangent, made orthogonal to the normal and normalised.
    pub tangent: Vector3,
    /// Bitangent, as computed.
    pub bitangent: Vector3,
}

/// Whether a determinant with this bit pattern is zero, of either sign.
pub open spec fn is_zero_scalar(bits: u32) -> bool {
    bits & 0x7fff_ffff == 0
}

impl TangentFrame {
    /// Whether the triangle has no frame.
    pub open spec fn degenerate(self) -> bool {
        is_zero_scalar(self.determinant)
    }

    /// The tangent that is written for the triangle.
    pub open spec fn written_tangent(self) -> Vector3 {
        if self.degenerate() {
            Vector3 { x: 0, y: 0, z: 0 }
        } else {
            self.tangent
        }
    }

    /// The bitangent that is written for the triangle.
    pub open spec fn written_bitangent(self) -> Vector3 {
        if self.degenerate() {
            Vector3 { x: 0, y: 0, z: 0 }
        } else {
            self.bitangent
        }
    }

    /// Whether the triangle has no frame: its determinant is `+0` or `-0`.
    pub fn is_degenerate(&self) -> (d: bool)
        ensures
            d == self.degenerate(),
            d <==> (self.determinant == 0 || self.determinant == 0x8000_0000),
        no_unwind
    {
        let bits: u32 = self.determinant;
        assert((bits & 0x7fff_ffff == 0) <==> (bits == 0 || bits == 0x8000_0000)) by (bit_vector);
        bits & 0x7fff_ffff == 0
    }

    /// The tangent and bitangent that are written for the triangle.
    pub fn resolve(&self) -> (pair: (Vector3, Vector3))
        ensures
            pair.0 == self.written_tangent(),
            pair.1 == self.written_bitangent(),
        no_unwind
    {
        if self.is_degenerate() {
            (Vector3::zero(), Vector3::zero())
        } else {
            (self.tangent, self.bitangent)
        }
    }
}

/// Whether all three corners of `triangle` name one of `vertex_count` vertices.
pub open spec fn corners_in_range(triangle: VertIndicies, vertex_count: int) -> bool {
    triangle[0] < vertex_count && triangle[1] < vertex_count && triangle[2] < vertex_count
}

/// Whether every triangle names only existing vertices.
pub open spec fn in_range(triangles: Seq<VertIndicies>, vertex_count: int) -> bool {
    forall|t: int| 0 <= t < triangles.len() ==> corners_in_range(#[trigger] triangles[t], vertex_count)
}

/// Whether vertex `v` is a corner of `triangle`.
pub open spec fn touches(triangle: VertIndicies, v: int) -> bool {
    triangle[0] == v || triangle[1] == v || triangle[2] == v
}

/// The last of the first `n` triangles that has `v` as a corner, or `-1`
/// where none of them has.
pub open spec fn last_touching(triangles: Seq<VertIndicies>, n: int, v: int) -> int
    decreases n,
{
    if n <= 0 {
        -1
    } else if touches(triangles[n - 1], v) {
        n - 1
    } else {
        last_touching(triangles, n - 1, v)
    }
}

/// What the frame arithmetic reads from `triangle`.
pub open spec fn corners_of(vertices: Seq<Vertex>, triangle: VertIndicies) -> TriangleCorners {
    TriangleCorners {
        position0: vertices[triangle[0] as int].position,
        position1: vertices[triangle[1] as int].position,
        position2: vertices[triangle[2] as int].position,
        normal: vertices[triangle[0] as int].normal,
        tex_coords0: vertices[triangle[0] as int].tex_coords,
        tex_coords1: vertices[triangle[1] as int].tex_coords,
        tex_coords2: vertices[triangle[2] as int].tex_coords,
    }
}

/// The corners of every triangle, in list order.
pub open spec fn all_corners(vertices: Seq<Vertex>, triangles: Seq<VertIndicies>) -> Seq<
    TriangleCorners,
> {
    Seq::new(triangles.len(), |t: int| corners_of(vertices, triangles[t]))
}

/// Vertex `v` after the frames of the first `n` triangles have been written:
/// it carries the frame of the last of them that touches it, and is as it
/// was where none does.
pub open spec fn vertex_with_frames(
    vertex: Vertex,
    triangles: Seq<VertIndicies>,
    frames: Seq<TangentFrame>,
    n: int,
    v: int,
) -> Vertex {
    let last = last_touching(triangles, n, v);
    if last < 0 {
        vertex
    } else {
        vertex.with_tangents(frames[last].written_tangent(), frames[last].written_bitangent())
    }
}

/// The vertex list after the frames of the first `n` triangles have been
/// written.
pub open spec fn with_frames(
    vertices: Seq<Vertex>,
    triangles: Seq<VertIndicies>,
    frames: Seq<TangentFrame>,
    n: int,
) -> Seq<Vertex> {
    Seq::new(vertices.len(), |v: int| vertex_with_frames(vertices[v], triangles, frames, n, v))
}

/// `last_touching` is what its name says: it lies below `n`, the triangle it
/// names touches `v`, and no later one among the first `n` does.
pub proof fn lemma_last_touching(triangles: Seq<VertIndicies>, n: int, v: int)
    ensures
        -1 <= last_touching(triangles, n, v),
        n <= 0 ==> last_touching(triangles, n, v) == -1,
        0 < n ==> last_touching(triangles, n, v) < n,
        0 <= last_touching(triangles, n, v) ==> touches(
            triangles[last_touching(triangles, n, v)],
            v,
        ),
        forall|t: int|
            last_touching(triangles, n, v) < t < n ==> !touches(#[trigger] triangles[t], v),
    decreases n,
{
    if n > 0 && !touches(triangles[n - 1], v) {
        lemma_last_touching(triangles, n - 1, v);
    }
}

/// A triangle that touches `v` and is followed by none that does is the
/// last one touching `v`.
pub proof fn lemma_last_touching_is(triangles: Seq<VertIndicies>, n: int, v: int, t: int)
    requires
        0 <= t < n,
        touches(triangles[t], v),
        forall|later: int| t < later < n ==> !touches(#[trigger] triangles[later], v),
    ensures
        last_touching(triangles, n, v) == t,
    decreases n,
{
    if t < n - 1 {
        lemma_last_touching_is(triangles, n - 1, v, t);
    }
}

/// Last writer wins: once all frames are written, a vertex carries the
/// frame of the last triangle in list order that has it as a corner, whatever
/// earlier triangles wrote there, and keeps its position, normal and texture
/// coordinate.
pub proof fn lemma_last_writer_wins(
    vertices: Seq<Vertex>,
    triangles: Seq<VertIndicies>,
    frames: Seq<TangentFrame>,
    v: int,
    t: int,
)
    requires
        0 <= v < vertices.len(),
        0 <= t < triangles.len(),
        touches(triangles[t], v),
        forall|later: int| t < later < triangles.len() ==> !touches(#[trigger] triangles[later], v),
    ensures
        with_frames(vertices, triangles, frames, triangles.len() as int)[v] == vertices[v].with_tangents(
            frames[t].written_tangent(),
            frames[t].written_bitangent(),
        ),
{
    lemma_last_touching_is(triangles, triangles.len() as int, v, t);
}

/// A vertex that no triangle has as a corner is left as it was.
pub proof fn lemma_untouched_vertex_is_kept(
    vertices: Seq<Vertex>,
    triangles: Seq<VertIndicies>,
    frames: Seq<TangentFrame>,
    v: int,
)
    requires
        0 <= v < vertices.len(),
        forall|t: int| 0 <= t < triangles.len() ==> !touches(#[trigger] triangles[t], v),
    ensures
        with_frames(vertices, triangles, frames, triangles.len() as int)[v] == vertices[v],
{
    lemma_last_touching(triangles, triangles.len() as int, v);
}

/// Where the last triangle at a vertex has a zero determinant, the vertex
/// ends with the zero vector as tangent and as bitangent, whatever was
/// reported as that triangle's tangent and bitangent.
pub proof fn lemma_degenerate_writes_zero(
    vertices: Seq<Vertex>,
    triangles: Seq<VertIndicies>,
    frames: Seq<TangentFrame>,
    v: int,
    t: int,
)
    requires
        0 <= v < vertices.len(),
        0 <= t < triangles.len(),
        touches(triangles[t], v),
        forall|later: int| t < later < triangles.len() ==> !touches(#[trigger] triangles[later], v),
        frames[t].determinant == 0 || frames[t].determinant == 0x8000_0000,
    ensures
        with_frames(vertices, triangles, frames, triangles.len() as int)[v].tangent == (Vector3 {
            x: 0,
            y: 0,
            z: 0,
        }),
        with_frames(vertices, triangles, frames, triangles.len() as int)[v].bitangent == (Vector3 {
            x: 0,
            y: 0,
            z: 0,
        }),
{
    lemma_last_writer_wins(vertices, triangles, frames, v, t);
    let bits: u32 = frames[t].determinant;
    assert((bits == 0 || bits == 0x8000_0000) ==> bits & 0x7fff_ffff == 0) by (bit_vector);
}

/// Writing frames changes nothing that the frame arithmetic reads: the
/// corners of every triangle are the same before and after, however many
/// frames have been written. So the frames may all be computed first and
/// written afterwards.
pub proof fn lemma_frames_keep_corners(
    vertices: Seq<Vertex>,
    triangles: Seq<VertIndicies>,
    frames: Seq<TangentFrame>,
    n: int,
)
    requires
        in_range(triangles, vertices.len() as int),
    ensures
        all_corners(with_frames(vertices, triangles, frames, n), triangles) == all_corners(
            vertices,
            triangles,
        ),
{
    let after = with_frames(vertices, triangles, frames, n);
    assert forall|t: int| 0 <= t < triangles.len() implies corners_of(after, triangles[t])
        == corners_of(vertices, triangles[t]) by {
        assert(corners_in_range(triangles[t], vertices.len() as int));
    }
    assert(all_corners(after, triangles) =~= all_corners(vertices, triangles));
}

/// Whether every index in `indices` names one of `vertex_count` vertices.
pub fn indices_in_range(indices: &Vec<VertIndicies>, vertex_count: usize) -> (ok: bool)
    ensures
        ok == in_range(indices@, vertex_count as int),
{
    let n = indices.len();
    let mut t: usize = 0;
    while t < n
        invariant
            t <= n,
            n == indices@.len(),
            in_range(indices@.take(t as int), vertex_count as int),
        decreases n - t,
    {
        let triangle = indices[t];
        if triangle[0] as usize >= vertex_count || triangle[1] as usize >= vertex_count
            || triangle[2] as usize >= vertex_count {
            assert(!corners_in_range(indices@[t as int], vertex_count as int));
            return false;
        }
        assert forall|k: int| 0 <= k < t + 1 implies corners_in_range(
            #[trigger] indices@.take(t + 1)[k],
            vertex_count as int,
        ) by {
            if k < t {
                assert(indices@.take(t as int)[k] == indices@[k]);
            }
        }
        t = t + 1;
    }
    assert(indices@.take(n as int) =~= indices@);
    true
}

/// Reads from the vertex list what the frame arithmetic needs for each
/// triangle.
pub(crate) fn gather_corners(vertices: &Vec<Vertex>, indices: &Vec<VertIndicies>) -> (corners: Vec<
    TriangleCorners,
>)
    requires
        in_range(indices@, vertices@.len() as int),
    ensures
        corners@ == all_corners(vertices@, indices@),
{
    let n = indices.len();
    let mut corners: Vec<TriangleCorners> = Vec::new();
    let mut t: usize = 0;
    while t < n
        invariant
            t <= n,
            n == indices@.len(),
            in_range(indices@, vertices@.len() as int),
            corners@.len() == t,
            forall|k: int| 0 <= k < t ==> corners@[k] == corners_of(vertices@, indices@[k]),
        decreases n - t,
    {
        let triangle = indices[t];
        assert(corners_in_range(indices@[t as int], vertices@.len() as int));
        let v0 = vertices[triangle[0] as usize];
        let v1 = vertices[triangle[1] as usize];
        let v2 = vertices[triangle[2] as usize];
        corners.push(
            TriangleCorners {
                position0: v0.position,
                position1: v1.position,
                position2: v2.position,
                normal: v0.normal,
                tex_coords0: v0.tex_coords,
                tex_coords1: v1.tex_coords,
                tex_coords2: v2.tex_coords,
            },
        );
        t = t + 1;
    }
    assert(corners@ =~= all_corners(vertices@, indices@));
    corners
}

/// Writes the frame of each triangle to its three corners, in list order.
pub(crate) fn write_frames(
    vertices: &mut Vec<Vertex>,
    indices: &Vec<VertIndicies>,
    frames: &Vec<TangentFrame>,
)
    requires
        in_range(indices@, old(vertices)@.len() as int),
        frames@.len() == indices@.len(),
    ensures
        final(vertices)@ == with_frames(
            old(vertices)@,
            indices@,
            frames@,
            indices@.len() as int,
        ),
    no_unwind
{
    let ghost base = vertices@;
    let n = indices.len();
    let mut t: usize = 0;
    assert(vertices@ =~= with_frames(base, indices@, frames@, 0));
    while t < n
        invariant
            t <= n,
            n == indices@.len(),
            frames@.len() == n,
            in_range(indices@, base.len() as int),
            vertices@ == with_frames(base, indices@, frames@, t as int),
        decreases n - t,
    {
        let triangle = indices[t];
        assert(corners_in_range(indices@[t as int], base.len() as int));
        let (tangent, bitangent) = frames[t].resolve();
        let c0 = triangle[0] as usize;
        let c1 = triangle[1] as usize;
        let c2 = triangle[2] as usize;
        let mut v0 = vertices[c0];
        v0.tangent = tangent;
        v0.bitangent = bitangent;
        vertices[c0] = v0;
        let mut v1 = vertices[c1];
        v1.tangent = tangent;
        v1.bitangent = bitangent;
        vertices[c1] = v1;
        let mut v2 = vertices[c2];
        v2.tangent = tangent;
        v2.bitangent = bitangent;
        vertices[c2] = v2;
        assert(vertices@ =~= with_frames(base, indices@, frames@, t + 1));
        t = t + 1;
    }
}

} // verus!
