//! From the flat arrays of a triangulated, single-indexed model to a mesh.
//!
//! A model is accepted only whole: every triangle of a loaded mesh names
//! vertices that the mesh has.

use vstd::prelude::*;
use crate::mesh::{Mesh, MeshView};
use crate::tangent::{corners_in_range, in_range};
use crate::vertex::{Vector2, Vector3, VertIndicies, Vertex};

verus! {

/// Why the arrays of a model cannot be cut into vertices and triangles.
#[derive(Clone, Copy, Debug, PartialEq, Eq, Structural)]
pub enum LoadError {
    /// The normals are not a whole number of triples.
    RaggedNormals,
    /// The texture coordinates are not a whole number of pairs.
    RaggedTexCoords,
    /// The positions are not a whole number of triples.
    RaggedPositions,
    /// The indices are not a whole number of triples.
    RaggedIndices,
    /// An index names a vertex for which the arrays do not hold a
    /// position, a normal and a texture coordinate.
    IndexOutOfRange,
}

/// The smallest of three numbers.
pub open spec fn least(a: int, b: int, c: int) -> int {
    if a <= b && a <= c {
        a
    } else if b <= c {
        b
    } else {
        c
    }
}

/// Number of vertices that the arrays give: as many as all three hold.
pub open spec fn loaded_vertex_count(positions: nat, normals: nat, texcoords: nat) -> int {
    least(positions as int / 3, normals as int / 3, texcoords as int / 2)
}

/// Whether every index is below `vertex_count`.
pub open spec fn indices_below(indices: Seq<u32>, vertex_count: int) -> bool {
    forall|k: int| 0 <= k < indices.len() ==> (#[trigger] indices[k]) < vertex_count
}

/// Which error, if any, the four arrays give. The first that applies is the
/// one reported: an array that ends in the middle of a vertex or a
/// triangle, normals first, then texture coordinates, positions, indices;
/// after those, an index that names no complete vertex.
pub open spec fn load_error(
    positions: Seq<u32>,
    normals: Seq<u32>,
    texcoords: Seq<u32>,
    indices: Seq<u32>,
) -> Option<LoadError> {
    if normals.len() % 3 != 0 {
        Some(LoadError::RaggedNormals)
    } else if texcoords.len() % 2 != 0 {
        Some(LoadError::RaggedTexCoords)
    } else if positions.len() % 3 != 0 {
        Some(LoadError::RaggedPositions)
    } else if indices.len() % 3 != 0 {
        Some(LoadError::RaggedIndices)
    } else if !indices_below(
        indices,
        loaded_vertex_count(positions.len(), normals.len(), texcoords.len()),
    ) {
        Some(LoadError::IndexOutOfRange)
    } else {
        None
    }
}

/// Vertex `i` of the model: its position, normal and texture coordinate
/// from the arrays, its tangent and bitangent zero.
pub open spec fn loaded_vertex(
    positions: Seq<u32>,
    normals: Seq<u32>,
    texcoords: Seq<u32>,
    i: int,
) -> Vertex {
    Vertex {
        position: Vector3 { x: positions[3 * i], y: positions[3 * i + 1], z: positions[3 * i + 2] },
        normal: Vector3 { x: normals[3 * i], y: normals[3 * i + 1], z: normals[3 * i + 2] },
        tex_coords: Vector2 { x: texcoords[2 * i], y: texcoords[2 * i + 1] },
        tangent: Vector3 { x: 0, y: 0, z: 0 },
        bitangent: Vector3 { x: 0, y: 0, z: 0 },
    }
}

/// Whether `mesh` is the unprepared mesh of the model in the four arrays.
pub open spec fn is_loaded(
    mesh: MeshView,
    positions: Seq<u32>,
    normals: Seq<u32>,
    texcoords: Seq<u32>,
    indices: Seq<u32>,
) -> bool {
    &&& mesh.resources is None
    &&& mesh.vertices.len() == loaded_vertex_count(
        positions.len(),
        normals.len(),
        texcoords.len(),
    )
    &&& forall|i: int|
        0 <= i < mesh.vertices.len() ==> #[trigger] mesh.vertices[i] == loaded_vertex(
            positions,
            normals,
            texcoords,
            i,
        )
    &&& mesh.triangles.len() == indices.len() / 3
    &&& forall|t: int|
        0 <= t < mesh.triangles.len() ==> (#[trigger] mesh.triangles[t])@ == indices.subrange(
            3 * t,
            3 * t + 3,
        )
}

/// Builds the mesh of a model from its flat arrays: three scalars per
/// position and per normal, two per texture coordinate, three indices per
/// triangle. A vertex is made for every place at which all three of
/// position, normal and texture coordinate are present.
///
/// Refused where an array ends in the middle of a vertex or a triangle, and
/// where an index names a place at which one of the three is missing. So
/// every triangle of a loaded mesh names vertices that the mesh has.
pub fn mesh_from_obj(
    positions: &Vec<u32>,
    normals: &Vec<u32>,
    texcoords: &Vec<u32>,
    indices: &Vec<u32>,
) -> (loaded: Result<Mesh, LoadError>)
    ensures
        load_error(positions@, normals@, texcoords@, indices@) matches Some(error) ==> (
        loaded matches Err(reported) && reported == error),
        load_error(positions@, normals@, texcoords@, indices@) is None ==> (loaded matches Ok(
            mesh,
        ) && is_loaded(mesh@, positions@, normals@, texcoords@, indices@) && in_range(
            mesh@.triangles,
            mesh@.vertices.len() as int,
        )),
{
    if normals.len() % 3 != 0 {
        return Err(LoadError::RaggedNormals);
    }
    if texcoords.len() % 2 != 0 {
        return Err(LoadError::RaggedTexCoords);
    }
    if positions.len() % 3 != 0 {
        return Err(LoadError::RaggedPositions);
    }
    if indices.len() % 3 != 0 {
        return Err(LoadError::RaggedIndices);
    }
    let mut count = positions.len() / 3;
    if normals.len() / 3 < count {
        count = normals.len() / 3;
    }
    if texcoords.len() / 2 < count {
        count = texcoords.len() / 2;
    }
    let index_count = indices.len();
    let mut k: usize = 0;
    while k < index_count
        invariant
            k <= index_count,
            index_count == indices@.len(),
            normals@.len() % 3 == 0,
            texcoords@.len() % 2 == 0,
            positions@.len() % 3 == 0,
            indices@.len() % 3 == 0,
            count == loaded_vertex_count(positions@.len(), normals@.len(), texcoords@.len()),
            indices_below(indices@.take(k as int), count as int),
        decreases index_count - k,
    {
        if indices[k] as usize >= count {
            assert(!(indices@[k as int] < count));
            return Err(LoadError::IndexOutOfRange);
        }
        assert forall|j: int| 0 <= j < k + 1 implies (#[trigger] indices@.take(k + 1)[j])
            < count by {
            if j < k {
                assert(indices@.take(k as int)[j] == indices@[j]);
            }
        }
        k = k + 1;
    }
    assert(indices@.take(index_count as int) =~= indices@);
    let mut vertices: Vec<Vertex> = Vec::new();
    let mut i: usize = 0;
    while i < count
        invariant
            i <= count,
            count == loaded_vertex_count(positions@.len(), normals@.len(), texcoords@.len()),
            3 * count <= positions@.len() <= usize::MAX,
            3 * count <= normals@.len() <= usize::MAX,
            2 * count <= texcoords@.len() <= usize::MAX,
            vertices@.len() == i,
            forall|k: int|
                0 <= k < i ==> #[trigger] vertices@[k] == loaded_vertex(
                    positions@,
                    normals@,
                    texcoords@,
                    k,
                ),
        decreases count - i,
    {
        let position = Vector3 {
            x: positions[3 * i],
            y: positions[3 * i + 1],
            z: positions[3 * i + 2],
        };
        let normal = Vector3 { x: normals[3 * i], y: normals[3 * i + 1], z: normals[3 * i + 2] };
        let tex_coords = Vector2 { x: texcoords[2 * i], y: texcoords[2 * i + 1] };
        vertices.push(Vertex::new(position, normal, tex_coords));
        i = i + 1;
    }
    let triangle_count = indices.len() / 3;
    let mut triangles: Vec<VertIndicies> = Vec::new();
    let mut t: usize = 0;
    while t < triangle_count
        invariant
            t <= triangle_count,
            triangle_count == indices@.len() / 3,
            3 * triangle_count <= indices@.len() <= usize::MAX,
            triangles@.len() == t,
            forall|k: int|
                0 <= k < t ==> (#[trigger] triangles@[k])@ == indices@.subrange(3 * k, 3 * k + 3),
        decreases triangle_count - t,
    {
        let triangle: VertIndicies = [indices[3 * t], indices[3 * t + 1], indices[3 * t + 2]];
        assert(triangle@ =~= indices@.subrange(3 * t, 3 * t + 3));
        triangles.push(triangle);
        t = t + 1;
    }
    assert forall|t: int| 0 <= t < triangles@.len() implies corners_in_range(
        #[trigger] triangles@[t],
        count as int,
    ) by {
        let cut = indices@.subrange(3 * t, 3 * t + 3);
        assert(triangles@[t][0] == cut[0] && cut[0] == indices@[3 * t]);
        assert(triangles@[t][1] == cut[1] && cut[1] == indices@[3 * t + 1]);
        assert(triangles@[t][2] == cut[2] && cut[2] == indices@[3 * t + 2]);
    }
    Ok(Mesh::new(vertices, triangles))
}

} // verus!
