use opengl_renderer::loader::{mesh_from_obj, LoadError};
use opengl_renderer::tangent::indices_in_range;
use opengl_renderer::vertex::{Vector2, Vector3, Vertex};

fn bits(values: &[f32]) -> Vec<u32> {
    values.iter().map(|v| v.to_bits()).collect()
}

fn error_of(p: usize, n: usize, t: usize, i: usize) -> Option<LoadError> {
    mesh_from_obj(&vec![0; p], &vec![0; n], &vec![0; t], &vec![0; i]).err()
}

#[test]
fn arrays_of_a_triangle_become_three_vertices_and_one_triangle() {
    let positions = bits(&[0.0, 0.0, 0.0, 1.0, 0.0, 0.0, 0.0, 1.0, 0.0]);
    let normals = bits(&[0.0, 0.0, 1.0, 0.0, 0.0, 1.0, 0.0, 0.0, 1.0]);
    let texcoords = bits(&[0.0, 0.0, 1.0, 0.0, 0.0, 1.0]);
    let mesh = mesh_from_obj(&positions, &normals, &texcoords, &vec![0, 1, 2]).unwrap();
    assert_eq!(mesh.vertices().len(), 3);
    assert_eq!(
        mesh.vertices()[1],
        Vertex {
            position: Vector3 { x: 1.0f32.to_bits(), y: 0, z: 0 },
            normal: Vector3 { x: 0, y: 0, z: 1.0f32.to_bits() },
            tex_coords: Vector2 { x: 1.0f32.to_bits(), y: 0 },
            tangent: Vector3 { x: 0, y: 0, z: 0 },
            bitangent: Vector3 { x: 0, y: 0, z: 0 },
        }
    );
    assert_eq!(mesh.indices(), &vec![[0, 1, 2]]);
    assert_eq!(mesh.resources(), None);
}

#[test]
fn loaded_vertices_take_their_scalars_in_array_order() {
    let positions: Vec<u32> = (100..106).collect();
    let normals: Vec<u32> = (200..206).collect();
    let texcoords: Vec<u32> = (300..304).collect();
    let indices: Vec<u32> = vec![1, 0, 1, 0, 0, 1];
    let mesh = mesh_from_obj(&positions, &normals, &texcoords, &indices).unwrap();
    assert_eq!(
        mesh.vertices(),
        &vec![
            Vertex::new(
                Vector3 { x: 100, y: 101, z: 102 },
                Vector3 { x: 200, y: 201, z: 202 },
                Vector2 { x: 300, y: 301 },
            ),
            Vertex::new(
                Vector3 { x: 103, y: 104, z: 105 },
                Vector3 { x: 203, y: 204, z: 205 },
                Vector2 { x: 302, y: 303 },
            ),
        ]
    );
    assert_eq!(mesh.indices(), &vec![[1, 0, 1], [0, 0, 1]]);
}

#[test]
fn vertices_stop_where_the_shortest_array_stops() {
    let mesh = mesh_from_obj(&vec![0; 9], &vec![0; 6], &vec![0; 8], &vec![0, 1, 1]).unwrap();
    assert_eq!(mesh.vertices().len(), 2);
    let mesh = mesh_from_obj(&vec![0; 9], &vec![0; 9], &vec![0; 2], &Vec::new()).unwrap();
    assert_eq!(mesh.vertices().len(), 1);
    let mesh = mesh_from_obj(&vec![0; 3], &vec![0; 9], &vec![0; 8], &Vec::new()).unwrap();
    assert_eq!(mesh.vertices().len(), 1);
}

#[test]
fn index_of_an_incomplete_vertex_is_refused() {
    // Three positions, but normals for two of them only.
    assert_eq!(
        mesh_from_obj(&vec![0; 9], &vec![0; 6], &vec![0; 8], &vec![0, 1, 2]).err(),
        Some(LoadError::IndexOutOfRange)
    );
    // A model without normals has no complete vertex at all.
    assert_eq!(
        mesh_from_obj(&vec![0; 9], &Vec::new(), &vec![0; 6], &vec![0, 1, 2]).err(),
        Some(LoadError::IndexOutOfRange)
    );
    // Three positions, no normals, three texture coordinates.
    assert_eq!(
        mesh_from_obj(&vec![0; 9], &Vec::new(), &vec![0; 6], &vec![0, 0, 0]).err(),
        Some(LoadError::IndexOutOfRange)
    );
    // Texture coordinates for one vertex only.
    assert_eq!(
        mesh_from_obj(&vec![0; 9], &vec![0; 9], &vec![0; 2], &vec![0, 0, 1]).err(),
        Some(LoadError::IndexOutOfRange)
    );
}

#[test]
fn index_past_the_last_vertex_is_refused() {
    let nine = vec![0; 9];
    let six = vec![0; 6];
    assert!(mesh_from_obj(&nine, &nine, &six, &vec![0, 1, 2, 2, 1, 0]).is_ok());
    for bad in [vec![3, 0, 1], vec![0, 3, 1], vec![0, 1, 3], vec![0, 1, 2, 0, 1, u32::MAX]] {
        assert_eq!(mesh_from_obj(&nine, &nine, &six, &bad).err(), Some(LoadError::IndexOutOfRange));
    }
    // Any index is past the end of an empty vertex list.
    assert_eq!(
        mesh_from_obj(&Vec::new(), &Vec::new(), &Vec::new(), &vec![0, 0, 0]).err(),
        Some(LoadError::IndexOutOfRange)
    );
}

#[test]
fn ragged_arrays_are_reported_before_bad_indices() {
    let nine = vec![0; 9];
    assert_eq!(
        mesh_from_obj(&nine, &nine, &vec![0; 6], &vec![7, 8, 9, 1]).err(),
        Some(LoadError::RaggedIndices)
    );
    assert_eq!(
        mesh_from_obj(&vec![0; 10], &nine, &vec![0; 6], &vec![7, 8, 9]).err(),
        Some(LoadError::RaggedPositions)
    );
}

#[test]
fn every_loaded_mesh_has_its_triangles_in_range() {
    let positions: Vec<u32> = (0..12).collect();
    let normals: Vec<u32> = (0..12).collect();
    let texcoords: Vec<u32> = (0..8).collect();
    let mesh = mesh_from_obj(&positions, &normals, &texcoords, &vec![0, 1, 2, 3, 2, 1]).unwrap();
    assert!(indices_in_range(mesh.indices(), mesh.vertices().len()));
    assert_eq!(mesh.tangent_inputs().unwrap().len(), 2);
}

#[test]
fn empty_arrays_give_an_empty_mesh() {
    let mesh = mesh_from_obj(&Vec::new(), &Vec::new(), &Vec::new(), &Vec::new()).unwrap();
    assert!(mesh.vertices().is_empty());
    assert!(mesh.indices().is_empty());
}

#[test]
fn ragged_arrays_are_refused_each_with_its_own_error() {
    assert_eq!(error_of(3, 4, 2, 3), Some(LoadError::RaggedNormals));
    assert_eq!(error_of(3, 3, 3, 3), Some(LoadError::RaggedTexCoords));
    assert_eq!(error_of(5, 3, 2, 3), Some(LoadError::RaggedPositions));
    assert_eq!(error_of(3, 3, 2, 4), Some(LoadError::RaggedIndices));
    assert_eq!(error_of(3, 3, 2, 3), None);
}

#[test]
fn first_ragged_array_in_reading_order_is_reported() {
    assert_eq!(error_of(4, 4, 3, 4), Some(LoadError::RaggedNormals));
    assert_eq!(error_of(4, 3, 3, 4), Some(LoadError::RaggedTexCoords));
    assert_eq!(error_of(4, 3, 2, 4), Some(LoadError::RaggedPositions));
}
