use terrain_gen::mesh::{create_plane_mesh, grid_points, heightmap_buffer_size, GridPoint};

#[test]
fn single_quad() {
    let (vertices, indices) = create_plane_mesh(2, 2);
    assert_eq!(
        vertices,
        vec![
            GridPoint { x: 0, z: 0 },
            GridPoint { x: 1, z: 0 },
            GridPoint { x: 0, z: 1 },
            GridPoint { x: 1, z: 1 },
        ]
    );
    assert_eq!(indices, vec![0, 2, 1, 1, 2, 3]);
}

#[test]
fn three_by_two_grid() {
    let (vertices, indices) = create_plane_mesh(3, 2);
    assert_eq!(vertices.len(), 6);
    assert_eq!(indices, vec![0, 3, 1, 1, 3, 4, 1, 4, 2, 2, 4, 5]);
}

#[test]
fn one_row_has_no_triangles() {
    let (vertices, indices) = create_plane_mesh(5, 1);
    assert_eq!(vertices.len(), 5);
    assert!(indices.is_empty());
    let (vertices, indices) = create_plane_mesh(0, 1);
    assert!(vertices.is_empty());
    assert!(indices.is_empty());
    let (vertices, indices) = create_plane_mesh(1, 4);
    assert_eq!(vertices.len(), 4);
    assert!(indices.is_empty());
}

#[test]
fn indices_in_range_and_count() {
    let (w, h) = (7u32, 5u32);
    let (vertices, indices) = create_plane_mesh(w, h);
    assert_eq!(vertices.len(), (w * h) as usize);
    assert_eq!(indices.len(), 6 * ((w - 1) * (h - 1)) as usize);
    assert!(indices.iter().all(|&i| i < w * h));
}

#[test]
fn triangles_share_winding() {
    let (w, h) = (6u32, 4u32);
    let (vertices, indices) = create_plane_mesh(w, h);
    for tri in indices.chunks(3) {
        let a = vertices[tri[0] as usize];
        let b = vertices[tri[1] as usize];
        let c = vertices[tri[2] as usize];
        let area = (b.x as i64 - a.x as i64) * (c.z as i64 - a.z as i64)
            - (b.z as i64 - a.z as i64) * (c.x as i64 - a.x as i64);
        assert_eq!(area, -1);
    }
}

#[test]
fn grid_points_row_major() {
    let points = grid_points(4, 3);
    assert_eq!(points.len(), 12);
    for (i, p) in points.iter().enumerate() {
        assert_eq!(p.x, i as u32 % 4);
        assert_eq!(p.z, i as u32 / 4);
    }
    assert!(grid_points(0, 9).is_empty());
}

#[test]
fn heightmap_size_is_sixteen_bytes_per_point() {
    assert_eq!(heightmap_buffer_size(1024, 1024), 16 * 1024 * 1024);
    assert_eq!(heightmap_buffer_size(64, 64), 65536);
    assert_eq!(heightmap_buffer_size(0, 5), 0);
}
