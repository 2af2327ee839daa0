//! The flat grid the terrain is drawn on: its sample points in row-major
//! order, the triangle list that covers it, and the size of the heightmap
//! buffer that holds one sample per grid point.
use vstd::prelude::*;
use vstd::arithmetic::div_mod::{lemma_fundamental_div_mod, lemma_fundamental_div_mod_converse, lemma_mod_bound};

verus! {

/// A point of the terrain grid: column `x` and row `z`.
#[derive(Clone, Copy, Debug, PartialEq, Eq, Structural)]
pub struct GridPoint {
    pub x: u32,
    pub z: u32,
}

/// Bytes of one heightmap sample (four 32-bit floats).
pub const HEIGHTMAP_SAMPLE_BYTES: u32 = 16;

/// The grid point at row-major position `i` of a grid `width` points wide.
pub open spec fn point_at(width: int, i: int) -> GridPoint {
    GridPoint { x: (i % width) as u32, z: (i / width) as u32 }
}

/// The sample points of a `width` x `height` grid, row by row.
pub open spec fn grid_points_spec(width: int, height: int) -> Seq<GridPoint> {
    Seq::new((width * height) as nat, |i: int| point_at(width, i))
}

/// Vertex `c` (0..6) of the two triangles of the quad whose top-left corner
/// is at row `row`, column `col`, in a grid `width` points wide: the
/// triangles are (top-left, bottom-left, top-right) and
/// (top-right, bottom-left, bottom-right).
pub open spec fn quad_corner(width: int, row: int, col: int, c: int) -> int {
    let tl = row * width + col;
    if c == 0 {
        tl
    } else if c == 1 {
        tl + width
    } else if c == 2 || c == 3 {
        tl + 1
    } else if c == 4 {
        tl + width
    } else {
        tl + width + 1
    }
}

/// Entry `k` of the index list of a grid `width` points wide: quads are laid
/// out row by row, six indices each.
pub open spec fn mesh_index(width: int, k: int) -> int {
    let q = k / 6;
    quad_corner(width, q / (width - 1), q % (width - 1), k % 6)
}

/// Number of quads of a `width` x `height` grid.
pub open spec fn quad_count(width: int, height: int) -> int {
    if width >= 1 && height >= 1 {
        (width - 1) * (height - 1)
    } else {
        0
    }
}

/// The index list of a `width` x `height` grid.
pub open spec fn mesh_indices_spec(width: int, height: int) -> Seq<int> {
    Seq::new((6 * quad_count(width, height)) as nat, |k: int| mesh_index(width, k))
}

/// The inputs on which building the mesh neither underflows the loop bounds
/// nor overflows a 32-bit vertex index, and whose lists fit in memory.
pub open spec fn mesh_dimensions_ok(width: u32, height: u32) -> bool {
    &&& height >= 1
    &&& height >= 2 ==> width >= 1
    &&& (width >= 2 && height >= 2) ==> width * height <= 0x1_0000_0000
    &&& width * height <= usize::MAX
    &&& 6 * quad_count(width as int, height as int) <= usize::MAX
}

proof fn lemma_point_at(width: int, z: int, x: int)
    requires
        0 <= x < width,
        0 <= z,
    ensures
        (z * width + x) % width == x,
        (z * width + x) / width == z,
{
    lemma_fundamental_div_mod_converse(z * width + x, width, z, x);
}

proof fn lemma_mesh_index_at(width: int, z: int, x: int, c: int)
    requires
        0 <= x < width - 1,
        0 <= z,
        0 <= c < 6,
    ensures
        mesh_index(width, 6 * (z * (width - 1) + x) + c) == quad_corner(width, z, x, c),
{
    let q = z * (width - 1) + x;
    assert(q >= 0) by (nonlinear_arith)
        requires
            0 <= x < width - 1,
            0 <= z,
            q == z * (width - 1) + x,
    ;
    lemma_fundamental_div_mod_converse(6 * q + c, 6, q, c);
    lemma_fundamental_div_mod_converse(q, width - 1, z, x);
}

/// The sample points of a `width` x `height` grid in row-major order: point
/// `i` is at column `i % width`, row `i / width`.
pub fn grid_points(width: u32, height: u32) -> (points: Vec<GridPoint>)
    requires
        width * height <= usize::MAX,
    ensures
        points@ == grid_points_spec(width as int, height as int),
{
    let mut points: Vec<GridPoint> = Vec::new();
    let mut z: u32 = 0;
    while z < height
        invariant
            width * height <= usize::MAX,
            z <= height,
            points.len() == z * width,
            forall|i: int| 0 <= i < points.len() ==> #[trigger] points@[i] == point_at(width as int, i),
        decreases height - z,
    {
        let mut x: u32 = 0;
        while x < width
            invariant
                width * height <= usize::MAX,
                z < height,
                x <= width,
                points.len() == z * width + x,
                forall|i: int| 0 <= i < points.len() ==> #[trigger] points@[i] == point_at(width as int, i),
            decreases width - x,
        {
            proof {
                lemma_point_at(width as int, z as int, x as int);
            }
            points.push(GridPoint { x, z });
            x = x + 1;
        }
        assert(z * width + width == (z + 1) * width) by (nonlinear_arith);
        z = z + 1;
    }
    assert(height * width == width * height) by (nonlinear_arith);
    assert(points@ =~= grid_points_spec(width as int, height as int));
    points
}

/// The grid vertices of a `width` x `height` plane and the triangle list over
/// them: two triangles per quad, quads row by row.
pub fn create_plane_mesh(width: u32, height: u32) -> (mesh: (Vec<GridPoint>, Vec<u32>))
    requires
        mesh_dimensions_ok(width, height),
    ensures
        mesh.0@ == grid_points_spec(width as int, height as int),
        mesh.1@.len() == 6 * quad_count(width as int, height as int),
        forall|k: int|
            0 <= k < mesh.1@.len() ==> #[trigger] mesh.1@[k] == mesh_index(width as int, k),
{
    let vertices = grid_points(width, height);
    let mut indices: Vec<u32> = Vec::new();
    let ghost w = width as int;
    let ghost h = height as int;

    let mut z: u32 = 0;
    while z < height - 1
        invariant
            mesh_dimensions_ok(width, height),
            w == width,
            h == height,
            z <= height - 1,
            indices.len() == 6 * (z * (w - 1)),
            forall|k: int| 0 <= k < indices.len() ==> #[trigger] indices@[k] == mesh_index(w, k),
        decreases height - z,
    {
        let mut x: u32 = 0;
        while x < width - 1
            invariant
                mesh_dimensions_ok(width, height),
                w == width,
                h == height,
                width >= 1,
                z < height - 1,
                x <= width - 1,
                indices.len() == 6 * (z * (w - 1) + x),
                forall|k: int|
                    0 <= k < indices.len() ==> #[trigger] indices@[k] == mesh_index(w, k),
            decreases width - x,
        {
            assert((z + 1) * w + x + 1 <= w * h - 1) by (nonlinear_arith)
                requires
                    x < w - 1,
                    z < h - 1,
            ;
            assert(z * w <= (z + 1) * w) by (nonlinear_arith)
                requires
                    z >= 0,
                    w >= 0,
            ;
            let top_left = z * width + x;
            let top_right = top_left + 1;
            let bottom_left = (z + 1) * width + x;
            let bottom_right = bottom_left + 1;
            assert((z + 1) * w == z * w + w) by (nonlinear_arith);

            proof {
                let ghost q = z * (w - 1) + x;
                lemma_mesh_index_at(w, z as int, x as int, 0);
                lemma_mesh_index_at(w, z as int, x as int, 1);
                lemma_mesh_index_at(w, z as int, x as int, 2);
                lemma_mesh_index_at(w, z as int, x as int, 3);
                lemma_mesh_index_at(w, z as int, x as int, 4);
                lemma_mesh_index_at(w, z as int, x as int, 5);
            }

            indices.push(top_left);
            indices.push(bottom_left);
            indices.push(top_right);

            indices.push(top_right);
            indices.push(bottom_left);
            indices.push(bottom_right);
            x = x + 1;
        }
        assert(z * (w - 1) + (w - 1) == (z + 1) * (w - 1)) by (nonlinear_arith);
        z = z + 1;
    }
    assert((h - 1) * (w - 1) == quad_count(w, h)) by (nonlinear_arith)
        requires
            h >= 1,
            h >= 2 ==> w >= 1,
            w >= 0,
    ;
    (vertices, indices)
}

/// Size in bytes of the heightmap buffer of a `width` x `height` grid: one
/// sample per grid point.
pub fn heightmap_buffer_size(width: u32, height: u32) -> (size: u64)
    requires
        width * height * 16 <= u32::MAX,
    ensures
        size == width * height * 16,
{
    assert(width * height <= width * height * 16);
    (width * height * HEIGHTMAP_SAMPLE_BYTES) as u64
}

/// Twice the signed area of the triangle `(a, b, c)` in the grid plane.
pub open spec fn orientation(a: GridPoint, b: GridPoint, c: GridPoint) -> int {
    (b.x - a.x) * (c.z - a.z) - (b.z - a.z) * (c.x - a.x)
}

/// Quad `(z, x)` of the mesh occupies the six index positions starting at
/// `6 * (z * (width - 1) + x)`, and they hold its two triangles.
pub proof fn lemma_quad_layout(width: u32, height: u32, z: int, x: int, c: int)
    requires
        mesh_dimensions_ok(width, height),
        0 <= z < height - 1,
        0 <= x < width - 1,
        0 <= c < 6,
    ensures
        0 <= 6 * (z * (width - 1) + x) + c < 6 * quad_count(width as int, height as int),
        mesh_index(width as int, 6 * (z * (width - 1) + x) + c) == quad_corner(
            width as int,
            z,
            x,
            c,
        ),
{
    let w = width as int;
    let h = height as int;
    assert(0 <= z * (w - 1) + x < (w - 1) * (h - 1)) by (nonlinear_arith)
        requires
            0 <= z < h - 1,
            0 <= x < w - 1,
    ;
    lemma_mesh_index_at(w, z, x, c);
}

proof fn lemma_quad_of_index(width: int, height: int, k: int) -> (rc: (int, int))
    requires
        width >= 2,
        height >= 2,
        0 <= k < 6 * ((width - 1) * (height - 1)),
    ensures
        0 <= rc.0 < height - 1,
        0 <= rc.1 < width - 1,
        rc.0 == (k / 6) / (width - 1),
        rc.1 == (k / 6) % (width - 1),
{
    let q = k / 6;
    assert(0 <= q < (width - 1) * (height - 1));
    let row = q / (width - 1);
    let col = q % (width - 1);
    lemma_fundamental_div_mod(q, width - 1);
    lemma_mod_bound(q, width - 1);
    assert(0 <= row < height - 1) by (nonlinear_arith)
        requires
            q == (width - 1) * row + col,
            0 <= col < width - 1,
            0 <= q < (width - 1) * (height - 1),
            width >= 2,
    ;
    (row, col)
}

/// Every entry of the index list names a vertex of the grid.
pub proof fn lemma_mesh_indices_in_range(width: u32, height: u32, k: int)
    requires
        mesh_dimensions_ok(width, height),
        0 <= k < 6 * quad_count(width as int, height as int),
    ensures
        0 <= mesh_index(width as int, k) < width * height,
{
    let w = width as int;
    let h = height as int;
    if w < 2 || h < 2 {
        assert(quad_count(w, h) <= 0) by (nonlinear_arith)
            requires
                w < 2 || h < 2,
                h >= 1,
                h >= 2 ==> w >= 1,
        ;
    } else {
        let (row, col) = lemma_quad_of_index(w, h, k);
        assert(0 <= row * w + col + w + 1 <= w * h - 1) by (nonlinear_arith)
            requires
                0 <= row < h - 1,
                0 <= col < w - 1,
        ;
        assert(0 <= row * w + col) by (nonlinear_arith)
            requires
                0 <= row,
                0 <= col,
                w >= 0,
        ;
    }
}

/// All triangles of the mesh have the same orientation in the grid plane, so
/// back-face culling keeps or drops all of them alike.
pub proof fn lemma_consistent_winding(width: u32, height: u32, t: int)
    requires
        mesh_dimensions_ok(width, height),
        0 <= t < 2 * quad_count(width as int, height as int),
    ensures
        orientation(
            point_at(width as int, mesh_index(width as int, 3 * t)),
            point_at(width as int, mesh_index(width as int, 3 * t + 1)),
            point_at(width as int, mesh_index(width as int, 3 * t + 2)),
        ) == -1,
{
    let w = width as int;
    let h = height as int;
    if w < 2 || h < 2 {
        assert(quad_count(w, h) <= 0) by (nonlinear_arith)
            requires
                w < 2 || h < 2,
                h >= 1,
                h >= 2 ==> w >= 1,
        ;
    } else {
        let q = t / 2;
        let r = t % 2;
        lemma_fundamental_div_mod(t, 2);
        lemma_fundamental_div_mod_converse(3 * t, 6, q, 3 * r);
        lemma_fundamental_div_mod_converse(3 * t + 1, 6, q, 3 * r + 1);
        lemma_fundamental_div_mod_converse(3 * t + 2, 6, q, 3 * r + 2);
        let (row, col) = lemma_quad_of_index(w, h, 3 * t);
        assert(row * w + col + w + 1 <= w * h - 1) by (nonlinear_arith)
            requires
                0 <= row < h - 1,
                0 <= col < w - 1,
        ;
        assert(row * w + w == (row + 1) * w) by (nonlinear_arith);
        assert(0 <= row * w) by (nonlinear_arith)
            requires
                0 <= row,
                w >= 0,
        ;
        lemma_point_at(w, row, col);
        lemma_point_at(w, row, col + 1);
        lemma_point_at(w, row + 1, col);
        lemma_point_at(w, row + 1, col + 1);
        let tl = row * w + col;
        let p_tl = GridPoint { x: col as u32, z: row as u32 };
        let p_tr = GridPoint { x: (col + 1) as u32, z: row as u32 };
        let p_bl = GridPoint { x: col as u32, z: (row + 1) as u32 };
        let p_br = GridPoint { x: (col + 1) as u32, z: (row + 1) as u32 };
        assert(point_at(w, tl) == p_tl);
        assert(point_at(w, tl + 1) == p_tr);
        assert(point_at(w, tl + w) == p_bl);
        assert(point_at(w, tl + w + 1) == p_br);
        if r == 0 {
            assert(mesh_index(w, 3 * t) == tl);
            assert(mesh_index(w, 3 * t + 1) == tl + w);
            assert(mesh_index(w, 3 * t + 2) == tl + 1);
            assert(p_bl.x - p_tl.x == 0 && p_tr.z - p_tl.z == 0);
            assert(p_bl.z - p_tl.z == 1 && p_tr.x - p_tl.x == 1);
            assert(orientation(p_tl, p_bl, p_tr) == -1);
        } else {
            assert(mesh_index(w, 3 * t) == tl + 1);
            assert(mesh_index(w, 3 * t + 1) == tl + w);
            assert(mesh_index(w, 3 * t + 2) == tl + w + 1);
            assert(p_bl.x - p_tr.x == -1 && p_br.z - p_tr.z == 1);
            assert(p_bl.z - p_tr.z == 1 && p_br.x - p_tr.x == 0);
            assert(orientation(p_tr, p_bl, p_br) == -1);
        }
    }
}

/// The heightmap buffer holds exactly one sample for each mesh vertex.
pub proof fn lemma_heightmap_matches_vertices(width: u32, height: u32)
    requires
        width * height * 16 <= u32::MAX,
    ensures
        grid_points_spec(width as int, height as int).len() * HEIGHTMAP_SAMPLE_BYTES == width
            * height * 16,
{
    assert(width * height >= 0) by (nonlinear_arith);
}

} // verus!
