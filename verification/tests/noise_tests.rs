use terrain_gen::noise::{
    corner_hashes, corner_lut_gradients, get_gradient_lut, gradient_lut_index, squirrel5,
    squirrel5_2d, GRADIENT_LUT_SIZE,
};

#[test]
fn squirrel5_known_values() {
    assert_eq!(squirrel5(0, 0), 377036288);
    assert_eq!(squirrel5(1, 0), 3365260061);
    assert_eq!(squirrel5(-1, 0), 4210126164);
    assert_eq!(squirrel5(12345, 42), 3320562864);
    assert_eq!(squirrel5(i32::MAX, 7), 1027351897);
    assert_eq!(squirrel5(i32::MIN, 0), 1738329363);
}

#[test]
fn squirrel5_2d_known_values() {
    assert_eq!(squirrel5_2d(0, 0, 0), 377036288);
    assert_eq!(squirrel5_2d(1, 0, 42), 3603261737);
    assert_eq!(squirrel5_2d(0, 1, 123), 870030576);
    assert_eq!(squirrel5_2d(5, 5, 999), 3151994451);
    assert_eq!(squirrel5_2d(3, -7, 12345), 117821970);
    // y * prime wraps around in i32
    assert_eq!(squirrel5_2d(1000, 100000, 0), 3088709269);
}

#[test]
fn squirrel5_2d_row_zero_is_1d_hash() {
    for x in [-5, 0, 7, 123456] {
        assert_eq!(squirrel5_2d(x, 0, 9), squirrel5(x, 9));
    }
}

#[test]
fn seed_changes_hash() {
    assert_ne!(squirrel5(10, 0), squirrel5(10, 1));
}

#[test]
fn gradient_lut_index_is_low_byte() {
    assert_eq!(gradient_lut_index(0, 0, 0), 0);
    assert_eq!(gradient_lut_index(1, 0, 42), 41);
    assert_eq!(gradient_lut_index(0, 1, 123), 240);
    assert_eq!(gradient_lut_index(5, 5, 999), 83);
    for x in -20..20 {
        for y in -20..20 {
            let i = gradient_lut_index(x, y, 7);
            assert!(i < GRADIENT_LUT_SIZE);
            assert_eq!(i as u32, squirrel5_2d(x, y, 7) & 255);
        }
    }
}

#[test]
fn get_gradient_lut_reads_table() {
    let lut: Vec<u32> = (0..256u32).map(|i| i * 10).collect();
    assert_eq!(get_gradient_lut(5, 5, 999, &lut), 830);
    assert_eq!(get_gradient_lut(1, 0, 42, &lut), 410);
}

#[test]
fn corner_hashes_order() {
    let h = corner_hashes(4, -3, 11);
    assert_eq!(h[0], squirrel5_2d(4, -3, 11));
    assert_eq!(h[1], squirrel5_2d(5, -3, 11));
    assert_eq!(h[2], squirrel5_2d(4, -2, 11));
    assert_eq!(h[3], squirrel5_2d(5, -2, 11));
}

#[test]
fn neighbouring_cells_share_corners() {
    let a = corner_hashes(10, 20, 3);
    let right = corner_hashes(11, 20, 3);
    let above = corner_hashes(10, 21, 3);
    assert_eq!(a[1], right[0]);
    assert_eq!(a[3], right[2]);
    assert_eq!(a[2], above[0]);
    assert_eq!(a[3], above[1]);
}

#[test]
fn corner_lut_gradients_match_lookup() {
    let lut: Vec<u16> = (0..256u16).collect();
    let g = corner_lut_gradients(-8, 2, 5, &lut);
    assert_eq!(g[0] as usize, gradient_lut_index(-8, 2, 5));
    assert_eq!(g[1] as usize, gradient_lut_index(-7, 2, 5));
    assert_eq!(g[2] as usize, gradient_lut_index(-8, 3, 5));
    assert_eq!(g[3] as usize, gradient_lut_index(-7, 3, 5));
}
