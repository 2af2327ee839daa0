//! The SquirrelNoise5 lattice hash and the integer part of gradient noise:
//! which lattice corners a sample reads and which gradient each one gets.
use vstd::prelude::*;
use vstd::wrapping::u32_specs;
use vstd::wrapping::i32_specs;
use vstd::arithmetic::div_mod::{
    lemma_add_mod_noop, lemma_fundamental_div_mod_converse, lemma_mul_mod_noop_left, lemma_small_mod,
};

verus! {

pub const SQ5_BIT_NOISE1: u32 = 0xd2a80a3f;
pub const SQ5_BIT_NOISE2: u32 = 0xa884f197;
pub const SQ5_BIT_NOISE3: u32 = 0x6C736F4B;
pub const SQ5_BIT_NOISE4: u32 = 0xB79F3ABB;
pub const SQ5_BIT_NOISE5: u32 = 0x1b56c4f5;
pub const SQ5_PRIME1: i32 = 198491317;

/// `m ^ (m >> k)`: the xor-shift step between the multiplications.
pub open spec fn xorshift(m: u32, k: u32) -> u32 {
    m ^ (m >> k)
}

/// SquirrelNoise5 of the lattice position `n` under `seed`, every product
/// and sum taken modulo 2^32.
pub open spec fn squirrel5_spec(n: i32, seed: u32) -> u32 {
    let m1 = u32_specs::wrapping_mul(n as u32, SQ5_BIT_NOISE1);
    let m2 = xorshift(u32_specs::wrapping_add(m1, seed), 9);
    let m3 = xorshift(u32_specs::wrapping_add(m2, SQ5_BIT_NOISE2), 11);
    let m4 = xorshift(u32_specs::wrapping_mul(m3, SQ5_BIT_NOISE3), 13);
    let m5 = xorshift(u32_specs::wrapping_add(m4, SQ5_BIT_NOISE4), 15);
    xorshift(u32_specs::wrapping_mul(m5, SQ5_BIT_NOISE5), 17)
}

/// The lattice position of the 2-D point `(x, y)`: `x + y * SQ5_PRIME1`,
/// wrapping in `i32`.
pub open spec fn lattice_position(x: i32, y: i32) -> i32 {
    i32_specs::wrapping_add(x, i32_specs::wrapping_mul(y, SQ5_PRIME1))
}

/// SquirrelNoise5 of the 2-D lattice point `(x, y)`.
pub open spec fn squirrel5_2d_spec(x: i32, y: i32, seed: u32) -> u32 {
    squirrel5_spec(lattice_position(x, y), seed)
}

pub fn squirrel5(n: i32, seed: u32) -> (r: u32)
    ensures
        r == squirrel5_spec(n, seed),
        r == ({
            let m0 = u32_specs::wrapping_add(u32_specs::wrapping_mul(n as u32, 0xd2a80a3fu32), seed);
            let m1 = m0 ^ (m0 >> 9u32);
            let m2 = u32_specs::wrapping_add(m1, 0xa884f197u32);
            let m3 = m2 ^ (m2 >> 11u32);
            let m4 = u32_specs::wrapping_mul(m3, 0x6C736F4Bu32);
            let m5 = m4 ^ (m4 >> 13u32);
            let m6 = u32_specs::wrapping_add(m5, 0xB79F3ABBu32);
            let m7 = m6 ^ (m6 >> 15u32);
            let m8 = u32_specs::wrapping_mul(m7, 0x1b56c4f5u32);
            m8 ^ (m8 >> 17u32)
        }),
{
    let mut mangled = n as u32;
    mangled = mangled.wrapping_mul(SQ5_BIT_NOISE1);
    mangled = mangled.wrapping_add(seed);
    mangled ^= mangled >> 9;
    mangled = mangled.wrapping_add(SQ5_BIT_NOISE2);
    mangled ^= mangled >> 11;
    mangled = mangled.wrapping_mul(SQ5_BIT_NOISE3);
    mangled ^= mangled >> 13;
    mangled = mangled.wrapping_add(SQ5_BIT_NOISE4);
    mangled ^= mangled >> 15;
    mangled = mangled.wrapping_mul(SQ5_BIT_NOISE5);
    mangled ^= mangled >> 17;
    mangled
}

pub fn squirrel5_2d(x: i32, y: i32, seed: u32) -> (r: u32)
    ensures
        r == squirrel5_2d_spec(x, y, seed),
{
    let n = x.wrapping_add(y.wrapping_mul(SQ5_PRIME1));
    squirrel5(n, seed)
}

/// `wrapping_add` on `u32` is addition modulo 2^32.
proof fn lemma_wrapping_add_is_mod(x: u32, y: u32)
    ensures
        u32_specs::wrapping_add(x, y) as int == (x + y) % 0x1_0000_0000,
{
    if x + y > u32::MAX {
        lemma_fundamental_div_mod_converse(x + y, 0x1_0000_0000, 1, x + y - 0x1_0000_0000);
    } else {
        lemma_fundamental_div_mod_converse(x + y, 0x1_0000_0000, 0, x + y);
    }
}

/// The seed is added to the lattice position after its first
/// multiplication, in full: moving one lattice step gives the same hash as
/// adding the first multiplier to the seed. So every seed bit takes part,
/// and two seeds give the noise of shifted lattices, never the same one.
pub proof fn lemma_seed_shifts_lattice(n: i32, n_next: i32, seed: u32)
    requires
        n_next as u32 == u32_specs::wrapping_add(n as u32, 1),
    ensures
        squirrel5_spec(n, u32_specs::wrapping_add(seed, 0xd2a80a3fu32)) == squirrel5_spec(
            n_next,
            seed,
        ),
{
    let m: int = 0x1_0000_0000;
    let c: int = 0xd2a80a3f;
    let a: int = n as u32 as int;
    let b: int = n_next as u32 as int;
    lemma_wrapping_add_is_mod(n as u32, 1);
    lemma_wrapping_add_is_mod(seed, 0xd2a80a3fu32);
    let lhs_mul = u32_specs::wrapping_mul(n as u32, SQ5_BIT_NOISE1);
    let rhs_mul = u32_specs::wrapping_mul(n_next as u32, SQ5_BIT_NOISE1);
    lemma_wrapping_add_is_mod(lhs_mul, u32_specs::wrapping_add(seed, 0xd2a80a3fu32));
    lemma_wrapping_add_is_mod(rhs_mul, seed);
    assert(lhs_mul as int == (a * c) % m);
    assert(rhs_mul as int == (b * c) % m);
    // b == (a + 1) % m
    lemma_mul_mod_noop_left(a + 1, c, m);
    assert(rhs_mul as int == ((a + 1) * c) % m);
    assert((a + 1) * c == a * c + c) by (nonlinear_arith);
    lemma_small_mod(seed as nat, m as nat);
    lemma_small_mod(c as nat, m as nat);
    lemma_add_mod_noop(a * c + c, seed as int, m);
    lemma_add_mod_noop(a * c, seed + c, m);
    lemma_add_mod_noop(seed as int, c, m);
    assert(a * c + c + seed == a * c + (seed + c));
    assert(u32_specs::wrapping_add(lhs_mul, u32_specs::wrapping_add(seed, 0xd2a80a3fu32))
        == u32_specs::wrapping_add(rhs_mul, seed));
}

/// Number of gradients in the gradient table.
pub const GRADIENT_LUT_SIZE: usize = 256;

/// The gradient-table slot of lattice point `(x, y)`: the low eight bits of
/// its hash.
pub open spec fn gradient_lut_index_spec(x: i32, y: i32, seed: u32) -> int {
    (squirrel5_2d_spec(x, y, seed) & 255u32) as int
}

/// The slot of the gradient table that lattice point `(x, y)` reads.
pub fn gradient_lut_index(x: i32, y: i32, seed: u32) -> (i: usize)
    ensures
        i == gradient_lut_index_spec(x, y, seed),
        i < GRADIENT_LUT_SIZE,
{
    let hash = squirrel5_2d(x, y, seed);
    assert(hash & 255u32 <= 255u32) by (bit_vector);
    (hash & 255) as usize
}

/// The gradient of lattice point `(x, y)` taken from the table `lut`.
pub fn get_gradient_lut<T: Copy>(x: i32, y: i32, seed: u32, lut: &[T]) -> (g: T)
    requires
        gradient_lut_index_spec(x, y, seed) < lut@.len(),
    ensures
        g == lut@[gradient_lut_index_spec(x, y, seed)],
{
    let hash = squirrel5_2d(x, y, seed);
    lut[(hash & 255) as usize]
}

/// The lattice corners of the cell whose lower corner is `(x, y)`, in the
/// order (x, y), (x + 1, y), (x, y + 1), (x + 1, y + 1).
pub open spec fn cell_corners(x: i32, y: i32) -> Seq<(i32, i32)> {
    seq![(x, y), ((x + 1) as i32, y), (x, (y + 1) as i32), ((x + 1) as i32, (y + 1) as i32)]
}

/// The hash of corner `c` of the cell whose lower corner is `(x, y)`.
pub open spec fn corner_hash(x: i32, y: i32, seed: u32, c: int) -> u32 {
    squirrel5_2d_spec(cell_corners(x, y)[c].0, cell_corners(x, y)[c].1, seed)
}

/// The hashes of the four corners of the cell whose lower corner is
/// `(x, y)`, in the order of `cell_corners`.
pub fn corner_hashes(x: i32, y: i32, seed: u32) -> (h: [u32; 4])
    requires
        x < i32::MAX,
        y < i32::MAX,
    ensures
        forall|c: int| 0 <= c < 4 ==> #[trigger] h@[c] == corner_hash(x, y, seed, c),
{
    let h = [
        squirrel5_2d(x, y, seed),
        squirrel5_2d(x + 1, y, seed),
        squirrel5_2d(x, y + 1, seed),
        squirrel5_2d(x + 1, y + 1, seed),
    ];
    assert(forall|c: int| 0 <= c < 4 ==> #[trigger] h@[c] == corner_hash(x, y, seed, c)) by {
        assert(h@[0] == h[0] && h@[1] == h[1] && h@[2] == h[2] && h@[3] == h[3]);
    }
    h
}

/// The gradients of the four corners of the cell whose lower corner is
/// `(x, y)`, taken from the table `lut`, in the order of `cell_corners`.
pub fn corner_lut_gradients<T: Copy>(x: i32, y: i32, seed: u32, lut: &[T]) -> (g: [T; 4])
    requires
        x < i32::MAX,
        y < i32::MAX,
        lut@.len() >= GRADIENT_LUT_SIZE,
    ensures
        forall|c: int|
            0 <= c < 4 ==> #[trigger] g@[c] == lut@[gradient_lut_index_spec(
                cell_corners(x, y)[c].0,
                cell_corners(x, y)[c].1,
                seed,
            )],
{
    let i00 = gradient_lut_index(x, y, seed);
    let i10 = gradient_lut_index(x + 1, y, seed);
    let i01 = gradient_lut_index(x, y + 1, seed);
    let i11 = gradient_lut_index(x + 1, y + 1, seed);
    let g = [lut[i00], lut[i10], lut[i01], lut[i11]];
    assert(forall|c: int|
        0 <= c < 4 ==> #[trigger] g@[c] == lut@[gradient_lut_index_spec(
            cell_corners(x, y)[c].0,
            cell_corners(x, y)[c].1,
            seed,
        )]) by {
        assert(g@[0] == g[0] && g@[1] == g[1] && g@[2] == g[2] && g@[3] == g[3]);
    }
    g
}

/// Neighbouring cells read the same lattice corners where they touch: the
/// right edge of cell `(x, y)` is the left edge of cell `(x + 1, y)`, and its
/// top edge is the bottom edge of cell `(x, y + 1)`. This is what makes the
/// noise continuous across cell borders.
pub proof fn lemma_shared_corners(x: i32, y: i32, seed: u32)
    requires
        x < i32::MAX - 1,
        y < i32::MAX - 1,
    ensures
        cell_corners(x, y)[1] == cell_corners((x + 1) as i32, y)[0],
        cell_corners(x, y)[3] == cell_corners((x + 1) as i32, y)[2],
        cell_corners(x, y)[2] == cell_corners(x, (y + 1) as i32)[0],
        cell_corners(x, y)[3] == cell_corners(x, (y + 1) as i32)[1],
        corner_hash(x, y, seed, 1) == corner_hash((x + 1) as i32, y, seed, 0),
        corner_hash(x, y, seed, 3) == corner_hash((x + 1) as i32, y, seed, 2),
        corner_hash(x, y, seed, 2) == corner_hash(x, (y + 1) as i32, seed, 0),
        corner_hash(x, y, seed, 3) == corner_hash(x, (y + 1) as i32, seed, 1),
{
}

} // verus!
