use vstd::prelude::*;
use vstd::arithmetic::div_mod::{
    lemma_fundamental_div_mod,
    lemma_fundamental_div_mod_converse,
};
use crate::model::{col_of, row_of, GRID_WIDTH, GRID_HEIGHT};

verus! {

/// A position `a` in `0..m` lies `k` steps past `base` round a ring of
/// size `m` exactly when it is where `base + k` wraps to.
pub proof fn lemma_wrap_offset(a: int, base: int, k: int, m: int)
    requires
        0 < m,
        0 <= a < m,
        0 <= k < m,
    ensures
        ((a - base) % m == k) <==> (a == (base + k) % m),
{
    lemma_fundamental_div_mod(a - base, m);
    lemma_fundamental_div_mod(base + k, m);
    let q1 = (a - base) / m;
    let q2 = (base + k) / m;
    assert((-q1) * m == -(q1 * m)) by (nonlinear_arith);
    assert((-q2) * m == -(q2 * m)) by (nonlinear_arith);
    assert(m * q1 == q1 * m) by (nonlinear_arith);
    assert(m * q2 == q2 * m) by (nonlinear_arith);
    if (a - base) % m == k {
        lemma_fundamental_div_mod_converse(base + k, m, -q1, a);
    }
    if a == (base + k) % m {
        lemma_fundamental_div_mod_converse(a - base, m, -q2, k);
    }
}

/// The grid cell on which column `x`, row `y` of a sprite at `(ox, oy)`
/// falls, and that no other cell takes that column and row.
pub proof fn lemma_sprite_cell(ox: u8, oy: u8, x: int, y: int)
    requires
        0 <= x < 8,
        0 <= y < 16,
    ensures
        ({
            let c = GRID_WIDTH * ((oy + y) % (GRID_HEIGHT as int)) + (ox + x) % (GRID_WIDTH as int);
            &&& 0 <= c < GRID_WIDTH * GRID_HEIGHT
            &&& col_of(c, ox) == x
            &&& row_of(c, oy) == y
            &&& forall|i: int|
                0 <= i < GRID_WIDTH * GRID_HEIGHT && #[trigger] col_of(i, ox) == x && row_of(i, oy)
                    == y ==> i == c
        }),
{
    let cx = (ox + x) % 64;
    let cy = (oy + y) % 32;
    let c = 64 * cy + cx;
    assert(0 <= c < 2048);
    lemma_fundamental_div_mod_converse(c, 64, cy, cx);
    lemma_wrap_offset(cx, ox as int, x, 64);
    lemma_wrap_offset(cy, oy as int, y, 32);
    assert forall|i: int|
        0 <= i < 2048 && #[trigger] col_of(i, ox) == x && row_of(i, oy) == y implies i == c by {
        lemma_fundamental_div_mod(i, 64);
        assert(0 <= i / 64 < 32);
        lemma_wrap_offset(i % 64, ox as int, x, 64);
        lemma_wrap_offset(i / 64, oy as int, y, 32);
    }
}

} // verus!
