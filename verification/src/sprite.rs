//! Facts about where sprite pixels land on the wrapping display, used to
//! prove the drawing loop against the closed form of `draw`.

use vstd::prelude::*;
use crate::state::DISPLAY_SIZE;
use crate::semantics::{covers, pixel_index, sprite_bit, sprite_col_at, sprite_row_at};

verus! {

/// `covers`, restricted to the sprite pixels before (`r`, `c`) in row-major order.
pub open spec fn covers_before(
    memory: Seq<u8>,
    index: u16,
    vx: u8,
    vy: u8,
    n: int,
    p: int,
    r: int,
    c: int,
) -> bool {
    &&& covers(memory, index, vx, vy, n, p)
    &&& (sprite_row_at(vy, p) < r || (sprite_row_at(vy, p) == r && sprite_col_at(vx, p) < c))
}

/// Whether a pixel covered before (`r`, `c`) was lit in `d`.
pub open spec fn hit_before(
    memory: Seq<u8>,
    index: u16,
    vx: u8,
    vy: u8,
    n: int,
    d: Seq<u32>,
    r: int,
    c: int,
) -> bool {
    exists|p: int|
        0 <= p < DISPLAY_SIZE && #[trigger] covers_before(memory, index, vx, vy, n, p, r, c)
            && d[p] != 0
}

/// A sprite pixel lands on the display and is found again from its position.
pub proof fn lemma_pixel_roundtrip(vx: u8, vy: u8, row: int, col: int)
    requires
        0 <= row < 32,
        0 <= col < 64,
    ensures
        0 <= pixel_index(vx, vy, row, col) < DISPLAY_SIZE,
        sprite_row_at(vy, pixel_index(vx, vy, row, col)) == row,
        sprite_col_at(vx, pixel_index(vx, vy, row, col)) == col,
{
    let a = (vy + row) % 32;
    let b = (vx + col) % 64;
    let p = a * 64 + b;
    assert(p / 64 == a);
    assert(p % 64 == b);
}

/// Each display position is the landing place of exactly the sprite pixel
/// that `sprite_row_at` and `sprite_col_at` name.
pub proof fn lemma_pixel_unique(vx: u8, vy: u8, p: int)
    requires
        0 <= p < DISPLAY_SIZE,
    ensures
        0 <= sprite_row_at(vy, p) < 32,
        0 <= sprite_col_at(vx, p) < 64,
        p == pixel_index(vx, vy, sprite_row_at(vy, p), sprite_col_at(vx, p)),
{
    let a = p / 64;
    let b = p % 64;
    assert(p == a * 64 + b);
    assert(0 <= a < 32);
    let row = (a - vy) % 32;
    let col = (b - vx) % 64;
    assert((vy + row) % 32 == a);
    assert((vx + col) % 64 == b);
}

/// One sprite pixel more: the covered set grows by the pixel's position
/// when its bit is set, and that position was not covered yet.
pub proof fn lemma_covers_step(memory: Seq<u8>, index: u16, vx: u8, vy: u8, n: int, r: int, c: int)
    requires
        0 <= r < n <= 16,
        0 <= c < 8,
    ensures
        0 <= pixel_index(vx, vy, r, c) < DISPLAY_SIZE,
        !covers_before(memory, index, vx, vy, n, pixel_index(vx, vy, r, c), r, c),
        forall|p: int|
            0 <= p < DISPLAY_SIZE ==> (covers_before(memory, index, vx, vy, n, p, r, c + 1) <==> (
            covers_before(memory, index, vx, vy, n, p, r, c) || (p == pixel_index(vx, vy, r, c)
                && sprite_bit(memory[index + r], c)))),
{
    lemma_pixel_roundtrip(vx, vy, r, c);
    assert forall|p: int| 0 <= p < DISPLAY_SIZE implies (covers_before(
        memory,
        index,
        vx,
        vy,
        n,
        p,
        r,
        c + 1,
    ) <==> (covers_before(memory, index, vx, vy, n, p, r, c) || (p == pixel_index(vx, vy, r, c)
        && sprite_bit(memory[index + r], c)))) by {
        lemma_pixel_unique(vx, vy, p);
    }
}

/// Finishing a row is starting the next.
pub proof fn lemma_covers_row_end(memory: Seq<u8>, index: u16, vx: u8, vy: u8, n: int, r: int)
    ensures
        forall|p: int|
            covers_before(memory, index, vx, vy, n, p, r, 8) <==> covers_before(
                memory,
                index,
                vx,
                vy,
                n,
                p,
                r + 1,
                0,
            ),
{
}

/// Finishing a row is starting the next, for the lit pixels hit as well.
pub proof fn lemma_hit_row_end(
    memory: Seq<u8>,
    index: u16,
    vx: u8,
    vy: u8,
    n: int,
    d: Seq<u32>,
    r: int,
)
    ensures
        hit_before(memory, index, vx, vy, n, d, r, 8) == hit_before(
            memory,
            index,
            vx,
            vy,
            n,
            d,
            r + 1,
            0,
        ),
{
    lemma_covers_row_end(memory, index, vx, vy, n, r);
    if hit_before(memory, index, vx, vy, n, d, r, 8) {
        let w = choose|p: int|
            0 <= p < DISPLAY_SIZE && #[trigger] covers_before(memory, index, vx, vy, n, p, r, 8)
                && d[p] != 0;
        assert(covers_before(memory, index, vx, vy, n, w, r + 1, 0));
    }
    if hit_before(memory, index, vx, vy, n, d, r + 1, 0) {
        let w = choose|p: int|
            0 <= p < DISPLAY_SIZE && #[trigger] covers_before(memory, index, vx, vy, n, p, r + 1, 0)
                && d[p] != 0;
        assert(covers_before(memory, index, vx, vy, n, w, r, 8));
    }
}

/// After the last row every covered pixel has been drawn.
pub proof fn lemma_covers_all(memory: Seq<u8>, index: u16, vx: u8, vy: u8, n: int)
    ensures
        forall|p: int|
            covers_before(memory, index, vx, vy, n, p, n, 0) <==> covers(
                memory,
                index,
                vx,
                vy,
                n,
                p,
            ),
{
}

} // verus!
