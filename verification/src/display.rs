//! The mathematical model of the Display instruction: an XOR sprite blit onto
//! the 64x32 monochrome framebuffer, with row and column wraparound, and a
//! collision flag recording whether a previously-set pixel became unset.

use vstd::arithmetic::div_mod::{
    lemma_fundamental_div_mod_converse, lemma_mod_self_0, lemma_small_mod,
};
use vstd::prelude::*;

verus! {

/// Framebuffer width in pixels.
pub const GFX_WIDTH: usize = 64;

/// Framebuffer height in pixels.
pub const GFX_HEIGHT: usize = 32;

/// Number of pixels in the framebuffer.
pub const GFX_SIZE: usize = 64 * 32;

/// Whether bit `c` of a sprite row byte is set, counting the most significant
/// bit as column 0 (the leftmost drawn pixel).
pub open spec fn sprite_bit(byte: u8, c: int) -> bool {
    (byte >> ((7 - c) as u32)) & 1 == 1
}

/// The framebuffer index written by sprite cell (row `r`, column `c`) of a
/// sprite drawn at (`cx`, `cy`), wrapping at the screen edges.
pub open spec fn pixel_index(cx: int, cy: int, r: int, c: int) -> int {
    ((cy + r) % 32) * 64 + ((cx + c) % 64)
}

/// The sprite row that reaches framebuffer index `p` for a sprite drawn at
/// screen row `cy` (inverts the row wraparound).
pub open spec fn row_of(cy: int, p: int) -> int {
    ((p / 64) - cy) % 32
}

/// The sprite column that reaches framebuffer index `p` for a sprite drawn at
/// screen column `cx` (inverts the column wraparound).
pub open spec fn col_of(cx: int, p: int) -> int {
    ((p % 64) - cx) % 64
}

/// Whether the sprite covers framebuffer index `p` with a set bit: `p` lies
/// within the drawn rows and columns, and the corresponding sprite bit is 1.
/// `mem` is the machine memory and `i` the sprite's base address in it.
pub open spec fn sprite_hits(
    mem: Seq<u8>,
    i: int,
    cx: int,
    cy: int,
    height: int,
    p: int,
) -> bool {
    &&& row_of(cy, p) < height
    &&& col_of(cx, p) < 8
    &&& sprite_bit(mem[i + row_of(cy, p)], col_of(cx, p))
}

/// The framebuffer after XOR-blitting the sprite: every covered pixel with a
/// set sprite bit toggles, every other pixel keeps its value.
pub open spec fn blit(
    gfx: Seq<bool>,
    mem: Seq<u8>,
    i: int,
    cx: int,
    cy: int,
    height: int,
) -> Seq<bool> {
    Seq::new(gfx.len(), |p: int| gfx[p] != sprite_hits(mem, i, cx, cy, height, p))
}

/// Whether the blit unsets at least one previously-set pixel: some set sprite
/// bit lands on a pixel that is already lit.
pub open spec fn blit_collision(
    gfx: Seq<bool>,
    mem: Seq<u8>,
    i: int,
    cx: int,
    cy: int,
    height: int,
) -> bool {
    exists|r: int, c: int|
        0 <= r < height && 0 <= c < 8 && #[trigger] sprite_bit(mem[i + r], c) && gfx[pixel_index(
            cx,
            cy,
            r,
            c,
        )]
}

/// `x % m` for a value already in `[0, m)` is `x` itself, and shifting the
/// value by one period does not change the remainder.
proof fn lemma_mod_cases(x: int, m: int)
    requires
        0 < m,
        0 <= x < 2 * m,
    ensures
        x < m ==> x % m == x,
        m <= x ==> x % m == x - m,
{
    if x < m {
        lemma_small_mod(x as nat, m as nat);
    } else {
        lemma_fundamental_div_mod_converse(x, m, 1, x - m);
    }
}

/// `row_of` and `col_of` invert `pixel_index`: the pixel written by sprite
/// cell (r, c) is reached by exactly that row and column. In particular the
/// cells of a sprite no taller than the screen write pairwise distinct pixels.
pub proof fn lemma_pixel_index_inverts(cx: int, cy: int, r: int, c: int)
    requires
        0 <= cx < 64,
        0 <= cy < 32,
        0 <= r < 32,
        0 <= c < 64,
    ensures
        0 <= pixel_index(cx, cy, r, c) < GFX_SIZE,
        row_of(cy, pixel_index(cx, cy, r, c)) == r,
        col_of(cx, pixel_index(cx, cy, r, c)) == c,
{
    let py = (cy + r) % 32;
    let px = (cx + c) % 64;
    lemma_mod_cases(cy + r, 32);
    lemma_mod_cases(cx + c, 64);
    let p = py * 64 + px;
    lemma_fundamental_div_mod_converse(p, 64, py, px);
    assert(p / 64 == py && p % 64 == px);
    // (py - cy) is r or r - 32; either way its remainder modulo 32 is r.
    if py - cy >= 0 {
        lemma_small_mod((py - cy) as nat, 32);
    } else {
        lemma_fundamental_div_mod_converse(py - cy, 32, -1, py - cy + 32);
    }
    if px - cx >= 0 {
        lemma_small_mod((px - cx) as nat, 64);
    } else {
        lemma_fundamental_div_mod_converse(px - cx, 64, -1, px - cx + 64);
    }
}

/// A pixel is reached by exactly one sprite cell: reconstructing the index
/// from the row and column that cover it gives the pixel back.
pub proof fn lemma_pixel_reconstruct(cx: int, cy: int, p: int)
    requires
        0 <= cx < 64,
        0 <= cy < 32,
        0 <= p < GFX_SIZE,
    ensures
        0 <= row_of(cy, p) < 32,
        0 <= col_of(cx, p) < 64,
        pixel_index(cx, cy, row_of(cy, p), col_of(cx, p)) == p,
{
    let py = p / 64;
    let px = p % 64;
    assert(0 <= py < 32 && 0 <= px < 64) by {
        lemma_fundamental_div_mod_converse(p, 64, p / 64, p % 64);
    }
    // row_of is (py - cy) shifted into [0, 32); adding cy back and reducing
    // modulo 32 returns py, and likewise for the column.
    if py - cy >= 0 {
        lemma_small_mod((py - cy) as nat, 32);
    } else {
        lemma_fundamental_div_mod_converse(py - cy, 32, -1, py - cy + 32);
    }
    if px - cx >= 0 {
        lemma_small_mod((px - cx) as nat, 64);
    } else {
        lemma_fundamental_div_mod_converse(px - cx, 64, -1, px - cx + 64);
    }
    lemma_mod_cases(cy + row_of(cy, p), 32);
    lemma_mod_cases(cx + col_of(cx, p), 64);
}

/// Coverage by the sprite cells already processed when the blit has reached
/// row `r`, column `c` in row-major order: the rows before `r` whole, and in
/// row `r` the columns before `c`.
pub open spec fn sprite_hits_upto(
    mem: Seq<u8>,
    i: int,
    cx: int,
    cy: int,
    r: int,
    c: int,
    p: int,
) -> bool {
    &&& col_of(cx, p) < 8
    &&& (row_of(cy, p) < r || (row_of(cy, p) == r && col_of(cx, p) < c))
    &&& sprite_bit(mem[i + row_of(cy, p)], col_of(cx, p))
}

/// The collision accumulated by the sprite cells already processed when the
/// blit has reached row `r`, column `c` in row-major order.
pub open spec fn blit_collision_upto(
    gfx: Seq<bool>,
    mem: Seq<u8>,
    i: int,
    cx: int,
    cy: int,
    r: int,
    c: int,
) -> bool {
    exists|rr: int, cc: int|
        0 <= rr && 0 <= cc < 8 && (rr < r || (rr == r && cc < c)) && #[trigger] sprite_bit(
            mem[i + rr],
            cc,
        ) && gfx[pixel_index(cx, cy, rr, cc)]
}

/// Before any sprite cell is processed, nothing is covered and no collision
/// has been observed.
pub proof fn lemma_blit_start(gfx: Seq<bool>, mem: Seq<u8>, i: int, cx: int, cy: int)
    ensures
        forall|p: int| !(#[trigger] sprite_hits_upto(mem, i, cx, cy, 0, 0, p)),
        !blit_collision_upto(gfx, mem, i, cx, cy, 0, 0),
{
    assert forall|p: int| !(#[trigger] sprite_hits_upto(mem, i, cx, cy, 0, 0, p)) by {
        assert(row_of(cy, p) >= 0);
    }
}

/// One row-major step of the blit: processing sprite cell (r, c) toggles
/// exactly that cell's pixel when its bit is set, reads the pixel's original
/// value, and extends the accumulated collision by that pixel.
pub proof fn lemma_blit_step(
    g0: Seq<bool>,
    cur: Seq<bool>,
    mem: Seq<u8>,
    i: int,
    cx: int,
    cy: int,
    r: int,
    c: int,
    collision: bool,
)
    requires
        0 <= cx < 64,
        0 <= cy < 32,
        0 <= r < 32,
        0 <= c < 8,
        g0.len() == GFX_SIZE,
        cur.len() == GFX_SIZE,
        forall|p: int|
            0 <= p < GFX_SIZE ==> cur[p] == (g0[p] != sprite_hits_upto(mem, i, cx, cy, r, c, p)),
        collision == blit_collision_upto(g0, mem, i, cx, cy, r, c),
    ensures
        ({
            let idx = pixel_index(cx, cy, r, c);
            let hit = sprite_bit(mem[i + r], c);
            let next = if hit {
                cur.update(idx, !cur[idx])
            } else {
                cur
            };
            &&& 0 <= idx < GFX_SIZE
            &&& cur[idx] == g0[idx]
            &&& forall|p: int|
                0 <= p < GFX_SIZE ==> next[p] == (g0[p] != sprite_hits_upto(
                    mem,
                    i,
                    cx,
                    cy,
                    r,
                    c + 1,
                    p,
                ))
            &&& blit_collision_upto(g0, mem, i, cx, cy, r, c + 1) == (collision || (hit
                && g0[idx]))
        }),
{
    let idx = pixel_index(cx, cy, r, c);
    let hit = sprite_bit(mem[i + r], c);
    let next = if hit {
        cur.update(idx, !cur[idx])
    } else {
        cur
    };
    lemma_pixel_index_inverts(cx, cy, r, c);
    assert(!sprite_hits_upto(mem, i, cx, cy, r, c, idx));
    assert forall|p: int| 0 <= p < GFX_SIZE implies next[p] == (g0[p] != sprite_hits_upto(
        mem,
        i,
        cx,
        cy,
        r,
        c + 1,
        p,
    )) by {
        if p != idx {
            lemma_pixel_reconstruct(cx, cy, p);
        }
    }
    if hit && g0[idx] {
        assert(blit_collision_upto(g0, mem, i, cx, cy, r, c + 1));
    }
    if blit_collision_upto(g0, mem, i, cx, cy, r, c + 1) && !(hit && g0[idx]) {
        let (rr, cc) = choose|rr: int, cc: int|
            0 <= rr && 0 <= cc < 8 && (rr < r || (rr == r && cc < c + 1)) && #[trigger] sprite_bit(
                mem[i + rr],
                cc,
            ) && g0[pixel_index(cx, cy, rr, cc)];
        assert(rr < r || (rr == r && cc < c));
        assert(blit_collision_upto(g0, mem, i, cx, cy, r, c));
    }
    if collision {
        let (rr, cc) = choose|rr: int, cc: int|
            0 <= rr && 0 <= cc < 8 && (rr < r || (rr == r && cc < c)) && #[trigger] sprite_bit(
                mem[i + rr],
                cc,
            ) && g0[pixel_index(cx, cy, rr, cc)];
        assert(blit_collision_upto(g0, mem, i, cx, cy, r, c + 1));
    }
}

/// Finishing a sprite row: having processed its 8 columns is the same as
/// standing at the start of the next row.
pub proof fn lemma_blit_row_end(gfx: Seq<bool>, mem: Seq<u8>, i: int, cx: int, cy: int, r: int)
    ensures
        forall|p: int|
            #[trigger] sprite_hits_upto(mem, i, cx, cy, r, 8, p) == sprite_hits_upto(
                mem,
                i,
                cx,
                cy,
                r + 1,
                0,
                p,
            ),
        blit_collision_upto(gfx, mem, i, cx, cy, r, 8) == blit_collision_upto(
            gfx,
            mem,
            i,
            cx,
            cy,
            r + 1,
            0,
        ),
{
    if blit_collision_upto(gfx, mem, i, cx, cy, r, 8) {
        assert(blit_collision_upto(gfx, mem, i, cx, cy, r + 1, 0));
    }
    if blit_collision_upto(gfx, mem, i, cx, cy, r + 1, 0) {
        assert(blit_collision_upto(gfx, mem, i, cx, cy, r, 8));
    }
}

/// Having processed every row of the sprite yields exactly the blit and its
/// collision flag.
pub proof fn lemma_blit_done(
    g0: Seq<bool>,
    gfx: Seq<bool>,
    mem: Seq<u8>,
    i: int,
    cx: int,
    cy: int,
    height: int,
)
    requires
        g0.len() == GFX_SIZE,
        gfx.len() == GFX_SIZE,
        forall|p: int|
            0 <= p < GFX_SIZE ==> gfx[p] == (g0[p] != sprite_hits_upto(
                mem,
                i,
                cx,
                cy,
                height,
                0,
                p,
            )),
    ensures
        gfx =~= blit(g0, mem, i, cx, cy, height),
        blit_collision_upto(g0, mem, i, cx, cy, height, 0) == blit_collision(
            g0,
            mem,
            i,
            cx,
            cy,
            height,
        ),
{
    if blit_collision_upto(g0, mem, i, cx, cy, height, 0) {
        assert(blit_collision(g0, mem, i, cx, cy, height));
    }
    if blit_collision(g0, mem, i, cx, cy, height) {
        assert(blit_collision_upto(g0, mem, i, cx, cy, height, 0));
    }
}

/// Law: the XOR blit is an involution. Drawing the identical sprite twice at
/// the same coordinates restores every pixel of the framebuffer, whatever the
/// sprite, the coordinates and the height.
pub proof fn lemma_blit_involution(
    gfx: Seq<bool>,
    mem: Seq<u8>,
    i: int,
    cx: int,
    cy: int,
    height: int,
)
    ensures
        blit(blit(gfx, mem, i, cx, cy, height), mem, i, cx, cy, height) =~= gfx,
{
}

/// Law: after one draw, the identical second draw collides exactly when the
/// first draw set at least one pixel that was previously unset.
pub proof fn lemma_blit_second_collision(
    gfx: Seq<bool>,
    mem: Seq<u8>,
    i: int,
    cx: int,
    cy: int,
    height: int,
)
    requires
        0 <= cx < 64,
        0 <= cy < 32,
        0 <= height <= 32,
        gfx.len() == GFX_SIZE,
    ensures
        blit_collision(blit(gfx, mem, i, cx, cy, height), mem, i, cx, cy, height)
            <==> exists|r: int, c: int|
            0 <= r < height && 0 <= c < 8 && #[trigger] sprite_bit(mem[i + r], c)
                && !gfx[pixel_index(cx, cy, r, c)],
{
    let drawn = blit(gfx, mem, i, cx, cy, height);
    assert forall|r: int, c: int|
        0 <= r < height && 0 <= c < 8 && #[trigger] sprite_bit(
            mem[i + r],
            c,
        ) implies drawn[pixel_index(cx, cy, r, c)] == !gfx[pixel_index(cx, cy, r, c)] by {
        lemma_pixel_index_inverts(cx, cy, r, c);
    }
}

} // verus!
