use vstd::prelude::*;

use crate::config::{FB_LEN, SCREEN_HEIGHT, SCREEN_WIDTH};

verus! {

/// A rendering backend: something that can mirror the core's framebuffer
/// operations onto a real output device. The core itself never calls one of
/// these; a driver may keep its own surface in step with the machine.
pub trait Display {
    /// Xor one pixel; report whether a lit pixel was erased.
    fn set_pixel(&mut self, x: u8, y: u8, val: bool) -> bool;
    /// Xor-blit a sprite; report whether any lit pixel was erased.
    fn draw_sprite(&mut self, x: u8, y: u8, sprite: Vec<u8>) -> bool;
    /// Present the surface to the user.
    fn update_screen(&mut self);
    /// Turn every pixel off.
    fn clear_screen(&mut self);
}

/// The framebuffer cell holding pixel column `px`, row `py`.
pub open spec fn fb_index(px: int, py: int) -> int {
    py * 64 + px
}

/// Bit `b` of a sprite row byte, counting the most significant bit as bit 0:
/// sprite bits map left-to-right onto consecutive columns.
pub open spec fn sprite_bit(line: u8, b: int) -> bool {
    (line >> ((7 - b) as u8)) & 1u8 == 1u8
}

/// Whether the sprite anchored at (x0, y0) with `rows` rows covers pixel
/// (px, py). Pixels right of column 63 or below row 31 do not exist, so the
/// parts of a sprite that stick out past the edges are clipped by
/// construction.
pub open spec fn sprite_hits(x0: int, y0: int, rows: int, px: int, py: int) -> bool {
    x0 <= px < x0 + 8 && y0 <= py < y0 + rows
}

/// The order in which the blit visits sprite pixels: row-major within the
/// eight-wide sprite. Used to state what a partially completed blit has done.
pub open spec fn sprite_order(x0: int, y0: int, px: int, py: int) -> int {
    (py - y0) * 8 + (px - x0)
}

/// The framebuffer after xor-blitting the first `cnt` sprite pixels (in
/// `sprite_order`) of the sprite anchored at (x0, y0): a cell flips exactly
/// when a set sprite bit lands on it.
pub open spec fn blit_prefix(fb: Seq<bool>, x0: int, y0: int, sprite: Seq<u8>, cnt: int) -> Seq<bool> {
    Seq::new(
        fb.len(),
        |j: int|
            {
                let px = j % 64;
                let py = j / 64;
                if sprite_hits(x0, y0, sprite.len() as int, px, py)
                    && sprite_order(x0, y0, px, py) < cnt
                    && sprite_bit(sprite[py - y0], px - x0) {
                    !fb[j]
                } else {
                    fb[j]
                }
            },
    )
}

/// The framebuffer after xor-blitting the whole sprite anchored at (x0, y0).
pub open spec fn blit(fb: Seq<bool>, x0: int, y0: int, sprite: Seq<u8>) -> Seq<bool> {
    blit_prefix(fb, x0, y0, sprite, 8 * sprite.len() as int)
}

/// Among the first `cnt` sprite pixels, a set sprite bit lands on cell `j`
/// while that cell is lit: the blit turns it off.
pub open spec fn erases_before(fb: Seq<bool>, x0: int, y0: int, sprite: Seq<u8>, cnt: int, j: int) -> bool {
    let px = j % 64;
    let py = j / 64;
    &&& sprite_hits(x0, y0, sprite.len() as int, px, py)
    &&& sprite_order(x0, y0, px, py) < cnt
    &&& sprite_bit(sprite[py - y0], px - x0)
    &&& fb[j]
}

/// Whether blitting the first `cnt` sprite pixels erases any lit cell.
pub open spec fn collision_prefix(fb: Seq<bool>, x0: int, y0: int, sprite: Seq<u8>, cnt: int) -> bool {
    exists|j: int| 0 <= j < fb.len() && #[trigger] erases_before(fb, x0, y0, sprite, cnt, j)
}

/// Whether xor-blitting the whole sprite erases any lit cell: the collision
/// that DRW reports in VF.
pub open spec fn blit_collision(fb: Seq<bool>, x0: int, y0: int, sprite: Seq<u8>) -> bool {
    collision_prefix(fb, x0, y0, sprite, 8 * sprite.len() as int)
}

/// The all-off framebuffer.
pub open spec fn all_off() -> Seq<bool> {
    Seq::new(FB_LEN as nat, |j: int| false)
}

/// Xor `val` into the pixel at (x, y), clipping silently when the position
/// lies outside the grid; report whether a lit pixel was turned off.
pub fn fb_set_pixel(fb: &mut Vec<bool>, x: u8, y: u8, val: bool) -> (erased: bool)
    requires
        old(fb)@.len() == FB_LEN,
    ensures
        final(fb)@.len() == FB_LEN,
        x < SCREEN_WIDTH && y < SCREEN_HEIGHT ==> (final(fb)@ == old(fb)@.update(
            fb_index(x as int, y as int),
            old(fb)@[fb_index(x as int, y as int)] ^ val,
        ) && erased == (old(fb)@[fb_index(x as int, y as int)] && val)),
        !(x < SCREEN_WIDTH && y < SCREEN_HEIGHT) ==> final(fb)@ == old(fb)@ && !erased,
{
    if x >= SCREEN_WIDTH || y >= SCREEN_HEIGHT {
        return false;
    }
    let idx: usize = (y as usize) * 64 + (x as usize);
    let before: bool = fb[idx];
    fb.set(idx, before ^ val);
    before && val
}

/// Turn every framebuffer cell off.
pub fn fb_clear(fb: &mut Vec<bool>)
    requires
        old(fb)@.len() == FB_LEN,
    ensures
        final(fb)@ == all_off(),
{
    let mut k: usize = 0;
    while k < FB_LEN
        invariant
            fb@.len() == FB_LEN,
            k <= FB_LEN,
            forall|j: int| 0 <= j < k ==> fb@[j] == false,
        decreases FB_LEN - k,
    {
        fb.set(k, false);
        k += 1;
    }
    proof {
        assert(fb@ =~= all_off());
    }
}

/// Xor-blit `sprite` with its anchor at (x % 64, y % 32); sprite pixels that
/// fall off the right or bottom edge are clipped. Returns true exactly when
/// some lit pixel was turned off.
pub fn fb_draw_sprite(fb: &mut Vec<bool>, x: u8, y: u8, sprite: &Vec<u8>) -> (erased: bool)
    requires
        old(fb)@.len() == FB_LEN,
        sprite@.len() <= 32,
    ensures
        final(fb)@ == blit(old(fb)@, (x % SCREEN_WIDTH) as int, (y % SCREEN_HEIGHT) as int, sprite@),
        erased == blit_collision(
            old(fb)@,
            (x % SCREEN_WIDTH) as int,
            (y % SCREEN_HEIGHT) as int,
            sprite@,
        ),
{
    let x0: u8 = x % SCREEN_WIDTH;
    let y0: u8 = y % SCREEN_HEIGHT;
    let ghost fb0 = fb@;
    let ghost xi = x0 as int;
    let ghost yi = y0 as int;
    let ghost s = sprite@;
    let mut erased: bool = false;
    let mut r: usize = 0;
    while r < sprite.len()
        invariant
            fb@.len() == FB_LEN,
            fb0.len() == FB_LEN,
            sprite@ == s,
            s.len() <= 32,
            xi == x0 as int,
            yi == y0 as int,
            x0 < 64,
            y0 < 32,
            r <= s.len(),
            fb@ == blit_prefix(fb0, xi, yi, s, 8 * r as int),
            erased == collision_prefix(fb0, xi, yi, s, 8 * r as int),
        decreases s.len() - r,
    {
        let line: u8 = sprite[r];
        let mut b: usize = 0;
        while b < 8
            invariant
                fb@.len() == FB_LEN,
                fb0.len() == FB_LEN,
                sprite@ == s,
                s.len() <= 32,
                xi == x0 as int,
                yi == y0 as int,
                x0 < 64,
                y0 < 32,
                r < s.len(),
                line == s[r as int],
                b <= 8,
                fb@ == blit_prefix(fb0, xi, yi, s, 8 * r as int + b as int),
                erased == collision_prefix(fb0, xi, yi, s, 8 * r as int + b as int),
            decreases 8 - b,
        {
            let sh: u8 = (7 - b) as u8;
            let val: bool = (line >> sh) & 1u8 == 1u8;
            let xx: u8 = x0 + (b as u8);
            let yy: u8 = y0 + (r as u8);
            let ghost cnt = 8 * r as int + b as int;
            let ghost prev = fb@;
            let e: bool = fb_set_pixel(fb, xx, yy, val);
            proof {
                lemma_blit_step(fb0, xi, yi, s, cnt, prev, fb@, r as int, b as int, e, erased);
            }
            if e {
                erased = true;
            }
            b = b + 1;
        }
        r = r + 1;
    }
    erased
}

/// One pixel of the blit loop: updating the cell for sprite pixel (b, row)
/// carries `blit_prefix` and `collision_prefix` from `cnt` to `cnt + 1`.
proof fn lemma_blit_step(
    fb0: Seq<bool>,
    x0: int,
    y0: int,
    s: Seq<u8>,
    cnt: int,
    prev: Seq<bool>,
    cur: Seq<bool>,
    row: int,
    b: int,
    e: bool,
    erased: bool,
)
    requires
        fb0.len() == FB_LEN,
        0 <= x0 < 64,
        0 <= y0 < 32,
        0 <= row < s.len(),
        s.len() <= 32,
        0 <= b < 8,
        cnt == 8 * row + b,
        prev == blit_prefix(fb0, x0, y0, s, cnt),
        erased == collision_prefix(fb0, x0, y0, s, cnt),
        x0 + b < 64 && y0 + row < 32 ==> (cur == prev.update(
            fb_index(x0 + b, y0 + row),
            prev[fb_index(x0 + b, y0 + row)] ^ sprite_bit(s[row], b),
        ) && e == (prev[fb_index(x0 + b, y0 + row)] && sprite_bit(s[row], b))),
        !(x0 + b < 64 && y0 + row < 32) ==> cur == prev && !e,
    ensures
        cur == blit_prefix(fb0, x0, y0, s, cnt + 1),
        (erased || e) == collision_prefix(fb0, x0, y0, s, cnt + 1),
{
    let px0 = x0 + b;
    let py0 = y0 + row;
    if px0 < 64 && py0 < 32 {
        let j0 = fb_index(px0, py0);
        assert(j0 % 64 == px0 && j0 / 64 == py0) by {
            vstd::arithmetic::div_mod::lemma_fundamental_div_mod_converse(j0, 64, py0, px0);
        }
        assert(0 <= j0 < FB_LEN);
        assert(sprite_hits(x0, y0, s.len() as int, j0 % 64, j0 / 64));
        assert(sprite_order(x0, y0, j0 % 64, j0 / 64) == cnt);
        assert(prev[j0] == fb0[j0]);
        assert(cur =~= blit_prefix(fb0, x0, y0, s, cnt + 1)) by {
            assert forall|j: int| 0 <= j < FB_LEN implies cur[j] == blit_prefix(
                fb0,
                x0,
                y0,
                s,
                cnt + 1,
            )[j] by {
                if j != j0 && sprite_hits(x0, y0, s.len() as int, j % 64, j / 64)
                    && sprite_order(x0, y0, j % 64, j / 64) == cnt {
                    lemma_cell_of_order(x0, y0, s.len() as int, row, b, j);
                    assert(j == 64 * (j / 64) + j % 64) by {
                        vstd::arithmetic::div_mod::lemma_fundamental_div_mod(j, 64);
                    }
                    assert(false);
                }
            }
        }
        if erased {
            let j = choose|j: int| 0 <= j < fb0.len() && #[trigger] erases_before(fb0, x0, y0, s, cnt, j);
            assert(erases_before(fb0, x0, y0, s, cnt + 1, j));
        }
        if e {
            assert(erases_before(fb0, x0, y0, s, cnt + 1, j0));
            assert(collision_prefix(fb0, x0, y0, s, cnt + 1));
        } else {
            if collision_prefix(fb0, x0, y0, s, cnt + 1) {
                let j = choose|j: int| 0 <= j < fb0.len() && #[trigger] erases_before(fb0, x0, y0, s, cnt + 1, j);
                if sprite_order(x0, y0, j % 64, j / 64) < cnt {
                    assert(erases_before(fb0, x0, y0, s, cnt, j));
                } else {
                    lemma_cell_of_order(x0, y0, s.len() as int, row, b, j);
                    assert(j == 64 * (j / 64) + j % 64) by {
                        vstd::arithmetic::div_mod::lemma_fundamental_div_mod(j, 64);
                    }
                    assert(j == j0);
                    assert(false);
                }
            }
        }
    } else {
        // The pixel is clipped: no cell of the grid has this sprite order.
        assert(cur =~= blit_prefix(fb0, x0, y0, s, cnt + 1)) by {
            assert forall|j: int| 0 <= j < FB_LEN implies cur[j] == blit_prefix(
                fb0,
                x0,
                y0,
                s,
                cnt + 1,
            )[j] by {
                lemma_order_off_grid(x0, y0, s.len() as int, row, b, j);
            }
        }
        if collision_prefix(fb0, x0, y0, s, cnt + 1) {
            let j = choose|j: int| 0 <= j < fb0.len() && #[trigger] erases_before(fb0, x0, y0, s, cnt + 1, j);
            lemma_order_off_grid(x0, y0, s.len() as int, row, b, j);
            assert(erases_before(fb0, x0, y0, s, cnt, j));
        }
        if erased {
            let j = choose|j: int| 0 <= j < fb0.len() && #[trigger] erases_before(fb0, x0, y0, s, cnt, j);
            assert(erases_before(fb0, x0, y0, s, cnt + 1, j));
        }
    }
}

/// A covered cell whose sprite order is 8 * row + b is exactly the cell at
/// column x0 + b, row y0 + row.
proof fn lemma_cell_of_order(x0: int, y0: int, rows: int, row: int, b: int, j: int)
    requires
        0 <= b < 8,
        sprite_hits(x0, y0, rows, j % 64, j / 64),
        sprite_order(x0, y0, j % 64, j / 64) == 8 * row + b,
    ensures
        j % 64 == x0 + b,
        j / 64 == y0 + row,
{
    let px = j % 64;
    let py = j / 64;
    assert(py - y0 == row && px - x0 == b) by (nonlinear_arith)
        requires
            (py - y0) * 8 + (px - x0) == 8 * row + b,
            0 <= px - x0 < 8,
            0 <= b < 8,
    ;
}

/// When sprite pixel (b, row) lies off the grid, no grid cell carries its
/// sprite order.
proof fn lemma_order_off_grid(x0: int, y0: int, rows: int, row: int, b: int, j: int)
    requires
        0 <= x0 < 64,
        0 <= y0 < 32,
        0 <= b < 8,
        0 <= row < rows,
        !(x0 + b < 64 && y0 + row < 32),
        0 <= j < FB_LEN,
    ensures
        !(sprite_hits(x0, y0, rows, j % 64, j / 64) && sprite_order(x0, y0, j % 64, j / 64) == 8
            * row + b),
{
    if sprite_hits(x0, y0, rows, j % 64, j / 64) && sprite_order(x0, y0, j % 64, j / 64) == 8 * row
        + b {
        lemma_cell_of_order(x0, y0, rows, row, b, j);
        assert(0 <= j % 64 < 64);
        assert(j == 64 * (j / 64) + j % 64) by {
            vstd::arithmetic::div_mod::lemma_fundamental_div_mod(j, 64);
        }
        assert(false);
    }
}

/// A set sprite bit lands on cell `j` while that cell is off: drawing the
/// sprite would light it, so it is visible against the current framebuffer.
pub open spec fn shows_at(fb: Seq<bool>, x0: int, y0: int, sprite: Seq<u8>, j: int) -> bool {
    let px = j % 64;
    let py = j / 64;
    &&& sprite_hits(x0, y0, sprite.len() as int, px, py)
    &&& sprite_bit(sprite[py - y0], px - x0)
    &&& !fb[j]
}

/// Drawing the same sprite twice at the same anchor restores the framebuffer
/// exactly; and if the first draw lit at least one pixel that was off, the
/// second draw erases it again and so reports a collision.
pub proof fn lemma_draw_twice(fb: Seq<bool>, x0: int, y0: int, sprite: Seq<u8>)
    requires
        fb.len() == FB_LEN,
        0 <= x0 < 64,
        0 <= y0 < 32,
    ensures
        blit(blit(fb, x0, y0, sprite), x0, y0, sprite) == fb,
        (exists|j: int| 0 <= j < FB_LEN && #[trigger] shows_at(fb, x0, y0, sprite, j))
            ==> blit_collision(blit(fb, x0, y0, sprite), x0, y0, sprite),
{
    let fb1 = blit(fb, x0, y0, sprite);
    assert(blit(fb1, x0, y0, sprite) =~= fb) by {
        assert forall|j: int| 0 <= j < FB_LEN implies blit(fb1, x0, y0, sprite)[j] == fb[j] by {
            assert forall|px: int, py: int|
                sprite_hits(x0, y0, sprite.len() as int, px, py) implies sprite_order(
                x0,
                y0,
                px,
                py,
            ) < 8 * sprite.len() by {
                assert((py - y0) * 8 <= (sprite.len() - 1) * 8) by (nonlinear_arith)
                    requires
                        py - y0 <= sprite.len() - 1,
                ;
            }
        }
    }
    if exists|j: int| 0 <= j < FB_LEN && #[trigger] shows_at(fb, x0, y0, sprite, j) {
        let j = choose|j: int| 0 <= j < FB_LEN && #[trigger] shows_at(fb, x0, y0, sprite, j);
        assert(sprite_order(x0, y0, j % 64, j / 64) < 8 * sprite.len()) by {
            assert(((j / 64) - y0) * 8 <= (sprite.len() - 1) * 8) by (nonlinear_arith)
                requires
                    (j / 64) - y0 <= sprite.len() - 1,
            ;
        }
        assert(fb1[j] == !fb[j]);
        assert(erases_before(fb1, x0, y0, sprite, 8 * sprite.len() as int, j));
    }
}

} // verus!
