use vstd::prelude::*;

use crate::config::FB_LEN;
use crate::display::{all_off, blit, blit_collision, fb_clear, fb_draw_sprite, fb_set_pixel,
    fb_index};
use crate::config::{SCREEN_HEIGHT, SCREEN_WIDTH};

verus! {

/// A terminal rendering surface: its own copy of the pixel grid, kept in
/// step with the machine's framebuffer by replaying the same draw calls,
/// plus a close-requested flag. Printing the grid and reading the keyboard
/// are the driver's side of the boundary and live outside the core.
pub struct Tui {
    /// The pixel grid, row-major, one cell per screen position.
    pub pixel_bitmap: Vec<bool>,
    /// Set once the user has asked to leave the session.
    pub close_window: bool,
}

impl Tui {
    /// A blank surface with no close request.
    pub fn new() -> (t: Tui)
        ensures
            t.pixel_bitmap@ == all_off(),
            !t.close_window,
    {
        let mut bitmap: Vec<bool> = Vec::new();
        let mut n: usize = 0;
        while n < FB_LEN
            invariant
                bitmap@.len() == n,
                n <= FB_LEN,
                forall|k: int| 0 <= k < n ==> bitmap@[k] == false,
            decreases FB_LEN - n,
        {
            bitmap.push(false);
            n += 1;
        }
        proof {
            assert(bitmap@ =~= all_off());
        }
        Tui { pixel_bitmap: bitmap, close_window: false }
    }

    /// Xor `val` into the pixel at (x, y), clipping positions outside the
    /// grid; report whether a lit pixel was turned off.
    pub fn set_pixel(&mut self, x: u8, y: u8, val: bool) -> (erased: bool)
        requires
            old(self).pixel_bitmap@.len() == FB_LEN,
        ensures
            final(self).close_window == old(self).close_window,
            final(self).pixel_bitmap@.len() == FB_LEN,
            x < SCREEN_WIDTH && y < SCREEN_HEIGHT ==> (final(self).pixel_bitmap@ == old(
                self,
            ).pixel_bitmap@.update(
                fb_index(x as int, y as int),
                old(self).pixel_bitmap@[fb_index(x as int, y as int)] ^ val,
            ) && erased == (old(self).pixel_bitmap@[fb_index(x as int, y as int)] && val)),
            !(x < SCREEN_WIDTH && y < SCREEN_HEIGHT) ==> final(self).pixel_bitmap@ == old(
                self,
            ).pixel_bitmap@ && !erased,
    {
        fb_set_pixel(&mut self.pixel_bitmap, x, y, val)
    }

    /// Xor-blit a sprite whose anchor wraps to (x % 64, y % 32), clipping
    /// the pixels that stick out past the edges; report whether any lit
    /// pixel was turned off.
    pub fn draw_sprite(&mut self, x: u8, y: u8, sprite: Vec<u8>) -> (erased: bool)
        requires
            old(self).pixel_bitmap@.len() == FB_LEN,
            sprite@.len() <= 32,
        ensures
            final(self).close_window == old(self).close_window,
            final(self).pixel_bitmap@ == blit(
                old(self).pixel_bitmap@,
                (x % SCREEN_WIDTH) as int,
                (y % SCREEN_HEIGHT) as int,
                sprite@,
            ),
            erased == blit_collision(
                old(self).pixel_bitmap@,
                (x % SCREEN_WIDTH) as int,
                (y % SCREEN_HEIGHT) as int,
                sprite@,
            ),
    {
        fb_draw_sprite(&mut self.pixel_bitmap, x, y, &sprite)
    }

    /// Turn every pixel off.
    pub fn clear_screen(&mut self)
        requires
            old(self).pixel_bitmap@.len() == FB_LEN,
        ensures
            final(self).pixel_bitmap@ == all_off(),
            final(self).close_window == old(self).close_window,
    {
        fb_clear(&mut self.pixel_bitmap);
    }

    /// Record whether the user asked to leave the session.
    pub fn set_close_window(&mut self, close: bool)
        ensures
            final(self).close_window == close,
            final(self).pixel_bitmap@ == old(self).pixel_bitmap@,
    {
        self.close_window = close;
    }

    /// Whether the user asked to leave the session.
    pub fn get_close_window(&self) -> (close: bool)
        ensures
            close == self.close_window,
    {
        self.close_window
    }

    /// The pixel grid, row-major, for the driver to print.
    pub fn bitmap(&self) -> (fb: &Vec<bool>)
        ensures
            fb@ == self.pixel_bitmap@,
    {
        &self.pixel_bitmap
    }
}

} // verus!
