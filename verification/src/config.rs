use vstd::prelude::*;

verus! {

/// Number of addressable memory bytes; valid addresses are 0x000..=0xFFF.
pub const MEMSIZE: usize = 4096;

/// Lowest address of the built-in font table (16 glyphs of 5 bytes each).
pub const FONT_POS_START: usize = 0x50;

/// Address where program bytes are loaded and where execution begins.
pub const PROG_POS_START: u16 = 0x200;

/// Framebuffer width in pixels.
pub const SCREEN_WIDTH: u8 = 64;

/// Framebuffer height in pixels.
pub const SCREEN_HEIGHT: u8 = 32;

/// Number of framebuffer cells: SCREEN_WIDTH * SCREEN_HEIGHT.
pub const FB_LEN: usize = 2048;

/// Behavioural variation points on which historical CHIP-8 interpreters
/// disagree. Each flag is documented with the behaviour chosen when it is
/// off, which is the default; `Quirks::default()` matches modern
/// interpreters.
#[derive(Clone, Copy, Debug, PartialEq, Eq, Structural)]
pub struct Quirks {
    /// When true, the bitwise OR/AND/XOR register operations also reset VF
    /// to 0, as the original COSMAC VIP interpreter did. When false (the
    /// default), VF is left untouched by those operations.
    pub vf_reset: bool,
    /// When true, the shift instructions read Vy and store the shifted value
    /// into Vx, as the original interpreter did. When false (the default),
    /// they shift Vx itself and Vy is ignored.
    pub shift_vy: bool,
    /// When true, the block register store/load instructions leave the index
    /// register pointing one past the block, as the original interpreter
    /// did. When false (the default), the index register is unchanged.
    pub increment_i: bool,
}

impl Default for Quirks {
    /// All quirk flags off: modern-interpreter behaviour.
    fn default() -> (q: Quirks)
        ensures
            q == (Quirks { vf_reset: false, shift_vy: false, increment_i: false }),
    {
        Quirks { vf_reset: false, shift_vy: false, increment_i: false }
    }
}

} // verus!
