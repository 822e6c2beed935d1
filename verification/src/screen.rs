use vstd::prelude::*;

verus! {

/// A complete driver-side user interface: a rendering surface together with
/// keyboard input and a session lifecycle. The core never calls one of
/// these; a driver implements it for its backend and shuttles plain values
/// (pixels, key numbers) between the device and the machine.
pub trait Interface: Sized {
    /// A fresh, blank surface.
    fn new() -> Self;

    /// Xor-blit a sprite onto the surface; report whether a lit pixel was
    /// erased.
    fn draw_sprite(&mut self, x: u8, y: u8, sprite: Vec<u8>) -> bool;

    /// Present the surface to the user.
    fn update_screen(&mut self);

    /// Turn every pixel off.
    fn clear_screen(&mut self);

    /// Whether the key numbered `key` (0..=0xF) is currently pressed.
    fn get_key(&self, key: u8) -> bool;

    /// The numbers of all keys currently pressed.
    fn get_keys_pressed(&self) -> Vec<u8>;

    /// Whether the user asked to close the window or leave the session.
    fn get_close_window(&self) -> bool;

    /// Prepare the backing device (enter raw mode, open a window, ...).
    fn init(&self);

    /// Release the backing device.
    fn stop(&self);
}

} // verus!
