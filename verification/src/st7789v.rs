//! Panel geometry, timing and the opcodes of the controller.

use vstd::prelude::*;

verus! {

/// Width of the panel in pixels.
pub const COLS: u16 = 240;

/// Height of the panel in pixels.
pub const ROWS: u16 = 320;

/// Settle delay after most commands, in milliseconds.
pub const WAIT_MS: u32 = 120;

/// How long the reset line is held low, in microseconds.
pub const RESET_DELAY_US: u32 = 12;

/// Settle delay after the power line changes, in microseconds.
pub const LCD_ON_DELAY_US: u32 = 1;

/// Bytes in one full frame: two per pixel.
pub const FRAME_SIZE: usize = 153600;

/// No operation.
pub const NOP: u8 = 0x00;

/// Sleep out.
pub const SLPOUT: u8 = 0x11;

/// Display inversion on.
pub const INVON: u8 = 0x21;

/// Display on.
pub const DISPON: u8 = 0x29;

/// Column address set.
pub const CASET: u8 = 0x2A;

/// Row address set.
pub const RASET: u8 = 0x2B;

/// Memory write: what follows as data goes to frame memory.
pub const RAMWR: u8 = 0x2C;

/// Memory data access control.
pub const MADCTL: u8 = 0x36;

/// Interface pixel format.
pub const COLMOD: u8 = 0x3A;

/// Pixel format programmed at bring-up: 65K colours on the RGB interface in the
/// high nibble, 16 bits per pixel on the control interface in the low nibble.
pub const PIXEL_FORMAT_16BIT: u8 = 0x55;

/// Memory access order programmed at bring-up: unrotated, top to bottom, left to
/// right, RGB.
pub const MADCTL_DEFAULT: u8 = 0x00;

/// A frame holds two bytes for each of the panel's pixels.
pub proof fn lemma_frame_size()
    ensures
        FRAME_SIZE == COLS * ROWS * 2,
{
}

} // verus!
