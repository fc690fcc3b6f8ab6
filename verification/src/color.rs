//! The named RGB565 colours of the display (the values of `lcdhat_color_t`).

use vstd::prelude::*;

verus! {

pub const WHITE: u16 = 0xFFFF;
pub const BLACK: u16 = 0x0000;
pub const BLUE: u16 = 0x001F;
pub const RED: u16 = 0xF800;
pub const MAGENTA: u16 = 0xF81F;
pub const GREEN: u16 = 0x07E0;
pub const CYAN: u16 = 0x7FFF;
pub const YELLOW: u16 = 0xFFE0;
pub const GRAY: u16 = 0x8430;

} // verus!
