#![allow(non_camel_case_types)]

use vstd::prelude::*;

verus! {

/// Status code returned by every call of the display driver.
#[derive(Debug, Clone, Copy, PartialEq, Eq, Structural)]
pub enum lcdhat_status_t {
    LCDHAT_OK,
    LCDHAT_ERR_ARG,
    LCDHAT_ERR_ALLOC,
    LCDHAT_ERR_HW_INIT,
    LCDHAT_ERR_STATE,
}

/// The named RGB565 colours of the driver.
#[derive(Debug, Clone, Copy, PartialEq, Eq, Structural)]
pub enum lcdhat_color_t {
    LCDHAT_COLOR_WHITE,
    LCDHAT_COLOR_BLACK,
    LCDHAT_COLOR_BLUE,
    LCDHAT_COLOR_RED,
    LCDHAT_COLOR_MAGENTA,
    LCDHAT_COLOR_GREEN,
    LCDHAT_COLOR_CYAN,
    LCDHAT_COLOR_YELLOW,
    LCDHAT_COLOR_GRAY,
}

/// The bitmap fonts of the driver.
#[derive(Debug, Clone, Copy, PartialEq, Eq, Structural)]
pub enum lcdhat_font_t {
    LCDHAT_FONT_8,
    LCDHAT_FONT_12,
    LCDHAT_FONT_16,
    LCDHAT_FONT_20,
    LCDHAT_FONT_24,
}

/// The keys the driver reports; `LCDHAT_KEY_COUNT` only counts them.
#[derive(Debug, Clone, Copy, PartialEq, Eq, Structural)]
pub enum lcdhat_key_t {
    LCDHAT_KEY_UP,
    LCDHAT_KEY_DOWN,
    LCDHAT_KEY_LEFT,
    LCDHAT_KEY_RIGHT,
    LCDHAT_KEY_PRESS,
    LCDHAT_KEY_K1,
    LCDHAT_KEY_K2,
    LCDHAT_KEY_K3,
    LCDHAT_KEY_COUNT,
}

/// The configuration record handed to the driver at initialisation.
#[derive(Debug, Clone, Copy, PartialEq, Eq, Structural)]
pub struct lcdhat_config_t {
    pub width: u16,
    pub height: u16,
    pub rotation: u16,
    pub background: u16,
    pub foreground: u16,
    pub backlight: u16,
    pub poll_debounce_ms: u32,
}

/// One key edge as reported by the driver's poll.
#[derive(Debug, Clone, Copy, PartialEq, Eq, Structural)]
pub struct lcdhat_key_event_t {
    pub key: lcdhat_key_t,
    pub pressed: u8,
}

/// The numeric value of each key code in the driver's interface.
pub open spec fn spec_key_code(k: lcdhat_key_t) -> u32 {
    match k {
        lcdhat_key_t::LCDHAT_KEY_UP => 0,
        lcdhat_key_t::LCDHAT_KEY_DOWN => 1,
        lcdhat_key_t::LCDHAT_KEY_LEFT => 2,
        lcdhat_key_t::LCDHAT_KEY_RIGHT => 3,
        lcdhat_key_t::LCDHAT_KEY_PRESS => 4,
        lcdhat_key_t::LCDHAT_KEY_K1 => 5,
        lcdhat_key_t::LCDHAT_KEY_K2 => 6,
        lcdhat_key_t::LCDHAT_KEY_K3 => 7,
        lcdhat_key_t::LCDHAT_KEY_COUNT => 8,
    }
}

impl lcdhat_key_t {
    /// The code of this key in the driver's interface.
    pub fn code(self) -> (r: u32)
        ensures
            r == spec_key_code(self),
    {
        match self {
            lcdhat_key_t::LCDHAT_KEY_UP => 0,
            lcdhat_key_t::LCDHAT_KEY_DOWN => 1,
            lcdhat_key_t::LCDHAT_KEY_LEFT => 2,
            lcdhat_key_t::LCDHAT_KEY_RIGHT => 3,
            lcdhat_key_t::LCDHAT_KEY_PRESS => 4,
            lcdhat_key_t::LCDHAT_KEY_K1 => 5,
            lcdhat_key_t::LCDHAT_KEY_K2 => 6,
            lcdhat_key_t::LCDHAT_KEY_K3 => 7,
            lcdhat_key_t::LCDHAT_KEY_COUNT => 8,
        }
    }
}

} // verus!
