use crate::bindings::{lcdhat_config_t, lcdhat_font_t, lcdhat_key_t};
use crate::color;
use crate::lcd_error::{Error, Result};
use vstd::prelude::*;

verus! {

/// Width of the panel in pixels.
pub const LCD_WIDTH: u16 = 128;
/// Height of the panel in pixels.
pub const LCD_HEIGHT: u16 = 128;
/// Largest accepted backlight level.
pub const MAX_BACKLIGHT: u16 = 1024;

/// Display configuration.
#[derive(Debug, Clone, Copy, PartialEq, Eq, Structural)]
pub struct Config {
    pub width: u16,
    pub height: u16,
    pub rotation: u16,
    pub background: u16,
    pub foreground: u16,
    pub backlight: u16,
    pub poll_debounce_ms: u32,
}

/// The panel is exactly 128x128.
pub open spec fn size_is_valid(c: Config) -> bool {
    c.width == LCD_WIDTH && c.height == LCD_HEIGHT
}

/// The rotation is a quarter turn multiple.
pub open spec fn rotation_is_valid(c: Config) -> bool {
    c.rotation == 0 || c.rotation == 90 || c.rotation == 180 || c.rotation == 270
}

/// The backlight is within `0..=1024`.
pub open spec fn backlight_is_valid(c: Config) -> bool {
    c.backlight <= MAX_BACKLIGHT
}

/// A configuration the driver accepts.
pub open spec fn config_is_valid(c: Config) -> bool {
    size_is_valid(c) && rotation_is_valid(c) && backlight_is_valid(c)
}

/// The panel's size, upright, white background, black foreground, full
/// backlight, 120 ms key debounce.
pub open spec fn spec_default_config() -> Config {
    Config {
        width: LCD_WIDTH,
        height: LCD_HEIGHT,
        rotation: 0,
        background: color::WHITE,
        foreground: color::BLACK,
        backlight: MAX_BACKLIGHT,
        poll_debounce_ms: 120,
    }
}

impl Default for Config {
    /// The driver's documented defaults (`spec_default_config`). On the
    /// hardware the driver reports its own defaults through its C interface,
    /// which this library does not call: the application layer reads them and
    /// turns them into a `Config` with `Config::from_ffi`. Whether the driver's
    /// values differ from these is not known here.
    fn default() -> (r: Self)
        ensures
            r == spec_default_config(),
    {
        Config {
            width: LCD_WIDTH,
            height: LCD_HEIGHT,
            rotation: 0,
            background: color::WHITE,
            foreground: color::BLACK,
            backlight: MAX_BACKLIGHT,
            poll_debounce_ms: 120,
        }
    }
}

impl Config {
    /// Checks the configuration and hands it back unchanged when the driver
    /// accepts it; the first rule broken (size, rotation, backlight) names the error.
    pub fn validate(self) -> (r: Result<Self>)
        ensures
            r is Ok <==> config_is_valid(self),
            r matches Ok(c) ==> c == self,
            !size_is_valid(self) ==> r == Err::<Config, Error>(
                Error::InvalidConfig("width/height must be exactly 128x128"),
            ),
            size_is_valid(self) && !rotation_is_valid(self) ==> r == Err::<Config, Error>(
                Error::InvalidConfig("rotation must be one of 0/90/180/270"),
            ),
            size_is_valid(self) && rotation_is_valid(self) && !backlight_is_valid(self) ==> r
                == Err::<Config, Error>(Error::InvalidConfig("backlight must be in range 0..=1024")),
    {
        if self.width != LCD_WIDTH || self.height != LCD_HEIGHT {
            return Err(Error::InvalidConfig("width/height must be exactly 128x128"));
        }
        if !(self.rotation == 0 || self.rotation == 90 || self.rotation == 180 || self.rotation
            == 270) {
            return Err(Error::InvalidConfig("rotation must be one of 0/90/180/270"));
        }
        if self.backlight > MAX_BACKLIGHT {
            return Err(Error::InvalidConfig("backlight must be in range 0..=1024"));
        }
        Ok(self)
    }

    /// The configuration with the fields of a driver record.
    pub fn from_ffi(raw: lcdhat_config_t) -> (r: Self)
        ensures
            r == (Config {
                width: raw.width,
                height: raw.height,
                rotation: raw.rotation,
                background: raw.background,
                foreground: raw.foreground,
                backlight: raw.backlight,
                poll_debounce_ms: raw.poll_debounce_ms,
            }),
    {
        Config {
            width: raw.width,
            height: raw.height,
            rotation: raw.rotation,
            background: raw.background,
            foreground: raw.foreground,
            backlight: raw.backlight,
            poll_debounce_ms: raw.poll_debounce_ms,
        }
    }

    /// The driver's record with the same fields.
    pub fn to_ffi(self) -> (r: lcdhat_config_t)
        ensures
            r == (lcdhat_config_t {
                width: self.width,
                height: self.height,
                rotation: self.rotation,
                background: self.background,
                foreground: self.foreground,
                backlight: self.backlight,
                poll_debounce_ms: self.poll_debounce_ms,
            }),
    {
        lcdhat_config_t {
            width: self.width,
            height: self.height,
            rotation: self.rotation,
            background: self.background,
            foreground: self.foreground,
            backlight: self.backlight,
            poll_debounce_ms: self.poll_debounce_ms,
        }
    }
}

/// Text fonts, by glyph height.
#[derive(Debug, Clone, Copy, PartialEq, Eq, Structural)]
pub enum Font {
    Font8,
    Font12,
    Font16,
    Font20,
    Font24,
}

/// The driver's font for each font.
pub open spec fn spec_font_to_ffi(f: Font) -> lcdhat_font_t {
    match f {
        Font::Font8 => lcdhat_font_t::LCDHAT_FONT_8,
        Font::Font12 => lcdhat_font_t::LCDHAT_FONT_12,
        Font::Font16 => lcdhat_font_t::LCDHAT_FONT_16,
        Font::Font20 => lcdhat_font_t::LCDHAT_FONT_20,
        Font::Font24 => lcdhat_font_t::LCDHAT_FONT_24,
    }
}

impl Font {
    /// The driver's name of this font.
    pub fn to_ffi(self) -> (r: lcdhat_font_t)
        ensures
            r == spec_font_to_ffi(self),
    {
        match self {
            Font::Font8 => lcdhat_font_t::LCDHAT_FONT_8,
            Font::Font12 => lcdhat_font_t::LCDHAT_FONT_12,
            Font::Font16 => lcdhat_font_t::LCDHAT_FONT_16,
            Font::Font20 => lcdhat_font_t::LCDHAT_FONT_20,
            Font::Font24 => lcdhat_font_t::LCDHAT_FONT_24,
        }
    }
}

/// The keys of the HAT: the joystick's four directions and press, and K1..K3.
#[derive(Debug, Clone, Copy, PartialEq, Eq, Structural)]
pub enum Key {
    Up,
    Down,
    Left,
    Right,
    Press,
    K1,
    K2,
    K3,
}

/// The key that a driver key code stands for; the counting entry stands for none.
pub open spec fn spec_key_from_ffi(k: lcdhat_key_t) -> Option<Key> {
    match k {
        lcdhat_key_t::LCDHAT_KEY_UP => Some(Key::Up),
        lcdhat_key_t::LCDHAT_KEY_DOWN => Some(Key::Down),
        lcdhat_key_t::LCDHAT_KEY_LEFT => Some(Key::Left),
        lcdhat_key_t::LCDHAT_KEY_RIGHT => Some(Key::Right),
        lcdhat_key_t::LCDHAT_KEY_PRESS => Some(Key::Press),
        lcdhat_key_t::LCDHAT_KEY_K1 => Some(Key::K1),
        lcdhat_key_t::LCDHAT_KEY_K2 => Some(Key::K2),
        lcdhat_key_t::LCDHAT_KEY_K3 => Some(Key::K3),
        lcdhat_key_t::LCDHAT_KEY_COUNT => None,
    }
}

impl Key {
    /// Decodes a driver key.
    pub fn from_ffi(key: lcdhat_key_t) -> (r: Option<Self>)
        ensures
            r == spec_key_from_ffi(key),
    {
        match key {
            lcdhat_key_t::LCDHAT_KEY_UP => Some(Key::Up),
            lcdhat_key_t::LCDHAT_KEY_DOWN => Some(Key::Down),
            lcdhat_key_t::LCDHAT_KEY_LEFT => Some(Key::Left),
            lcdhat_key_t::LCDHAT_KEY_RIGHT => Some(Key::Right),
            lcdhat_key_t::LCDHAT_KEY_PRESS => Some(Key::Press),
            lcdhat_key_t::LCDHAT_KEY_K1 => Some(Key::K1),
            lcdhat_key_t::LCDHAT_KEY_K2 => Some(Key::K2),
            lcdhat_key_t::LCDHAT_KEY_K3 => Some(Key::K3),
            lcdhat_key_t::LCDHAT_KEY_COUNT => None,
        }
    }
}

/// A key edge: which key, and whether it went down.
#[derive(Debug, Clone, Copy, PartialEq, Eq, Structural)]
pub struct KeyEvent {
    pub key: Key,
    pub pressed: bool,
}

/// The driver accepts exactly the 128 by 128 configurations turned by a
/// multiple of a quarter turn with a backlight of at most 1024.
pub proof fn lemma_valid_config(c: Config)
    ensures
        config_is_valid(c) <==> (c.width == 128 && c.height == 128 && (c.rotation == 0
            || c.rotation == 90 || c.rotation == 180 || c.rotation == 270) && c.backlight <= 1024),
{
}

/// Decoding is one to one: distinct driver keys never decode to the same key,
/// and only the counting entry decodes to nothing.
pub proof fn lemma_key_decoding_injective(a: lcdhat_key_t, b: lcdhat_key_t)
    ensures
        spec_key_from_ffi(a) is None <==> a == lcdhat_key_t::LCDHAT_KEY_COUNT,
        spec_key_from_ffi(a) is Some && spec_key_from_ffi(a) == spec_key_from_ffi(b) ==> a == b,
{
}

/// Every key is the decoding of exactly one driver key.
pub proof fn lemma_key_decoding_onto(k: Key)
    ensures
        exists|c: lcdhat_key_t| spec_key_from_ffi(c) == Some(k),
{
    let c = match k {
        Key::Up => lcdhat_key_t::LCDHAT_KEY_UP,
        Key::Down => lcdhat_key_t::LCDHAT_KEY_DOWN,
        Key::Left => lcdhat_key_t::LCDHAT_KEY_LEFT,
        Key::Right => lcdhat_key_t::LCDHAT_KEY_RIGHT,
        Key::Press => lcdhat_key_t::LCDHAT_KEY_PRESS,
        Key::K1 => lcdhat_key_t::LCDHAT_KEY_K1,
        Key::K2 => lcdhat_key_t::LCDHAT_KEY_K2,
        Key::K3 => lcdhat_key_t::LCDHAT_KEY_K3,
    };
    assert(spec_key_from_ffi(c) == Some(k));
}

} // verus!
