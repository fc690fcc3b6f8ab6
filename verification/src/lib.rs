//! A small UI framework for a 128x128 LCD HAT with a five-way joystick and
//! three side keys: declarative widgets, a grid layout engine, geometric
//! focus navigation, a page stack and the draw list of a frame, together with
//! the device-side rules (configuration, region bounds, status codes, key
//! decoding) of the display backend.

pub mod app;
pub mod bindings;
pub mod color;
pub mod config;
pub mod error;
pub mod event;
pub mod lcd_device;
pub mod lcd_error;
pub mod lcd_types;
pub mod layout;
pub mod render;
pub mod text;
pub mod widget;

pub use app::{key_action, press_event, App, AppView, KeyAction, PageCommand};
pub use bindings::{
    lcdhat_color_t, lcdhat_config_t, lcdhat_font_t, lcdhat_key_event_t, lcdhat_key_t,
    lcdhat_status_t,
};
pub use config::{AppConfig, LastPagePolicy, Theme};
pub use error::{UiError, UiResult};
pub use event::UiEvent;
pub use layout::{
    build_layout, initial_focus, move_focus, try_build_layout, ButtonLayout, FocusDirection,
    FrameView, LayoutFrame, Rect, TextLayout,
};
pub use lcd_device::{
    decode_key_event, ensure_ok, status_message, to_cstring, validate_backlight,
    validate_region_bounds, InstanceGuard, InstanceRegistry,
};
pub use lcd_error::{Error, Result};
pub use lcd_types::{Config, Font, Key, KeyEvent, LCD_HEIGHT, LCD_WIDTH, MAX_BACKLIGHT};
pub use render::{render, DrawCommand, DrawOp};
pub use widget::{
    Button, ButtonActionId, ButtonPalette, ButtonStyle, Column, Row, Text, Widget, WidgetId,
};
