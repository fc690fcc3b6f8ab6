//! The checks and decisions that surround each call of the display driver.

use crate::bindings::{lcdhat_key_event_t, lcdhat_key_t, lcdhat_status_t, spec_key_code};
use crate::lcd_error::{Error, Result};
use crate::lcd_types::{spec_key_from_ffi, Key, KeyEvent, MAX_BACKLIGHT};
use vstd::prelude::*;
use vstd::string::StringSliceAdditionalSpecFns;

verus! {

/// The name of each status code.
pub open spec fn spec_status_name(status: lcdhat_status_t) -> Seq<char> {
    match status {
        lcdhat_status_t::LCDHAT_OK => "LCDHAT_OK"@,
        lcdhat_status_t::LCDHAT_ERR_ARG => "LCDHAT_ERR_ARG"@,
        lcdhat_status_t::LCDHAT_ERR_ALLOC => "LCDHAT_ERR_ALLOC"@,
        lcdhat_status_t::LCDHAT_ERR_HW_INIT => "LCDHAT_ERR_HW_INIT"@,
        lcdhat_status_t::LCDHAT_ERR_STATE => "LCDHAT_ERR_STATE"@,
    }
}

/// The description of a status code: its name.
pub fn status_message(status: lcdhat_status_t) -> (r: String)
    ensures
        r@ == spec_status_name(status),
{
    match status {
        lcdhat_status_t::LCDHAT_OK => String::from_str("LCDHAT_OK"),
        lcdhat_status_t::LCDHAT_ERR_ARG => String::from_str("LCDHAT_ERR_ARG"),
        lcdhat_status_t::LCDHAT_ERR_ALLOC => String::from_str("LCDHAT_ERR_ALLOC"),
        lcdhat_status_t::LCDHAT_ERR_HW_INIT => String::from_str("LCDHAT_ERR_HW_INIT"),
        lcdhat_status_t::LCDHAT_ERR_STATE => String::from_str("LCDHAT_ERR_STATE"),
    }
}

/// Turns a driver status into a result: success, a second session, or the
/// failure status with its description.
pub fn ensure_ok(status: lcdhat_status_t) -> (r: Result<()>)
    ensures
        status == lcdhat_status_t::LCDHAT_OK ==> r is Ok,
        status == lcdhat_status_t::LCDHAT_ERR_STATE ==> r matches Err(Error::AlreadyInitialized),
        status != lcdhat_status_t::LCDHAT_OK && status != lcdhat_status_t::LCDHAT_ERR_STATE ==> (r
            matches Err(Error::Status { status: s, message }) && s == status && message@
            == spec_status_name(status)),
{
    if status == lcdhat_status_t::LCDHAT_OK {
        return Ok(());
    }
    if status == lcdhat_status_t::LCDHAT_ERR_STATE {
        return Err(Error::AlreadyInitialized);
    }
    Err(Error::Status { status, message: status_message(status) })
}

/// A region of a `width` by `height` panel is `x0..x1` by `y0..y1`
/// (the upper bounds excluded), not empty and inside the panel.
pub open spec fn region_is_valid(width: u16, height: u16, x0: u16, y0: u16, x1: u16, y1: u16) -> bool {
    x0 < x1 && y0 < y1 && x1 <= width && y1 <= height
}

/// Checks a region to refresh, with exclusive upper bounds.
pub fn validate_region_bounds(width: u16, height: u16, x0: u16, y0: u16, x1: u16, y1: u16) -> (r:
    Result<()>)
    ensures
        r is Ok <==> region_is_valid(width, height, x0, y0, x1, y1),
        !(x0 < x1 && y0 < y1) ==> r == Err::<(), Error>(
            Error::InvalidConfig("present_region requires x0 < x1 and y0 < y1"),
        ),
        x0 < x1 && y0 < y1 && !(x1 <= width && y1 <= height) ==> r == Err::<(), Error>(
            Error::InvalidConfig("present_region bounds exceed display dimensions"),
        ),
{
    if x0 >= x1 || y0 >= y1 {
        return Err(Error::InvalidConfig("present_region requires x0 < x1 and y0 < y1"));
    }
    if x1 > width || y1 > height {
        return Err(Error::InvalidConfig("present_region bounds exceed display dimensions"));
    }
    Ok(())
}

/// Checks a backlight level.
pub fn validate_backlight(value: u16) -> (r: Result<()>)
    ensures
        r is Ok <==> value <= MAX_BACKLIGHT,
        value > MAX_BACKLIGHT ==> r == Err::<(), Error>(
            Error::InvalidConfig("backlight must be in range 0..=1024"),
        ),
{
    if value > MAX_BACKLIGHT {
        return Err(Error::InvalidConfig("backlight must be in range 0..=1024"));
    }
    Ok(())
}

/// The text as the driver reads it: its UTF-8 bytes and a closing NUL;
/// refused where the text itself holds a NUL byte.
pub fn to_cstring(text: &str) -> (r: Result<Vec<u8>>)
    ensures
        r is Err <==> text.spec_bytes().contains(0u8),
        r matches Err(e) ==> e is InvalidString,
        r matches Ok(bytes) ==> bytes@ == text.spec_bytes().push(0u8),
{
    let bytes = text.as_bytes();
    let n = bytes.len();
    let mut out: Vec<u8> = Vec::new();
    let mut i: usize = 0;
    while i < n
        invariant
            n == bytes@.len(),
            bytes@ == text.spec_bytes(),
            0 <= i <= n,
            out@ == bytes@.take(i as int),
            forall|j: int| 0 <= j < i ==> bytes@[j] != 0u8,
        decreases n - i,
    {
        if bytes[i] == 0 {
            assert(bytes@[i as int] == 0u8);
            return Err(Error::InvalidString);
        }
        out.push(bytes[i]);
        assert(bytes@.take(i + 1) =~= bytes@.take(i as int).push(bytes@[i as int]));
        i = i + 1;
    }
    assert(bytes@.take(n as int) =~= bytes@);
    out.push(0u8);
    Ok(out)
}

/// The outcome of one poll of the keys: nothing where the driver had no
/// event, the decoded key edge, or an unknown key code.
pub fn decode_key_event(has_event: u8, event: lcdhat_key_event_t) -> (r: Result<Option<KeyEvent>>)
    ensures
        has_event == 0 ==> r matches Ok(None),
        has_event != 0 ==> match spec_key_from_ffi(event.key) {
            Some(key) => r matches Ok(Some(e)) && e == (KeyEvent {
                key,
                pressed: event.pressed != 0,
            }),
            None => r matches Err(Error::UnknownKey(code)) && code == spec_key_code(event.key),
        },
{
    if has_event == 0 {
        return Ok(None);
    }
    match Key::from_ffi(event.key) {
        Some(key) => Ok(Some(KeyEvent { key, pressed: event.pressed != 0 })),
        None => Err(Error::UnknownKey(event.key.code())),
    }
}

/// Whether a display session is active. At most one session is active per
/// registry, and only so long as every guard goes back to the registry that
/// granted it: a guard does not record its registry, so releasing it into
/// another registry frees that one. One registry for the whole process (as
/// the application layer keeps) gives one session per process.
pub struct InstanceRegistry {
    active: bool,
}

impl View for InstanceRegistry {
    type V = bool;

    closed spec fn view(&self) -> bool {
        self.active
    }
}

impl InstanceRegistry {
    /// No session active.
    pub fn new() -> (r: Self)
        ensures
            !r@,
    {
        InstanceRegistry { active: false }
    }

    /// Whether a session is active.
    pub fn is_active(&self) -> (r: bool)
        ensures
            r == self@,
    {
        self.active
    }
}

/// The right to drive the display, held by at most one session at a time.
pub struct InstanceGuard {
    session: (),
}

impl InstanceGuard {
    /// Starts a session, unless one is active.
    pub fn acquire(registry: &mut InstanceRegistry) -> (r: Result<InstanceGuard>)
        ensures
            old(registry)@ ==> (r matches Err(Error::AlreadyInitialized) && final(registry)@),
            !old(registry)@ ==> r is Ok && final(registry)@,
    {
        if registry.active {
            return Err(Error::AlreadyInitialized);
        }
        registry.active = true;
        Ok(InstanceGuard { session: () })
    }

    /// Ends the session, so that a new one may start. The guard is to go
    /// back to the registry that granted it; given to another registry, it
    /// frees that registry instead (see `InstanceRegistry`).
    pub fn release(self, registry: &mut InstanceRegistry)
        ensures
            !final(registry)@,
    {
        let InstanceGuard { session: _ } = self;
        registry.active = false;
    }
}

} // verus!
