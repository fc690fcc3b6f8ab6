use karsus_ui::{
    decode_key_event, ensure_ok, lcdhat_key_event_t, lcdhat_key_t, lcdhat_status_t, to_cstring,
    validate_backlight, validate_region_bounds, Config, Error, Font, InstanceGuard,
    InstanceRegistry, Key, KeyEvent, LCD_HEIGHT, LCD_WIDTH, MAX_BACKLIGHT,
};

#[test]
fn reject_invalid_resolution() {
    let cfg = Config {
        width: 127,
        ..Config::default()
    };
    assert!(matches!(cfg.validate(), Err(Error::InvalidConfig(_))));
}

#[test]
fn reject_invalid_rotation() {
    let cfg = Config {
        rotation: 45,
        ..Config::default()
    };
    assert!(matches!(cfg.validate(), Err(Error::InvalidConfig(_))));
}

#[test]
fn reject_invalid_backlight() {
    let cfg = Config {
        backlight: 1025,
        ..Config::default()
    };
    assert!(matches!(cfg.validate(), Err(Error::InvalidConfig(_))));
}

#[test]
fn cstring_rejects_embedded_nul() {
    let err = to_cstring("abc\0def").unwrap_err();
    assert!(matches!(err, Error::InvalidString));
}

#[test]
fn instance_guard_is_singleton() {
    let mut registry = InstanceRegistry::new();
    let g1 = InstanceGuard::acquire(&mut registry).expect("first acquire should succeed");
    let g2 = InstanceGuard::acquire(&mut registry);
    assert!(matches!(g2, Err(Error::AlreadyInitialized)));
    g1.release(&mut registry);
    let g3 = InstanceGuard::acquire(&mut registry);
    assert!(g3.is_ok());
}

#[test]
fn present_region_uses_exclusive_bounds() {
    assert!(validate_region_bounds(128, 128, 0, 0, 128, 128).is_ok());
    assert!(matches!(
        validate_region_bounds(128, 128, 10, 10, 10, 20),
        Err(Error::InvalidConfig(_))
    ));
    assert!(matches!(
        validate_region_bounds(128, 128, 10, 10, 129, 20),
        Err(Error::InvalidConfig(_))
    ));
}

#[test]
fn status_mapping_non_ok() {
    let err = ensure_ok(lcdhat_status_t::LCDHAT_ERR_ARG).unwrap_err();
    match err {
        Error::Status { status, .. } => {
            assert_eq!(status, lcdhat_status_t::LCDHAT_ERR_ARG)
        }
        _ => panic!("expected status error"),
    }
}

#[test]
fn default_config_is_valid_and_unchanged_by_validation() {
    let cfg = Config::default();
    assert_eq!(cfg.width, LCD_WIDTH);
    assert_eq!(cfg.height, LCD_HEIGHT);
    assert_eq!(cfg.backlight, MAX_BACKLIGHT);
    assert_eq!(cfg.rotation, 0);
    assert_eq!(cfg.poll_debounce_ms, 120);
    assert_eq!(cfg.validate().unwrap(), cfg);
}

#[test]
fn every_quarter_turn_is_accepted() {
    for rotation in [0u16, 90, 180, 270] {
        let cfg = Config { rotation, ..Config::default() };
        assert!(cfg.validate().is_ok());
    }
    let cfg = Config { rotation: 360, ..Config::default() };
    assert!(cfg.validate().is_err());
}

#[test]
fn validation_reports_the_first_broken_rule() {
    let cfg = Config { height: 64, rotation: 45, backlight: 2000, ..Config::default() };
    match cfg.validate() {
        Err(Error::InvalidConfig(msg)) => assert_eq!(msg, "width/height must be exactly 128x128"),
        _ => panic!("expected an invalid config"),
    }
    let cfg = Config { rotation: 45, backlight: 2000, ..Config::default() };
    match cfg.validate() {
        Err(Error::InvalidConfig(msg)) => assert_eq!(msg, "rotation must be one of 0/90/180/270"),
        _ => panic!("expected an invalid config"),
    }
    let cfg = Config { backlight: 1025, ..Config::default() };
    match cfg.validate() {
        Err(Error::InvalidConfig(msg)) => assert_eq!(msg, "backlight must be in range 0..=1024"),
        _ => panic!("expected an invalid config"),
    }
    let cfg = Config { backlight: 1024, ..Config::default() };
    assert!(cfg.validate().is_ok());
}

#[test]
fn config_goes_to_the_driver_field_by_field() {
    let cfg = Config { rotation: 90, background: 7, foreground: 9, backlight: 500, poll_debounce_ms: 33, ..Config::default() };
    let raw = cfg.to_ffi();
    assert_eq!(raw.width, 128);
    assert_eq!(raw.height, 128);
    assert_eq!(raw.rotation, 90);
    assert_eq!(raw.background, 7);
    assert_eq!(raw.foreground, 9);
    assert_eq!(raw.backlight, 500);
    assert_eq!(raw.poll_debounce_ms, 33);
}

#[test]
fn region_errors_name_the_broken_rule() {
    match validate_region_bounds(128, 128, 5, 9, 6, 9) {
        Err(Error::InvalidConfig(msg)) => assert_eq!(msg, "present_region requires x0 < x1 and y0 < y1"),
        _ => panic!("expected an empty region error"),
    }
    match validate_region_bounds(128, 128, 0, 0, 10, 129) {
        Err(Error::InvalidConfig(msg)) => assert_eq!(msg, "present_region bounds exceed display dimensions"),
        _ => panic!("expected an out of bounds error"),
    }
    assert!(validate_region_bounds(128, 128, 127, 127, 128, 128).is_ok());
}

#[test]
fn backlight_range_is_inclusive() {
    assert!(validate_backlight(0).is_ok());
    assert!(validate_backlight(1024).is_ok());
    assert!(matches!(validate_backlight(1025), Err(Error::InvalidConfig(_))));
}

#[test]
fn status_codes_map_to_results() {
    assert!(ensure_ok(lcdhat_status_t::LCDHAT_OK).is_ok());
    assert!(matches!(ensure_ok(lcdhat_status_t::LCDHAT_ERR_STATE), Err(Error::AlreadyInitialized)));
    match ensure_ok(lcdhat_status_t::LCDHAT_ERR_HW_INIT) {
        Err(Error::Status { status, message }) => {
            assert_eq!(status, lcdhat_status_t::LCDHAT_ERR_HW_INIT);
            assert_eq!(message, "LCDHAT_ERR_HW_INIT");
        }
        _ => panic!("expected status error"),
    }
}

#[test]
fn cstring_appends_terminator() {
    let bytes = to_cstring("hi é").unwrap();
    let mut expected = "hi é".as_bytes().to_vec();
    expected.push(0);
    assert_eq!(bytes, expected);
    assert_eq!(to_cstring("").unwrap(), vec![0u8]);
}

#[test]
fn keys_decode_from_driver_codes() {
    let cases = [
        (lcdhat_key_t::LCDHAT_KEY_UP, Key::Up),
        (lcdhat_key_t::LCDHAT_KEY_DOWN, Key::Down),
        (lcdhat_key_t::LCDHAT_KEY_LEFT, Key::Left),
        (lcdhat_key_t::LCDHAT_KEY_RIGHT, Key::Right),
        (lcdhat_key_t::LCDHAT_KEY_PRESS, Key::Press),
        (lcdhat_key_t::LCDHAT_KEY_K1, Key::K1),
        (lcdhat_key_t::LCDHAT_KEY_K2, Key::K2),
        (lcdhat_key_t::LCDHAT_KEY_K3, Key::K3),
    ];
    for (raw, key) in cases {
        assert_eq!(Key::from_ffi(raw), Some(key));
    }
    assert_eq!(Key::from_ffi(lcdhat_key_t::LCDHAT_KEY_COUNT), None);
}

#[test]
fn polled_events_decode() {
    let event = lcdhat_key_event_t { key: lcdhat_key_t::LCDHAT_KEY_K2, pressed: 1 };
    assert!(matches!(decode_key_event(0, event), Ok(None)));
    assert_eq!(
        decode_key_event(1, event).unwrap(),
        Some(KeyEvent { key: Key::K2, pressed: true })
    );
    let released = lcdhat_key_event_t { key: lcdhat_key_t::LCDHAT_KEY_UP, pressed: 0 };
    assert_eq!(
        decode_key_event(1, released).unwrap(),
        Some(KeyEvent { key: Key::Up, pressed: false })
    );
    let unknown = lcdhat_key_event_t { key: lcdhat_key_t::LCDHAT_KEY_COUNT, pressed: 1 };
    assert!(matches!(decode_key_event(1, unknown), Err(Error::UnknownKey(8))));
}

#[test]
fn fonts_map_to_driver_fonts() {
    assert_eq!(Font::Font8.to_ffi(), karsus_ui::lcdhat_font_t::LCDHAT_FONT_8);
    assert_eq!(Font::Font24.to_ffi(), karsus_ui::lcdhat_font_t::LCDHAT_FONT_24);
}

#[test]
fn backend_error_messages() {
    assert_eq!(Error::InvalidConfig("x").message(), "invalid config: x");
    assert_eq!(Error::InvalidString.message(), "string contains NUL byte");
    assert_eq!(Error::AlreadyInitialized.message(), "only one active lcdhat context is supported");
    assert_eq!(
        Error::UnsupportedPlatform.message(),
        "unsupported platform: this crate requires Linux for hardware calls"
    );
    assert_eq!(Error::UnknownKey(8).message(), "unknown key code: 8");
    assert_eq!(Error::UnknownKey(4294967295).message(), "unknown key code: 4294967295");
    assert_eq!(
        Error::Status { status: lcdhat_status_t::LCDHAT_ERR_ALLOC, message: "no memory".to_string() }.message(),
        "lcdhat status LCDHAT_ERR_ALLOC: no memory"
    );
}

#[test]
fn registry_is_free_again_after_release() {
    let mut registry = InstanceRegistry::new();
    assert!(!registry.is_active());
    let guard = InstanceGuard::acquire(&mut registry).unwrap();
    assert!(registry.is_active());
    guard.release(&mut registry);
    assert!(!registry.is_active());
}
