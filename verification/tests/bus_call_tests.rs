use waydim::brightness_modifier::{
    set_backlight_brightness, set_hardware_brightness, software_brightness_call, BusKind, HW_MAX,
    HW_MIN,
};

#[test]
fn hardware_brightness_goes_to_logind() {
    let call = set_hardware_brightness(500);
    assert_eq!(call.target.bus, BusKind::System);
    assert_eq!(call.target.destination, "org.freedesktop.login1");
    assert_eq!(call.target.path, "/org/freedesktop/login1/session/auto");
    assert_eq!(call.target.interface, "org.freedesktop.login1.Session");
    assert_eq!(call.target.timeout_ms, 5000);
    assert_eq!(call.target.connect_context, "connecting to DBus system bus");
    assert_eq!(call.method, "SetBrightness");
    assert_eq!(call.subsystem, "backlight");
    assert_eq!(call.device, "intel_backlight");
    assert_eq!(call.brightness, 500);
    assert_eq!(call.call_context, "failed to call SetBrightness on org.freedesktop.login1");
}

#[test]
fn backlight_level_is_passed_unchanged() {
    for level in [0u32, 1, 400, 500, 10000, u32::MAX] {
        assert_eq!(set_backlight_brightness(level).brightness, level);
    }
}

#[test]
fn hardware_level_is_clamped_to_safe_range() {
    assert_eq!(HW_MIN, 100);
    assert_eq!(HW_MAX, 1000);
    let cases = [
        (0u32, 100u32),
        (1, 100),
        (99, 100),
        (100, 100),
        (101, 101),
        (500, 500),
        (999, 999),
        (1000, 1000),
        (1001, 1000),
        (10000, 1000),
        (u32::MAX, 1000),
    ];
    for (requested, sent) in cases {
        let call = set_hardware_brightness(requested);
        assert_eq!(call.brightness, sent);
        assert_eq!(call.method, "SetBrightness");
        assert_eq!(call.device, "intel_backlight");
    }
}

#[test]
fn software_brightness_goes_to_gamma_relay() {
    let call = software_brightness_call();
    assert_eq!(call.target.bus, BusKind::Session);
    assert_eq!(call.target.destination, "rs.wl-gammarelay");
    assert_eq!(call.target.path, "/");
    assert_eq!(call.target.interface, "rs.wl.gammarelay");
    assert_eq!(call.target.timeout_ms, 5000);
    assert_eq!(call.target.connect_context, "connecting to DBus session bus");
    assert_eq!(call.property, "Brightness");
    assert_eq!(call.min_factor_percent, 30);
    assert_eq!(call.max_factor_percent, 100);
    assert_eq!(call.call_context, "setting Brightness property on rs.wl-gammarelay");
    let low = call.min_factor_percent as f32 / 100.0;
    assert_eq!(low, 0.3f32);
}
