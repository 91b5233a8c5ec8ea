use waydim::common::{
    backlight_class_dir, brightness_file_name, find_backlight, max_brightness_file_name,
    select_backlight, BacklightCandidate, BacklightError, WayDimAPIError,
};

fn candidate(path: &str, has_brightness: bool, has_max_brightness: bool) -> BacklightCandidate {
    BacklightCandidate { path: path.to_string(), has_brightness, has_max_brightness }
}

#[test]
fn internal_error_message_is_prefixed() {
    let e = WayDimAPIError::Internal("bus unreachable".to_string());
    assert_eq!(e.message(), "Internal daemon error: bus unreachable");
}

#[test]
fn internal_error_message_with_empty_detail() {
    let e = WayDimAPIError::Internal(String::new());
    assert_eq!(e.message(), "Internal daemon error: ");
}

#[test]
fn backlight_error_messages() {
    assert_eq!(BacklightError::NoDevice.message(), "no backlight device found under /sys/class/backlight");
    assert_eq!(
        BacklightError::ReadDir("permission denied".to_string()).message(),
        "reading /sys/class/backlight"
    );
}

#[test]
fn backlight_names() {
    assert_eq!(backlight_class_dir(), "/sys/class/backlight");
    assert_eq!(brightness_file_name(), "brightness");
    assert_eq!(max_brightness_file_name(), "max_brightness");
}

#[test]
fn select_takes_first_usable_device() {
    let listing = vec![
        candidate("/sys/class/backlight/acpi_video0", true, false),
        candidate("/sys/class/backlight/intel_backlight", true, true),
        candidate("/sys/class/backlight/other", true, true),
    ];
    match select_backlight(Ok(listing)) {
        Ok(path) => assert_eq!(path, "/sys/class/backlight/intel_backlight"),
        Err(e) => panic!("unexpected error {:?}", e),
    }
}

#[test]
fn select_reports_no_device() {
    let listing = vec![candidate("a", false, true), candidate("b", true, false)];
    assert!(matches!(select_backlight(Ok(listing)), Err(BacklightError::NoDevice)));
    assert!(matches!(select_backlight(Ok(Vec::new())), Err(BacklightError::NoDevice)));
}

#[test]
fn select_reports_listing_failure() {
    match select_backlight(Err("permission denied".to_string())) {
        Err(BacklightError::ReadDir(cause)) => assert_eq!(cause, "permission denied"),
        other => panic!("unexpected result {:?}", other),
    }
}

#[test]
fn explicit_backlight_is_used_without_listing() {
    let r = find_backlight(Some("/sys/class/backlight/chosen".to_string()), || -> Result<Vec<BacklightCandidate>, String> {
        panic!("the directory must not be listed")
    });
    match r {
        Ok(path) => assert_eq!(path, "/sys/class/backlight/chosen"),
        Err(e) => panic!("unexpected error {:?}", e),
    }
}

#[test]
fn backlight_is_found_by_listing() {
    let r = find_backlight(None, || Ok(vec![candidate("x", false, false), candidate("y", true, true)]));
    match r {
        Ok(path) => assert_eq!(path, "y"),
        Err(e) => panic!("unexpected error {:?}", e),
    }
    let r = find_backlight(None, || Ok(vec![candidate("x", false, false)]));
    assert!(matches!(r, Err(BacklightError::NoDevice)));
}
