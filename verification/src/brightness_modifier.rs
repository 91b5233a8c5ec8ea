//! The bus calls that change the display's brightness.
//!
//! The hardware backlight is set through systemd-logind on the system bus;
//! the software gamma is set through the `wl-gammarelay-rs` service on the
//! session bus. This module says what each call is made of; the program
//! around the library opens the connection and sends it.

use vstd::prelude::*;

use crate::text::concat;

verus! {

/// Which message bus a call goes to.
#[derive(Debug, Clone, Copy, PartialEq, Eq, Structural)]
pub enum BusKind {
    /// The per-user session bus.
    Session,
    /// The machine-wide system bus.
    System,
}

/// The object a call addresses, and how long to wait for its reply.
#[derive(Debug)]
pub struct BusTarget {
    pub bus: BusKind,
    /// The well-known name of the service.
    pub destination: String,
    /// The object path within the service.
    pub path: String,
    /// The interface of the method or property.
    pub interface: String,
    /// How long to wait for the reply, in milliseconds.
    pub timeout_ms: u64,
    /// What to say when the connection to the bus cannot be opened.
    pub connect_context: String,
}

/// A `SetBrightness(subsystem, device, level)` call on the logind session.
#[derive(Debug)]
pub struct BacklightCall {
    pub target: BusTarget,
    pub method: String,
    pub subsystem: String,
    pub device: String,
    /// The raw backlight level to set.
    pub brightness: u32,
    /// What to say when the call fails.
    pub call_context: String,
}

/// The setting of the gamma relay's brightness property. The factor to set
/// is a floating-point value that the caller supplies.
#[derive(Debug)]
pub struct GammaCall {
    pub target: BusTarget,
    pub property: String,
    /// The lowest factor the relay is given, in hundredths; lower requests
    /// are raised to it so that the screen never goes fully black.
    pub min_factor_percent: u32,
    /// The highest factor the relay is given, in hundredths.
    pub max_factor_percent: u32,
    /// What to say when the call fails.
    pub call_context: String,
}

/// The logind session object on the system bus, with a five second timeout.
pub open spec fn is_logind_session(t: BusTarget) -> bool {
    &&& t.bus == BusKind::System
    &&& t.destination@ == "org.freedesktop.login1"@
    &&& t.path@ == "/org/freedesktop/login1/session/auto"@
    &&& t.interface@ == "org.freedesktop.login1.Session"@
    &&& t.timeout_ms == 5000
    &&& t.connect_context@ == "connecting to DBus system bus"@
}

/// The call that sets the `intel_backlight` device of the `backlight`
/// subsystem to `brightness`.
pub open spec fn is_backlight_call(c: BacklightCall, brightness: u32) -> bool {
    &&& is_logind_session(c.target)
    &&& c.method@ == "SetBrightness"@
    &&& c.subsystem@ == "backlight"@
    &&& c.device@ == "intel_backlight"@
    &&& c.brightness == brightness
    &&& c.call_context@ == "failed to call SetBrightness on "@ + c.target.destination@
}

/// The gamma relay's root object on the session bus, with a five second
/// timeout.
pub open spec fn is_gamma_relay(t: BusTarget) -> bool {
    &&& t.bus == BusKind::Session
    &&& t.destination@ == "rs.wl-gammarelay"@
    &&& t.path@ == "/"@
    &&& t.interface@ == "rs.wl.gammarelay"@
    &&& t.timeout_ms == 5000
    &&& t.connect_context@ == "connecting to DBus session bus"@
}

/// The setting of the relay's `Brightness` property, within 0.3 and 1.0.
pub open spec fn is_gamma_call(c: GammaCall) -> bool {
    &&& is_gamma_relay(c.target)
    &&& c.property@ == "Brightness"@
    &&& c.min_factor_percent == 30
    &&& c.max_factor_percent == 100
    &&& c.call_context@ == "setting Brightness property on "@ + c.target.destination@
}

fn logind_session() -> (t: BusTarget)
    ensures
        is_logind_session(t),
{
    BusTarget {
        bus: BusKind::System,
        destination: "org.freedesktop.login1".to_owned(),
        path: "/org/freedesktop/login1/session/auto".to_owned(),
        interface: "org.freedesktop.login1.Session".to_owned(),
        timeout_ms: 5000,
        connect_context: "connecting to DBus system bus".to_owned(),
    }
}

fn gamma_relay() -> (t: BusTarget)
    ensures
        is_gamma_relay(t),
{
    BusTarget {
        bus: BusKind::Session,
        destination: "rs.wl-gammarelay".to_owned(),
        path: "/".to_owned(),
        interface: "rs.wl.gammarelay".to_owned(),
        timeout_ms: 5000,
        connect_context: "connecting to DBus session bus".to_owned(),
    }
}

/// The call that sets the backlight to the raw level `brightness`, which is
/// passed on unchanged.
pub fn set_backlight_brightness(brightness: u32) -> (call: BacklightCall)
    ensures
        is_backlight_call(call, brightness),
        call.brightness == brightness,
        call.method@ == "SetBrightness"@,
        call.subsystem@ == "backlight"@,
        call.device@ == "intel_backlight"@,
        call.target.bus == BusKind::System,
        call.target.destination@ == "org.freedesktop.login1"@,
        call.target.path@ == "/org/freedesktop/login1/session/auto"@,
        call.target.interface@ == "org.freedesktop.login1.Session"@,
        call.target.timeout_ms == 5000,
        call.call_context@ == "failed to call SetBrightness on org.freedesktop.login1"@,
{
    let target = logind_session();
    let call_context = concat("failed to call SetBrightness on ", target.destination.as_str());
    proof {
        reveal_strlit("failed to call SetBrightness on ");
        reveal_strlit("org.freedesktop.login1");
        reveal_strlit("failed to call SetBrightness on org.freedesktop.login1");
        assert(call_context@ =~= "failed to call SetBrightness on org.freedesktop.login1"@);
    }
    BacklightCall {
        target,
        method: "SetBrightness".to_owned(),
        subsystem: "backlight".to_owned(),
        device: "intel_backlight".to_owned(),
        brightness,
        call_context,
    }
}

/// The lowest raw level the hardware backlight is ever set to.
pub const HW_MIN: u32 = 100;

/// The highest raw level the hardware backlight is ever set to.
pub const HW_MAX: u32 = 1000;

/// `brightness` brought into the safe raw range of the hardware backlight.
pub open spec fn safe_hardware_level(brightness: u32) -> u32 {
    if brightness < HW_MIN {
        HW_MIN
    } else if brightness > HW_MAX {
        HW_MAX
    } else {
        brightness
    }
}

/// The call that sets the hardware brightness: the backlight, set to the
/// raw level `brightness` clamped to the safe range `HW_MIN..=HW_MAX`.
pub fn set_hardware_brightness(brightness: u32) -> (call: BacklightCall)
    ensures
        is_backlight_call(call, safe_hardware_level(brightness)),
        HW_MIN <= call.brightness <= HW_MAX,
        HW_MIN <= brightness <= HW_MAX ==> call.brightness == brightness,
        brightness < HW_MIN ==> call.brightness == HW_MIN,
        brightness > HW_MAX ==> call.brightness == HW_MAX,
        call.method@ == "SetBrightness"@,
        call.subsystem@ == "backlight"@,
        call.device@ == "intel_backlight"@,
        call.target.bus == BusKind::System,
        call.target.destination@ == "org.freedesktop.login1"@,
        call.target.path@ == "/org/freedesktop/login1/session/auto"@,
        call.target.interface@ == "org.freedesktop.login1.Session"@,
        call.target.timeout_ms == 5000,
        call.call_context@ == "failed to call SetBrightness on org.freedesktop.login1"@,
{
    let level = if brightness < HW_MIN {
        HW_MIN
    } else if brightness > HW_MAX {
        HW_MAX
    } else {
        brightness
    };
    set_backlight_brightness(level)
}

/// The call that sets the backlight to a level is fully determined by that
/// level: whatever meets the description of the backlight call for a level
/// agrees, field by field, with any other call that meets it. So setting the
/// hardware brightness to a level is setting the backlight to that level
/// brought into the safe range.
pub proof fn backlight_call_is_determined(a: BacklightCall, b: BacklightCall, brightness: u32)
    requires
        is_backlight_call(a, brightness),
        is_backlight_call(b, brightness),
    ensures
        a.target.bus == b.target.bus,
        a.target.destination@ == b.target.destination@,
        a.target.path@ == b.target.path@,
        a.target.interface@ == b.target.interface@,
        a.target.timeout_ms == b.target.timeout_ms,
        a.target.connect_context@ == b.target.connect_context@,
        a.method@ == b.method@,
        a.subsystem@ == b.subsystem@,
        a.device@ == b.device@,
        a.brightness == b.brightness,
        a.call_context@ == b.call_context@,
{
}

/// The backlight is set to exactly the level asked for, whatever that level
/// is.
pub proof fn backlight_level_is_passed_on(brightness: u32, call: BacklightCall)
    requires
        call_ensures(set_backlight_brightness, (brightness,), call),
    ensures
        call.brightness == brightness,
{
}

/// The hardware level sent is the level asked for when that level lies in
/// the safe range, the range's bound nearest to it otherwise; so it always
/// lies in the safe range, and a level in the range is sent just as the
/// backlight call would send it.
pub proof fn hardware_level_is_request_clamped(brightness: u32, call: BacklightCall)
    requires
        call_ensures(set_hardware_brightness, (brightness,), call),
    ensures
        100 <= call.brightness <= 1000,
        100 <= brightness <= 1000 ==> call.brightness == brightness,
        brightness < 100 ==> call.brightness == 100,
        brightness > 1000 ==> call.brightness == 1000,
        forall|other: BacklightCall|
            100 <= brightness <= 1000 && call_ensures(set_backlight_brightness, (brightness,), other)
                ==> other.brightness == call.brightness,
{
}

/// Asking for a higher level never sends a lower one: the hardware level
/// sent grows with the level asked for, and two requests that differ inside
/// the safe range send different levels.
pub proof fn hardware_level_is_monotone(
    low: u32,
    low_call: BacklightCall,
    high: u32,
    high_call: BacklightCall,
)
    requires
        low <= high,
        call_ensures(set_hardware_brightness, (low,), low_call),
        call_ensures(set_hardware_brightness, (high,), high_call),
    ensures
        low_call.brightness <= high_call.brightness,
        100 <= low && low < high && high <= 1000 ==> low_call.brightness < high_call.brightness,
{
}

/// The setting of the software brightness through the gamma relay.
pub fn software_brightness_call() -> (call: GammaCall)
    ensures
        is_gamma_call(call),
        call.target.bus == BusKind::Session,
        call.target.destination@ == "rs.wl-gammarelay"@,
        call.target.path@ == "/"@,
        call.target.interface@ == "rs.wl.gammarelay"@,
        call.target.timeout_ms == 5000,
        call.property@ == "Brightness"@,
        call.min_factor_percent == 30,
        call.max_factor_percent == 100,
        call.call_context@ == "setting Brightness property on rs.wl-gammarelay"@,
{
    let target = gamma_relay();
    let call_context = concat("setting Brightness property on ", target.destination.as_str());
    proof {
        reveal_strlit("setting Brightness property on ");
        reveal_strlit("rs.wl-gammarelay");
        reveal_strlit("setting Brightness property on rs.wl-gammarelay");
        assert(call_context@ =~= "setting Brightness property on rs.wl-gammarelay"@);
    }
    GammaCall {
        target,
        property: "Brightness".to_owned(),
        min_factor_percent: 30,
        max_factor_percent: 100,
        call_context,
    }
}

} // verus!
