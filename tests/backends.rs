use tdp_control::amd;
use tdp_control::asus::{PlatformDevice, ASUS};
use tdp_control::devices::{Selector, TDPDevices, Vendor};
use tdp_control::intel;
use tdp_control::tdp::{
    Access, Capabilities, Capability, Limit, Outcome, Reply, TDPDevice, TDPError,
};

fn sentinels(spl: &str, sppt: &str) -> PlatformDevice {
    PlatformDevice {
        ppt_pl1_spl: Some(spl.to_string()),
        ppt_pl2_sppt: Some(sppt.to_string()),
    }
}

fn asus() -> ASUS {
    ASUS::new(&vec![sentinels("15000", "20000")]).expect("sentinels present")
}

fn amd_caps() -> Capabilities {
    Capabilities {
        tdp: Some(Limit { min: 3, max: 54 }),
        boost: Some(Limit { min: 0, max: 10 }),
        throttle_limit: Some(Limit { min: 60, max: 100 }),
        profiles: vec!["power-saving".to_string(), "max-performance".to_string()],
    }
}

fn bare_caps() -> Capabilities {
    Capabilities { tdp: None, boost: None, throttle_limit: None, profiles: vec![] }
}

fn is_invalid(r: &Result<Access, TDPError>) -> bool {
    matches!(r, Err(TDPError::InvalidArgument(_)))
}

fn is_unsupported<T>(r: &Result<T, TDPError>) -> bool {
    matches!(r, Err(TDPError::FeatureUnsupported))
}

#[test]
fn no_vendor_present_selects_no_device() {
    let mut s = Selector::new();
    let mut probed = Vec::new();
    while let Some(v) = s.next_probe() {
        probed.push(v);
        s.record(None);
    }
    assert_eq!(probed, vec![Vendor::Asus, Vendor::Amd, Vendor::Intel]);
    assert!(s.selected().is_none());
}

#[test]
fn asus_without_daemon_constructs_and_tdp_fails() {
    let mut dev = ASUS::new(&vec![sentinels("15000", "20000")]).expect("constructed");
    assert_eq!(dev.ppt_pl1_spl(), "15000");
    assert_eq!(dev.ppt_pl2_sppt(), "20000");
    let access = dev.tdp().ok().expect("tdp is supported");
    assert_eq!(access, Access::Read(Capability::Tdp));
    let r = dev.complete(access, Outcome::Unreachable("asusd unreachable".to_string()));
    match r {
        Err(TDPError::FailedOperation(d)) => assert_eq!(d, "asusd unreachable"),
        _ => panic!("expected FailedOperation"),
    }
}

#[test]
fn asus_detection_takes_first_complete_device() {
    let devices = vec![
        PlatformDevice { ppt_pl1_spl: Some("10".to_string()), ppt_pl2_sppt: None },
        sentinels("25", "35"),
        sentinels("45", "55"),
    ];
    let dev = ASUS::new(&devices).expect("second device qualifies");
    assert_eq!(dev.ppt_pl1_spl(), "25");
    assert_eq!(dev.ppt_pl2_sppt(), "35");
}

#[test]
fn asus_detection_without_sentinels_is_none() {
    assert!(ASUS::new(&vec![]).is_none());
    let devices = vec![PlatformDevice { ppt_pl1_spl: None, ppt_pl2_sppt: Some("20".to_string()) }];
    assert!(ASUS::new(&devices).is_none());
}

#[test]
fn selection_stops_at_first_backend_found() {
    let mut s = Selector::new();
    assert_eq!(s.next_probe(), Some(Vendor::Asus));
    s.record(None);
    assert_eq!(s.next_probe(), Some(Vendor::Amd));
    s.record(Some(TDPDevices::AMD(amd::TDP::new(amd_caps()))));
    assert_eq!(s.next_probe(), None);
    let d = s.selected().expect("AMD selected");
    assert!(d.amd().is_some());
    assert!(d.asus().is_none());
    assert!(d.intel().is_none());
}

#[test]
fn out_of_range_tdp_is_rejected_without_write() {
    let mut dev = asus();
    assert!(is_invalid(&dev.set_tdp(4)));
    assert!(is_invalid(&dev.set_tdp(131)));
    assert!(is_invalid(&dev.set_boost(251)));
    // nothing is in flight: a valid write is accepted right after
    assert_eq!(dev.set_tdp(130), Ok(Access::Write(Capability::Tdp, 130)));
}

#[test]
fn in_range_writes_carry_the_value() {
    let mut dev = asus();
    assert_eq!(dev.set_tdp(5), Ok(Access::Write(Capability::Tdp, 5)));
    let r = dev.complete(Access::Write(Capability::Tdp, 5), Outcome::Written);
    assert!(matches!(r, Ok(Reply::Applied)));
    assert_eq!(dev.set_boost(250), Ok(Access::Write(Capability::Boost, 250)));
}

#[test]
fn asus_has_no_throttle_limit() {
    let mut dev = asus();
    assert!(is_unsupported(&dev.thermal_throttle_limit_c()));
    assert!(is_unsupported(&dev.set_thermal_throttle_limit_c(80)));
    assert!(is_unsupported(&dev.set_thermal_throttle_limit_c(100000)));
}

#[test]
fn backend_without_controls_reports_unsupported() {
    let mut dev = intel::TDP::new(bare_caps());
    assert!(is_unsupported(&dev.tdp()));
    assert!(is_unsupported(&dev.set_tdp(10)));
    assert!(is_unsupported(&dev.boost()));
    assert!(is_unsupported(&dev.set_boost(1)));
    assert!(is_unsupported(&dev.power_profile()));
    assert!(is_unsupported(&dev.set_power_profile("balanced".to_string())));
}

#[test]
fn second_write_while_one_in_flight_is_refused() {
    let mut dev = asus();
    let first = dev.set_tdp(20).ok().expect("accepted");
    let second = dev.set_tdp(30);
    assert!(matches!(second, Err(TDPError::FailedOperation(_))));
    assert!(matches!(dev.set_power_profile("quiet".to_string()), Err(TDPError::FailedOperation(_))));
    assert!(matches!(dev.complete(first, Outcome::Written), Ok(Reply::Applied)));
    assert_eq!(dev.set_tdp(30), Ok(Access::Write(Capability::Tdp, 30)));
}

#[test]
fn profiles_map_to_codes_and_back() {
    let mut dev = asus();
    assert!(is_invalid(&dev.set_power_profile("turbo".to_string())));
    assert_eq!(
        dev.set_power_profile("quiet".to_string()),
        Ok(Access::Write(Capability::PowerProfile, 2))
    );
    let read = dev.power_profile().ok().expect("profiles supported");
    match dev.complete(read, Outcome::Value(1)) {
        Ok(Reply::Profile(p)) => assert_eq!(p, "performance"),
        _ => panic!("expected a profile"),
    }
    assert!(matches!(dev.complete(read, Outcome::Value(3)), Err(TDPError::FailedOperation(_))));
}

#[test]
fn completion_maps_each_outcome() {
    let mut dev = amd::TDP::new(amd_caps());
    let read = Access::Read(Capability::Boost);
    assert!(matches!(dev.complete(read, Outcome::Value(7)), Ok(Reply::Value(7))));
    assert!(matches!(dev.complete(read, Outcome::Written), Err(TDPError::FailedOperation(_))));
    assert!(matches!(
        dev.complete(read, Outcome::Rejected("denied".to_string())),
        Err(TDPError::FailedOperation(_))
    ));
    match dev.complete(read, Outcome::Io("ppt_pl1_spl unreadable".to_string())) {
        Err(TDPError::IOError(d)) => assert_eq!(d, "ppt_pl1_spl unreadable"),
        _ => panic!("expected IOError"),
    }
    let write = Access::Write(Capability::Tdp, 10);
    assert!(matches!(dev.complete(write, Outcome::Value(10)), Err(TDPError::FailedOperation(_))));
}

#[test]
fn dispatch_forwards_to_held_backend() {
    let mut direct = amd::TDP::new(amd_caps());
    let mut dispatched = TDPDevices::AMD(amd::TDP::new(amd_caps()));
    assert_eq!(direct.tdp().ok(), dispatched.tdp().ok());
    assert_eq!(direct.set_tdp(100).is_err(), dispatched.set_tdp(100).is_err());
    assert_eq!(direct.set_tdp(40), dispatched.set_tdp(40));
    assert_eq!(direct.set_boost(5).is_err(), dispatched.set_boost(5).is_err());
    assert_eq!(
        direct.thermal_throttle_limit_c().ok(),
        dispatched.thermal_throttle_limit_c().ok()
    );
    let w = Access::Write(Capability::Tdp, 40);
    assert!(matches!(direct.complete(w, Outcome::Written), Ok(Reply::Applied)));
    assert!(matches!(dispatched.complete(w, Outcome::Written), Ok(Reply::Applied)));
    assert_eq!(
        direct.set_thermal_throttle_limit_c(90),
        dispatched.set_thermal_throttle_limit_c(90)
    );
    let inner = dispatched.amd().expect("holds AMD");
    assert_eq!(inner.caps().tdp, Some(Limit { min: 3, max: 54 }));
}

#[test]
fn asus_capabilities_are_documented_ranges() {
    let dev = asus();
    let caps = dev.caps();
    assert_eq!(caps.tdp, Some(Limit { min: 5, max: 130 }));
    assert_eq!(caps.boost, Some(Limit { min: 5, max: 250 }));
    assert_eq!(caps.throttle_limit, None);
    assert_eq!(caps.profiles, vec!["balanced", "performance", "quiet"]);
}

#[test]
fn error_messages() {
    assert_eq!(TDPError::FeatureUnsupported.into_message(), "feature unsupported");
    assert_eq!(
        TDPError::FailedOperation("asusd unreachable".to_string()).into_message(),
        "failed operation: asusd unreachable"
    );
    assert_eq!(TDPError::InvalidArgument("bad".to_string()).into_message(), "invalid argument: bad");
    assert_eq!(TDPError::IOError("io".to_string()).into_message(), "I/O error: io");
    assert_eq!(TDPError::FailedOperation(String::new()).into_message(), "failed operation: ");
    assert_ne!(
        TDPError::FailedOperation("feature unsupported".to_string()).into_message(),
        TDPError::FeatureUnsupported.into_message()
    );
}

#[test]
fn unrequested_write_completion_is_refused() {
    let mut dev = asus();
    let r = dev.complete(Access::Write(Capability::Tdp, 99), Outcome::Written);
    assert_eq!(
        r.err(),
        Some(TDPError::FailedOperation("write was not requested or has already completed".to_string()))
    );
    let w = dev.set_tdp(20).ok().expect("accepted");
    assert!(matches!(dev.complete(w, Outcome::Written), Ok(Reply::Applied)));
    assert!(matches!(dev.complete(w, Outcome::Written), Err(TDPError::FailedOperation(_))));
    assert_eq!(dev.ppt_pl1_spl(), "15000");
}

#[test]
fn dispatch_keeps_its_backend_across_writes() {
    let mut d = TDPDevices::ASUS(asus());
    let w = d.set_tdp(25).ok().expect("accepted");
    assert!(matches!(d.complete(w, Outcome::Written), Ok(Reply::Applied)));
    let held = d.asus().expect("still ASUS");
    assert_eq!(held.ppt_pl1_spl(), "15000");
    assert_eq!(held.ppt_pl2_sppt(), "20000");
}
