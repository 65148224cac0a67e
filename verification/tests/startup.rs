use wrover_cam::ov3660::{
    driver_settings, start_ov3660, ConfigError, OV3660Config, PinMap, DRIVER_OK,
};
use wrover_cam::session::SessionState;
use wrover_cam::startup::{IpAddress, LinkError, Startup, StartupError, StartupStage};

const ADDRESS: IpAddress = IpAddress { octets: [192, 168, 1, 23] };

fn switched_on() -> Startup {
    Startup::new(OV3660Config::high_quality())
}

fn online() -> Startup {
    switched_on().link_result(Ok(ADDRESS)).0
}

#[test]
fn device_starts_offline_and_serves_nobody() {
    let startup = switched_on();
    assert_eq!(startup.stage(), StartupStage::Offline);
    assert!(startup.accept("frame").is_none());
}

#[test]
fn link_that_fails_ends_startup_and_no_session_is_made() {
    let refused = LinkError { code: 0x3007 };
    let (startup, settings) = switched_on().link_result(Err(refused));
    assert_eq!(settings, None);
    assert_eq!(startup.stage(), StartupStage::Halted(StartupError::Link(refused)));
    assert!(startup.accept("frame").is_none());
    let (startup, source) = startup.sensor_result(0);
    assert!(source.is_none());
    assert_eq!(startup.stage(), StartupStage::Halted(StartupError::Link(refused)));
    assert!(startup.accept("frame").is_none());
    let (startup, settings) = startup.link_result(Ok(ADDRESS));
    assert_eq!(settings, None);
    assert_eq!(startup.stage(), StartupStage::Halted(StartupError::Link(refused)));
    assert!(startup.accept("frame").is_none());
}

#[test]
fn link_then_sensor_then_clients() {
    let (startup, settings) = switched_on().link_result(Ok(ADDRESS));
    assert_eq!(settings, Some(start_ov3660(OV3660Config::high_quality())));
    assert_eq!(startup.stage(), StartupStage::Online(ADDRESS));
    assert!(startup.accept("frame").is_none());
    let (startup, source) = startup.sensor_result(0);
    let source = source.expect("the sensor runs");
    assert_eq!(source.acquired(), 0);
    assert_eq!(source.in_flight(), None);
    assert_eq!(startup.stage(), StartupStage::Serving(ADDRESS));
    let session = startup.accept("frame").expect("clients are served");
    assert_eq!(session.state(), SessionState::Connected);
    assert!(startup.accept("frame").is_some());
}

#[test]
fn sensor_is_initialised_with_the_profile_given() {
    for profile in
        [OV3660Config::fast_streaming(), OV3660Config::balanced(), OV3660Config::high_quality()]
    {
        let (_, settings) = Startup::new(profile).link_result(Ok(ADDRESS));
        assert_eq!(settings, Some(start_ov3660(profile)));
    }
}

#[test]
fn sensor_is_initialised_with_the_wiring_given() {
    let mut pins = PinMap::wrover();
    pins.xclk = 0;
    let (_, settings) =
        Startup::with_pins(OV3660Config::balanced(), pins).link_result(Ok(ADDRESS));
    assert_eq!(settings, Some(driver_settings(OV3660Config::balanced(), pins)));
    assert_eq!(settings.map(|s| s.pins.xclk), Some(0));
}

#[test]
fn link_is_joined_once() {
    let (startup, again) = online().link_result(Ok(IpAddress { octets: [10, 0, 0, 1] }));
    assert_eq!(again, None);
    assert_eq!(startup.stage(), StartupStage::Online(ADDRESS));
    let (startup, late) = startup.link_result(Err(LinkError { code: 1 }));
    assert_eq!(late, None);
    assert_eq!(startup.stage(), StartupStage::Online(ADDRESS));
}

#[test]
fn sensor_that_fails_ends_startup() {
    let (startup, source) = online().sensor_result(0x105);
    assert!(source.is_none());
    assert_eq!(
        startup.stage(),
        StartupStage::Halted(StartupError::Config(ConfigError::DriverInitFailed(0x105)))
    );
    assert!(startup.accept("frame").is_none());
}

#[test]
fn sensor_is_started_once() {
    let (startup, first) = online().sensor_result(0);
    assert!(first.is_some());
    let (startup, again) = startup.sensor_result(0);
    assert!(again.is_none());
    assert_eq!(startup.stage(), StartupStage::Serving(ADDRESS));
    let (startup, failed) = startup.sensor_result(7);
    assert!(failed.is_none());
    assert_eq!(startup.stage(), StartupStage::Serving(ADDRESS));
}

#[test]
fn sensor_before_link_is_ignored() {
    let (startup, source) = switched_on().sensor_result(0);
    assert!(source.is_none());
    assert_eq!(startup.stage(), StartupStage::Offline);
}

#[test]
fn driver_success_yields_a_fresh_source() {
    assert_eq!(DRIVER_OK, 0);
    let (_, source) = online().sensor_result(DRIVER_OK);
    let source = source.expect("status 0 is success");
    assert_eq!(source.acquired(), 0);
    assert_eq!(source.released(), 0);
    assert_eq!(source.in_flight(), None);
}

#[test]
fn driver_failure_is_reported_with_its_status() {
    for status in [1, -1, 0x105, 0x20001, i32::MIN, i32::MAX] {
        let (startup, source) = online().sensor_result(status);
        assert!(source.is_none(), "status {} is no success", status);
        assert_eq!(
            startup.stage(),
            StartupStage::Halted(StartupError::Config(ConfigError::DriverInitFailed(status)))
        );
    }
}
