use wrover_cam::ov3660::{
    clamp_quality, driver_settings, start_ov3660, DriverSettings, FrameSize, OV3660ClockSpeed,
    OV3660Config, OV3660Format, OV3660Resolution, PinMap, PixelFormat, JPEG_QUALITY_MAX,
    JPEG_QUALITY_MIN,
};

fn jpeg(quality: u8) -> OV3660Config {
    OV3660Config::new(
        OV3660Format::JPEG { quality },
        OV3660Resolution::MedRes,
        false,
        OV3660ClockSpeed::High,
    )
}

#[test]
fn quality_is_clamped_on_the_way_to_the_driver() {
    let inputs: [u8; 7] = [0, 3, 4, 40, 63, 70, 255];
    let expected: [i32; 7] = [4, 4, 4, 40, 63, 63, 63];
    for k in 0..inputs.len() {
        let settings = start_ov3660(jpeg(inputs[k]));
        assert_eq!(settings.jpeg_quality, expected[k]);
        assert_eq!(i32::from(clamp_quality(inputs[k])), expected[k]);
    }
}

#[test]
fn every_quality_lands_in_range() {
    for quality in 0..=255u8 {
        let clamped = clamp_quality(quality);
        assert!(JPEG_QUALITY_MIN <= clamped && clamped <= JPEG_QUALITY_MAX);
        if (JPEG_QUALITY_MIN..=JPEG_QUALITY_MAX).contains(&quality) {
            assert_eq!(clamped, quality);
        }
    }
    assert_eq!(JPEG_QUALITY_MIN, 4);
    assert_eq!(JPEG_QUALITY_MAX, 63);
}

#[test]
fn quality_means_nothing_without_jpeg() {
    let rgb = OV3660Config::new(
        OV3660Format::RGB888,
        OV3660Resolution::LowRes,
        false,
        OV3660ClockSpeed::Low,
    );
    let gray = OV3660Config::new(
        OV3660Format::Grayscale,
        OV3660Resolution::LowRes,
        false,
        OV3660ClockSpeed::Low,
    );
    assert_eq!(start_ov3660(rgb).jpeg_quality, 0);
    assert_eq!(start_ov3660(rgb).pixel_format, PixelFormat::Rgb888);
    assert_eq!(start_ov3660(gray).jpeg_quality, 0);
    assert_eq!(start_ov3660(gray).pixel_format, PixelFormat::Grayscale);
    assert_eq!(start_ov3660(jpeg(12)).pixel_format, PixelFormat::Jpeg);
}

#[test]
fn new_keeps_its_arguments() {
    let config = OV3660Config::new(
        OV3660Format::JPEG { quality: 33 },
        OV3660Resolution::HighRes,
        true,
        OV3660ClockSpeed::Low,
    );
    assert_eq!(config.format, OV3660Format::JPEG { quality: 33 });
    assert_eq!(config.camera_resolution, OV3660Resolution::HighRes);
    assert!(config.double_buffered);
    assert_eq!(config.clock_speed, OV3660ClockSpeed::Low);
}

#[test]
fn presets_are_what_they_say() {
    assert_eq!(
        OV3660Config::fast_streaming(),
        OV3660Config::new(
            OV3660Format::JPEG { quality: 12 },
            OV3660Resolution::LowRes,
            true,
            OV3660ClockSpeed::High
        )
    );
    assert_eq!(
        OV3660Config::high_quality(),
        OV3660Config::new(
            OV3660Format::JPEG { quality: 10 },
            OV3660Resolution::HighRes,
            false,
            OV3660ClockSpeed::Low
        )
    );
    assert_eq!(
        OV3660Config::balanced(),
        OV3660Config::new(
            OV3660Format::JPEG { quality: 12 },
            OV3660Resolution::MedRes,
            true,
            OV3660ClockSpeed::High
        )
    );
}

#[test]
fn high_quality_preset_in_driver_terms() {
    let settings = start_ov3660(OV3660Config::high_quality());
    let expected = DriverSettings {
        pins: PinMap::wrover(),
        xclk_freq_hz: 10_000_000,
        pixel_format: PixelFormat::Jpeg,
        frame_size: FrameSize::Qxga,
        jpeg_quality: 10,
        fb_count: 1,
        fb_location: 0,
        grab_mode: 0,
        ledc_timer: 0,
        ledc_channel: 0,
    };
    assert_eq!(settings, expected);
}

#[test]
fn fast_streaming_preset_in_driver_terms() {
    let settings = start_ov3660(OV3660Config::fast_streaming());
    assert_eq!(settings.xclk_freq_hz, 20_000_000);
    assert_eq!(settings.frame_size, FrameSize::Qvga);
    assert_eq!(settings.jpeg_quality, 12);
    assert_eq!(settings.fb_count, 2);
    assert_eq!(start_ov3660(OV3660Config::balanced()).frame_size, FrameSize::Svga);
}

#[test]
fn wrover_wiring() {
    let pins = PinMap::wrover();
    assert_eq!(pins.pwdn, -1);
    assert_eq!(pins.reset, -1);
    assert_eq!(pins.xclk, 21);
    assert_eq!(pins.sda, 26);
    assert_eq!(pins.scl, 27);
    assert_eq!(
        [pins.d7, pins.d6, pins.d5, pins.d4, pins.d3, pins.d2, pins.d1, pins.d0],
        [35, 34, 39, 36, 19, 18, 5, 4]
    );
    assert_eq!(pins.vsync, 25);
    assert_eq!(pins.href, 23);
    assert_eq!(pins.pclk, 22);
}

#[test]
fn settings_carry_the_wiring_given() {
    let mut pins = PinMap::wrover();
    pins.sda = 13;
    pins.scl = 14;
    let settings = driver_settings(OV3660Config::balanced(), pins);
    assert_eq!(settings.pins, pins);
    assert_eq!(settings.pins.sda, 13);
    assert_eq!(settings.pins.scl, 14);
}

#[test]
fn resolutions_are_ordered_by_pixel_count() {
    assert_eq!(OV3660Resolution::LowRes.pixel_count(), 76_800);
    assert_eq!(OV3660Resolution::MedRes.pixel_count(), 480_000);
    assert_eq!(OV3660Resolution::HighRes.pixel_count(), 3_145_728);
    assert!(OV3660Resolution::LowRes.pixel_count() < OV3660Resolution::MedRes.pixel_count());
    assert!(OV3660Resolution::MedRes.pixel_count() < OV3660Resolution::HighRes.pixel_count());
}
