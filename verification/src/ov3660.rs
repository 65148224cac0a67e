//! The profile of the OV3660 sensor and what it means in the driver's
//! terms.

use vstd::prelude::*;

verus! {

/// Lowest JPEG quality index that the sensor driver is handed.
pub const JPEG_QUALITY_MIN: u8 = 4;

/// Highest JPEG quality index that the sensor driver is handed.
pub const JPEG_QUALITY_MAX: u8 = 63;

/// The status with which the driver reports success.
pub const DRIVER_OK: i32 = 0;

/// What the sensor delivers.
#[derive(Clone, Copy, Debug, PartialEq, Eq)]
pub enum OV3660Format {
    /// Compressed JPEG for streaming. The quality index runs from 0 to 63;
    /// lower is better.
    JPEG { quality: u8 },
    /// 24-bit true colour. Heavy on memory.
    RGB888,
    /// 8-bit grayscale.
    Grayscale,
}

/// The size of the frames.
#[derive(Clone, Copy, Debug, PartialEq, Eq)]
pub enum OV3660Resolution {
    /// QXGA, 2048 by 1536. Use with a single buffer.
    HighRes,
    /// SVGA, 800 by 600.
    MedRes,
    /// QVGA, 320 by 240.
    LowRes,
}

/// The clock that drives the sensor.
#[derive(Clone, Copy, Debug, PartialEq, Eq)]
pub enum OV3660ClockSpeed {
    /// 20 MHz.
    High,
    /// 10 MHz, for when the radio link is unstable.
    Low,
}

/// What is wanted of the sensor.
#[derive(Clone, Copy, Debug, PartialEq, Eq)]
pub struct OV3660Config {
    pub format: OV3660Format,
    pub camera_resolution: OV3660Resolution,
    pub double_buffered: bool,
    pub clock_speed: OV3660ClockSpeed,
}

/// The pixel formats of the driver that a profile can ask for.
#[derive(Clone, Copy, Debug, PartialEq, Eq)]
pub enum PixelFormat {
    Jpeg,
    Rgb888,
    Grayscale,
}

/// The frame sizes of the driver that a profile can ask for.
#[derive(Clone, Copy, Debug, PartialEq, Eq)]
pub enum FrameSize {
    Qvga,
    Svga,
    Qxga,
}

/// Which pin of the board each line of the sensor is wired to. A line that
/// is not wired is -1.
#[derive(Clone, Copy, Debug, PartialEq, Eq)]
pub struct PinMap {
    pub pwdn: i32,
    pub reset: i32,
    pub xclk: i32,
    pub sda: i32,
    pub scl: i32,
    pub d7: i32,
    pub d6: i32,
    pub d5: i32,
    pub d4: i32,
    pub d3: i32,
    pub d2: i32,
    pub d1: i32,
    pub d0: i32,
    pub vsync: i32,
    pub href: i32,
    pub pclk: i32,
}

/// Everything the driver is told when the sensor is started.
#[derive(Clone, Copy, Debug, PartialEq, Eq)]
pub struct DriverSettings {
    pub pins: PinMap,
    pub xclk_freq_hz: i32,
    pub pixel_format: PixelFormat,
    pub frame_size: FrameSize,
    pub jpeg_quality: i32,
    pub fb_count: usize,
    pub fb_location: u32,
    pub grab_mode: u32,
    pub ledc_timer: u32,
    pub ledc_channel: u32,
}

/// Why the sensor could not be started. Such a failure is final: nothing is
/// served afterwards.
#[derive(Clone, Copy, Debug, PartialEq, Eq)]
pub enum ConfigError {
    /// The driver turned the settings down with this status.
    DriverInitFailed(i32),
}

/// The wiring of the Freenove WROVER board, which is that of the WROVER kit.
pub open spec fn wrover_pins() -> PinMap {
    PinMap {
        pwdn: -1i32,
        reset: -1i32,
        xclk: 21,
        sda: 26,
        scl: 27,
        d7: 35,
        d6: 34,
        d5: 39,
        d4: 36,
        d3: 19,
        d2: 18,
        d1: 5,
        d0: 4,
        vsync: 25,
        href: 23,
        pclk: 22,
    }
}

/// The quality index brought into the range that the hardware tolerates.
pub open spec fn clamped_quality(quality: u8) -> u8 {
    if quality < JPEG_QUALITY_MIN {
        JPEG_QUALITY_MIN
    } else if quality > JPEG_QUALITY_MAX {
        JPEG_QUALITY_MAX
    } else {
        quality
    }
}

/// The settings that a profile stands for, on a board wired as `pins` says.
pub open spec fn settings_for(profile: OV3660Config, pins: PinMap) -> DriverSettings {
    DriverSettings {
        pins,
        xclk_freq_hz: match profile.clock_speed {
            OV3660ClockSpeed::High => 20_000_000,
            OV3660ClockSpeed::Low => 10_000_000,
        },
        pixel_format: match profile.format {
            OV3660Format::JPEG { .. } => PixelFormat::Jpeg,
            OV3660Format::RGB888 => PixelFormat::Rgb888,
            OV3660Format::Grayscale => PixelFormat::Grayscale,
        },
        frame_size: match profile.camera_resolution {
            OV3660Resolution::HighRes => FrameSize::Qxga,
            OV3660Resolution::MedRes => FrameSize::Svga,
            OV3660Resolution::LowRes => FrameSize::Qvga,
        },
        jpeg_quality: match profile.format {
            OV3660Format::JPEG { quality } => clamped_quality(quality) as i32,
            _ => 0,
        },
        fb_count: if profile.double_buffered {
            2
        } else {
            1
        },
        fb_location: 0,
        grab_mode: 0,
        ledc_timer: 0,
        ledc_channel: 0,
    }
}

impl OV3660Resolution {
    /// How many pixels a frame of this size has. The sizes are ordered by
    /// it: low, medium, high.
    pub fn pixel_count(self) -> (pixels: u32)
        ensures
            pixels == match self {
                OV3660Resolution::LowRes => 320 * 240,
                OV3660Resolution::MedRes => 800 * 600,
                OV3660Resolution::HighRes => 2048 * 1536,
            },
    {
        match self {
            OV3660Resolution::LowRes => 76_800,
            OV3660Resolution::MedRes => 480_000,
            OV3660Resolution::HighRes => 3_145_728,
        }
    }
}

impl PinMap {
    /// The wiring of the Freenove WROVER board.
    pub fn wrover() -> (pins: PinMap)
        ensures
            pins == wrover_pins(),
    {
        PinMap {
            pwdn: -1,
            reset: -1,
            xclk: 21,
            sda: 26,
            scl: 27,
            d7: 35,
            d6: 34,
            d5: 39,
            d4: 36,
            d3: 19,
            d2: 18,
            d1: 5,
            d0: 4,
            vsync: 25,
            href: 23,
            pclk: 22,
        }
    }
}

/// Clamps a requested JPEG quality index into `[4, 63]`. A request outside
/// the range is adjusted, never turned down.
pub fn clamp_quality(quality: u8) -> (clamped: u8)
    ensures
        clamped == clamped_quality(quality),
        JPEG_QUALITY_MIN <= clamped <= JPEG_QUALITY_MAX,
        JPEG_QUALITY_MIN <= quality <= JPEG_QUALITY_MAX ==> clamped == quality,
{
    if quality < JPEG_QUALITY_MIN {
        JPEG_QUALITY_MIN
    } else if quality > JPEG_QUALITY_MAX {
        JPEG_QUALITY_MAX
    } else {
        quality
    }
}

/// Turns a profile into what the driver is told, on a board wired as
/// `pins` says. Every choice of the profile maps to one setting; the JPEG
/// quality is clamped on the way and is 0 for the other formats.
pub fn driver_settings(user_config: OV3660Config, pins: PinMap) -> (settings: DriverSettings)
    ensures
        settings == settings_for(user_config, pins),
        user_config.format is JPEG ==> JPEG_QUALITY_MIN <= settings.jpeg_quality
            <= JPEG_QUALITY_MAX,
        1 <= settings.fb_count <= 2,
{
    let xclk_freq_hz: i32 = match user_config.clock_speed {
        OV3660ClockSpeed::High => 20_000_000,
        OV3660ClockSpeed::Low => 10_000_000,
    };
    let pixel_format = match user_config.format {
        OV3660Format::JPEG { .. } => PixelFormat::Jpeg,
        OV3660Format::RGB888 => PixelFormat::Rgb888,
        OV3660Format::Grayscale => PixelFormat::Grayscale,
    };
    let frame_size = match user_config.camera_resolution {
        OV3660Resolution::HighRes => FrameSize::Qxga,
        OV3660Resolution::MedRes => FrameSize::Svga,
        OV3660Resolution::LowRes => FrameSize::Qvga,
    };
    let jpeg_quality: i32 = match user_config.format {
        OV3660Format::JPEG { quality } => clamp_quality(quality) as i32,
        _ => 0,
    };
    let fb_count: usize = if user_config.double_buffered {
        2
    } else {
        1
    };
    DriverSettings {
        pins,
        xclk_freq_hz,
        pixel_format,
        frame_size,
        jpeg_quality,
        fb_count,
        fb_location: 0,
        grab_mode: 0,
        ledc_timer: 0,
        ledc_channel: 0,
    }
}

/// Starting the sensor on the WROVER board begins here, with the settings
/// that the driver is to be initialised with. The status with which the
/// driver answers goes to start-up, which alone brings the frame source
/// into being.
pub fn start_ov3660(user_config: OV3660Config) -> (settings: DriverSettings)
    ensures
        settings == settings_for(user_config, wrover_pins()),
{
    driver_settings(user_config, PinMap::wrover())
}

impl OV3660Config {
    /// A profile of the four choices given.
    pub fn new(
        format: OV3660Format,
        camera_resolution: OV3660Resolution,
        double_buffered: bool,
        clock_speed: OV3660ClockSpeed,
    ) -> (config: OV3660Config)
        ensures
            config == (OV3660Config { format, camera_resolution, double_buffered, clock_speed }),
    {
        OV3660Config { format, camera_resolution, double_buffered, clock_speed }
    }

    /// Small frames, two buffers, fast clock: for the highest frame rate.
    pub fn fast_streaming() -> (config: OV3660Config)
        ensures
            config == (OV3660Config {
                format: OV3660Format::JPEG { quality: 12 },
                camera_resolution: OV3660Resolution::LowRes,
                double_buffered: true,
                clock_speed: OV3660ClockSpeed::High,
            }),
    {
        OV3660Config::new(
            OV3660Format::JPEG { quality: 12 },
            OV3660Resolution::LowRes,
            true,
            OV3660ClockSpeed::High,
        )
    }

    /// Large frames, one buffer, slow clock: for clear still images.
    pub fn high_quality() -> (config: OV3660Config)
        ensures
            config == (OV3660Config {
                format: OV3660Format::JPEG { quality: 10 },
                camera_resolution: OV3660Resolution::HighRes,
                double_buffered: false,
                clock_speed: OV3660ClockSpeed::Low,
            }),
    {
        OV3660Config::new(
            OV3660Format::JPEG { quality: 10 },
            OV3660Resolution::HighRes,
            false,
            OV3660ClockSpeed::Low,
        )
    }

    /// Medium frames, two buffers, fast clock: for general use.
    pub fn balanced() -> (config: OV3660Config)
        ensures
            config == (OV3660Config {
                format: OV3660Format::JPEG { quality: 12 },
                camera_resolution: OV3660Resolution::MedRes,
                double_buffered: true,
                clock_speed: OV3660ClockSpeed::High,
            }),
    {
        OV3660Config::new(
            OV3660Format::JPEG { quality: 12 },
            OV3660Resolution::MedRes,
            true,
            OV3660ClockSpeed::High,
        )
    }
}

} // verus!
