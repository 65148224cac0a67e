//! The order in which the device comes up: network, sensor, clients. No
//! session exists before the first two have succeeded.

use crate::frame::{FrameSource, SourceView};
use crate::ov3660::{
    driver_settings, settings_for, start_ov3660, wrover_pins, ConfigError, DriverSettings,
    OV3660Config, PinMap, DRIVER_OK,
};
use crate::session::{SessionView, StreamSession, DEFAULT_FRAME_DELAY_MS};
use vstd::prelude::*;
use vstd::string::*;

verus! {

/// The address that the network gave the device.
#[derive(Clone, Copy, Debug, PartialEq, Eq)]
pub struct IpAddress {
    pub octets: [u8; 4],
}

/// Why the device could not join the network.
#[derive(Clone, Copy, Debug, PartialEq, Eq)]
pub struct LinkError {
    /// The status with which the network stack gave up.
    pub code: i32,
}

/// Why start-up ended before anything was served. Either failure is final.
#[derive(Clone, Copy, Debug, PartialEq, Eq)]
pub enum StartupError {
    /// The network could not be joined.
    Link(LinkError),
    /// The sensor could not be started.
    Config(ConfigError),
}

/// How far start-up has come.
#[derive(Clone, Copy, Debug, PartialEq, Eq)]
pub enum StartupStage {
    /// The network has not been joined yet.
    Offline,
    /// The device is on the network; the sensor has not been started yet.
    Online(IpAddress),
    /// The device is on the network and the sensor runs: clients are served.
    Serving(IpAddress),
    /// Start-up has failed; nothing will be served.
    Halted(StartupError),
}

impl StartupStage {
    /// The stage after the attempt to join the network came out as
    /// `outcome`. Only a device that is offline takes note of it.
    pub open spec fn after_link(self, outcome: Result<IpAddress, LinkError>) -> StartupStage {
        match (self, outcome) {
            (StartupStage::Offline, Ok(address)) => StartupStage::Online(address),
            (StartupStage::Offline, Err(error)) => StartupStage::Halted(StartupError::Link(error)),
            _ => self,
        }
    }

    /// The stage after the driver answered the sensor's initialisation with
    /// `status`. Only a device that is online and has no sensor yet takes
    /// note of it.
    pub open spec fn after_sensor(self, status: i32) -> StartupStage {
        match self {
            StartupStage::Online(address) => if status == DRIVER_OK {
                StartupStage::Serving(address)
            } else {
                StartupStage::Halted(StartupError::Config(ConfigError::DriverInitFailed(status)))
            },
            _ => self,
        }
    }
}

/// Start-up as its contracts see it: the settings that the sensor is to be
/// started with, and the stage.
pub struct StartupView {
    pub settings: DriverSettings,
    pub stage: StartupStage,
}

/// The order of start-up: first the network, then the sensor, then
/// clients. A failure on the way ends it for good.
#[derive(Debug)]
pub struct Startup {
    settings: DriverSettings,
    stage: StartupStage,
}

impl View for Startup {
    type V = StartupView;

    closed spec fn view(&self) -> StartupView {
        StartupView { settings: self.settings, stage: self.stage }
    }
}

impl Startup {
    /// A WROVER board that has just been switched on and is to run its
    /// sensor with `profile`.
    pub fn new(profile: OV3660Config) -> (startup: Startup)
        ensures
            startup@ == (StartupView {
                settings: settings_for(profile, wrover_pins()),
                stage: StartupStage::Offline,
            }),
    {
        Startup { settings: start_ov3660(profile), stage: StartupStage::Offline }
    }

    /// A board wired as `pins` says that has just been switched on and is
    /// to run its sensor with `profile`.
    pub fn with_pins(profile: OV3660Config, pins: PinMap) -> (startup: Startup)
        ensures
            startup@ == (StartupView {
                settings: settings_for(profile, pins),
                stage: StartupStage::Offline,
            }),
    {
        Startup { settings: driver_settings(profile, pins), stage: StartupStage::Offline }
    }

    /// How far start-up has come.
    pub fn stage(&self) -> (stage: StartupStage)
        ensures
            stage == self@.stage,
    {
        self.stage
    }

    /// Takes note of what came of joining the network. Where a device that
    /// was offline is now online, the settings come back with which the
    /// sensor driver is to be initialised next; in every other case nothing
    /// is to be initialised.
    pub fn link_result(self, outcome: Result<IpAddress, LinkError>) -> (next: (
        Startup,
        Option<DriverSettings>,
    ))
        ensures
            next.0@ == (StartupView {
                settings: self@.settings,
                stage: self@.stage.after_link(outcome),
            }),
            next.1 == if self@.stage is Offline && outcome is Ok {
                Some(self@.settings)
            } else {
                None
            },
    {
        let settings = self.settings;
        match (self.stage, outcome) {
            (StartupStage::Offline, Ok(address)) => (
                Startup { settings, stage: StartupStage::Online(address) },
                Some(settings),
            ),
            (StartupStage::Offline, Err(error)) => (
                Startup { settings, stage: StartupStage::Halted(StartupError::Link(error)) },
                None,
            ),
            _ => (self, None),
        }
    }

    /// Takes note of the status with which the driver answered the sensor's
    /// initialisation. The frame source comes into being here, once, and
    /// only where the driver reported success to a device that is online.
    pub fn sensor_result(self, status: i32) -> (next: (Startup, Option<FrameSource>))
        ensures
            next.0@ == (StartupView {
                settings: self@.settings,
                stage: self@.stage.after_sensor(status),
            }),
            match next.1 {
                Some(source) => self@.stage is Online && status == DRIVER_OK && source@
                    == SourceView::fresh(),
                None => !(self@.stage is Online && status == DRIVER_OK),
            },
    {
        let settings = self.settings;
        match self.stage {
            StartupStage::Online(address) => if status == DRIVER_OK {
                (
                    Startup { settings, stage: StartupStage::Serving(address) },
                    Some(FrameSource::new()),
                )
            } else {
                let error = StartupError::Config(ConfigError::DriverInitFailed(status));
                (Startup { settings, stage: StartupStage::Halted(error) }, None)
            },
            _ => (self, None),
        }
    }

    /// A session for a client that has just connected, with the usual pause
    /// between frames, where clients are served; `None` at every other
    /// stage. Sessions come into being here and nowhere else.
    pub fn accept(&self, boundary: &str) -> (session: Option<StreamSession>)
        ensures
            match session {
                Some(session) => self@.stage is Serving && session@ == SessionView::connected(
                    boundary.spec_bytes(),
                    DEFAULT_FRAME_DELAY_MS,
                ),
                None => !(self@.stage is Serving),
            },
    {
        self.accept_paced(boundary, DEFAULT_FRAME_DELAY_MS)
    }

    /// A session for a client that has just connected, with a pause of
    /// `delay_ms` milliseconds between frames, where clients are served;
    /// `None` at every other stage.
    pub fn accept_paced(&self, boundary: &str, delay_ms: u32) -> (session: Option<StreamSession>)
        ensures
            match session {
                Some(session) => self@.stage is Serving && session@ == SessionView::connected(
                    boundary.spec_bytes(),
                    delay_ms,
                ),
                None => !(self@.stage is Serving),
            },
    {
        match self.stage {
            StartupStage::Serving(_) => Some(StreamSession::new(boundary, delay_ms)),
            _ => None,
        }
    }
}

} // verus!
