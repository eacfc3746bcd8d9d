//! Typed, unit-normalised telemetry events and the topics they are
//! published under.

use vstd::prelude::*;
use vstd::string::*;
use crate::quantity::Quantity;

verus! {

/// Inertial sample: acceleration in m/s^2, angular rate in deg/s and, where
/// the message reports it, the magnetic field.
#[derive(Clone, Copy, Debug, PartialEq, Eq)]
pub struct ImuSample {
    pub accel_x: Quantity,
    pub accel_y: Quantity,
    pub accel_z: Quantity,
    pub gyro_x: Quantity,
    pub gyro_y: Quantity,
    pub gyro_z: Quantity,
    pub mag_x: Option<Quantity>,
    pub mag_y: Option<Quantity>,
    pub mag_z: Option<Quantity>,
}

/// Head-up display sample: altitude in metres, ground speed in m/s.
#[derive(Clone, Copy, Debug, PartialEq, Eq, Structural)]
pub struct HudSample {
    pub altitude: Quantity,
    pub groundspeed: Quantity,
}

/// Battery sample: voltage in volts.
#[derive(Clone, Copy, Debug, PartialEq, Eq, Structural)]
pub struct BatterySample {
    pub voltage: Quantity,
}

/// GPS sample: position in degrees, altitude in metres, satellites in view.
#[derive(Clone, Copy, Debug, PartialEq, Eq, Structural)]
pub struct GpsSample {
    pub lat: Quantity,
    pub lon: Quantity,
    pub alt: Quantity,
    pub satellites: u8,
}

/// Pressure sample: absolute pressure in hPa, temperature in degrees Celsius.
#[derive(Clone, Copy, Debug, PartialEq, Eq, Structural)]
pub struct PressureSample {
    pub pressure: Quantity,
    pub temperature: Quantity,
}

/// A notice in words about the state of the link.
#[derive(Clone, Debug, PartialEq, Eq)]
pub struct StatusNotice {
    pub message: String,
}

/// One event for the presentation layer.
#[derive(Clone, Debug, PartialEq, Eq)]
pub enum TelemetryEvent {
    Imu(ImuSample),
    Hud(HudSample),
    Battery(BatterySample),
    Gps(GpsSample),
    Pressure(PressureSample),
    Status(StatusNotice),
}

/// What an event says, with the notice's text as a sequence of characters.
pub enum EventModel {
    Imu(ImuSample),
    Hud(HudSample),
    Battery(BatterySample),
    Gps(GpsSample),
    Pressure(PressureSample),
    Status(Seq<char>),
}

/// The notice that a heartbeat gives rise to.
pub open spec fn link_alive_text() -> Seq<char> {
    "Drone Connected (Heartbeat)"@
}

impl ImuSample {
    /// Every quantity of the sample can be evaluated.
    pub open spec fn wf(self) -> bool {
        &&& self.accel_x.wf() && self.accel_y.wf() && self.accel_z.wf()
        &&& self.gyro_x.wf() && self.gyro_y.wf() && self.gyro_z.wf()
        &&& (self.mag_x matches Some(q) ==> q.wf())
        &&& (self.mag_y matches Some(q) ==> q.wf())
        &&& (self.mag_z matches Some(q) ==> q.wf())
    }
}

impl EventModel {
    /// Every quantity of the event can be evaluated.
    pub open spec fn wf(self) -> bool {
        match self {
            EventModel::Imu(s) => s.wf(),
            EventModel::Hud(s) => s.altitude.wf() && s.groundspeed.wf(),
            EventModel::Battery(s) => s.voltage.wf(),
            EventModel::Gps(s) => s.lat.wf() && s.lon.wf() && s.alt.wf(),
            EventModel::Pressure(s) => s.pressure.wf() && s.temperature.wf(),
            EventModel::Status(_) => true,
        }
    }

    /// The topic that an event of this kind is published under.
    pub open spec fn topic(self) -> Seq<char> {
        match self {
            EventModel::Imu(_) => "imu-data"@,
            EventModel::Hud(_) => "hud-data"@,
            EventModel::Battery(_) => "battery-data"@,
            EventModel::Gps(_) => "gps-data"@,
            EventModel::Pressure(_) => "pressure-data"@,
            EventModel::Status(_) => "status"@,
        }
    }
}

impl View for TelemetryEvent {
    type V = EventModel;

    open spec fn view(&self) -> EventModel {
        match *self {
            TelemetryEvent::Imu(s) => EventModel::Imu(s),
            TelemetryEvent::Hud(s) => EventModel::Hud(s),
            TelemetryEvent::Battery(s) => EventModel::Battery(s),
            TelemetryEvent::Gps(s) => EventModel::Gps(s),
            TelemetryEvent::Pressure(s) => EventModel::Pressure(s),
            TelemetryEvent::Status(n) => EventModel::Status(n.message@),
        }
    }
}

impl TelemetryEvent {
    /// The topic that this event is published under.
    pub fn topic(&self) -> (name: &'static str)
        ensures
            name@ == self@.topic(),
    {
        match self {
            TelemetryEvent::Imu(_) => "imu-data",
            TelemetryEvent::Hud(_) => "hud-data",
            TelemetryEvent::Battery(_) => "battery-data",
            TelemetryEvent::Gps(_) => "gps-data",
            TelemetryEvent::Pressure(_) => "pressure-data",
            TelemetryEvent::Status(_) => "status",
        }
    }

    /// The notice that the link is alive.
    pub fn link_alive() -> (event: TelemetryEvent)
        ensures
            event@ == EventModel::Status(link_alive_text()),
    {
        TelemetryEvent::Status(
            StatusNotice { message: String::from_str("Drone Connected (Heartbeat)") },
        )
    }
}

} // verus!
