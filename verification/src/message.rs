//! Messages as they arrive from the vehicle, reduced to what the decoder
//! reads. Single-precision fields are held as their 32 bits.

use vstd::prelude::*;

verus! {

/// One framed protocol message, by variant.
#[derive(Clone, Copy, Debug, PartialEq, Eq, Structural)]
pub enum WireMessage {
    /// Attitude and orientation: three angles in radians, as bits.
    Attitude { roll: u32, pitch: u32, yaw: u32 },
    /// Raw inertial readings in milli-units.
    RawImu {
        xacc: i16,
        yacc: i16,
        zacc: i16,
        xgyro: i16,
        ygyro: i16,
        zgyro: i16,
        xmag: i16,
        ymag: i16,
        zmag: i16,
    },
    /// Head-up display values: altitude in metres and ground speed in metres
    /// per second, as bits.
    VfrHud { alt: u32, groundspeed: u32 },
    /// System status: battery voltage in millivolts.
    SysStatus { voltage_battery: u16 },
    /// Raw GPS fix: latitude and longitude in 1e-7 degree steps, altitude in
    /// millimetres, satellites in view.
    GpsRawInt { lat: i32, lon: i32, alt: i32, satellites_visible: u8 },
    /// Sign of life from the vehicle.
    Heartbeat,
    /// Raw pressure sensor readings in milli-units.
    RawPressure { press_abs: i16, temperature: i16 },
    /// Any other variant of the protocol.
    Unrecognized,
}

} // verus!
