//! The message decoder: one received message in, at most one event out.

use vstd::prelude::*;
use crate::event::{
    BatterySample, EventModel, GpsSample, HudSample, ImuSample, PressureSample, TelemetryEvent,
    link_alive_text,
};
use crate::message::WireMessage;
use crate::quantity::Quantity;

verus! {

/// The event that a message stands for, if any.
///
/// * attitude: angular rates from the three angles, radians to degrees;
///   acceleration zero, no magnetic field;
/// * raw inertial readings: acceleration and magnetic field divided by one
///   thousand, angular rates multiplied by one thousandth;
/// * head-up display: altitude and ground speed unchanged;
/// * system status: battery voltage divided by one thousand;
/// * raw GPS: latitude and longitude divided by ten million, altitude
///   divided by one thousand, satellite count unchanged;
/// * heartbeat: the notice that the link is alive;
/// * raw pressure: pressure and temperature divided by one thousand;
/// * anything else: no event.
pub open spec fn decoded(msg: WireMessage) -> Option<EventModel> {
    match msg {
        WireMessage::Attitude { roll, pitch, yaw } => Some(
            EventModel::Imu(
                ImuSample {
                    accel_x: Quantity::zero_spec(),
                    accel_y: Quantity::zero_spec(),
                    accel_z: Quantity::zero_spec(),
                    gyro_x: Quantity::Degrees(roll),
                    gyro_y: Quantity::Degrees(pitch),
                    gyro_z: Quantity::Degrees(yaw),
                    mag_x: None,
                    mag_y: None,
                    mag_z: None,
                },
            ),
        ),
        WireMessage::RawImu { xacc, yacc, zacc, xgyro, ygyro, zgyro, xmag, ymag, zmag } => Some(
            EventModel::Imu(
                ImuSample {
                    accel_x: Quantity::per_thousand_spec(xacc as i32),
                    accel_y: Quantity::per_thousand_spec(yacc as i32),
                    accel_z: Quantity::per_thousand_spec(zacc as i32),
                    gyro_x: Quantity::Thousandths(xgyro as i32),
                    gyro_y: Quantity::Thousandths(ygyro as i32),
                    gyro_z: Quantity::Thousandths(zgyro as i32),
                    mag_x: Some(Quantity::per_thousand_spec(xmag as i32)),
                    mag_y: Some(Quantity::per_thousand_spec(ymag as i32)),
                    mag_z: Some(Quantity::per_thousand_spec(zmag as i32)),
                },
            ),
        ),
        WireMessage::VfrHud { alt, groundspeed } => Some(
            EventModel::Hud(
                HudSample {
                    altitude: Quantity::Single(alt),
                    groundspeed: Quantity::Single(groundspeed),
                },
            ),
        ),
        WireMessage::SysStatus { voltage_battery } => Some(
            EventModel::Battery(
                BatterySample { voltage: Quantity::per_thousand_spec(voltage_battery as i32) },
            ),
        ),
        WireMessage::GpsRawInt { lat, lon, alt, satellites_visible } => Some(
            EventModel::Gps(
                GpsSample {
                    lat: Quantity::degrees_e7_spec(lat),
                    lon: Quantity::degrees_e7_spec(lon),
                    alt: Quantity::per_thousand_spec(alt),
                    satellites: satellites_visible,
                },
            ),
        ),
        WireMessage::Heartbeat => Some(EventModel::Status(link_alive_text())),
        WireMessage::RawPressure { press_abs, temperature } => Some(
            EventModel::Pressure(
                PressureSample {
                    pressure: Quantity::per_thousand_spec(press_abs as i32),
                    temperature: Quantity::per_thousand_spec(temperature as i32),
                },
            ),
        ),
        WireMessage::Unrecognized => None,
    }
}

/// What an optional event says.
pub open spec fn event_model(event: Option<TelemetryEvent>) -> Option<EventModel> {
    match event {
        Some(e) => Some(e@),
        None => None,
    }
}

/// Decodes one message. The result depends on the message alone; it is an
/// event for each of the seven known variants and nothing for any other.
pub fn decode(msg: &WireMessage) -> (event: Option<TelemetryEvent>)
    ensures
        event_model(event) == decoded(*msg),
        event is None <==> *msg is Unrecognized,
        event matches Some(e) ==> e@.wf(),
{
    match *msg {
        WireMessage::Attitude { roll, pitch, yaw } => Some(
            TelemetryEvent::Imu(
                ImuSample {
                    accel_x: Quantity::zero(),
                    accel_y: Quantity::zero(),
                    accel_z: Quantity::zero(),
                    gyro_x: Quantity::Degrees(roll),
                    gyro_y: Quantity::Degrees(pitch),
                    gyro_z: Quantity::Degrees(yaw),
                    mag_x: None,
                    mag_y: None,
                    mag_z: None,
                },
            ),
        ),
        WireMessage::RawImu { xacc, yacc, zacc, xgyro, ygyro, zgyro, xmag, ymag, zmag } => Some(
            TelemetryEvent::Imu(
                ImuSample {
                    accel_x: Quantity::per_thousand(xacc as i32),
                    accel_y: Quantity::per_thousand(yacc as i32),
                    accel_z: Quantity::per_thousand(zacc as i32),
                    gyro_x: Quantity::Thousandths(xgyro as i32),
                    gyro_y: Quantity::Thousandths(ygyro as i32),
                    gyro_z: Quantity::Thousandths(zgyro as i32),
                    mag_x: Some(Quantity::per_thousand(xmag as i32)),
                    mag_y: Some(Quantity::per_thousand(ymag as i32)),
                    mag_z: Some(Quantity::per_thousand(zmag as i32)),
                },
            ),
        ),
        WireMessage::VfrHud { alt, groundspeed } => Some(
            TelemetryEvent::Hud(
                HudSample {
                    altitude: Quantity::Single(alt),
                    groundspeed: Quantity::Single(groundspeed),
                },
            ),
        ),
        WireMessage::SysStatus { voltage_battery } => Some(
            TelemetryEvent::Battery(
                BatterySample { voltage: Quantity::per_thousand(voltage_battery as i32) },
            ),
        ),
        WireMessage::GpsRawInt { lat, lon, alt, satellites_visible } => Some(
            TelemetryEvent::Gps(
                GpsSample {
                    lat: Quantity::degrees_e7(lat),
                    lon: Quantity::degrees_e7(lon),
                    alt: Quantity::per_thousand(alt),
                    satellites: satellites_visible,
                },
            ),
        ),
        WireMessage::Heartbeat => Some(TelemetryEvent::link_alive()),
        WireMessage::RawPressure { press_abs, temperature } => Some(
            TelemetryEvent::Pressure(
                PressureSample {
                    pressure: Quantity::per_thousand(press_abs as i32),
                    temperature: Quantity::per_thousand(temperature as i32),
                },
            ),
        ),
        WireMessage::Unrecognized => None,
    }
}

/// Decoding is a function of the message: whatever two decodings of one
/// message give, they say the same, and no state enters into it.
pub proof fn lemma_decode_is_a_function(
    msg: WireMessage,
    first: Option<TelemetryEvent>,
    second: Option<TelemetryEvent>,
)
    requires
        event_model(first) == decoded(msg),
        event_model(second) == decoded(msg),
    ensures
        event_model(first) == event_model(second),
        first is None <==> second is None,
{
}

/// A message outside the seven known variants gives no event, and only
/// such a message gives none.
pub proof fn lemma_only_unrecognized_is_dropped(msg: WireMessage)
    ensures
        decoded(msg) is None <==> msg is Unrecognized,
        decoded(msg) matches Some(event) ==> event.wf(),
{
}

/// Every conversion of an integer reading is exact: the published quantity
/// is the reading over its divisor, one thousand for milli-units and ten
/// million for fixed-point degrees, whatever the reading.
pub proof fn lemma_unit_conversions(msg: WireMessage)
    ensures
        msg matches WireMessage::RawImu { xacc, yacc, zacc, xgyro, ygyro, zgyro, xmag, ymag, zmag }
            ==> decoded(msg) matches Some(EventModel::Imu(sample)) && {
            &&& sample.accel_x.fraction() == Some((xacc as int, 1000int))
            &&& sample.accel_y.fraction() == Some((yacc as int, 1000int))
            &&& sample.accel_z.fraction() == Some((zacc as int, 1000int))
            &&& sample.gyro_x.fraction() == Some((xgyro as int, 1000int))
            &&& sample.gyro_y.fraction() == Some((ygyro as int, 1000int))
            &&& sample.gyro_z.fraction() == Some((zgyro as int, 1000int))
            &&& sample.mag_x matches Some(q) && q.fraction() == Some((xmag as int, 1000int))
            &&& sample.mag_y matches Some(q) && q.fraction() == Some((ymag as int, 1000int))
            &&& sample.mag_z matches Some(q) && q.fraction() == Some((zmag as int, 1000int))
        },
        msg matches WireMessage::SysStatus { voltage_battery } ==> decoded(msg) matches Some(
            EventModel::Battery(sample),
        ) && sample.voltage.fraction() == Some((voltage_battery as int, 1000int)),
        msg matches WireMessage::GpsRawInt { lat, lon, alt, satellites_visible } ==> decoded(
            msg,
        ) matches Some(EventModel::Gps(sample)) && {
            &&& sample.lat.fraction() == Some((lat as int, 10_000_000int))
            &&& sample.lon.fraction() == Some((lon as int, 10_000_000int))
            &&& sample.alt.fraction() == Some((alt as int, 1000int))
            &&& sample.satellites == satellites_visible
        },
        msg matches WireMessage::RawPressure { press_abs, temperature } ==> decoded(
            msg,
        ) matches Some(EventModel::Pressure(sample)) && {
            &&& sample.pressure.fraction() == Some((press_abs as int, 1000int))
            &&& sample.temperature.fraction() == Some((temperature as int, 1000int))
        },
{
}

} // verus!
