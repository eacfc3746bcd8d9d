//! The one control message the ground station sends: a request that the
//! vehicle start streaming its telemetry.

use vstd::prelude::*;

verus! {

/// Sender identification that precedes every message on the link.
#[derive(Clone, Copy, Debug, PartialEq, Eq, Structural)]
pub struct Header {
    pub system_id: u8,
    pub component_id: u8,
    pub sequence: u8,
}

/// Fields of a data-stream request.
#[derive(Clone, Copy, Debug, PartialEq, Eq, Structural)]
pub struct StreamRequest {
    pub target_system: u8,
    pub target_component: u8,
    pub req_stream_id: u8,
    pub req_message_rate: u16,
    pub start_stop: u8,
}

/// A control message ready to be sent: who sends it and what it asks for.
#[derive(Clone, Copy, Debug, PartialEq, Eq, Structural)]
pub struct StreamCommand {
    pub header: Header,
    pub request: StreamRequest,
}

/// System id of the vehicle that requests are addressed to.
pub const TARGET_SYSTEM: u8 = 1;

/// Component id of the vehicle that requests are addressed to.
pub const TARGET_COMPONENT: u8 = 1;

/// Stream id that stands for every stream.
pub const ALL_STREAMS: u8 = 0;

/// Rate, in messages per second, that the vehicle is asked for.
pub const STREAM_RATE_HZ: u16 = 10;

/// Value of the start/stop field that starts a stream.
pub const START_STREAM: u8 = 1;

/// The request that the ground station sends: every stream of the default
/// vehicle, ten times a second, started.
pub open spec fn stream_request_spec() -> StreamRequest {
    StreamRequest {
        target_system: TARGET_SYSTEM,
        target_component: TARGET_COMPONENT,
        req_stream_id: ALL_STREAMS,
        req_message_rate: STREAM_RATE_HZ,
        start_stop: START_STREAM,
    }
}

/// The header of a ground control station, as the protocol library gives it.
pub open spec fn ground_station_header() -> Header {
    Header { system_id: 255, component_id: 0, sequence: 0 }
}

/// Calls `mavlink::MavHeader::default()` and copies its three fields.
///
/// The contract is taken on trust, not proved: it says what that crate's
/// `Default` impl for `MavHeader` sets, system id 255, component id 0 and
/// sequence 0.
#[verifier::external_body]
fn default_header() -> (header: Header)
    ensures
        header == ground_station_header(),
{
    let h = mavlink::MavHeader::default();
    Header { system_id: h.system_id, component_id: h.component_id, sequence: h.sequence }
}

/// Builds the fields of the "start telemetry stream" request.
pub fn stream_request() -> (request: StreamRequest)
    ensures
        request == stream_request_spec(),
{
    StreamRequest {
        target_system: TARGET_SYSTEM,
        target_component: TARGET_COMPONENT,
        req_stream_id: ALL_STREAMS,
        req_message_rate: STREAM_RATE_HZ,
        start_stop: START_STREAM,
    }
}

/// Builds the complete "start telemetry stream" message: the request under
/// the ground station's default header.
pub fn stream_command() -> (command: StreamCommand)
    ensures
        command.header == ground_station_header(),
        command.request == stream_request_spec(),
{
    StreamCommand { header: default_header(), request: stream_request() }
}

} // verus!
