use telemetry_bridge::command::{
    stream_command, stream_request, Header, StreamRequest, ALL_STREAMS, START_STREAM,
    STREAM_RATE_HZ, TARGET_COMPONENT, TARGET_SYSTEM,
};
use telemetry_bridge::endpoint::Endpoint;
use telemetry_bridge::ports::port_names;
use telemetry_bridge::text::decimal_text;

#[test]
fn single_digits_are_written_as_one_character() {
    let digits = ["0", "1", "2", "3", "4", "5", "6", "7", "8", "9"];
    for (n, text) in digits.iter().enumerate() {
        assert_eq!(decimal_text(n as u32), *text);
    }
}

#[test]
fn numbers_are_written_without_leading_zeros() {
    assert_eq!(decimal_text(10), "10");
    assert_eq!(decimal_text(99), "99");
    assert_eq!(decimal_text(100), "100");
    assert_eq!(decimal_text(1005), "1005");
    assert_eq!(decimal_text(9600), "9600");
    assert_eq!(decimal_text(57600), "57600");
    assert_eq!(decimal_text(115200), "115200");
    assert_eq!(decimal_text(1234567890), "1234567890");
}

#[test]
fn the_largest_number_is_written_in_full() {
    assert_eq!(decimal_text(u32::MAX), "4294967295");
}

#[test]
fn decimal_text_agrees_with_the_standard_notation() {
    let mut n: u32 = 1;
    for _ in 0..200 {
        assert_eq!(decimal_text(n), n.to_string());
        n = n.wrapping_mul(2654435761).wrapping_add(12345);
    }
}

#[test]
fn address_joins_port_and_speed() {
    assert_eq!(Endpoint::new("COM3".to_string(), 57600).address(), "serial:COM3:57600");
    assert_eq!(
        Endpoint::new("/dev/ttyACM0".to_string(), 115200).address(),
        "serial:/dev/ttyACM0:115200"
    );
    assert_eq!(Endpoint::new(String::new(), 0).address(), "serial::0");
}

#[test]
fn endpoint_keeps_what_it_was_given() {
    let endpoint = Endpoint::new("COM7".to_string(), 9600);
    assert_eq!(endpoint.path, "COM7");
    assert_eq!(endpoint.baud, 9600);
    assert_eq!(endpoint.connected_message(), "Connected to COM7");
}

#[test]
fn connected_message_keeps_characters_outside_ascii() {
    let endpoint = Endpoint::new("/dev/tty\u{e9}\u{4e2d}".to_string(), 1);
    assert_eq!(endpoint.connected_message(), "Connected to /dev/tty\u{e9}\u{4e2d}");
    assert_eq!(endpoint.address(), "serial:/dev/tty\u{e9}\u{4e2d}:1");
}

#[test]
fn stream_request_asks_for_every_stream_at_ten_hertz() {
    assert_eq!(
        stream_request(),
        StreamRequest {
            target_system: 1,
            target_component: 1,
            req_stream_id: 0,
            req_message_rate: 10,
            start_stop: 1,
        }
    );
    assert_eq!(TARGET_SYSTEM, 1);
    assert_eq!(TARGET_COMPONENT, 1);
    assert_eq!(ALL_STREAMS, 0);
    assert_eq!(STREAM_RATE_HZ, 10);
    assert_eq!(START_STREAM, 1);
}

#[test]
fn stream_command_carries_the_ground_station_header() {
    let command = stream_command();
    assert_eq!(command.header, Header { system_id: 255, component_id: 0, sequence: 0 });
    assert_eq!(command.request, stream_request());
}

#[test]
fn stream_command_header_is_the_protocol_default() {
    let expected = mavlink::MavHeader::default();
    let header = stream_command().header;
    assert_eq!(header.system_id, expected.system_id);
    assert_eq!(header.component_id, expected.component_id);
    assert_eq!(header.sequence, expected.sequence);
}

#[test]
fn port_names_are_handed_on_in_order() {
    let found = vec!["COM1".to_string(), "COM3".to_string(), "/dev/ttyUSB0".to_string()];
    assert_eq!(port_names(Ok(found.clone())), found);
}

#[test]
fn failed_enumeration_gives_no_ports() {
    assert_eq!(port_names(Err("permission denied".to_string())), Vec::<String>::new());
    assert_eq!(port_names(Ok(Vec::new())), Vec::<String>::new());
}
