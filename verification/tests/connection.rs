use std::cell::Cell;
use std::rc::Rc;

use telemetry_bridge::command::{Header, StreamCommand, StreamRequest};
use telemetry_bridge::endpoint::Endpoint;
use telemetry_bridge::error::ConnectionError;
use telemetry_bridge::manager::{
    begin_connect, complete_connect, disconnect, ConnectPlan, QUIESCENCE_MS,
};
use telemetry_bridge::registry::Registry;

/// A stand-in for a transport handle that counts how often one was closed.
struct Probe {
    name: &'static str,
    closed: Rc<Cell<u32>>,
}

impl Drop for Probe {
    fn drop(&mut self) {
        self.closed.set(self.closed.get() + 1);
    }
}

fn probe(name: &'static str, closed: &Rc<Cell<u32>>) -> Probe {
    Probe { name, closed: Rc::clone(closed) }
}

fn com3() -> Endpoint {
    Endpoint::new("COM3".to_string(), 57600)
}

fn start_command() -> StreamCommand {
    StreamCommand {
        header: Header { system_id: 255, component_id: 0, sequence: 0 },
        request: StreamRequest {
            target_system: 1,
            target_component: 1,
            req_stream_id: 0,
            req_message_rate: 10,
            start_stop: 1,
        },
    }
}

#[test]
fn new_registry_is_empty() {
    let registry: Registry<u32> = Registry::new();
    assert!(!registry.is_connected());
    assert_eq!(registry.handle(), None);
}

#[test]
fn install_puts_the_handle_into_the_slot() {
    let mut registry: Registry<u32> = Registry::new();
    registry.install(5);
    assert!(registry.is_connected());
    assert_eq!(registry.handle(), Some(&5));
}

#[test]
fn install_drops_the_handle_that_was_there() {
    let closed = Rc::new(Cell::new(0));
    let mut registry = Registry::new();
    registry.install(probe("first", &closed));
    registry.install(probe("second", &closed));
    assert_eq!(closed.get(), 1);
    assert_eq!(registry.handle().unwrap().name, "second");
}

#[test]
fn clear_empties_the_slot_and_tells_whether_it_was_full() {
    let closed = Rc::new(Cell::new(0));
    let mut registry = Registry::new();
    assert!(!registry.clear());
    registry.install(probe("only", &closed));
    assert!(registry.clear());
    assert_eq!(closed.get(), 1);
    assert!(!registry.is_connected());
    assert!(!registry.clear());
    assert_eq!(closed.get(), 1);
}

#[test]
fn disconnect_on_an_empty_registry_reports_no_active_connection() {
    let mut registry: Registry<u32> = Registry::new();
    assert_eq!(disconnect(&mut registry), Err(ConnectionError::NoActiveConnection));
    assert!(!registry.is_connected());
    assert_eq!(disconnect(&mut registry), Err(ConnectionError::NoActiveConnection));
    assert!(!registry.is_connected());
}

#[test]
fn disconnect_closes_the_handle_once() {
    let closed = Rc::new(Cell::new(0));
    let mut registry = Registry::new();
    registry.install(probe("link", &closed));
    assert_eq!(disconnect(&mut registry), Ok("Disconnected successfully".to_string()));
    assert_eq!(closed.get(), 1);
    assert!(!registry.is_connected());
    assert_eq!(disconnect(&mut registry), Err(ConnectionError::NoActiveConnection));
    assert_eq!(closed.get(), 1);
}

#[test]
fn first_connect_needs_no_wait() {
    let mut registry: Registry<u32> = Registry::new();
    let plan = begin_connect(&mut registry, com3());
    assert_eq!(
        plan,
        ConnectPlan {
            settle_millis: 0,
            address: "serial:COM3:57600".to_string(),
            endpoint: com3(),
        }
    );
    assert!(!registry.is_connected());
}

#[test]
fn connect_installs_the_handle_and_names_the_port() {
    let mut registry: Registry<u32> = Registry::new();
    let plan = begin_connect(&mut registry, com3());
    let report = complete_connect(&mut registry, plan, Ok(11)).unwrap();
    assert_eq!(report.message, "Connected to COM3");
    assert_eq!(report.command, start_command());
    assert_eq!(registry.handle(), Some(&11));
}

#[test]
fn connect_while_connected_retires_the_old_handle_and_waits() {
    let closed = Rc::new(Cell::new(0));
    let mut registry = Registry::new();
    let first = begin_connect(&mut registry, com3());
    assert!(complete_connect(&mut registry, first, Ok(probe("old", &closed))).is_ok());

    let second = Endpoint::new("/dev/ttyUSB0".to_string(), 115200);
    let plan = begin_connect(&mut registry, second);
    assert_eq!(plan.settle_millis, 100);
    assert_eq!(plan.settle_millis, QUIESCENCE_MS);
    assert_eq!(plan.address, "serial:/dev/ttyUSB0:115200");
    assert_eq!(closed.get(), 1);
    assert!(!registry.is_connected());

    let report = complete_connect(&mut registry, plan, Ok(probe("new", &closed))).unwrap();
    assert_eq!(report.message, "Connected to /dev/ttyUSB0");
    assert_eq!(registry.handle().unwrap().name, "new");
    assert_eq!(closed.get(), 1);
}

#[test]
fn failed_connect_reports_the_detail_and_leaves_the_registry_empty() {
    let closed = Rc::new(Cell::new(0));
    let mut registry = Registry::new();
    registry.install(probe("old", &closed));
    let plan = begin_connect(&mut registry, com3());
    let outcome = complete_connect(&mut registry, plan, Err("port busy".to_string()));
    match outcome {
        Err(error) => {
            assert_eq!(error, ConnectionError::TransportOpenFailed("port busy".to_string()));
            assert_eq!(error.message(), "Mavlink Connect Error: port busy");
        }
        Ok(_) => panic!("the connect should have failed"),
    }
    assert!(!registry.is_connected());
    assert_eq!(closed.get(), 1);
}

#[test]
fn failed_second_step_leaves_a_handle_that_is_there() {
    let mut registry: Registry<u32> = Registry::new();
    registry.install(3);
    let plan = ConnectPlan { settle_millis: 0, address: com3().address(), endpoint: com3() };
    let outcome = complete_connect(&mut registry, plan, Err(String::new()));
    assert_eq!(outcome, Err(ConnectionError::TransportOpenFailed(String::new())));
    assert_eq!(registry.handle(), Some(&3));
}

#[test]
fn interleaved_connects_leave_one_handle() {
    let closed = Rc::new(Cell::new(0));
    let mut registry = Registry::new();
    let a = Endpoint::new("COM1".to_string(), 9600);
    let b = Endpoint::new("COM2".to_string(), 9600);
    let plan_a = begin_connect(&mut registry, a);
    let plan_b = begin_connect(&mut registry, b);
    assert!(complete_connect(&mut registry, plan_a, Ok(probe("a", &closed))).is_ok());
    assert_eq!(registry.handle().unwrap().name, "a");
    assert!(complete_connect(&mut registry, plan_b, Ok(probe("b", &closed))).is_ok());
    assert_eq!(registry.handle().unwrap().name, "b");
    assert_eq!(closed.get(), 1);
    drop(registry);
    assert_eq!(closed.get(), 2);
}

#[test]
fn error_messages_are_fixed_sentences() {
    assert_eq!(
        ConnectionError::NoActiveConnection.message(),
        "No connection is active to disconnect."
    );
    assert_eq!(
        ConnectionError::TransportOpenFailed("Os { code: 2 }".to_string()).message(),
        "Mavlink Connect Error: Os { code: 2 }"
    );
    assert_eq!(
        ConnectionError::TransportOpenFailed(String::new()).message(),
        "Mavlink Connect Error: "
    );
}
