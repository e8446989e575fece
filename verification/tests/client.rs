use modbus_client::base::MbErrors;
use modbus_client::base::MbFunctions;
use modbus_client::client::Client;

#[test]
fn new_client_starts_disconnected() {
    let client = Client::new(String::from("localhost"), 502, 1);
    assert!(!client.connected);
    assert_eq!(client.port, 502);
    assert_eq!(client.uid, 1);
    assert_eq!(client.tr_id, 1);
    assert_eq!(client.ip, String::from("localhost"));
}

#[test]
fn set_unit_id_changes_only_the_unit_id() {
    let mut client = Client::new(String::from("localhost"), 502, 1);
    client.set_unit_id(9);
    assert_eq!(client.uid, 9);
    assert_eq!(client.port, 502);
    assert!(!client.connected);
}

#[test]
fn disconnect_twice_on_never_connected_client() {
    let mut client = Client::new(String::from("localhost"), 502, 1);
    let first = client.begin_disconnect();
    let second = client.begin_disconnect();
    assert!(!first);
    assert!(!second);
    assert!(!client.connected);
}

#[test]
fn disconnect_after_connect_owes_one_shutdown() {
    let mut client = Client::new(String::from("localhost"), 502, 1);
    client.note_connect_result(true);
    assert!(client.connected);
    assert!(client.begin_disconnect());
    assert!(!client.connected);
    assert!(!client.begin_disconnect());
}

#[test]
fn failed_connect_leaves_client_disconnected() {
    let mut client = Client::new(String::from("localhost"), 502, 1);
    client.note_connect_result(false);
    assert!(!client.connected);
}

#[test]
fn prepare_request_rejects_unimplemented_functions() {
    let client = Client::new(String::from("localhost"), 502, 1);
    let coils = client.prepare_request(&MbFunctions::ReadCoils(0, 10));
    assert!(matches!(coils, Err(MbErrors::InvalidFunction)));
    let discretes = client.prepare_request(&MbFunctions::ReadDiscreteInputs(0, 10));
    assert!(matches!(discretes, Err(MbErrors::InvalidFunction)));
    let inputs = client.prepare_request(&MbFunctions::ReadInputRegisters(0, 10));
    assert!(matches!(inputs, Err(MbErrors::InvalidFunction)));
}

#[test]
fn prepare_request_encodes_holding_register_reads() {
    let client = Client::new(String::from("localhost"), 502, 1);
    let frame = client.prepare_request(&MbFunctions::ReadHoldingRegisters(0, 10)).unwrap();
    assert_eq!(frame, vec![0x00, 0x01, 0x00, 0x00, 0x00, 0x06, 0x01, 0x03, 0x00, 0x00, 0x00, 0x0A]);
}

#[test]
fn prepare_request_surfaces_encode_errors() {
    let client = Client::new(String::from("localhost"), 502, 1);
    let r = client.prepare_request(&MbFunctions::ReadHoldingRegisters(0, 126));
    assert!(matches!(r, Err(MbErrors::RequestError)));
}
