use smart_home::SmartHomeError;

#[test]
fn a_lookup_error_names_what_was_not_found() {
    let error = SmartHomeError::DeviceNotFound("Socket2".to_string());
    assert_eq!(error.to_string(), "Device Socket2 not found");
    let error = SmartHomeError::RoomNotFound("Room3".to_string());
    assert_eq!(error.to_string(), "Room Room3 not found");
    let error = SmartHomeError::RoomNotFound(String::new());
    assert_eq!(error.to_string(), "Room  not found");
}

#[test]
fn a_connection_error_shows_the_failure_inside() {
    let failure = std::io::Error::new(std::io::ErrorKind::Other, "boom");
    let error = SmartHomeError::from(failure);
    assert!(matches!(error, SmartHomeError::ConnectionError(_)));
    assert_eq!(error.to_string(), "Connection error: boom");

    let failure = std::io::Error::new(std::io::ErrorKind::Other, "line is down");
    let error: SmartHomeError = failure.into();
    assert_eq!(error.to_string(), "Connection error: line is down");
}

#[test]
fn a_protocol_mismatch_has_a_message_of_its_own() {
    let text = SmartHomeError::ProtocolMismatch.to_string();
    assert_eq!(text, "Unexpected response from the device");
}
