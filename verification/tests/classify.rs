use pzem016lib::classify::classify;
use pzem016lib::errors::PZEMError;
use pzem016lib::transport::TransportFailure;

fn failure(os_code: Option<i32>, message: &str) -> TransportFailure {
    TransportFailure { os_code, message: message.to_string() }
}

#[test]
fn illegal_data_value_is_permanent() {
    let error = classify(&failure(None, "illegal data value"));
    assert_eq!(error, PZEMError::Misc("illegal data value".to_string()));
}

#[test]
fn silent_device_is_transient() {
    let error = classify(&failure(None, "gateway target device failed to respond"));
    assert_eq!(error, PZEMError::TransientError);
}

#[test]
fn mismatched_header_is_out_of_order() {
    let error = classify(&failure(
        None,
        "Invalid response header: expected/request = Header { transaction_id: 7, unit_id: 1 }, \
         actual/response = Header { transaction_id: 6, unit_id: 1 }",
    ));
    assert_eq!(error, PZEMError::Misc("out of order response".to_string()));
}

#[test]
fn mismatched_header_is_found_inside_longer_text() {
    let error = classify(&failure(
        None,
        "read failed: Invalid response header: expected/request = 1, actual/response = 2",
    ));
    assert_eq!(error, PZEMError::Misc("out of order response".to_string()));
}

#[test]
fn header_text_cut_short_is_transient() {
    let error = classify(&failure(None, "Invalid response header: expected"));
    assert_eq!(error, PZEMError::TransientError);
}

#[test]
fn unknown_text_is_transient() {
    assert_eq!(classify(&failure(None, "invalid response")), PZEMError::TransientError);
    assert_eq!(classify(&failure(None, "")), PZEMError::TransientError);
}

#[test]
fn known_text_must_match_exactly() {
    assert_eq!(classify(&failure(None, "illegal data value ")), PZEMError::TransientError);
    assert_eq!(classify(&failure(None, "Illegal data value")), PZEMError::TransientError);
    assert_eq!(
        classify(&failure(None, "Modbus function 3: illegal data value")),
        PZEMError::TransientError
    );
    assert_eq!(classify(&failure(None, "illegal data")), PZEMError::TransientError);
}

#[test]
fn broken_pipe_is_permanent_whatever_the_text() {
    assert_eq!(
        classify(&failure(Some(32), "Broken pipe (os error 32)")),
        PZEMError::Misc("Broken pipe (os error 32)".to_string())
    );
    assert_eq!(
        classify(&failure(Some(32), "gateway target device failed to respond")),
        PZEMError::Misc("gateway target device failed to respond".to_string())
    );
    assert_eq!(classify(&failure(Some(32), "")), PZEMError::Misc(String::new()));
}

#[test]
fn other_os_codes_are_transient() {
    assert_eq!(
        classify(&failure(Some(104), "Connection reset by peer (os error 104)")),
        PZEMError::TransientError
    );
    assert_eq!(
        classify(&failure(Some(111), "illegal data value")),
        PZEMError::TransientError
    );
    assert_eq!(classify(&failure(Some(0), "x")), PZEMError::TransientError);
    assert_eq!(classify(&failure(Some(-32), "x")), PZEMError::TransientError);
    assert_eq!(classify(&failure(Some(31), "x")), PZEMError::TransientError);
    assert_eq!(classify(&failure(Some(33), "x")), PZEMError::TransientError);
}

#[test]
fn error_texts() {
    assert_eq!(PZEMError::TransientError.to_string(), "Transient Error reported");
    assert_eq!(PZEMError::Misc("x".to_string()).to_string(), "Misc error: x");
    assert_eq!(PZEMError::Misc(String::new()).to_string(), "Misc error: ");
}

#[test]
fn error_equality_and_class() {
    assert!(PZEMError::TransientError.is_transient());
    assert!(!PZEMError::Misc("Transient Error reported".to_string()).is_transient());
    assert_eq!(PZEMError::Misc("a".to_string()), PZEMError::Misc("a".to_string()));
    assert_ne!(PZEMError::Misc("a".to_string()), PZEMError::Misc("b".to_string()));
    assert_ne!(PZEMError::Misc(String::new()), PZEMError::TransientError);
    assert_eq!(PZEMError::Misc("a".to_string()).clone(), PZEMError::Misc("a".to_string()));
    assert_eq!(PZEMError::TransientError.clone(), PZEMError::TransientError);
}
