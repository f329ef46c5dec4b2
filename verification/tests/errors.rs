use mpris2_zbus::error::Error;
use mpris2_zbus::names::BusName;

#[test]
fn remote_failures_classify_by_error_name() {
    match Error::from_remote(
        Some("org.freedesktop.DBus.Error.NotSupported".to_string()),
        "nope".to_string(),
    ) {
        Error::ProtocolFault { name, message } => {
            assert_eq!(name, "org.freedesktop.DBus.Error.NotSupported");
            assert_eq!(message, "nope");
        }
        other => panic!("expected ProtocolFault, got {:?}", other),
    }
    match Error::from_remote(None, "socket closed".to_string()) {
        Error::Transport { message } => assert_eq!(message, "socket closed"),
        other => panic!("expected Transport, got {:?}", other),
    }
}

#[test]
fn only_the_not_supported_name_counts_as_not_supported() {
    let yes = Error::ProtocolFault {
        name: "org.freedesktop.DBus.Error.NotSupported".to_string(),
        message: String::new(),
    };
    let close = Error::ProtocolFault {
        name: "org.freedesktop.DBus.Error.NotSupported2".to_string(),
        message: String::new(),
    };
    let transport = Error::Transport {
        message: "org.freedesktop.DBus.Error.NotSupported".to_string(),
    };
    assert!(yes.not_supported());
    assert!(!close.not_supported());
    assert!(!transport.not_supported());
}

#[test]
fn bus_names_are_capped_at_255_characters() {
    let long_element = "a".repeat(230);
    let ok = format!("org.mpris.{}", long_element);
    assert!(ok.len() <= 255);
    assert!(BusName::new(ok).is_ok());
    let too_long = format!("org.mpris.{}", "a".repeat(250));
    assert!(too_long.len() > 255);
    assert!(BusName::new(too_long).is_err());
}

#[test]
fn bus_name_elements_must_not_start_with_a_digit() {
    assert!(BusName::new("org.mpris.MediaPlayer2.vlc".to_string()).is_ok());
    assert!(BusName::new("org.mpris.2inch".to_string()).is_err());
    assert!(BusName::new("9org.mpris".to_string()).is_err());
    // A digit elsewhere in an element is fine.
    assert!(BusName::new("org.mpris.MediaPlayer2.v2".to_string()).is_ok());
    // Unique-name syntax is not a well-known name.
    assert!(BusName::new(":1.42".to_string()).is_err());
}
