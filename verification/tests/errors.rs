use bluos_api::{Element, Error, Fault, Status};

#[test]
fn fault_messages() {
    assert_eq!(Fault::MissingField("etag".to_string()).message(), "missing field `etag`");
    assert_eq!(
        Fault::InvalidValue("volume".to_string()).message(),
        "invalid value for field `volume`"
    );
    assert_eq!(
        Fault::Unreadable("unexpected end of stream".to_string()).message(),
        "unexpected end of stream"
    );
}

#[test]
fn error_messages() {
    assert_eq!(Error::ReadError("broken pipe".to_string()).message(), "broken pipe");
    assert_eq!(Error::NoBluOSError.message(), "Could not find BluOS controller");
    assert_eq!(
        Error::RequestError {
            source: "connection refused".to_string(),
            url: "http://10.0.0.2:11000/Status".to_string()
        }
        .message(),
        "Error performing GET request to http://10.0.0.2:11000/Status: connection refused"
    );
    assert_eq!(
        Error::RequestFetchError {
            source: "timed out".to_string(),
            url: "http://10.0.0.2:11000/Browse".to_string()
        }
        .message(),
        "Error fetching data from http://10.0.0.2:11000/Browse: timed out"
    );
    assert_eq!(
        Error::XMLError {
            source: Fault::MissingField("etag".to_string()),
            xml: "<status/>".to_string(),
            url: "http://10.0.0.2:11000/Status".to_string()
        }
        .message(),
        "Error parsing XML <status/> from http://10.0.0.2:11000/Status: missing field `etag`"
    );
    assert_eq!(Error::CancelError.message(), "sending on a closed channel");
    assert_eq!(Error::AlreadyDiscovering.message(), "Already discovering using zeroconf");
    assert_eq!(Error::Unknown.message(), "IDK BRO");
}

#[test]
fn decode_failure_carries_payload_and_source() {
    let fault = Status::decode(&Element::new("status")).unwrap_err();
    let error = Error::decode_failure(fault, "<status></status>", "http://10.0.0.2:11000/Status");
    assert_eq!(
        error,
        Error::XMLError {
            source: Fault::MissingField("etag".to_string()),
            xml: "<status></status>".to_string(),
            url: "http://10.0.0.2:11000/Status".to_string(),
        }
    );
}
