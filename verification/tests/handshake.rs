use hegel_session::handshake::{check_greeting, check_handshake, HandshakeError};
use hegel_session::version::VersionError;

#[test]
fn the_supported_version_is_taken() {
    assert_eq!(check_handshake(b"Hegel/0.14").unwrap(), (0, 14));
    assert_eq!(check_greeting("Hegel/+0.014").unwrap(), (0, 14));
}

#[test]
fn other_versions_are_refused() {
    for version in ["0.13", "0.15", "1.0", "1.14"] {
        let error = check_handshake(format!("Hegel/{}", version).as_bytes()).unwrap_err();
        assert!(matches!(&error, HandshakeError::Unsupported { version: v } if v == version));
        assert!(error.kills_server());
    }
    assert_eq!(
        check_greeting("Hegel/0.15").unwrap_err().message(),
        "hegel-rust supports protocol versions 0.14 through 0.14, but the connected server is \
         using protocol version 0.15. Upgrading hegel-rust or downgrading hegel-core might help."
    );
}

#[test]
fn an_answer_without_the_greeting_is_refused() {
    for answer in ["", "Hegel", "hegel/0.14", " Hegel/0.14", "0.14"] {
        let error = check_handshake(answer.as_bytes()).unwrap_err();
        assert!(matches!(&error, HandshakeError::BadResponse { decoded } if decoded == answer));
        assert!(error.kills_server());
    }
    assert_eq!(
        check_greeting("no \"greeting\"\n").unwrap_err().message(),
        "Bad handshake response: \"no \\\"greeting\\\"\\n\""
    );
}

#[test]
fn a_malformed_version_leaves_the_server_alone() {
    let error = check_handshake(b"Hegel/14").unwrap_err();
    assert!(matches!(
        &error,
        HandshakeError::BadVersion { version, error: VersionError::Format } if version == "14"
    ));
    assert!(!error.kills_server());
    assert_eq!(
        error.message(),
        "invalid version string '14': expected 'major.minor' format"
    );
    let error = check_handshake(b"Hegel/0.14 ").unwrap_err();
    assert!(matches!(&error, HandshakeError::BadVersion { error: VersionError::Minor, .. }));
}

#[test]
fn bytes_that_are_no_text_are_refused() {
    let error = check_handshake(b"\xff\xfe").unwrap_err();
    assert!(matches!(
        &error,
        HandshakeError::BadResponse { decoded } if decoded == "\u{FFFD}\u{FFFD}"
    ));
    let error = check_handshake(b"Hegel/0.14\xff").unwrap_err();
    assert!(matches!(
        &error,
        HandshakeError::BadVersion { version, error: VersionError::Minor }
            if version == "0.14\u{FFFD}"
    ));
}
