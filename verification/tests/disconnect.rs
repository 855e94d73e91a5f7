use ssh_session::disconnect::DisconnectReason;

const ALL: [(DisconnectReason, u32); 14] = [
    (DisconnectReason::HostNotAllowedToConnect, 1),
    (DisconnectReason::ProtocolError, 2),
    (DisconnectReason::KeyExchangeFailed, 3),
    (DisconnectReason::MACError, 5),
    (DisconnectReason::CompressionError, 6),
    (DisconnectReason::ServiceNotAvailable, 7),
    (DisconnectReason::ProtocolVersionNotSupported, 8),
    (DisconnectReason::HostKeyNotVerifiable, 9),
    (DisconnectReason::ConnectionLost, 10),
    (DisconnectReason::ByApplication, 11),
    (DisconnectReason::TooManyConnections, 12),
    (DisconnectReason::AuthCancelledByUser, 13),
    (DisconnectReason::NoMoreAuthMethodsAvailable, 14),
    (DisconnectReason::IllegalUserName, 15),
];

#[test]
fn every_reason_has_its_wire_code() {
    for (reason, code) in ALL {
        assert_eq!(reason.code(), code);
    }
}

#[test]
fn every_code_gives_its_reason_back() {
    for (reason, code) in ALL {
        assert_eq!(DisconnectReason::from_code(code), Some(reason));
        assert_eq!(DisconnectReason::from_code(reason.code()), Some(reason));
    }
}

#[test]
fn reserved_and_unknown_codes_stand_for_no_reason() {
    assert_eq!(DisconnectReason::from_code(4), None);
    assert_eq!(DisconnectReason::from_code(0), None);
    assert_eq!(DisconnectReason::from_code(16), None);
    assert_eq!(DisconnectReason::from_code(u32::MAX), None);
}

#[test]
fn engine_knows_every_code_by_the_same_name() {
    for (reason, code) in ALL {
        let theirs = russh::Disconnect::try_from(code).unwrap();
        assert_eq!(format!("{theirs:?}"), format!("{reason:?}"));
    }
}
