use vstd::prelude::*;

verus! {

/// A reason for disconnection. Each has a code that is fixed on the wire; the
/// code 4 is reserved and stands for no reason.
#[derive(Clone, Copy, Debug, PartialEq, Eq, Structural)]
pub enum DisconnectReason {
    HostNotAllowedToConnect,
    ProtocolError,
    KeyExchangeFailed,
    MACError,
    CompressionError,
    ServiceNotAvailable,
    ProtocolVersionNotSupported,
    HostKeyNotVerifiable,
    ConnectionLost,
    ByApplication,
    TooManyConnections,
    AuthCancelledByUser,
    NoMoreAuthMethodsAvailable,
    IllegalUserName,
}

/// The wire code of a reason.
pub open spec fn code_of(reason: DisconnectReason) -> u32 {
    match reason {
        DisconnectReason::HostNotAllowedToConnect => 1,
        DisconnectReason::ProtocolError => 2,
        DisconnectReason::KeyExchangeFailed => 3,
        DisconnectReason::MACError => 5,
        DisconnectReason::CompressionError => 6,
        DisconnectReason::ServiceNotAvailable => 7,
        DisconnectReason::ProtocolVersionNotSupported => 8,
        DisconnectReason::HostKeyNotVerifiable => 9,
        DisconnectReason::ConnectionLost => 10,
        DisconnectReason::ByApplication => 11,
        DisconnectReason::TooManyConnections => 12,
        DisconnectReason::AuthCancelledByUser => 13,
        DisconnectReason::NoMoreAuthMethodsAvailable => 14,
        DisconnectReason::IllegalUserName => 15,
    }
}

/// The reason that a wire code stands for, if it stands for one.
pub open spec fn reason_of(code: u32) -> Option<DisconnectReason> {
    if code == 1 {
        Some(DisconnectReason::HostNotAllowedToConnect)
    } else if code == 2 {
        Some(DisconnectReason::ProtocolError)
    } else if code == 3 {
        Some(DisconnectReason::KeyExchangeFailed)
    } else if code == 5 {
        Some(DisconnectReason::MACError)
    } else if code == 6 {
        Some(DisconnectReason::CompressionError)
    } else if code == 7 {
        Some(DisconnectReason::ServiceNotAvailable)
    } else if code == 8 {
        Some(DisconnectReason::ProtocolVersionNotSupported)
    } else if code == 9 {
        Some(DisconnectReason::HostKeyNotVerifiable)
    } else if code == 10 {
        Some(DisconnectReason::ConnectionLost)
    } else if code == 11 {
        Some(DisconnectReason::ByApplication)
    } else if code == 12 {
        Some(DisconnectReason::TooManyConnections)
    } else if code == 13 {
        Some(DisconnectReason::AuthCancelledByUser)
    } else if code == 14 {
        Some(DisconnectReason::NoMoreAuthMethodsAvailable)
    } else if code == 15 {
        Some(DisconnectReason::IllegalUserName)
    } else {
        None
    }
}

impl DisconnectReason {
    /// The code sent on the wire for this reason.
    pub fn code(self) -> (code: u32)
        ensures
            code == code_of(self),
            1 <= code <= 15,
            code != 4,
    {
        match self {
            DisconnectReason::HostNotAllowedToConnect => 1,
            DisconnectReason::ProtocolError => 2,
            DisconnectReason::KeyExchangeFailed => 3,
            DisconnectReason::MACError => 5,
            DisconnectReason::CompressionError => 6,
            DisconnectReason::ServiceNotAvailable => 7,
            DisconnectReason::ProtocolVersionNotSupported => 8,
            DisconnectReason::HostKeyNotVerifiable => 9,
            DisconnectReason::ConnectionLost => 10,
            DisconnectReason::ByApplication => 11,
            DisconnectReason::TooManyConnections => 12,
            DisconnectReason::AuthCancelledByUser => 13,
            DisconnectReason::NoMoreAuthMethodsAvailable => 14,
            DisconnectReason::IllegalUserName => 15,
        }
    }

    /// The reason with the given wire code; none for 0, for the reserved code
    /// 4 and for anything above 15.
    pub fn from_code(code: u32) -> (reason: Option<DisconnectReason>)
        ensures
            reason == reason_of(code),
            reason is Some <==> 1 <= code <= 15 && code != 4,
    {
        match code {
            1 => Some(DisconnectReason::HostNotAllowedToConnect),
            2 => Some(DisconnectReason::ProtocolError),
            3 => Some(DisconnectReason::KeyExchangeFailed),
            5 => Some(DisconnectReason::MACError),
            6 => Some(DisconnectReason::CompressionError),
            7 => Some(DisconnectReason::ServiceNotAvailable),
            8 => Some(DisconnectReason::ProtocolVersionNotSupported),
            9 => Some(DisconnectReason::HostKeyNotVerifiable),
            10 => Some(DisconnectReason::ConnectionLost),
            11 => Some(DisconnectReason::ByApplication),
            12 => Some(DisconnectReason::TooManyConnections),
            13 => Some(DisconnectReason::AuthCancelledByUser),
            14 => Some(DisconnectReason::NoMoreAuthMethodsAvailable),
            15 => Some(DisconnectReason::IllegalUserName),
            _ => None,
        }
    }
}

/// Every reason is found again from its code, so no two reasons share one.
pub proof fn lemma_code_round_trip(reason: DisconnectReason)
    ensures
        reason_of(code_of(reason)) == Some(reason),
{
}

/// A code that stands for a reason is the code of that reason.
pub proof fn lemma_reason_round_trip(code: u32)
    requires
        reason_of(code) is Some,
    ensures
        code_of(reason_of(code).unwrap()) == code,
{
}

} // verus!
