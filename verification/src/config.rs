use vstd::prelude::*;
use vstd::std_specs::convert::FromSpecImpl;

verus! {

/// How the identification string is put on the wire.
#[derive(Clone, Copy, Debug, PartialEq, Eq, Structural)]
pub enum ClientIdType {
    /// The protocol's line ending `\r\n` is appended when the string is sent.
    Standard,
    /// The string is sent exactly as given, with no line ending added.
    Raw,
}

/// The identification string sent at the beginning of the protocol.
#[derive(Debug)]
pub struct ClientId {
    pub kind: ClientIdType,
    pub id: String,
}

/// The number of bytes written and read, and the number of seconds, before a
/// key re-exchange is requested. A field left unset takes its default.
#[derive(Clone, Copy, Debug)]
pub struct Limits {
    pub rekey_write_limit: Option<u32>,
    pub rekey_read_limit: Option<u32>,
    /// In seconds.
    pub rekey_time_limit: Option<u32>,
}

/// Re-exchange limits with every field decided.
#[derive(Clone, Copy, Debug, PartialEq, Eq, Structural)]
pub struct RekeyLimits {
    pub rekey_write_limit: usize,
    pub rekey_read_limit: usize,
    /// In seconds.
    pub rekey_time_limit: u64,
}

/// Default number of bytes before a re-exchange: 1 GiB.
pub const DEFAULT_REKEY_BYTES: u32 = 0x4000_0000;

/// Default number of seconds before a re-exchange: one hour.
pub const DEFAULT_REKEY_SECONDS: u32 = 3600;

/// The value of an optional tunable: what was given, or else the fallback.
pub open spec fn or_default(given: Option<u32>, fallback: u32) -> u32 {
    match given {
        Some(v) => v,
        None => fallback,
    }
}

impl RekeyLimits {
    /// The limits used when none are configured.
    pub open spec fn standard() -> RekeyLimits {
        RekeyLimits {
            rekey_write_limit: DEFAULT_REKEY_BYTES as usize,
            rekey_read_limit: DEFAULT_REKEY_BYTES as usize,
            rekey_time_limit: DEFAULT_REKEY_SECONDS as u64,
        }
    }

    /// The limits that `limits` describes: each field as given, or else its default.
    pub open spec fn completed(limits: Limits) -> RekeyLimits {
        RekeyLimits {
            rekey_write_limit: or_default(limits.rekey_write_limit, DEFAULT_REKEY_BYTES) as usize,
            rekey_read_limit: or_default(limits.rekey_read_limit, DEFAULT_REKEY_BYTES) as usize,
            rekey_time_limit: or_default(limits.rekey_time_limit, DEFAULT_REKEY_SECONDS) as u64,
        }
    }
}

impl From<Limits> for RekeyLimits {
    fn from(limits: Limits) -> (r: RekeyLimits) {
        let write: u32 = match limits.rekey_write_limit {
            Some(v) => v,
            None => DEFAULT_REKEY_BYTES,
        };
        let read: u32 = match limits.rekey_read_limit {
            Some(v) => v,
            None => DEFAULT_REKEY_BYTES,
        };
        let seconds: u32 = match limits.rekey_time_limit {
            Some(v) => v,
            None => DEFAULT_REKEY_SECONDS,
        };
        RekeyLimits {
            rekey_write_limit: write as usize,
            rekey_read_limit: read as usize,
            rekey_time_limit: seconds as u64,
        }
    }
}

impl FromSpecImpl<Limits> for RekeyLimits {
    open spec fn obeys_from_spec() -> bool {
        true
    }

    open spec fn from_spec(limits: Limits) -> RekeyLimits {
        RekeyLimits::completed(limits)
    }
}

/// The tunables a caller may set. Whatever is left unset keeps the value of the
/// transport's own defaults, except the timeout: unset means no timeout.
#[derive(Debug)]
pub struct ClientConfig {
    /// The client identification string.
    pub client_id: Option<ClientId>,
    /// The byte and time limits before key re-exchange.
    pub limits: Option<Limits>,
    /// The initial size of a channel's flow-control window.
    pub window_size: Option<u32>,
    /// The maximal size of a single packet.
    pub maximum_packet_size: Option<u32>,
    /// Time after which an idle connection is dropped, in milliseconds.
    pub connection_timeout: Option<u32>,
    /// Whether the session is used without an authentication call.
    pub anonymous: Option<bool>,
}

/// The configuration handed to the transport, every field decided.
#[derive(Debug)]
pub struct TransportConfig {
    pub client_id: ClientId,
    pub limits: RekeyLimits,
    pub window_size: u32,
    pub maximum_packet_size: u32,
    /// In milliseconds; `None` means that the connection never times out.
    pub connection_timeout: Option<u64>,
    pub anonymous: bool,
}

/// What a caller hands to `connect`: the tunables and the two optional
/// trust-decision handlers. `K` is the type of the host-key handler, `B` that
/// of the banner handler; the library never calls either, it only decides when
/// each is handed out and released.
pub struct Config<K, B> {
    pub client: Option<ClientConfig>,
    pub check_server_key: Option<K>,
    pub auth_banner: Option<B>,
}

impl ClientConfig {
    /// A configuration with nothing set.
    pub fn unset() -> (c: ClientConfig)
        ensures
            c.client_id is None,
            c.limits is None,
            c.window_size is None,
            c.maximum_packet_size is None,
            c.connection_timeout is None,
            c.anonymous is None,
    {
        ClientConfig {
            client_id: None,
            limits: None,
            window_size: None,
            maximum_packet_size: None,
            connection_timeout: None,
            anonymous: None,
        }
    }

    /// The transport configuration that these tunables describe over `defaults`.
    pub open spec fn resolved(self, defaults: TransportConfig) -> TransportConfig {
        TransportConfig {
            client_id: match self.client_id {
                Some(id) => id,
                None => defaults.client_id,
            },
            limits: match self.limits {
                Some(l) => RekeyLimits::completed(l),
                None => defaults.limits,
            },
            window_size: or_default(self.window_size, defaults.window_size),
            maximum_packet_size: or_default(self.maximum_packet_size, defaults.maximum_packet_size),
            connection_timeout: match self.connection_timeout {
                Some(ms) => Some(ms as u64),
                None => None,
            },
            anonymous: match self.anonymous {
                Some(a) => a,
                None => defaults.anonymous,
            },
        }
    }

    /// Resolve the tunables: each field that is set replaces the default,
    /// limits are completed field by field, and the timeout is taken as given
    /// (unset: none), whatever the default was.
    pub fn resolve(self, defaults: TransportConfig) -> (r: TransportConfig)
        ensures
            r == self.resolved(defaults),
    {
        let ClientConfig {
            client_id,
            limits,
            window_size,
            maximum_packet_size,
            connection_timeout,
            anonymous,
        } = self;
        let mut out = defaults;
        if let Some(id) = client_id {
            out.client_id = id;
        }
        if let Some(l) = limits {
            out.limits = RekeyLimits::from(l);
        }
        if let Some(w) = window_size {
            out.window_size = w;
        }
        if let Some(m) = maximum_packet_size {
            out.maximum_packet_size = m;
        }
        out.connection_timeout = match connection_timeout {
            Some(ms) => Some(ms as u64),
            None => None,
        };
        if let Some(a) = anonymous {
            out.anonymous = a;
        }
        out
    }
}

} // verus!
