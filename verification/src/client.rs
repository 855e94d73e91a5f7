use vstd::prelude::*;
use vstd::string::StringExecFns;
use crate::bridge::{decision_of, verdict_of, ClientHandle, HandlerReply, KeyVerdict};
use crate::config::{Config, TransportConfig};
use crate::disconnect::DisconnectReason;
use crate::engine;
use crate::err::{ErrorKind, SshError};
use crate::keypair::KeyPair;
use crate::session::{
    initial, is_closed, lemma_rejected_key_fails_closed, may_authenticate, may_disconnect,
    may_exec, run, step, SessionEvent, SessionState, SessionView,
};

verus! {

/// The session handle: it follows one connection from the attempt to connect
/// to its end, and decides which operation may be asked of the transport.
#[derive(Debug)]
pub struct Client {
    state: SessionState,
    key_accepted: bool,
    config: TransportConfig,
}

/// What `connect` prepares: where to connect, the session that follows the
/// attempt, and the bridge that answers the transport's trust checkpoints.
pub struct Connection<K, B> {
    pub address: String,
    pub client: Client,
    pub handle: ClientHandle<K, B>,
}

/// The secret of an authentication attempt.
pub enum Credential {
    Password(String),
    KeyPair(KeyPair),
}

/// An authentication attempt for the transport to make.
pub struct AuthRequest {
    pub user: String,
    pub credential: Credential,
}

/// A command for the transport to run on a channel of its own, asking the
/// peer to confirm the request.
#[derive(Debug)]
pub struct ExecRequest {
    pub command: String,
    pub want_reply: bool,
}

/// A disconnect request for the transport to send.
#[derive(Debug)]
pub struct DisconnectRequest {
    pub reason: DisconnectReason,
    pub description: String,
    pub language_tag: String,
}

/// How the server answered an authentication attempt.
#[derive(Debug)]
pub enum AuthOutcome {
    Accepted,
    /// A normal negative result: another attempt may follow.
    Rejected,
    /// The transport failed before an answer came.
    Failed(String),
}

/// The kind of the error with which an operation is refused in `state`: the
/// session is gone, or the operation comes out of order.
pub open spec fn refusal_kind(state: SessionState) -> ErrorKind {
    if is_closed(state) {
        ErrorKind::Connection
    } else {
        ErrorKind::Protocol
    }
}

/// The configuration that a caller's `config` describes over `defaults`.
pub open spec fn planned_config<K, B>(
    config: Option<Config<K, B>>,
    defaults: TransportConfig,
) -> TransportConfig {
    match config {
        Some(c) => match c.client {
            Some(tunables) => tunables.resolved(defaults),
            None => defaults,
        },
        None => defaults,
    }
}

/// The host-key handler that a caller's `config` registers.
pub open spec fn planned_key_handler<K, B>(config: Option<Config<K, B>>) -> Option<K> {
    match config {
        Some(c) => c.check_server_key,
        None => None,
    }
}

/// The banner handler that a caller's `config` registers.
pub open spec fn planned_banner_handler<K, B>(config: Option<Config<K, B>>) -> Option<B> {
    match config {
        Some(c) => c.auth_banner,
        None => None,
    }
}

/// What the transport's own defaults are known to be.
pub open spec fn transport_default(d: TransportConfig) -> bool {
    &&& d.limits == crate::config::RekeyLimits::standard()
    &&& d.connection_timeout is None
    &&& !d.anonymous
    &&& d.client_id.kind == crate::config::ClientIdType::Standard
    &&& d.window_size == 2097152
    &&& d.maximum_packet_size == 32768
}

/// Prepare a connection to `addr` over the given defaults: resolve the
/// tunables, move the handlers into the bridge, and start the session.
pub fn connect_with<K, B>(
    addr: String,
    config: Option<Config<K, B>>,
    defaults: TransportConfig,
) -> (c: Connection<K, B>)
    ensures
        c.address == addr,
        c.client@ == initial(planned_config(config, defaults).anonymous),
        c.client.config() == planned_config(config, defaults),
        c.handle.key_handler() == planned_key_handler(config),
        c.handle.banner_handler() == planned_banner_handler(config),
{
    let (tunables, check_server_key, auth_banner) = match config {
        Some(c) => (c.client, c.check_server_key, c.auth_banner),
        None => (None, None, None),
    };
    let transport = match tunables {
        Some(t) => t.resolve(defaults),
        None => defaults,
    };
    Connection {
        address: addr,
        client: Client::new(transport),
        handle: ClientHandle::new(check_server_key, auth_banner),
    }
}

/// Prepare a connection to `addr` over the transport's own defaults.
pub fn connect<K, B>(addr: String, config: Option<Config<K, B>>) -> (c: Connection<K, B>)
    ensures
        c.address == addr,
        c.client@ == initial(c.client.config().anonymous),
        exists|defaults: TransportConfig|
            transport_default(defaults) && c.client.config() == #[trigger] planned_config(
                config,
                defaults,
            ),
        c.handle.key_handler() == planned_key_handler(config),
        c.handle.banner_handler() == planned_banner_handler(config),
{
    let defaults = engine::transport_defaults();
    let ghost d = defaults;
    let c = connect_with(addr, config, defaults);
    assert(transport_default(d) && c.client.config() == planned_config(config, d));
    c
}

impl View for Client {
    type V = SessionView;

    closed spec fn view(&self) -> SessionView {
        SessionView {
            state: self.state,
            key_accepted: self.key_accepted,
            anonymous: self.config.anonymous,
        }
    }
}

impl Client {
    /// The configuration that the session was started with.
    pub closed spec fn config(&self) -> TransportConfig {
        self.config
    }

    /// A session that is about to connect with `config`.
    pub fn new(config: TransportConfig) -> (c: Client)
        ensures
            c@ == initial(config.anonymous),
            c.config() == config,
    {
        Client { state: SessionState::Connecting, key_accepted: false, config }
    }

    /// The configuration that the session was started with.
    pub fn transport_config(&self) -> (config: &TransportConfig)
        ensures
            *config == self.config(),
    {
        &self.config
    }

    /// The state of the session.
    pub fn state(&self) -> (state: SessionState)
        ensures
            state == self@.state,
    {
        self.state
    }

    /// Whether the transport is gone. This reads what was reported so far; it
    /// asks nothing of the transport.
    pub fn is_closed(&self) -> (closed: bool)
        ensures
            closed == is_closed(self@.state),
    {
        match self.state {
            SessionState::Closed | SessionState::Failed => true,
            _ => false,
        }
    }

    /// Take in what the transport reports.
    pub fn observe(&mut self, event: SessionEvent)
        ensures
            final(self)@ == step(old(self)@, event),
            final(self).config() == old(self).config(),
    {
        match self.state {
            SessionState::Connecting => match event {
                SessionEvent::KeyDecision { accept } => {
                    if accept {
                        self.key_accepted = true;
                    } else {
                        self.state = SessionState::Failed;
                    }
                },
                SessionEvent::Established => {
                    if self.key_accepted && self.config.anonymous {
                        self.state = SessionState::Authenticated;
                    } else if self.key_accepted {
                        self.state = SessionState::AwaitingAuth;
                    } else {
                        self.state = SessionState::Failed;
                    }
                },
                SessionEvent::ConnectFailed
                | SessionEvent::TransportFailed
                | SessionEvent::TransportClosed => {
                    self.state = SessionState::Failed;
                },
                _ => {},
            },
            SessionState::AwaitingAuth => match event {
                SessionEvent::AuthResult { accepted } => {
                    if accepted {
                        self.state = SessionState::Authenticated;
                    }
                },
                SessionEvent::Disconnected | SessionEvent::TransportClosed => {
                    self.state = SessionState::Closed;
                },
                SessionEvent::TransportFailed => {
                    self.state = SessionState::Failed;
                },
                _ => {},
            },
            SessionState::Authenticated => match event {
                SessionEvent::Disconnected | SessionEvent::TransportClosed => {
                    self.state = SessionState::Closed;
                },
                SessionEvent::TransportFailed => {
                    self.state = SessionState::Failed;
                },
                _ => {},
            },
            SessionState::Closed | SessionState::Failed => {},
        }
    }

    /// Take in the verdict on the host key. A verdict that settles the
    /// decision is the decision; one that waits changes nothing.
    pub fn key_verdict(&mut self, verdict: &KeyVerdict)
        ensures
            final(self)@ == after_verdict(old(self)@, *verdict),
            final(self).config() == old(self).config(),
    {
        match verdict {
            KeyVerdict::Accept => self.observe(SessionEvent::KeyDecision { accept: true }),
            KeyVerdict::Reject => self.observe(SessionEvent::KeyDecision { accept: false }),
            KeyVerdict::Abort(_) => self.observe(SessionEvent::KeyDecision { accept: false }),
            KeyVerdict::Wait => {},
        }
    }

    /// The error with which an operation is refused in the present state.
    fn refusal(&self) -> (e: SshError)
        ensures
            e.kind == refusal_kind(self@.state),
    {
        if self.is_closed() {
            SshError::with_text(ErrorKind::Connection, "the session is closed")
        } else {
            SshError::with_text(ErrorKind::Protocol, "the session is not ready for this request")
        }
    }

    /// The connection attempt ended: with `Ok` the handshake completed, with
    /// `Err` it failed for the reason given. A handshake that completed
    /// without an accepted host key is a failure too. After a handshake that
    /// succeeded, a session configured as anonymous is authenticated; every
    /// other awaits authentication.
    pub fn finish_connect(&mut self, outcome: Result<(), String>) -> (r: Result<(), SshError>)
        ensures
            final(self).config() == old(self).config(),
            final(self)@ == step(
                old(self)@,
                if outcome is Ok {
                    SessionEvent::Established
                } else {
                    SessionEvent::ConnectFailed
                },
            ),
            r is Ok <==> outcome is Ok && old(self)@.state is Connecting && old(self)@.key_accepted,
            r matches Err(e) ==> e.kind == ErrorKind::Connection,
            outcome matches Err(reason) ==> r is Err && r->Err_0.message == reason,
    {
        match outcome {
            Ok(()) => {
                let connecting = matches!(self.state, SessionState::Connecting);
                self.observe(SessionEvent::Established);
                if connecting && self.key_accepted {
                    Ok(())
                } else if connecting {
                    Err(SshError::with_text(ErrorKind::Connection, "the host key was not accepted"))
                } else {
                    Err(SshError::with_text(ErrorKind::Connection, "no connection attempt is under way"))
                }
            },
            Err(reason) => {
                self.observe(SessionEvent::ConnectFailed);
                Err(SshError::new(ErrorKind::Connection, reason))
            },
        }
    }

    /// Ask for one password authentication attempt. It is admitted while the
    /// session awaits authentication, as often as the caller likes.
    pub fn authenticate_password(&self, user: String, password: String) -> (r: Result<
        AuthRequest,
        SshError,
    >)
        ensures
            r is Ok <==> may_authenticate(self@.state),
            r matches Ok(request) ==> request.user == user && request.credential
                == Credential::Password(password),
            r matches Err(e) ==> e.kind == refusal_kind(self@.state),
    {
        match self.state {
            SessionState::AwaitingAuth => Ok(
                AuthRequest { user, credential: Credential::Password(password) },
            ),
            _ => Err(self.refusal()),
        }
    }

    /// Ask for one public-key authentication attempt with `key`.
    pub fn authenticate_key_pair(&self, user: String, key: KeyPair) -> (r: Result<
        AuthRequest,
        SshError,
    >)
        ensures
            r is Ok <==> may_authenticate(self@.state),
            r matches Ok(request) ==> request.user == user && request.credential
                == Credential::KeyPair(key),
            r matches Err(e) ==> e.kind == refusal_kind(self@.state),
    {
        match self.state {
            SessionState::AwaitingAuth => Ok(
                AuthRequest { user, credential: Credential::KeyPair(key) },
            ),
            _ => Err(self.refusal()),
        }
    }

    /// The server's answer to an authentication attempt. A rejection is a
    /// result, not an error, and leaves the session open for another attempt;
    /// only a failure of the transport is an error, and it ends the session.
    pub fn finish_authentication(&mut self, outcome: AuthOutcome) -> (r: Result<bool, SshError>)
        ensures
            final(self).config() == old(self).config(),
            final(self)@ == match outcome {
                AuthOutcome::Accepted => step(old(self)@, SessionEvent::AuthResult { accepted: true }),
                AuthOutcome::Rejected => step(
                    old(self)@,
                    SessionEvent::AuthResult { accepted: false },
                ),
                AuthOutcome::Failed(_) => step(old(self)@, SessionEvent::TransportFailed),
            },
            r is Ok <==> may_authenticate(old(self)@.state) && !(outcome is Failed),
            r matches Ok(accepted) ==> accepted == (outcome is Accepted),
            r matches Err(e) ==> e.kind == if outcome is Failed {
                ErrorKind::Connection
            } else {
                refusal_kind(old(self)@.state)
            },
            outcome matches AuthOutcome::Failed(reason) ==> r is Err && r->Err_0.message == reason,
    {
        match outcome {
            AuthOutcome::Failed(reason) => {
                self.observe(SessionEvent::TransportFailed);
                Err(SshError::new(ErrorKind::Connection, reason))
            },
            AuthOutcome::Accepted => {
                if matches!(self.state, SessionState::AwaitingAuth) {
                    self.observe(SessionEvent::AuthResult { accepted: true });
                    Ok(true)
                } else {
                    Err(self.refusal())
                }
            },
            AuthOutcome::Rejected => {
                if matches!(self.state, SessionState::AwaitingAuth) {
                    Ok(false)
                } else {
                    Err(self.refusal())
                }
            },
        }
    }

    /// Ask to run `command`. It is admitted only once the session is
    /// authenticated (by an accepted attempt or, for an anonymous session, by
    /// the handshake), and no longer once the session is closed.
    pub fn exec(&self, command: String) -> (r: Result<ExecRequest, SshError>)
        ensures
            r is Ok <==> may_exec(self@.state),
            r matches Ok(request) ==> request.command == command && request.want_reply,
            r matches Err(e) ==> e.kind == refusal_kind(self@.state),
    {
        match self.state {
            SessionState::Authenticated => Ok(ExecRequest { command, want_reply: true }),
            _ => Err(self.refusal()),
        }
    }

    /// Ask to disconnect. It is admitted while there is a live transport; on
    /// a session that is closed already it is refused as such.
    pub fn disconnect(
        &self,
        reason: DisconnectReason,
        description: String,
        language_tag: String,
    ) -> (r: Result<DisconnectRequest, SshError>)
        ensures
            r is Ok <==> may_disconnect(self@.state),
            r matches Ok(request) ==> request.reason == reason && request.description
                == description && request.language_tag == language_tag,
            r matches Err(e) ==> e.kind == refusal_kind(self@.state),
    {
        match self.state {
            SessionState::AwaitingAuth | SessionState::Authenticated => Ok(
                DisconnectRequest { reason, description, language_tag },
            ),
            _ => Err(self.refusal()),
        }
    }

    /// The disconnect request ended. With `Ok` it completed and the session is
    /// closed; with `Err` the transport refused it for the reason given and
    /// the session is as it was.
    pub fn finish_disconnect(&mut self, outcome: Result<(), String>) -> (r: Result<(), SshError>)
        ensures
            final(self).config() == old(self).config(),
            final(self)@ == if outcome is Ok {
                step(old(self)@, SessionEvent::Disconnected)
            } else {
                old(self)@
            },
            r is Ok <==> outcome is Ok,
            r matches Err(e) ==> e.kind == ErrorKind::Connection,
            outcome matches Err(reason) ==> r is Err && r->Err_0.message@ == disconnect_failure(
                reason@,
            ),
            outcome is Ok && may_disconnect(old(self)@.state) ==> is_closed(final(self)@.state),
    {
        match outcome {
            Ok(()) => {
                self.observe(SessionEvent::Disconnected);
                Ok(())
            },
            Err(reason) => {
                let message = String::from_str("Disconnect failed: ").concat(reason.as_str());
                Err(SshError::new(ErrorKind::Connection, message))
            },
        }
    }
}

/// The session after a verdict on the host key.
pub open spec fn after_verdict(s: SessionView, verdict: KeyVerdict) -> SessionView {
    match decision_of(verdict) {
        Some(accept) => step(s, SessionEvent::KeyDecision { accept }),
        None => s,
    }
}

/// A connection attempt whose host-key handler gives back something that is
/// no boolean is rejected: the session has failed, and nothing that is
/// reported afterwards connects it.
pub proof fn lemma_unrecognized_reply_fails_closed(s: SessionView, later: Seq<SessionEvent>)
    requires
        s.state is Connecting,
    ensures
        run(after_verdict(s, verdict_of(HandlerReply::Unrecognized)), later).state is Failed,
{
    lemma_rejected_key_fails_closed(s, later);
}

/// The text of the error for a disconnect request that failed for `reason`.
pub open spec fn disconnect_failure(reason: Seq<char>) -> Seq<char> {
    "Disconnect failed: "@ + reason
}

} // verus!
