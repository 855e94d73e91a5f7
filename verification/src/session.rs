use vstd::prelude::*;

verus! {

/// The life of a session, from the first attempt to connect to its end.
#[derive(Clone, Copy, Debug, PartialEq, Eq, Structural)]
pub enum SessionState {
    /// The transport is being opened and the host key decided.
    Connecting,
    /// Connected; no authentication attempt has been accepted yet.
    AwaitingAuth,
    /// An authentication attempt was accepted: channels may be opened.
    Authenticated,
    /// The transport was closed in good order. Terminal.
    Closed,
    /// The connection attempt or the transport failed. Terminal.
    Failed,
}

/// What the transport reports to the session.
#[derive(Clone, Copy, Debug, PartialEq, Eq, Structural)]
pub enum SessionEvent {
    /// The host key was accepted or rejected.
    KeyDecision { accept: bool },
    /// The handshake completed.
    Established,
    /// The network or the handshake failed.
    ConnectFailed,
    /// The server answered an authentication attempt.
    AuthResult { accepted: bool },
    /// The transport broke.
    TransportFailed,
    /// A disconnect request completed.
    Disconnected,
    /// The transport was found closed.
    TransportClosed,
}

/// What the state machine remembers.
pub struct SessionView {
    pub state: SessionState,
    /// Whether a host-key decision has accepted the peer's key.
    pub key_accepted: bool,
    /// Whether the session was configured to run without authentication.
    pub anonymous: bool,
}

/// The state in which every session starts.
pub open spec fn initial(anonymous: bool) -> SessionView {
    SessionView { state: SessionState::Connecting, key_accepted: false, anonymous }
}

/// Whether the transport is gone: the session is closed or has failed.
pub open spec fn is_closed(state: SessionState) -> bool {
    state is Closed || state is Failed
}

/// Whether an authentication attempt may be made.
pub open spec fn may_authenticate(state: SessionState) -> bool {
    state is AwaitingAuth
}

/// Whether a channel may be opened to run a command.
pub open spec fn may_exec(state: SessionState) -> bool {
    state is Authenticated
}

/// Whether there is a live transport to send a disconnect request on.
pub open spec fn may_disconnect(state: SessionState) -> bool {
    state is AwaitingAuth || state is Authenticated
}

/// The session `s` moved to `state`.
pub open spec fn moved(s: SessionView, state: SessionState) -> SessionView {
    SessionView { state, key_accepted: s.key_accepted, anonymous: s.anonymous }
}

/// The state that a completed handshake leads to: a session configured as
/// anonymous needs no authentication, every other awaits it.
pub open spec fn established_state(anonymous: bool) -> SessionState {
    if anonymous {
        SessionState::Authenticated
    } else {
        SessionState::AwaitingAuth
    }
}

/// The session after `event`. Terminal states take no event; an event that
/// has no meaning in a state leaves it as it is. A handshake that completes
/// without an accepted host key fails.
pub open spec fn step(s: SessionView, event: SessionEvent) -> SessionView {
    match s.state {
        SessionState::Connecting => match event {
            SessionEvent::KeyDecision { accept } => if accept {
                SessionView {
                    state: SessionState::Connecting,
                    key_accepted: true,
                    anonymous: s.anonymous,
                }
            } else {
                moved(s, SessionState::Failed)
            },
            SessionEvent::Established => if s.key_accepted {
                moved(s, established_state(s.anonymous))
            } else {
                moved(s, SessionState::Failed)
            },
            SessionEvent::ConnectFailed
            | SessionEvent::TransportFailed
            | SessionEvent::TransportClosed => moved(s, SessionState::Failed),
            _ => s,
        },
        SessionState::AwaitingAuth => match event {
            SessionEvent::AuthResult { accepted } => if accepted {
                moved(s, SessionState::Authenticated)
            } else {
                s
            },
            SessionEvent::Disconnected | SessionEvent::TransportClosed => moved(
                s,
                SessionState::Closed,
            ),
            SessionEvent::TransportFailed => moved(s, SessionState::Failed),
            _ => s,
        },
        SessionState::Authenticated => match event {
            SessionEvent::Disconnected | SessionEvent::TransportClosed => moved(
                s,
                SessionState::Closed,
            ),
            SessionEvent::TransportFailed => moved(s, SessionState::Failed),
            _ => s,
        },
        SessionState::Closed | SessionState::Failed => s,
    }
}

/// The session after all of `events`, in order.
pub open spec fn run(s: SessionView, events: Seq<SessionEvent>) -> SessionView
    decreases events.len(),
{
    if events.len() == 0 {
        s
    } else {
        step(run(s, events.drop_last()), events.last())
    }
}

/// A session whose transport is gone stays as it is, whatever is reported
/// afterwards: closing is idempotent.
pub proof fn lemma_closed_is_final(s: SessionView, events: Seq<SessionEvent>)
    requires
        is_closed(s.state),
    ensures
        run(s, events) == s,
    decreases events.len(),
{
    if events.len() > 0 {
        lemma_closed_is_final(s, events.drop_last());
    }
}

/// Once a disconnect has completed on a live session, the session is closed,
/// and stays so: from then on no authentication attempt and no command is
/// admitted, whatever happens.
pub proof fn lemma_disconnect_closes(s: SessionView, later: Seq<SessionEvent>)
    requires
        may_disconnect(s.state),
    ensures
        is_closed(run(step(s, SessionEvent::Disconnected), later).state),
        !may_exec(run(step(s, SessionEvent::Disconnected), later).state),
        !may_authenticate(run(step(s, SessionEvent::Disconnected), later).state),
        !may_disconnect(run(step(s, SessionEvent::Disconnected), later).state),
{
    lemma_closed_is_final(step(s, SessionEvent::Disconnected), later);
}

/// A session that is past the handshake has had its host key accepted.
pub proof fn lemma_connected_means_key_accepted(anonymous: bool, events: Seq<SessionEvent>)
    ensures
        run(initial(anonymous), events).anonymous == anonymous,
        !(run(initial(anonymous), events).state is Connecting) && !(run(
            initial(anonymous),
            events,
        ).state is Failed) ==> run(initial(anonymous), events).key_accepted,
        run(initial(anonymous), events).key_accepted ==> exists|i: int|
            0 <= i < events.len() && events[i] == (SessionEvent::KeyDecision { accept: true }),
    decreases events.len(),
{
    if events.len() > 0 {
        let before = events.drop_last();
        lemma_connected_means_key_accepted(anonymous, before);
        if run(initial(anonymous), events).key_accepted {
            if run(initial(anonymous), before).key_accepted {
                let i = choose|i: int|
                    0 <= i < before.len() && before[i] == (SessionEvent::KeyDecision {
                        accept: true,
                    });
                assert(events[i] == before[i]);
            } else {
                assert(events[events.len() - 1] == (SessionEvent::KeyDecision { accept: true }));
            }
        }
    }
}

/// Once the host key is rejected during the handshake, the connection attempt
/// has failed for good: no event leads to a connected session.
pub proof fn lemma_rejected_key_fails_closed(s: SessionView, later: Seq<SessionEvent>)
    requires
        s.state is Connecting,
    ensures
        run(step(s, SessionEvent::KeyDecision { accept: false }), later).state is Failed,
{
    lemma_closed_is_final(step(s, SessionEvent::KeyDecision { accept: false }), later);
}

/// Where authentication is required, no command is admitted before an
/// authentication attempt was accepted: a session that admits one has seen an
/// accepted attempt.
pub proof fn lemma_exec_needs_accepted_auth(events: Seq<SessionEvent>)
    requires
        may_exec(run(initial(false), events).state),
    ensures
        exists|i: int|
            0 <= i < events.len() && events[i] == (SessionEvent::AuthResult { accepted: true }),
    decreases events.len(),
{
    if events.len() > 0 {
        let before = events.drop_last();
        lemma_connected_means_key_accepted(false, before);
        if may_exec(run(initial(false), before).state) {
            lemma_exec_needs_accepted_auth(before);
            let i = choose|i: int|
                0 <= i < before.len() && before[i] == (SessionEvent::AuthResult { accepted: true });
            assert(events[i] == before[i]);
        } else {
            assert(events[events.len() - 1] == (SessionEvent::AuthResult { accepted: true }));
        }
    }
}

/// An anonymous session admits commands as soon as the handshake has
/// completed with an accepted host key, and not before.
pub proof fn lemma_anonymous_needs_no_authentication(s: SessionView)
    requires
        s.state is Connecting,
    ensures
        may_exec(step(s, SessionEvent::Established).state) <==> s.key_accepted && s.anonymous,
        may_authenticate(step(s, SessionEvent::Established).state) <==> s.key_accepted
            && !s.anonymous,
{
}

} // verus!
