use vstd::prelude::*;
use crate::err::{SshError, ErrorKind};

verus! {

/// The two trust checkpoints that the transport reaches during a handshake.
#[derive(Clone, Copy, Debug, PartialEq, Eq, Structural)]
pub enum BridgeEvent {
    /// The peer sent an authentication banner.
    Banner,
    /// The peer's host key has to be accepted or rejected.
    ServerKey,
}

/// What the bridge still holds: which handlers have not been released yet.
pub struct BridgeState {
    pub banner_armed: bool,
    pub key_armed: bool,
}

/// The bridge between the transport's trust checkpoints and the external
/// handlers. It owns each handler until the one moment it is handed out, and
/// releases it then, so that no handler is used twice.
pub struct ClientHandle<K, B> {
    check_server_key: Option<K>,
    auth_banner: Option<B>,
}

/// What to do about a banner.
pub enum BannerAction<B> {
    /// Call `handler` once with `text`, without waiting for it, then drop it.
    Notify { handler: B, text: String },
    /// No handler is registered any more: do nothing.
    Ignore,
}

/// What to do about a host key.
pub enum KeyCheck<K> {
    /// Ask `handler`, wait for its reply, then drop it.
    Ask { handler: K },
    /// No handler was registered: the decision is already made.
    Decided { accept: bool },
}

/// What the external host-key handler gave back.
#[derive(Debug)]
pub enum HandlerReply {
    /// A definite answer.
    Value(bool),
    /// A computation that will give the answer later.
    Deferred,
    /// Something that cannot be read as a boolean.
    Unrecognized,
    /// The handler itself failed, with this text.
    Failed(String),
}

/// The decision drawn from a handler's reply.
#[derive(Debug)]
pub enum KeyVerdict {
    Accept,
    Reject,
    /// Hold the handshake open until the deferred computation resolves, then
    /// interpret what it resolved to.
    Wait,
    /// Abort the connection attempt with this error.
    Abort(SshError),
}

/// The state of the bridge after `event`.
pub open spec fn after(s: BridgeState, event: BridgeEvent) -> BridgeState {
    match event {
        BridgeEvent::Banner => BridgeState { banner_armed: false, key_armed: s.key_armed },
        BridgeEvent::ServerKey => BridgeState { banner_armed: false, key_armed: false },
    }
}

/// Whether `event`, arriving in state `s`, makes the bridge hand out a handler.
pub open spec fn fires(s: BridgeState, event: BridgeEvent) -> bool {
    match event {
        BridgeEvent::Banner => s.banner_armed,
        BridgeEvent::ServerKey => s.key_armed,
    }
}

/// The state of the bridge after the first `n` of `events`.
pub open spec fn state_at(s: BridgeState, events: Seq<BridgeEvent>, n: int) -> BridgeState
    decreases n,
{
    if n <= 0 || n > events.len() {
        s
    } else {
        after(state_at(s, events, n - 1), events[n - 1])
    }
}

/// The decision that a handler's reply stands for. Only `true` accepts; what
/// cannot be read as a boolean rejects.
pub open spec fn verdict_of(reply: HandlerReply) -> KeyVerdict {
    match reply {
        HandlerReply::Value(true) => KeyVerdict::Accept,
        HandlerReply::Value(false) => KeyVerdict::Reject,
        HandlerReply::Deferred => KeyVerdict::Wait,
        HandlerReply::Unrecognized => KeyVerdict::Reject,
        HandlerReply::Failed(message) => KeyVerdict::Abort(
            SshError { kind: ErrorKind::Handler, message },
        ),
    }
}

/// The host-key decision that a verdict settles: none while the handshake
/// waits, acceptance only for `Accept`.
pub open spec fn decision_of(verdict: KeyVerdict) -> Option<bool> {
    match verdict {
        KeyVerdict::Accept => Some(true),
        KeyVerdict::Reject => Some(false),
        KeyVerdict::Wait => None,
        KeyVerdict::Abort(_) => Some(false),
    }
}

impl<K, B> ClientHandle<K, B> {
    pub open spec fn view(&self) -> BridgeState {
        BridgeState {
            banner_armed: self.banner_handler() is Some,
            key_armed: self.key_handler() is Some,
        }
    }

    /// The host-key handler that is still held, if any.
    pub closed spec fn key_handler(&self) -> Option<K> {
        self.check_server_key
    }

    /// The banner handler that is still held, if any.
    pub closed spec fn banner_handler(&self) -> Option<B> {
        self.auth_banner
    }

    /// A bridge that owns the handlers given.
    pub fn new(check_server_key: Option<K>, auth_banner: Option<B>) -> (h: Self)
        ensures
            h.key_handler() == check_server_key,
            h.banner_handler() == auth_banner,
            h@.key_armed == (check_server_key is Some),
            h@.banner_armed == (auth_banner is Some),
    {
        ClientHandle { check_server_key, auth_banner }
    }

    /// The peer sent a banner. The banner handler, if still held, is handed
    /// out with the text and released; a later banner finds none.
    pub fn auth_banner(&mut self, banner: &str) -> (action: BannerAction<B>)
        ensures
            final(self)@ == after(old(self)@, BridgeEvent::Banner),
            final(self).key_handler() == old(self).key_handler(),
            final(self).banner_handler() is None,
            (action is Notify) == fires(old(self)@, BridgeEvent::Banner),
            match action {
                BannerAction::Notify { handler, text } => old(self).banner_handler() == Some(
                    handler,
                ) && text@ == banner@,
                BannerAction::Ignore => old(self).banner_handler() is None,
            },
    {
        match self.auth_banner.take() {
            Some(handler) => BannerAction::Notify { handler, text: banner.to_owned() },
            None => BannerAction::Ignore,
        }
    }

    /// The host key has to be decided. The banner handler is released first,
    /// whether or not a banner ever came. A registered host-key handler is
    /// handed out and released; with none registered the key is accepted.
    pub fn check_server_key(&mut self) -> (check: KeyCheck<K>)
        ensures
            final(self)@ == after(old(self)@, BridgeEvent::ServerKey),
            final(self).key_handler() is None,
            final(self).banner_handler() is None,
            (check is Ask) == fires(old(self)@, BridgeEvent::ServerKey),
            match check {
                KeyCheck::Ask { handler } => old(self).key_handler() == Some(handler),
                KeyCheck::Decided { accept } => old(self).key_handler() is None && accept,
            },
    {
        self.auth_banner = None;
        match self.check_server_key.take() {
            Some(handler) => KeyCheck::Ask { handler },
            None => KeyCheck::Decided { accept: true },
        }
    }
}

/// Read a handler's reply. A deferred reply asks for a wait, after which the
/// resolved value is interpreted by a second call.
pub fn interpret_reply(reply: HandlerReply) -> (v: KeyVerdict)
    ensures
        v == verdict_of(reply),
{
    match reply {
        HandlerReply::Value(accept) => {
            if accept {
                KeyVerdict::Accept
            } else {
                KeyVerdict::Reject
            }
        },
        HandlerReply::Deferred => KeyVerdict::Wait,
        HandlerReply::Unrecognized => KeyVerdict::Reject,
        HandlerReply::Failed(message) => KeyVerdict::Abort(SshError::new(ErrorKind::Handler, message)),
    }
}

/// A reply that cannot be read as a boolean settles the decision, and settles
/// it against the key.
pub proof fn lemma_unrecognized_reply_rejects()
    ensures
        verdict_of(HandlerReply::Unrecognized) == KeyVerdict::Reject,
        decision_of(verdict_of(HandlerReply::Unrecognized)) == Some(false),
{
}

/// Only the reply `true` accepts a key: every other reply rejects it, waits,
/// or aborts.
pub proof fn lemma_only_true_accepts(reply: HandlerReply)
    ensures
        decision_of(verdict_of(reply)) == Some(true) <==> reply == HandlerReply::Value(true),
{
}

/// Once the banner handler is released it stays released.
pub proof fn lemma_banner_stays_released(s: BridgeState, events: Seq<BridgeEvent>, i: int, j: int)
    requires
        0 <= i <= j <= events.len(),
        !state_at(s, events, i).banner_armed,
    ensures
        !state_at(s, events, j).banner_armed,
    decreases j - i,
{
    if i < j {
        lemma_banner_stays_released(s, events, i, j - 1);
    }
}

/// Once the host-key handler is released it stays released.
pub proof fn lemma_key_stays_released(s: BridgeState, events: Seq<BridgeEvent>, i: int, j: int)
    requires
        0 <= i <= j <= events.len(),
        !state_at(s, events, i).key_armed,
    ensures
        !state_at(s, events, j).key_armed,
    decreases j - i,
{
    if i < j {
        lemma_key_stays_released(s, events, i, j - 1);
    }
}

/// Whatever events arrive in whatever order, the banner handler is handed out
/// at most once: after any banner event, no later banner event fires.
pub proof fn lemma_banner_fires_at_most_once(
    s: BridgeState,
    events: Seq<BridgeEvent>,
    i: int,
    j: int,
)
    requires
        0 <= i < j < events.len(),
        events[i] == BridgeEvent::Banner,
    ensures
        !fires(state_at(s, events, j), BridgeEvent::Banner),
{
    assert(!state_at(s, events, i + 1).banner_armed);
    lemma_banner_stays_released(s, events, i + 1, j);
}

/// The banner handler is never handed out after a host-key decision was
/// requested: a banner fires strictly before the host-key check or not at all.
pub proof fn lemma_banner_never_after_key_check(
    s: BridgeState,
    events: Seq<BridgeEvent>,
    i: int,
    j: int,
)
    requires
        0 <= i < j < events.len(),
        events[i] == BridgeEvent::ServerKey,
    ensures
        !fires(state_at(s, events, j), BridgeEvent::Banner),
{
    assert(!state_at(s, events, i + 1).banner_armed);
    lemma_banner_stays_released(s, events, i + 1, j);
}

/// The host-key handler is handed out at most once.
pub proof fn lemma_key_handler_asked_at_most_once(
    s: BridgeState,
    events: Seq<BridgeEvent>,
    i: int,
    j: int,
)
    requires
        0 <= i < j < events.len(),
        events[i] == BridgeEvent::ServerKey,
    ensures
        !fires(state_at(s, events, j), BridgeEvent::ServerKey),
{
    assert(!state_at(s, events, i + 1).key_armed);
    lemma_key_stays_released(s, events, i + 1, j);
}

} // verus!
