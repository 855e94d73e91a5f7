use vstd::prelude::*;
use crate::err::{ErrorKind, SshError};
use crate::keypair::PublicKey;

verus! {

/// One line of the ledger: a host, a port, and the key accepted for them.
pub struct KnownHostView {
    pub host: Seq<char>,
    pub port: u16,
    pub key: Seq<u8>,
}

/// An entry of the known-hosts ledger.
#[derive(Debug)]
pub struct KnownHost {
    pub host: String,
    pub port: u16,
    pub key: PublicKey,
}

impl View for KnownHost {
    type V = KnownHostView;

    open spec fn view(&self) -> KnownHostView {
        KnownHostView { host: self.host@, port: self.port, key: self.key@.blob }
    }
}

/// The known-hosts ledger as read from storage: entries in the order in which
/// they were recorded. Nothing is ever removed.
#[derive(Debug)]
pub struct KnownHosts {
    entries: Vec<KnownHost>,
}

impl View for KnownHosts {
    type V = Seq<KnownHostView>;

    closed spec fn view(&self) -> Seq<KnownHostView> {
        Seq::new(self.entries@.len(), |i: int| self.entries@[i]@)
    }
}

/// The largest port number.
pub const MAX_PORT: u32 = 65535;

/// The text of the error for a port above `MAX_PORT`.
pub const INVALID_PORT: &'static str = "the port is above 65535";

/// The port that `port` names: ports have 16 bits, and a larger number names
/// none.
pub open spec fn port_of(port: u32) -> Option<u16> {
    if port <= MAX_PORT {
        Some(port as u16)
    } else {
        None
    }
}

/// Whether `ledger` holds an entry for exactly this host, port and key.
pub open spec fn known(ledger: Seq<KnownHostView>, host: Seq<char>, port: u16, key: Seq<u8>) -> bool {
    exists|i: int|
        0 <= i < ledger.len() && #[trigger] ledger[i] == (KnownHostView { host, port, key })
}

/// The port that `port` names, if it names one.
pub fn ledger_port(port: u32) -> (p: Option<u16>)
    ensures
        p == port_of(port),
{
    if port <= MAX_PORT {
        Some(port as u16)
    } else {
        None
    }
}

impl KnownHosts {
    /// A ledger without entries: every host is unknown.
    pub fn new() -> (ledger: KnownHosts)
        ensures
            ledger@ == Seq::<KnownHostView>::empty(),
    {
        KnownHosts { entries: Vec::new() }
    }

    /// The number of entries.
    pub fn len(&self) -> (n: usize)
        ensures
            n == self@.len(),
    {
        self.entries.len()
    }

    /// The entry recorded last, if there is any.
    pub fn last(&self) -> (entry: Option<&KnownHost>)
        ensures
            entry is Some <==> self@.len() > 0,
            entry matches Some(e) ==> e@ == self@.last(),
    {
        let n = self.entries.len();
        if n == 0 {
            None
        } else {
            Some(&self.entries[n - 1])
        }
    }

    /// Append an entry.
    pub fn record(&mut self, host: String, port: u16, key: PublicKey)
        ensures
            final(self)@ == old(self)@.push(KnownHostView { host: host@, port, key: key@.blob }),
    {
        self.entries.push(KnownHost { host, port, key });
    }
}

/// Whether the ledger holds `pubkey` for `host` and `port`. A host without an
/// entry is unknown, which is `false` and no error; so is a host recorded
/// with another key, and so is any host at a port above `MAX_PORT`, for which
/// no entry can exist.
pub fn check_known_hosts(host: String, port: u32, pubkey: &PublicKey, ledger: &KnownHosts) -> (found:
    bool)
    ensures
        found == (port <= MAX_PORT && known(ledger@, host@, port as u16, pubkey@.blob)),
{
    let wire = match ledger_port(port) {
        Some(wire) => wire,
        None => {
            return false;
        },
    };
    let ghost target = KnownHostView { host: host@, port: wire, key: pubkey@.blob };
    let mut i: usize = 0;
    while i < ledger.entries.len()
        invariant
            i <= ledger.entries.len(),
            port <= MAX_PORT,
            wire == port as u16,
            target == (KnownHostView { host: host@, port: wire, key: pubkey@.blob }),
            forall|j: int| 0 <= j < i ==> #[trigger] ledger@[j] != target,
        decreases ledger.entries.len() - i,
    {
        let entry = &ledger.entries[i];
        if entry.port == wire && entry.host == host && entry.key.same_key(pubkey) {
            assert(ledger@[i as int] == target);
            return true;
        }
        i += 1;
    }
    false
}

/// Record `pubkey` for `host` and `port` at the end of the ledger. A port
/// above `MAX_PORT` is refused, and the ledger stays as it was.
pub fn learn_known_hosts(host: String, port: u32, pubkey: &PublicKey, ledger: &mut KnownHosts) -> (r:
    Result<(), SshError>)
    ensures
        r is Ok <==> port <= MAX_PORT,
        r is Ok ==> final(ledger)@ == old(ledger)@.push(
            KnownHostView { host: host@, port: port as u16, key: pubkey@.blob },
        ) && known(final(ledger)@, host@, port as u16, pubkey@.blob),
        r matches Err(e) ==> final(ledger)@ == old(ledger)@ && e.kind == ErrorKind::Persistence
            && e.message@ == INVALID_PORT@,
{
    match ledger_port(port) {
        Some(wire) => {
            ledger.record(host, wire, pubkey.copy());
            assert(ledger@[ledger@.len() - 1] == (KnownHostView {
                host: host@,
                port: wire,
                key: pubkey@.blob,
            }));
            Ok(())
        },
        None => Err(SshError::with_text(ErrorKind::Persistence, INVALID_PORT)),
    }
}

/// What was learned is known: after an entry is recorded, the check for its
/// host, port and key finds it.
pub proof fn lemma_learned_is_known(ledger: Seq<KnownHostView>, host: Seq<char>, port: u16, key: Seq<u8>)
    ensures
        known(ledger.push(KnownHostView { host, port, key }), host, port, key),
{
    let after = ledger.push(KnownHostView { host, port, key });
    assert(after[ledger.len() as int] == (KnownHostView { host, port, key }));
}

/// Learning adds and takes nothing away: after an entry is recorded, exactly
/// that entry and what was known before are known.
pub proof fn lemma_learning_adds_one(
    ledger: Seq<KnownHostView>,
    learned: KnownHostView,
    host: Seq<char>,
    port: u16,
    key: Seq<u8>,
)
    ensures
        known(ledger.push(learned), host, port, key) <==> known(ledger, host, port, key) || learned
            == (KnownHostView { host, port, key }),
{
    let after = ledger.push(learned);
    let target = KnownHostView { host, port, key };
    if known(ledger, host, port, key) {
        let i = choose|i: int| 0 <= i < ledger.len() && #[trigger] ledger[i] == target;
        assert(after[i] == target);
    }
    if learned == target {
        assert(after[ledger.len() as int] == target);
    }
    if known(after, host, port, key) {
        let i = choose|i: int| 0 <= i < after.len() && #[trigger] after[i] == target;
        if i < ledger.len() {
            assert(ledger[i] == target);
        }
    }
}

/// A host that was never learned is unknown, whatever key is presented.
pub proof fn lemma_unlearned_is_unknown(
    ledger: Seq<KnownHostView>,
    host: Seq<char>,
    port: u16,
    key: Seq<u8>,
)
    requires
        forall|i: int| 0 <= i < ledger.len() ==> (#[trigger] ledger[i]).host != host,
    ensures
        !known(ledger, host, port, key),
{
}

} // verus!
