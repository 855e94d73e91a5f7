use vstd::prelude::*;

verus! {

/// The kinds of failure that the session layer reports.
#[derive(Clone, Copy, Debug, PartialEq, Eq, Structural)]
pub enum ErrorKind {
    /// Network or handshake failure, a rejected host key, or a session that is no longer open.
    Connection,
    /// The credential for an authentication attempt could not be found or decoded.
    AuthResolution,
    /// An operation was asked for out of order, or a peer message was malformed.
    Protocol,
    /// The known-hosts ledger could not be read or written.
    Persistence,
    /// An external trust-decision handler failed.
    Handler,
    /// A key could not be generated with the parameters given.
    Generation,
    /// A private key could not be decoded.
    Load,
}

/// A failure, with the text that explains it.
#[derive(Debug)]
pub struct SshError {
    pub kind: ErrorKind,
    pub message: String,
}

impl SshError {
    pub fn new(kind: ErrorKind, message: String) -> (e: SshError)
        ensures
            e.kind == kind,
            e.message == message,
    {
        SshError { kind, message }
    }

    /// An error of the given kind whose text is `message`.
    pub fn with_text(kind: ErrorKind, message: &str) -> (e: SshError)
        ensures
            e.kind == kind,
            e.message@ == message@,
    {
        SshError { kind, message: message.to_owned() }
    }

    pub fn kind(&self) -> (k: ErrorKind)
        ensures
            k == self.kind,
    {
        self.kind
    }

    /// The text of the error, as `to_string` would give it.
    pub fn message(&self) -> (m: String)
        ensures
            m@ == self.message@,
    {
        self.message.clone()
    }
}

} // verus!
