use vstd::prelude::*;
use crate::bytes;
use crate::engine;

verus! {

/// A detached signature, held in its canonical binary encoding. A value comes
/// only from `KeyPair::sign_detached` and never changes.
#[derive(Debug)]
pub struct Signature {
    encoded: Vec<u8>,
}

impl View for Signature {
    type V = Seq<u8>;

    closed spec fn view(&self) -> Seq<u8> {
        self.encoded@
    }
}

impl Signature {
    pub(crate) fn from_encoded(encoded: Vec<u8>) -> (s: Signature)
        ensures
            s@ == encoded@,
    {
        Signature { encoded }
    }

    /// The canonical binary encoding: what `PublicKey::verify_detached` takes.
    pub fn to_bytes(&self) -> (out: Vec<u8>)
        ensures
            out@ == self@,
    {
        bytes::copy(self.encoded.as_slice())
    }

    /// The canonical text encoding: Base64 of the binary encoding, standard
    /// alphabet, padded.
    pub fn to_base64(&self) -> (text: String)
        ensures
            text@ == engine::base64_of(self@),
    {
        engine::base64(self.encoded.as_slice())
    }
}

} // verus!
