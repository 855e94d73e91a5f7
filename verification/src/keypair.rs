use vstd::prelude::*;
use vstd::std_specs::convert::FromSpecImpl;
use crate::bytes;
use crate::engine;
use crate::err::{ErrorKind, SshError};
use crate::signature::Signature;

verus! {

/// The hash function with which an RSA key signs. It has no meaning for keys
/// of other algorithms, where setting it changes nothing and is no error.
#[allow(non_camel_case_types)]
#[derive(Clone, Copy, Debug, PartialEq, Eq, Hash, Structural)]
pub enum SignatureHash {
    /// SHA2, 256 bits.
    SHA2_256,
    /// SHA2, 512 bits.
    SHA2_512,
    /// SHA1: the legacy `ssh-rsa` signature, which names no hash of its own.
    SHA1,
}

/// A hash function that an RSA signature algorithm names.
#[derive(Clone, Copy, Debug, PartialEq, Eq, Structural)]
pub enum HashAlg {
    Sha256,
    Sha512,
}

impl From<SignatureHash> for Option<HashAlg> {
    fn from(hash: SignatureHash) -> (r: Option<HashAlg>) {
        match hash {
            SignatureHash::SHA1 => None,
            SignatureHash::SHA2_256 => Some(HashAlg::Sha256),
            SignatureHash::SHA2_512 => Some(HashAlg::Sha512),
        }
    }
}

impl FromSpecImpl<SignatureHash> for Option<HashAlg> {
    open spec fn obeys_from_spec() -> bool {
        true
    }

    open spec fn from_spec(hash: SignatureHash) -> Option<HashAlg> {
        named_hash(hash)
    }
}

/// The hash that the signature algorithm for `hash` names: none for SHA1.
pub open spec fn named_hash(hash: SignatureHash) -> Option<HashAlg> {
    match hash {
        SignatureHash::SHA1 => None,
        SignatureHash::SHA2_256 => Some(HashAlg::Sha256),
        SignatureHash::SHA2_512 => Some(HashAlg::Sha512),
    }
}

/// The algorithm name of RSA keys.
pub const SSH_RSA: &'static str = "ssh-rsa";

/// The algorithm name of Ed25519 keys.
pub const SSH_ED25519: &'static str = "ssh-ed25519";

/// The namespace under which detached signatures are made and verified. The
/// signature format refuses an empty one.
pub const SIGNATURE_NAMESPACE: &'static str = "file";

/// The size in bits of the RSA public key that `blob` encodes; none where it
/// encodes no RSA key.
pub open spec fn rsa_bits(blob: Seq<u8>) -> Option<nat> {
    match engine::rsa_modulus_of_public_key(blob) {
        Some(n) => Some(bytes::bit_length(n)),
        None => None,
    }
}

/// Whether the library generates RSA keys of this many bits.
pub open spec fn rsa_bits_supported(bits: u32) -> bool {
    bits == 2048 || bits == 4096
}

fn text_is(text: &String, expected: &str) -> (same: bool)
    ensures
        same == (text@ == expected@),
{
    let other = expected.to_owned();
    *text == other
}

/// What a public key is: its algorithm name, its wire encoding, and the
/// signature hash set on it, if any.
pub struct PublicKeyView {
    pub algorithm: Seq<char>,
    pub blob: Seq<u8>,
    pub signature_hash: Option<SignatureHash>,
}

/// A public key: derived from a `KeyPair`, or received from a peer.
#[derive(Debug)]
pub struct PublicKey {
    algorithm: String,
    blob: Vec<u8>,
    signature_hash: Option<SignatureHash>,
}

impl View for PublicKey {
    type V = PublicKeyView;

    closed spec fn view(&self) -> PublicKeyView {
        PublicKeyView {
            algorithm: self.algorithm@,
            blob: self.blob@,
            signature_hash: self.signature_hash,
        }
    }
}

/// The number of bytes that a signature's encoding starts with before its
/// version: the format's preamble.
pub const SIGNATURE_PREAMBLE_LEN: usize = 6;

/// Whether the encoding carries version 1 of the signature format, the only
/// one that is signed and accepted here: the 32-bit number after the
/// preamble, most significant byte first.
pub open spec fn has_current_version(signature: Seq<u8>) -> bool {
    &&& signature.len() >= SIGNATURE_PREAMBLE_LEN + 4
    &&& signature[SIGNATURE_PREAMBLE_LEN as int] == 0
    &&& signature[SIGNATURE_PREAMBLE_LEN + 1] == 0
    &&& signature[SIGNATURE_PREAMBLE_LEN + 2] == 0
    &&& signature[SIGNATURE_PREAMBLE_LEN + 3] == 1
}

/// Whether the encoding carries version 1 of the signature format.
pub fn is_current_version(signature: &[u8]) -> (ok: bool)
    ensures
        ok == has_current_version(signature@),
{
    signature.len() >= SIGNATURE_PREAMBLE_LEN + 4 && signature[SIGNATURE_PREAMBLE_LEN] == 0
        && signature[SIGNATURE_PREAMBLE_LEN + 1] == 0 && signature[SIGNATURE_PREAMBLE_LEN + 2] == 0
        && signature[SIGNATURE_PREAMBLE_LEN + 3] == 1
}

/// Whether a presented signature is exactly the encoding of the signature
/// that was read from it: `reencoded` is what reading and encoding again gave.
pub fn is_canonical(presented: &[u8], reencoded: &Option<Vec<u8>>) -> (ok: bool)
    ensures
        ok == (reencoded matches Some(c) && c@ == presented@),
{
    match reencoded {
        Some(c) => bytes::equal(c.as_slice(), presented),
        None => false,
    }
}

impl PublicKey {
    /// The bytes encode a public key, and the name is that key's algorithm.
    #[verifier::type_invariant]
    spec fn well_formed(self) -> bool {
        engine::algorithm_of_public_key(self.blob@) == Some(self.algorithm@)
    }

    /// The public key that `blob` encodes, with no signature hash set.
    pub fn from_bytes(blob: Vec<u8>) -> (r: Result<PublicKey, SshError>)
        ensures
            r is Ok <==> engine::algorithm_of_public_key(blob@) is Some,
            r matches Ok(key) ==> key@.blob == blob@ && Some(key@.algorithm)
                == engine::algorithm_of_public_key(blob@) && key@.signature_hash is None,
            r matches Err(e) ==> e.kind == ErrorKind::Protocol,
    {
        match engine::algorithm_of(blob.as_slice()) {
            Ok(algorithm) => Ok(PublicKey { algorithm, blob, signature_hash: None }),
            Err(e) => Err(SshError::new(ErrorKind::Protocol, engine::describe(&e))),
        }
    }

    /// The wire encoding of the key.
    pub fn to_bytes(&self) -> (out: Vec<u8>)
        ensures
            out@ == self@.blob,
    {
        bytes::copy(self.blob.as_slice())
    }

    /// A copy of the key, with the signature hash set on it.
    pub fn copy(&self) -> (key: PublicKey)
        ensures
            key@ == self@,
    {
        proof {
            use_type_invariant(self);
        }
        PublicKey {
            algorithm: self.algorithm.clone(),
            blob: bytes::copy(self.blob.as_slice()),
            signature_hash: self.signature_hash,
        }
    }

    /// Whether `other` is the same key: the same wire encoding.
    pub fn same_key(&self, other: &PublicKey) -> (same: bool)
        ensures
            same == (self@.blob == other@.blob),
    {
        bytes::equal(self.blob.as_slice(), other.blob.as_slice())
    }

    /// The algorithm name of the key.
    pub fn name(&self) -> (name: String)
        ensures
            name@ == self@.algorithm,
            Some(name@) == engine::algorithm_of_public_key(self@.blob),
    {
        proof {
            use_type_invariant(self);
        }
        self.algorithm.clone()
    }

    /// Whether `signature` is the canonical encoding of a signature by this
    /// key of `data`. A signature that does not decode, that holds anything
    /// beyond its canonical encoding, or that carries another version of the
    /// format does not verify; that is no error.
    pub fn verify_detached(&self, data: Vec<u8>, signature: Vec<u8>) -> (ok: bool)
        ensures
            ok == (has_current_version(signature@) && engine::signature_reencoded(signature@)
                == Some(signature@) && engine::signature_accepted(
                self@.blob,
                SIGNATURE_NAMESPACE@,
                data@,
                signature@,
            )),
    {
        if !is_current_version(signature.as_slice()) {
            return false;
        }
        let reencoded = engine::reencode_signature(signature.as_slice()).ok();
        if !is_canonical(signature.as_slice(), &reencoded) {
            return false;
        }
        engine::verify(
            self.blob.as_slice(),
            SIGNATURE_NAMESPACE,
            data.as_slice(),
            signature.as_slice(),
        )
    }

    /// Whether this is an RSA key whose modulus has exactly `bits` bits.
    pub fn has_rsa_bits(&self, bits: u32) -> (ok: bool)
        ensures
            ok == (rsa_bits(self@.blob) == Some(bits as nat)),
    {
        match engine::rsa_modulus_of(self.blob.as_slice()) {
            Some(n) => bytes::has_bit_length(n.as_slice(), bits),
            None => false,
        }
    }

    /// The key's fingerprint, hashed with SHA-256.
    pub fn fingerprint(&self) -> (text: String)
        ensures
            text@ == engine::fingerprint_of_public_key(self@.blob, HashAlg::Sha256),
    {
        proof {
            use_type_invariant(self);
        }
        match engine::fingerprint_of(self.blob.as_slice(), HashAlg::Sha256) {
            Ok(text) => text,
            Err(_) => {
                assert(false);
                String::new()
            },
        }
    }

    /// Set the signature hash. Only an RSA key takes it; on any other key the
    /// call changes nothing.
    pub fn set_algorithm(&mut self, algorithm: SignatureHash)
        ensures
            final(self)@.blob == old(self)@.blob,
            final(self)@.algorithm == old(self)@.algorithm,
            final(self)@.signature_hash == if old(self)@.algorithm == SSH_RSA@ {
                Some(algorithm)
            } else {
                old(self)@.signature_hash
            },
    {
        proof {
            use_type_invariant(&*self);
        }
        if text_is(&self.algorithm, SSH_RSA) {
            self.signature_hash = Some(algorithm);
        }
    }

    /// The signature hash set on the key, if any.
    pub fn signature_hash(&self) -> (hash: Option<SignatureHash>)
        ensures
            hash == self@.signature_hash,
    {
        self.signature_hash
    }
}

/// What a key pair is: the encoded private key, the public key derived from
/// it, and the hash preferred for RSA signatures.
pub struct KeyPairView {
    pub secret: Seq<u8>,
    pub public: PublicKeyView,
    pub signature_hash: Option<SignatureHash>,
}

/// A private key with its public key. Immutable once made.
pub struct KeyPair {
    secret: Vec<u8>,
    public: PublicKey,
    signature_hash: Option<SignatureHash>,
}

impl View for KeyPair {
    type V = KeyPairView;

    closed spec fn view(&self) -> KeyPairView {
        KeyPairView {
            secret: self.secret@,
            public: self.public@,
            signature_hash: self.signature_hash,
        }
    }
}

/// Whether `secret` encodes a private key whose public key the engine reads.
pub open spec fn is_key_pair(secret: Seq<u8>) -> bool {
    engine::public_key_of_secret(secret) matches Some(blob) && engine::algorithm_of_public_key(
        blob,
    ) is Some
}

/// Whether the public key of `pair` is the one that its private key gives,
/// named by its own algorithm, with no signature hash set on it.
pub open spec fn is_derived(pair: KeyPairView) -> bool {
    &&& engine::public_key_of_secret(pair.secret) == Some(pair.public.blob)
    &&& engine::algorithm_of_public_key(pair.public.blob) == Some(pair.public.algorithm)
    &&& pair.public.signature_hash is None
}

/// The text of the error for an RSA key size that the library does not
/// generate.
pub const UNSUPPORTED_RSA_SIZE: &'static str = "unsupported RSA key size";

/// The text of the error for a generated RSA key of another size than asked.
pub const UNEXPECTED_RSA_SIZE: &'static str = "unexpected RSA key size";

/// The text of the error for a generated key of another algorithm than asked.
pub const UNEXPECTED_ALGORITHM: &'static str = "unexpected key algorithm";

/// Whether `secret` encodes a key pair of the algorithm named.
pub open spec fn is_key_pair_of(secret: Seq<u8>, algorithm: Seq<char>) -> bool {
    is_key_pair(secret) && engine::algorithm_of_public_key(
        engine::public_key_of_secret(secret).unwrap(),
    ) == Some(algorithm)
}

impl KeyPair {
    /// The public key is the one that the private key gives.
    #[verifier::type_invariant]
    spec fn well_formed(self) -> bool {
        &&& engine::public_key_of_secret(self.secret@) == Some(self.public.blob@)
        &&& engine::algorithm_of_public_key(self.public.blob@) == Some(self.public.algorithm@)
        &&& self.public.signature_hash is None
    }

    /// The key pair of an encoded private key, with no hash preference. It
    /// fails exactly where the bytes are no private key.
    pub fn from_secret(secret: Vec<u8>) -> (r: Result<KeyPair, SshError>)
        ensures
            r is Ok <==> is_key_pair(secret@),
            r matches Ok(pair) ==> pair@.secret == secret@ && is_derived(pair@)
                && pair@.signature_hash is None,
            r matches Err(e) ==> e.kind == ErrorKind::Load,
    {
        let blob = match engine::public_key_of(secret.as_slice()) {
            Ok(blob) => blob,
            Err(e) => {
                return Err(SshError::new(ErrorKind::Load, engine::describe(&e)));
            },
        };
        match PublicKey::from_bytes(blob) {
            Ok(public) => Ok(KeyPair { secret, public, signature_hash: None }),
            Err(e) => Err(SshError::new(ErrorKind::Load, e.message)),
        }
    }

    /// A fresh Ed25519 key pair. Whether the engine delivers one is its own
    /// affair; what it delivers is only taken if it is an Ed25519 key.
    pub fn generate_ed25519() -> (r: Result<KeyPair, SshError>)
        ensures
            r matches Ok(pair) ==> pair@.public.algorithm == SSH_ED25519@
                && pair@.signature_hash is None && is_derived(pair@),
            r matches Err(e) ==> e.kind == ErrorKind::Generation,
    {
        match engine::random_ed25519() {
            Ok(secret) => Self::generated(secret, SSH_ED25519, None),
            Err(e) => Err(SshError::new(ErrorKind::Generation, engine::describe(&e))),
        }
    }

    /// A fresh RSA key pair of `bits` bits that prefers `signature_hash`.
    /// Sizes other than 2048 and 4096 are refused before the engine is asked;
    /// none is replaced by a default. What the engine delivers for a
    /// supported size is taken as `generated_rsa` says.
    pub fn generate_rsa(bits: u32, signature_hash: SignatureHash) -> (r: Result<KeyPair, SshError>)
        ensures
            !rsa_bits_supported(bits) ==> r is Err && r->Err_0.message@ == UNSUPPORTED_RSA_SIZE@,
            r matches Ok(pair) ==> pair@.public.algorithm == SSH_RSA@ && pair@.signature_hash
                == Some(signature_hash) && is_derived(pair@) && rsa_bits(pair@.public.blob)
                == Some(bits as nat),
            r matches Err(e) ==> e.kind == ErrorKind::Generation,
    {
        if bits != 2048 && bits != 4096 {
            return Err(SshError::with_text(ErrorKind::Generation, UNSUPPORTED_RSA_SIZE));
        }
        match engine::random_rsa(bits) {
            Ok(secret) => Self::generated_rsa(secret, bits, signature_hash),
            Err(e) => Err(SshError::new(ErrorKind::Generation, engine::describe(&e))),
        }
    }

    /// Take what the engine generated for an RSA key of `bits` bits: the key
    /// pair of `secret`, provided it is an RSA key pair and its modulus has
    /// exactly that many bits.
    pub fn generated_rsa(secret: Vec<u8>, bits: u32, signature_hash: SignatureHash) -> (r: Result<
        KeyPair,
        SshError,
    >)
        ensures
            r is Ok <==> (is_key_pair_of(secret@, SSH_RSA@) && rsa_bits(
                engine::public_key_of_secret(secret@).unwrap(),
            ) == Some(bits as nat)),
            r matches Ok(pair) ==> pair@.secret == secret@ && pair@.public.algorithm == SSH_RSA@
                && pair@.signature_hash == Some(signature_hash) && is_derived(pair@) && rsa_bits(
                pair@.public.blob,
            ) == Some(bits as nat),
            r matches Err(e) ==> e.kind == ErrorKind::Generation,
            is_key_pair_of(secret@, SSH_RSA@) ==> (r matches Err(e) ==> e.message@
                == UNEXPECTED_RSA_SIZE@),
    {
        let pair = Self::generated(secret, SSH_RSA, Some(signature_hash))?;
        if pair.public.has_rsa_bits(bits) {
            Ok(pair)
        } else {
            Err(SshError::with_text(ErrorKind::Generation, UNEXPECTED_RSA_SIZE))
        }
    }

    /// Take what the engine generated: the key pair of `secret`, provided it
    /// is one and its algorithm is the one asked for.
    pub fn generated(secret: Vec<u8>, algorithm: &str, signature_hash: Option<SignatureHash>) -> (r:
        Result<KeyPair, SshError>)
        ensures
            r is Ok <==> is_key_pair_of(secret@, algorithm@),
            r matches Ok(pair) ==> pair@.secret == secret@ && pair@.public.algorithm == algorithm@
                && pair@.signature_hash == signature_hash && is_derived(pair@),
            r matches Err(e) ==> e.kind == ErrorKind::Generation,
            is_key_pair(secret@) ==> (r matches Err(e) ==> e.message@ == UNEXPECTED_ALGORITHM@),
    {
        match Self::from_secret(secret) {
            Ok(pair) => {
                proof {
                    use_type_invariant(&pair);
                }
                if text_is(&pair.public.algorithm, algorithm) {
                    let KeyPair { secret, public, signature_hash: _ } = pair;
                    Ok(KeyPair { secret, public, signature_hash })
                } else {
                    Err(SshError::with_text(ErrorKind::Generation, UNEXPECTED_ALGORITHM))
                }
            },
            Err(e) => Err(SshError::new(ErrorKind::Generation, e.message)),
        }
    }

    /// The key pair in the text of a private key file, read with the
    /// passphrase if one is given. It fails exactly where the engine refuses
    /// the text (a wrong passphrase, a corrupt file) or what it holds.
    pub fn new(contents: String, password: Option<String>) -> (r: Result<KeyPair, SshError>)
        ensures
            r is Ok <==> (engine::secret_key_of_text(contents@, text_of(password)) matches Some(
                secret,
            ) && is_key_pair(secret)),
            r matches Ok(pair) ==> Some(pair@.secret) == engine::secret_key_of_text(
                contents@,
                text_of(password),
            ) && is_derived(pair@) && pair@.signature_hash is None,
            r matches Err(e) ==> e.kind == ErrorKind::Load,
    {
        let passphrase: Option<&str> = match &password {
            Some(p) => Some(p.as_str()),
            None => None,
        };
        match engine::decode_secret_key(contents.as_str(), passphrase) {
            Ok(secret) => Self::from_secret(secret),
            Err(e) => Err(SshError::new(ErrorKind::Load, engine::describe(&e))),
        }
    }

    /// A copy of the public key.
    pub fn clone_public_key(&self) -> (r: Result<PublicKey, SshError>)
        ensures
            r matches Ok(key) && key@ == self@.public,
    {
        proof {
            use_type_invariant(self);
        }
        Ok(
            PublicKey {
                algorithm: self.public.algorithm.clone(),
                blob: bytes::copy(self.public.blob.as_slice()),
                signature_hash: None,
            },
        )
    }

    /// The algorithm name of the key.
    pub fn name(&self) -> (name: String)
        ensures
            name@ == self@.public.algorithm,
    {
        self.public.algorithm.clone()
    }

    /// Sign `to_sign`, digested with SHA-256. The same key and message always
    /// give the same signature.
    pub fn sign_detached(&self, to_sign: &[u8]) -> (r: Result<Signature, SshError>)
        ensures
            r is Ok <==> engine::signature_of(
                self@.secret,
                SIGNATURE_NAMESPACE@,
                HashAlg::Sha256,
                to_sign@,
            ) is Some,
            r matches Ok(signature) ==> Some(signature@) == engine::signature_of(
                self@.secret,
                SIGNATURE_NAMESPACE@,
                HashAlg::Sha256,
                to_sign@,
            ),
            r matches Err(e) ==> e.kind == ErrorKind::Protocol,
    {
        match engine::sign(self.secret.as_slice(), SIGNATURE_NAMESPACE, HashAlg::Sha256, to_sign) {
            Ok(encoded) => Ok(Signature::from_encoded(encoded)),
            Err(e) => Err(SshError::new(ErrorKind::Protocol, engine::describe(&e))),
        }
    }

    /// The hash preferred for RSA signatures, if one was chosen.
    pub fn signature_hash(&self) -> (hash: Option<SignatureHash>)
        ensures
            hash == self@.signature_hash,
    {
        self.signature_hash
    }

    /// The hash that this key's signature algorithm names when it signs an
    /// authentication request: the preferred one for an RSA key (SHA2-256 if
    /// none was chosen), none for a key of any other algorithm.
    pub fn authentication_hash(&self) -> (hash: Option<HashAlg>)
        ensures
            hash == authentication_hash_of(self@),
    {
        if text_is(&self.public.algorithm, SSH_RSA) {
            match self.signature_hash {
                Some(h) => Option::<HashAlg>::from(h),
                None => Some(HashAlg::Sha256),
            }
        } else {
            None
        }
    }

    /// The encoded private key, for the transport that authenticates with it.
    pub fn secret_bytes(&self) -> (out: Vec<u8>)
        ensures
            out@ == self@.secret,
    {
        bytes::copy(self.secret.as_slice())
    }
}

/// The view of an optional passphrase.
pub open spec fn text_of(password: Option<String>) -> Option<Seq<char>> {
    match password {
        Some(p) => Some(p@),
        None => None,
    }
}

/// The hash named when `pair` signs an authentication request.
pub open spec fn authentication_hash_of(pair: KeyPairView) -> Option<HashAlg> {
    if pair.public.algorithm == SSH_RSA@ {
        match pair.signature_hash {
            Some(h) => named_hash(h),
            None => Some(HashAlg::Sha256),
        }
    } else {
        None
    }
}

} // verus!
