use vstd::prelude::*;
use russh::keys::ssh_encoding::{Decode, Encode};
use crate::config::{ClientId, ClientIdType, RekeyLimits, TransportConfig};
use crate::keypair::HashAlg;

verus! {

/// The error type of the key engine. Nothing is known of a value but the text
/// that `describe` gives for it.
#[verifier::external_type_specification]
#[verifier::external_body]
pub struct ExKeyError(russh::keys::Error);

/// The private key, in its binary encoding, that a key file's text holds when
/// read with the given passphrase; `None` where the engine refuses the text.
pub uninterp spec fn secret_key_of_text(text: Seq<char>, passphrase: Option<Seq<char>>) -> Option<
    Seq<u8>,
>;

/// The public key, in its wire encoding, of the private key that `secret`
/// encodes; `None` where `secret` is no private key.
pub uninterp spec fn public_key_of_secret(secret: Seq<u8>) -> Option<Seq<u8>>;

/// The algorithm name of the public key that `blob` encodes; `None` where
/// `blob` is no public key.
pub uninterp spec fn algorithm_of_public_key(blob: Seq<u8>) -> Option<Seq<char>>;

/// The modulus of the RSA public key that `blob` encodes, most significant
/// byte first and without a sign byte; `None` where `blob` is no RSA key.
pub uninterp spec fn rsa_modulus_of_public_key(blob: Seq<u8>) -> Option<Seq<u8>>;

/// The fingerprint, as text, of the public key that `blob` encodes, hashed
/// with `digest`.
pub uninterp spec fn fingerprint_of_public_key(blob: Seq<u8>, digest: HashAlg) -> Seq<char>;

/// The encoded signature that the private key `secret` gives for `message`
/// under `namespace`, the message digested with `digest`; `None` where the
/// engine refuses to sign.
pub uninterp spec fn signature_of(
    secret: Seq<u8>,
    namespace: Seq<char>,
    digest: HashAlg,
    message: Seq<u8>,
) -> Option<Seq<u8>>;

/// The encoding of the signature that the engine reads at the start of
/// `bytes`; `None` where it reads none.
pub uninterp spec fn signature_reencoded(bytes: Seq<u8>) -> Option<Seq<u8>>;

/// Whether the engine accepts `signature` as one of `message` under
/// `namespace` by the public key `blob`.
pub uninterp spec fn signature_accepted(
    blob: Seq<u8>,
    namespace: Seq<char>,
    message: Seq<u8>,
    signature: Seq<u8>,
) -> bool;

/// The Base64 text of `bytes`, standard alphabet, padded.
pub uninterp spec fn base64_of(bytes: Seq<u8>) -> Seq<char>;

/// The view of an optional passphrase.
pub open spec fn passphrase_view(passphrase: Option<&str>) -> Option<Seq<char>> {
    match passphrase {
        Some(p) => Some(p@),
        None => None,
    }
}

/// `Display` of the engine's error type: the text of the error. Nothing is
/// claimed of the text.
#[verifier::external_body]
pub(crate) fn describe(e: &russh::keys::Error) -> (text: String) {
    e.to_string()
}

/// `russh::keys::decode_secret_key`, followed by `PrivateKey::to_bytes`: the
/// binary encoding of the private key in a key file's text. The claim is only
/// that the outcome is a function of the text and the passphrase.
#[verifier::external_body]
pub(crate) fn decode_secret_key(text: &str, passphrase: Option<&str>) -> (r: Result<
    Vec<u8>,
    russh::keys::Error,
>)
    ensures
        r is Ok <==> secret_key_of_text(text@, passphrase_view(passphrase)) is Some,
        r matches Ok(secret) ==> secret_key_of_text(text@, passphrase_view(passphrase)) == Some(
            secret@,
        ),
{
    let key = russh::keys::decode_secret_key(text, passphrase)?;
    Ok(key.to_bytes()?.to_vec())
}

/// `PrivateKey::random` for Ed25519 with the thread's random generator,
/// followed by `PrivateKey::to_bytes`. The key is random: nothing is claimed
/// of it.
#[verifier::external_body]
pub(crate) fn random_ed25519() -> (r: Result<Vec<u8>, russh::keys::Error>) {
    let key = russh::keys::PrivateKey::random(&mut rand::rng(), russh::keys::Algorithm::Ed25519)?;
    Ok(key.to_bytes()?.to_vec())
}

/// `RsaKeypair::random` with the thread's random generator, followed by
/// `PrivateKey::to_bytes`. The key is random: nothing is claimed of it. The
/// engine is only asked for the sizes that the library supports.
#[verifier::external_body]
pub(crate) fn random_rsa(bits: u32) -> (r: Result<Vec<u8>, russh::keys::Error>)
    requires
        bits == 2048 || bits == 4096,
{
    let pair = russh::keys::ssh_key::private::RsaKeypair::random(&mut rand::rng(), bits as usize)?;
    Ok(russh::keys::PrivateKey::from(pair).to_bytes()?.to_vec())
}

/// `PrivateKey::from_bytes`, `PrivateKey::public_key` and
/// `PublicKey::to_bytes`: the public half of an encoded private key.
#[verifier::external_body]
pub(crate) fn public_key_of(secret: &[u8]) -> (r: Result<Vec<u8>, russh::keys::Error>)
    ensures
        r is Ok <==> public_key_of_secret(secret@) is Some,
        r matches Ok(blob) ==> public_key_of_secret(secret@) == Some(blob@),
{
    let key = russh::keys::PrivateKey::from_bytes(secret)?;
    Ok(key.public_key().to_bytes()?)
}

/// `PublicKey::from_bytes` and `Algorithm::as_str`: the algorithm name of an
/// encoded public key.
#[verifier::external_body]
pub(crate) fn algorithm_of(blob: &[u8]) -> (r: Result<String, russh::keys::Error>)
    ensures
        r is Ok <==> algorithm_of_public_key(blob@) is Some,
        r matches Ok(name) ==> algorithm_of_public_key(blob@) == Some(name@),
{
    let key = russh::keys::PublicKey::from_bytes(blob)?;
    Ok(key.algorithm().as_str().to_string())
}

/// `PublicKey::from_bytes`, `KeyData::rsa` and `Mpint::as_positive_bytes` of
/// the modulus: the bytes of an RSA key's modulus.
#[verifier::external_body]
pub(crate) fn rsa_modulus_of(blob: &[u8]) -> (r: Option<Vec<u8>>)
    ensures
        r is Some <==> rsa_modulus_of_public_key(blob@) is Some,
        r matches Some(n) ==> rsa_modulus_of_public_key(blob@) == Some(n@),
{
    let key = russh::keys::PublicKey::from_bytes(blob).ok()?;
    Some(key.key_data().rsa()?.n.as_positive_bytes()?.to_vec())
}

/// `PublicKey::from_bytes` and `PublicKey::fingerprint` with the digest
/// given, as text. It succeeds on exactly the encodings that `algorithm_of`
/// reads, since both decode the key by the same call and the rest cannot fail.
#[verifier::external_body]
pub(crate) fn fingerprint_of(blob: &[u8], digest: HashAlg) -> (r: Result<String, russh::keys::Error>)
    ensures
        r is Ok <==> algorithm_of_public_key(blob@) is Some,
        r matches Ok(text) ==> text@ == fingerprint_of_public_key(blob@, digest),
{
    let key = russh::keys::PublicKey::from_bytes(blob)?;
    let digest = match digest {
        HashAlg::Sha256 => russh::keys::HashAlg::Sha256,
        HashAlg::Sha512 => russh::keys::HashAlg::Sha512,
    };
    Ok(key.fingerprint(digest).to_string())
}

/// `PrivateKey::from_bytes` and `PrivateKey::sign` with the message digest
/// given, then `Encode::encode` of the signature. Signing draws no
/// randomness, so the outcome is a function of key, namespace, digest and
/// message.
#[verifier::external_body]
pub(crate) fn sign(secret: &[u8], namespace: &str, digest: HashAlg, message: &[u8]) -> (r: Result<
    Vec<u8>,
    russh::keys::Error,
>)
    ensures
        r is Ok <==> signature_of(secret@, namespace@, digest, message@) is Some,
        r matches Ok(signature) ==> signature_of(secret@, namespace@, digest, message@) == Some(
            signature@,
        ),
{
    let key = russh::keys::PrivateKey::from_bytes(secret)?;
    let digest = match digest {
        HashAlg::Sha256 => russh::keys::HashAlg::Sha256,
        HashAlg::Sha512 => russh::keys::HashAlg::Sha512,
    };
    let signature = key.sign(namespace, digest, message)?;
    let mut encoded = Vec::new();
    signature.encode(&mut encoded)?;
    Ok(encoded)
}

/// `Decode::decode` of a signature from the start of `bytes`, then
/// `Encode::encode` of what was read. Bytes after the signature are not
/// looked at by the engine, so the result may be shorter than `bytes`.
#[verifier::external_body]
pub(crate) fn reencode_signature(bytes: &[u8]) -> (r: Result<Vec<u8>, russh::keys::Error>)
    ensures
        r is Ok <==> signature_reencoded(bytes@) is Some,
        r matches Ok(encoded) ==> signature_reencoded(bytes@) == Some(encoded@),
{
    let mut reader = bytes;
    let signature = russh::keys::ssh_key::SshSig::decode(&mut reader)?;
    let mut encoded = Vec::new();
    signature.encode(&mut encoded)?;
    Ok(encoded)
}

/// `PublicKey::from_bytes`, `Decode::decode` of the signature and
/// `PublicKey::verify`: whether the engine accepts the signature. A key or a
/// signature that does not decode is not accepted.
#[verifier::external_body]
pub(crate) fn verify(blob: &[u8], namespace: &str, message: &[u8], signature: &[u8]) -> (ok: bool)
    ensures
        ok == signature_accepted(blob@, namespace@, message@, signature@),
{
    let mut reader = signature;
    match (russh::keys::PublicKey::from_bytes(blob), russh::keys::ssh_key::SshSig::decode(&mut reader)) {
        (Ok(key), Ok(sig)) => key.verify(namespace, message, &sig).is_ok(),
        _ => false,
    }
}

/// `Engine::encode` of `base64::prelude::BASE64_STANDARD`.
#[verifier::external_body]
pub(crate) fn base64(bytes: &[u8]) -> (text: String)
    ensures
        text@ == base64_of(bytes@),
{
    base64::Engine::encode(&base64::prelude::BASE64_STANDARD, bytes)
}

/// `russh::client::Config::default`, field by field. Its source sets the
/// re-exchange limits to 1 GiB, 1 GiB and 3600 s, no inactivity timeout, no
/// anonymous use, a window of 2097152 bytes, packets of at most 32768 bytes,
/// and an identification string of the standard kind; of the string itself
/// nothing is claimed.
#[verifier::external_body]
pub(crate) fn transport_defaults() -> (d: TransportConfig)
    ensures
        d.limits == RekeyLimits::standard(),
        d.connection_timeout is None,
        !d.anonymous,
        d.client_id.kind == ClientIdType::Standard,
        d.window_size == 2097152,
        d.maximum_packet_size == 32768,
{
    let c = russh::client::Config::default();
    let (kind, id) = match c.client_id {
        russh::SshId::Standard(s) => (ClientIdType::Standard, s.into_owned()),
        russh::SshId::Raw(s) => (ClientIdType::Raw, s.into_owned()),
    };
    let limits = RekeyLimits {
        rekey_write_limit: c.limits.rekey_write_limit,
        rekey_read_limit: c.limits.rekey_read_limit,
        rekey_time_limit: c.limits.rekey_time_limit.as_secs(),
    };
    let connection_timeout = c.inactivity_timeout.map(|d| d.as_millis() as u64);
    let client_id = ClientId { kind, id };
    TransportConfig { client_id, limits, window_size: c.window_size, maximum_packet_size: c.maximum_packet_size, connection_timeout, anonymous: c.anonymous }
}

} // verus!
