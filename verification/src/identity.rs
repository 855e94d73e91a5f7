use vstd::prelude::*;
use vstd::string::{StrSliceExecFns, StringExecFns};
use crate::engine;
use crate::err::{ErrorKind, SshError};
use crate::keypair::{is_derived, is_key_pair, KeyPair};

verus! {

/// The path conventions of the platform that the caller runs on.
#[derive(Clone, Copy, Debug, PartialEq, Eq, Structural)]
pub enum Platform {
    Unix,
    Windows,
}

/// Where the key of a public-key authentication attempt comes from.
pub enum KeySource {
    /// A private key file at this path, read without a passphrase.
    Path(String),
    /// A key pair that the caller holds already.
    KeyPair(KeyPair),
    /// The default identity file under the caller's home directory.
    Default,
}

/// A key source with its place decided.
pub enum Identity {
    /// The private key file to read.
    File(String),
    Loaded(KeyPair),
}

/// The file name of the default identity.
pub const DEFAULT_IDENTITY_FILE: &'static str = "id_rsa";

/// The text of the error for a caller without a home directory.
pub const NO_HOME_DIRECTORY: &'static str = "No home directory found";

/// Whether `c` separates path components on `platform`.
pub open spec fn is_separator(platform: Platform, c: char) -> bool {
    c == '/' || (platform is Windows && c == '\\')
}

/// The separator that `platform` writes between path components.
pub open spec fn separator(platform: Platform) -> char {
    match platform {
        Platform::Unix => '/',
        Platform::Windows => '\\',
    }
}

/// The directory under the home directory that holds the keys.
pub open spec fn key_directory(platform: Platform) -> Seq<char> {
    match platform {
        Platform::Unix => ".ssh"@,
        Platform::Windows => "ssh"@,
    }
}

/// `component` under the directory `base`: a separator is written between
/// them unless `base` is empty or ends in one.
pub open spec fn joined(base: Seq<char>, component: Seq<char>, platform: Platform) -> Seq<char> {
    if base.len() == 0 || is_separator(platform, base.last()) {
        base + component
    } else {
        base + seq![separator(platform)] + component
    }
}

/// The default identity file of a caller whose home directory is `home`.
pub open spec fn default_identity(home: Seq<char>, platform: Platform) -> Seq<char> {
    joined(joined(home, key_directory(platform), platform), DEFAULT_IDENTITY_FILE@, platform)
}

fn join(base: String, component: &str, platform: Platform) -> (path: String)
    ensures
        path@ == joined(base@, component@, platform),
{
    let n = base.as_str().unicode_len();
    let mut path = base;
    let mut separated = true;
    if n > 0 {
        let last = path.as_str().get_char(n - 1);
        separated = last == '/' || (matches!(platform, Platform::Windows) && last == '\\');
    }
    if !separated {
        proof {
            reveal_strlit("/");
            reveal_strlit("\\");
            assert("/"@ == seq!['/']);
            assert("\\"@ == seq!['\\']);
        }
        match platform {
            Platform::Unix => path.append("/"),
            Platform::Windows => path.append("\\"),
        }
    }
    path.append(component);
    path
}

/// The path of the default identity file under `home`.
pub fn default_identity_path(home: &str, platform: Platform) -> (path: String)
    ensures
        path@ == default_identity(home@, platform),
{
    let directory = match platform {
        Platform::Unix => join(home.to_owned(), ".ssh", platform),
        Platform::Windows => join(home.to_owned(), "ssh", platform),
    };
    join(directory, DEFAULT_IDENTITY_FILE, platform)
}

/// Decide where the key of an attempt comes from. A path and a key pair are
/// taken as given. The default needs the caller's home directory: without one
/// the attempt cannot be made, which is an error and no negative result.
pub fn resolve_identity(source: KeySource, home: Option<String>, platform: Platform) -> (r: Result<
    Identity,
    SshError,
>)
    ensures
        r is Err <==> source is Default && home is None,
        r matches Err(e) ==> e.kind == ErrorKind::AuthResolution && e.message@
            == NO_HOME_DIRECTORY@,
        source matches KeySource::Path(path) ==> r == Ok::<Identity, SshError>(Identity::File(path)),
        source matches KeySource::KeyPair(pair) ==> r == Ok::<Identity, SshError>(
            Identity::Loaded(pair),
        ),
        source is Default ==> (home matches Some(h) ==> r matches Ok(Identity::File(path))
            && path@ == default_identity(h@, platform)),
{
    match source {
        KeySource::Path(path) => Ok(Identity::File(path)),
        KeySource::KeyPair(pair) => Ok(Identity::Loaded(pair)),
        KeySource::Default => match home {
            Some(h) => Ok(Identity::File(default_identity_path(h.as_str(), platform))),
            None => Err(SshError::with_text(ErrorKind::AuthResolution, NO_HOME_DIRECTORY)),
        },
    }
}

/// The key pair of an identity file, from what reading the file gave: its
/// text, or the reason why it could not be read. The file is decoded without
/// a passphrase, so an encrypted key fails here. Every failure is an error of
/// resolution, not a negative authentication result.
pub fn load_identity(contents: Result<String, String>) -> (r: Result<KeyPair, SshError>)
    ensures
        r is Ok <==> (contents matches Ok(text) && engine::secret_key_of_text(text@, None) matches Some(
            secret,
        ) && is_key_pair(secret)),
        r matches Ok(pair) ==> contents matches Ok(text) && Some(pair@.secret)
            == engine::secret_key_of_text(text@, None) && is_derived(pair@)
            && pair@.signature_hash is None,
        r matches Err(e) ==> e.kind == ErrorKind::AuthResolution,
        contents matches Err(reason) ==> r is Err && r->Err_0.message == reason,
{
    match contents {
        Ok(text) => match KeyPair::new(text, None) {
            Ok(pair) => Ok(pair),
            Err(e) => Err(SshError::new(ErrorKind::AuthResolution, e.message)),
        },
        Err(reason) => Err(SshError::new(ErrorKind::AuthResolution, reason)),
    }
}

} // verus!
