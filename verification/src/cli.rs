//! The three intents the tool serves and their argument records, as plain
//! values. The surrounding binary parses the command line into these; a renew
//! is carried as one record that converts into a revocation and an
//! initialization part.

use vstd::prelude::*;
use crate::target::opt_view;
use crate::textops::str_eq;

verus! {

/// Which type of key to generate.
#[derive(Debug, Clone, Copy, PartialEq, Eq, Structural)]
pub enum KeyType {
    RSA,
    DSA,
    ED25519,
    ECDSA,
}

/// Rejection of a key-type name that is none of the four known ones.
#[derive(Debug, Clone, PartialEq, Eq)]
pub enum ParseError {
    UnknownKeyType(String),
}

impl KeyType {
    /// Parses a key-type name; exactly `rsa`, `dsa`, `ed25519` and `ecdsa`
    /// are accepted.
    pub fn from_str(s: &str) -> (r: Result<KeyType, ParseError>)
        ensures
            s@ == "rsa"@ ==> r == Ok::<KeyType, ParseError>(KeyType::RSA),
            s@ == "dsa"@ ==> r == Ok::<KeyType, ParseError>(KeyType::DSA),
            s@ == "ed25519"@ ==> r == Ok::<KeyType, ParseError>(KeyType::ED25519),
            s@ == "ecdsa"@ ==> r == Ok::<KeyType, ParseError>(KeyType::ECDSA),
            !(s@ == "rsa"@ || s@ == "dsa"@ || s@ == "ed25519"@ || s@ == "ecdsa"@) ==> (match r {
                Ok(_) => false,
                Err(ParseError::UnknownKeyType(t)) => t@ == s@,
            }),
    {
        proof {
            reveal_strlit("rsa");
            reveal_strlit("dsa");
            reveal_strlit("ed25519");
            reveal_strlit("ecdsa");
            assert("rsa"@.len() == 3);
            assert("dsa"@.len() == 3);
            assert("ed25519"@.len() == 7);
            assert("ecdsa"@.len() == 5);
            assert("rsa"@ != "dsa"@) by {
                if "rsa"@ == "dsa"@ {
                    assert("rsa"@[0] == "dsa"@[0]);
                }
            }
        }
        if str_eq(s, "rsa") {
            Ok(KeyType::RSA)
        } else if str_eq(s, "dsa") {
            Ok(KeyType::DSA)
        } else if str_eq(s, "ed25519") {
            Ok(KeyType::ED25519)
        } else if str_eq(s, "ecdsa") {
            Ok(KeyType::ECDSA)
        } else {
            Err(ParseError::UnknownKeyType(s.to_owned()))
        }
    }
}

impl Default for KeyType {
    /// The default key type; most hosts support it and it is smaller than
    /// RSA at the same or better strength.
    fn default() -> (r: KeyType)
        ensures
            r == KeyType::ED25519,
    {
        KeyType::ED25519
    }
}

impl ParseError {
    /// A short human-readable description, for the surrounding binary to print.
    pub fn message(&self) -> (r: String)
        ensures
            r@ == "Must be one of rsa, dsa, ecdsa, or ed25519"@,
    {
        match self {
            ParseError::UnknownKeyType(_) => String::from_str(
                "Must be one of rsa, dsa, ecdsa, or ed25519",
            ),
        }
    }
}

/// Arguments of an initialization: generate a keypair named after the target
/// host, persist it, and deploy the public half.
pub struct KeyInit {
    /// The target, of the form `[user@]host`.
    pub target: String,
    /// Which type of key to generate.
    pub key_type: KeyType,
    /// The comment embedded in the key; conventionally `username@hostname`
    /// of the generating machine. When absent, the key is generated with an
    /// empty comment and the stored public line carries no comment field.
    pub comment: Option<String>,
    /// The port the remote SSH server listens on.
    pub port: u16,
    /// An optional passphrase protecting the private key.
    pub passphrase: Option<String>,
    /// Permission to overwrite an existing keypair of the same name.
    pub force: bool,
}

/// Arguments of a revocation: remove the deployed public key from the
/// target's authorized-keys list.
pub struct KeyRevoke {
    /// The target, of the form `[user@]host`.
    pub target: String,
    /// The identity name to revoke, without the `.pub` extension; the host
    /// is used when absent.
    pub identity_file_path: Option<String>,
    /// The port the remote SSH server listens on.
    pub port: u16,
    /// Whether to delete the local key files after a successful revocation.
    pub delete_identity_file: bool,
}

/// Arguments of a renew: a revocation followed, only on its success, by an
/// initialization with overwrite implied.
pub struct KeyRenew {
    /// The target, of the form `[user@]host`.
    pub target: String,
    /// Which type of key to generate.
    pub key_type: KeyType,
    /// The comment embedded in the new key. When absent, the key is
    /// generated with an empty comment and the stored public line carries
    /// no comment field.
    pub comment: Option<String>,
    /// The port the remote SSH server listens on.
    pub port: u16,
    /// An optional passphrase protecting the new private key.
    pub password: Option<String>,
    /// Permission to overwrite an existing keypair of the same name.
    pub force: bool,
    /// The identity name to revoke, without the `.pub` extension; the host
    /// is used when absent.
    pub identity_file_path: Option<String>,
    /// Whether to delete the local key files after a successful revocation.
    pub delete_identity_file: bool,
}

impl From<KeyRenew> for KeyInit {
    /// The initialization part of a renew. Overwrite is implied, whatever
    /// the renew's own flag said: the identity's files exist by definition
    /// of being renewed.
    fn from(key_renew: KeyRenew) -> (r: KeyInit) {
        KeyInit {
            target: key_renew.target,
            key_type: key_renew.key_type,
            comment: key_renew.comment,
            port: key_renew.port,
            passphrase: key_renew.password,
            force: true,
        }
    }
}

impl vstd::std_specs::convert::FromSpecImpl<KeyRenew> for KeyInit {
    open spec fn obeys_from_spec() -> bool {
        true
    }

    open spec fn from_spec(key_renew: KeyRenew) -> KeyInit {
        KeyInit {
            target: key_renew.target,
            key_type: key_renew.key_type,
            comment: key_renew.comment,
            port: key_renew.port,
            passphrase: key_renew.password,
            force: true,
        }
    }
}

impl From<KeyRenew> for KeyRevoke {
    /// The revocation part of a renew.
    fn from(key_renew: KeyRenew) -> (r: KeyRevoke) {
        KeyRevoke {
            target: key_renew.target,
            identity_file_path: key_renew.identity_file_path,
            port: key_renew.port,
            delete_identity_file: key_renew.delete_identity_file,
        }
    }
}

impl vstd::std_specs::convert::FromSpecImpl<KeyRenew> for KeyRevoke {
    open spec fn obeys_from_spec() -> bool {
        true
    }

    open spec fn from_spec(key_renew: KeyRenew) -> KeyRevoke {
        KeyRevoke {
            target: key_renew.target,
            identity_file_path: key_renew.identity_file_path,
            port: key_renew.port,
            delete_identity_file: key_renew.delete_identity_file,
        }
    }
}

/// One requested operation.
pub enum SubCommands {
    Init(KeyInit),
    Revoke(KeyRevoke),
    Renew(KeyRenew),
}

/// The whole command line: the one operation it requests.
pub struct Opts {
    pub subcmd: SubCommands,
}

/// A copy of an optional string, equal in view.
pub fn clone_opt_string(o: &Option<String>) -> (r: Option<String>)
    ensures
        opt_view(r) == opt_view(*o),
{
    match o {
        Some(s) => Some(s.clone()),
        None => None,
    }
}

} // verus!
