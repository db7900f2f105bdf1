//! The error taxonomy of the library. Every failure of a lifecycle operation
//! is reported through one of these variants; none is swallowed or retried.

use vstd::prelude::*;

verus! {

/// Why a lifecycle operation failed.
///
/// A remote failure carries the exit status of the external utility when it
/// ran (`Some(status)` with `status != 0`) or `None` when it could not be
/// spawned at all.
#[derive(Debug, Clone, Copy, PartialEq, Eq)]
pub enum SshKeyCtlError {
    /// The target string does not have the form `host` or `user@host`
    /// with a non-empty host.
    InvalidTarget,
    /// A key file already exists at the destination and `force` was not given.
    AlreadyExists,
    /// A local filesystem operation failed.
    IoError,
    /// The key-material collaborator could not generate a keypair.
    KeyGenerationError,
    /// The key-material collaborator could not serialize a keypair.
    SerializationError,
    /// The external key-copy utility exited non-zero or could not be run.
    DeploymentFailed(Option<i32>),
    /// The remote deletion command exited non-zero or could not be run.
    RevocationFailed(Option<i32>),
}

impl SshKeyCtlError {
    /// A short human-readable description, for the surrounding binary to print.
    pub fn message(&self) -> (r: String)
        ensures
            r@ == match self {
                SshKeyCtlError::InvalidTarget => "target must have the form [user@]host"@,
                SshKeyCtlError::AlreadyExists => "file already exists; pass the overwrite flag to replace it"@,
                SshKeyCtlError::IoError => "a local filesystem operation failed"@,
                SshKeyCtlError::KeyGenerationError => "could not generate the keypair"@,
                SshKeyCtlError::SerializationError => "could not serialize the keypair"@,
                SshKeyCtlError::DeploymentFailed(_) => "deploying the public key to the remote host failed"@,
                SshKeyCtlError::RevocationFailed(_) => "revoking the public key on the remote host failed"@,
            },
            r@.len() > 0,
    {
        proof {
            reveal_strlit("target must have the form [user@]host");
            reveal_strlit("file already exists; pass the overwrite flag to replace it");
            reveal_strlit("a local filesystem operation failed");
            reveal_strlit("could not generate the keypair");
            reveal_strlit("could not serialize the keypair");
            reveal_strlit("deploying the public key to the remote host failed");
            reveal_strlit("revoking the public key on the remote host failed");
        }
        match self {
            SshKeyCtlError::InvalidTarget => String::from_str(
                "target must have the form [user@]host",
            ),
            SshKeyCtlError::AlreadyExists => String::from_str(
                "file already exists; pass the overwrite flag to replace it",
            ),
            SshKeyCtlError::IoError => String::from_str("a local filesystem operation failed"),
            SshKeyCtlError::KeyGenerationError => String::from_str(
                "could not generate the keypair",
            ),
            SshKeyCtlError::SerializationError => String::from_str(
                "could not serialize the keypair",
            ),
            SshKeyCtlError::DeploymentFailed(_) => String::from_str(
                "deploying the public key to the remote host failed",
            ),
            SshKeyCtlError::RevocationFailed(_) => String::from_str(
                "revoking the public key on the remote host failed",
            ),
        }
    }
}

} // verus!
