//! Management of per-host SSH identities: generating a keypair for a remote
//! target, persisting it to the local identity store without clobbering
//! existing keys, deploying the public half to the target's authorized-keys
//! list, and revoking such a deployment later. A renew is revoke-then-init.
//!
//! All decisions (path resolution, collision checks, permission hardening,
//! remote command construction, sequencing and failure policy) are verified
//! here; the surrounding binary performs the filesystem and process actions
//! this library asks for.

pub mod cli;
pub mod error;
pub mod fswrite;
pub mod lifecycle;
pub mod material;
pub mod paths;
pub mod remote;
pub mod target;
pub mod textops;
