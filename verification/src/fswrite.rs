//! The safe-write decision: a write to an existing path is refused before a
//! byte reaches the disk unless overwriting was explicitly forced, and a
//! private file is ordered to carry owner-only permission bits.

use vstd::prelude::*;
use crate::error::SshKeyCtlError;

verus! {

/// The POSIX permission bits a private key file must carry: owner read and
/// write, no group or other bits.
pub const OWNER_RW_MODE: u32 = 0o600;

/// How one safe write is to be performed by the surrounding binary.
#[derive(Debug, Clone, Copy)]
pub struct WritePlan {
    /// Open with exclusive creation, so that a file racing into existence
    /// after the collision check still cannot be clobbered.
    pub create_new: bool,
    /// The permission bits to set on the file before its content is written,
    /// where the platform has POSIX permission bits; `None` leaves the
    /// platform default.
    pub mode: Option<u32>,
}

/// Decides a safe write. Writing to an existing path without `force` fails
/// with `AlreadyExists` and orders nothing written; otherwise the plan
/// creates exclusively exactly when `force` is off, and pins a private
/// file's permission bits to owner read/write only.
pub fn plan_write(exists: bool, is_private: bool, force: bool) -> (r: Result<
    WritePlan,
    SshKeyCtlError,
>)
    ensures
        (exists && !force) <==> (r matches Err(e) && e == SshKeyCtlError::AlreadyExists),
        !(exists && !force) <==> (r matches Ok(p) && p.create_new == !force && p.mode == (
        if is_private {
            Some(OWNER_RW_MODE)
        } else {
            None::<u32>
        })),
{
    if exists && !force {
        Err(SshKeyCtlError::AlreadyExists)
    } else {
        Ok(
            WritePlan {
                create_new: !force,
                mode: if is_private {
                    Some(OWNER_RW_MODE)
                } else {
                    None
                },
            },
        )
    }
}

} // verus!
