//! Resolution of the identity file pair inside the identity store.
//!
//! The store root is the user's `.ssh` directory. An identity is named either
//! by an explicit name or, by default, by the bare host part of the target;
//! the private key lives at `<root>/<name>` and the public key beside it at
//! `<root>/<name>.pub`.

use vstd::prelude::*;

verus! {

/// The private and public key paths of one identity, derived from the store
/// root and the identity name and owned by a single operation.
pub struct IdentityFilePair {
    pub private_path: String,
    pub public_path: String,
}

impl IdentityFilePair {
    /// A copy of the pair, equal in view.
    pub fn clone_pair(&self) -> (r: IdentityFilePair)
        ensures
            r.private_path@ == self.private_path@,
            r.public_path@ == self.public_path@,
    {
        IdentityFilePair {
            private_path: self.private_path.clone(),
            public_path: self.public_path.clone(),
        }
    }
}

/// The name an identity resolves to: the explicit name when one is supplied,
/// else the host.
pub open spec fn spec_identity_name(explicit: Option<Seq<char>>, host: Seq<char>) -> Seq<char> {
    match explicit {
        Option::Some(n) => n,
        Option::None => host,
    }
}

/// The private key path: `<root>/<name>`.
pub open spec fn spec_private_path(root: Seq<char>, name: Seq<char>) -> Seq<char> {
    root + "/"@ + name
}

/// The public key path: the private key path with `.pub` appended.
pub open spec fn spec_public_path(root: Seq<char>, name: Seq<char>) -> Seq<char> {
    spec_private_path(root, name) + ".pub"@
}

/// Path resolution selects the host as the default identity name: for any
/// well-formed target, resolving without an explicit name roots both paths
/// at the bare host part, whether or not the target carried a user part.
pub proof fn lemma_default_identity_is_host(
    s: Seq<char>,
    user: Option<Seq<char>>,
    host: Seq<char>,
    root: Seq<char>,
)
    requires
        crate::target::split_ok(s, user, host),
    ensures
        spec_identity_name(Option::None, host) == host,
        spec_private_path(root, spec_identity_name(Option::None, host)) == root + "/"@ + host,
        spec_public_path(root, spec_identity_name(Option::None, host)) == root + "/"@ + host
            + ".pub"@,
{
}

/// Relies on dirs::home_dir: yields the user's home directory, if the
/// platform reports one and its path is valid Unicode. The result depends
/// on the environment, so nothing is assumed of it.
#[verifier::external_body]
fn home_dir_string() -> (r: Option<String>)
{
    dirs::home_dir().and_then(|p| p.to_str().map(|s| s.to_string()))
}

/// The identity store root under a given home directory: `<home>/.ssh`.
pub fn store_root_from(home: String) -> (r: String)
    ensures
        r@ == home@ + "/.ssh"@,
{
    let mut root = home;
    root.append("/.ssh");
    root
}

/// The identity store root: the `.ssh` directory under the user's home
/// directory, or `None` when no home directory can be determined. The home
/// directory depends on the environment, so only the shape of the result is
/// stated here; [`store_root_from`] carries the exact relation.
pub fn identity_store_root() -> (r: Option<String>)
    ensures
        r matches Some(p) ==> p@.len() >= 5 && p@.subrange(
            p@.len() - 5,
            p@.len() as int,
        ) == "/.ssh"@,
{
    match home_dir_string() {
        None => None,
        Some(home) => {
            let root = store_root_from(home);
            proof {
                reveal_strlit("/.ssh");
                assert(root@.subrange(root@.len() - 5, root@.len() as int) =~= "/.ssh"@);
            }
            Some(root)
        },
    }
}

/// Derives the identity file pair for the given store root, host, and
/// optional explicit identity name.
pub fn resolve_identity_paths(root: &str, host: &str, explicit: Option<&String>) -> (r:
    IdentityFilePair)
    ensures
        ({
            let name = spec_identity_name(
                match explicit {
                    Option::Some(n) => Option::Some(n@),
                    Option::None => Option::None,
                },
                host@,
            );
            &&& r.private_path@ == spec_private_path(root@, name)
            &&& r.public_path@ == spec_public_path(root@, name)
        }),
{
    let name: &str = match explicit {
        Some(n) => n.as_str(),
        None => host,
    };
    let mut private_path = root.to_owned();
    private_path.append("/");
    private_path.append(name);
    let mut public_path = private_path.clone();
    public_path.append(".pub");
    IdentityFilePair { private_path, public_path }
}

} // verus!
