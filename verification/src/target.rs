//! Parsing of a target specification of the form `[user@]host`.
//!
//! The user part is informational only: the effective remote login user is
//! whatever the SSH client resolves by default. The host part is what names
//! the identity, so it must be non-empty, and a string with more than one
//! `@` has no well-formed reading and is rejected.

use vstd::prelude::*;
use crate::error::SshKeyCtlError;

verus! {

/// The view of an optional owned string.
pub open spec fn opt_view(o: Option<String>) -> Option<Seq<char>> {
    match o {
        Option::None => Option::None,
        Option::Some(s) => Option::Some(s@),
    }
}

/// `split_ok(s, user, host)` says that the target string `s` decomposes into
/// the given optional user part and host part: the host is non-empty and free
/// of `@`, and `s` is either the host alone or `user@host` with an `@`-free
/// user part. At most one decomposition exists for any `s`.
pub open spec fn split_ok(s: Seq<char>, user: Option<Seq<char>>, host: Seq<char>) -> bool {
    &&& host.len() > 0
    &&& !host.contains('@')
    &&& match user {
        Option::None => s == host,
        Option::Some(u) => !u.contains('@') && s == u.push('@') + host,
    }
}

/// A target string is well formed when it has some `[user@]host` reading.
pub open spec fn target_well_formed(s: Seq<char>) -> bool {
    exists|user: Option<Seq<char>>, host: Seq<char>| split_ok(s, user, host)
}

/// Any decomposition of a string whose first `@` stands at `i` puts the user
/// part before `i` and the host part after it.
proof fn lemma_split_at_first_at(s: Seq<char>, user: Option<Seq<char>>, host: Seq<char>, i: int)
    requires
        split_ok(s, user, host),
        0 <= i < s.len(),
        s[i] == '@',
        forall|j: int| 0 <= j < i ==> s[j] != '@',
    ensures
        user == Option::Some(s.subrange(0, i)),
        host == s.subrange(i + 1, s.len() as int),
{
    match user {
        Option::None => {
            assert(host.contains('@')) by {
                assert(host[i] == '@');
            }
        },
        Option::Some(u) => {
            let full = u.push('@') + host;
            assert(s.len() == u.len() + 1 + host.len());
            if u.len() < i {
                assert(s[u.len() as int] == '@');
            }
            if u.len() > i {
                assert(u[i] == s[i]);
                assert(u.contains('@')) by {
                    assert(u[i] == '@');
                }
            }
            assert(u.len() == i);
            assert(u =~= s.subrange(0, i));
            assert(host =~= s.subrange(i + 1, s.len() as int));
        },
    }
}

/// A string without `@` decomposes only as a bare host.
proof fn lemma_split_no_at(s: Seq<char>, user: Option<Seq<char>>, host: Seq<char>)
    requires
        split_ok(s, user, host),
        !s.contains('@'),
    ensures
        user is None,
        host == s,
{
    match user {
        Option::None => {},
        Option::Some(u) => {
            assert(s[u.len() as int] == '@');
        },
    }
}

/// The host part of a well-formed target string: the part after the `@`
/// when there is one, else the whole string.
pub open spec fn spec_host_of(s: Seq<char>) -> Seq<char> {
    (choose|p: (Option<Seq<char>>, Seq<char>)| split_ok(s, p.0, p.1)).1
}

/// A target string decomposes in at most one way.
pub proof fn lemma_split_unique(
    s: Seq<char>,
    user1: Option<Seq<char>>,
    host1: Seq<char>,
    user2: Option<Seq<char>>,
    host2: Seq<char>,
)
    requires
        split_ok(s, user1, host1),
        split_ok(s, user2, host2),
    ensures
        user1 == user2,
        host1 == host2,
{
    match user1 {
        Option::None => {
            assert(!s.contains('@')) by {
                assert(s == host1);
            }
            lemma_split_no_at(s, user2, host2);
        },
        Option::Some(u) => {
            let i = u.len() as int;
            assert(s[i] == '@');
            assert(forall|j: int| 0 <= j < i ==> s[j] == u[j]);
            assert forall|j: int| 0 <= j < i implies s[j] != '@' by {
                if s[j] == '@' {
                    assert(u.contains('@')) by {
                        assert(u[j] == '@');
                    }
                }
            }
            lemma_split_at_first_at(s, user1, host1, i);
            lemma_split_at_first_at(s, user2, host2, i);
        },
    }
}

/// For any decomposition of `s`, the host part is `spec_host_of(s)`.
pub proof fn lemma_host_of(s: Seq<char>, user: Option<Seq<char>>, host: Seq<char>)
    requires
        split_ok(s, user, host),
    ensures
        spec_host_of(s) == host,
{
    assert(exists|p: (Option<Seq<char>>, Seq<char>)| split_ok(s, p.0, p.1)) by {
        assert(split_ok(s, (user, host).0, (user, host).1));
    }
    let p = choose|p: (Option<Seq<char>>, Seq<char>)| split_ok(s, p.0, p.1);
    lemma_split_unique(s, user, host, p.0, p.1);
}

/// The index of the first `@` at or after `from`, or the length when there
/// is none.
fn find_at(s: &str, from: usize) -> (r: usize)
    requires
        from <= s@.len(),
    ensures
        from <= r <= s@.len(),
        forall|j: int| from <= j < r ==> s@[j] != '@',
        r < s@.len() ==> s@[r as int] == '@',
{
    let n = s.unicode_len();
    let mut i: usize = from;
    while i < n
        invariant
            from <= i <= n,
            n == s@.len(),
            forall|j: int| from <= j < i ==> s@[j] != '@',
        decreases n - i,
    {
        if s.get_char(i) == '@' {
            return i;
        }
        i = i + 1;
    }
    i
}

/// Splits a `[user@]host` target string into its user and host parts.
///
/// Returns the unique decomposition when one exists; a string with no
/// well-formed reading (more than one `@`, or an empty host) is rejected
/// with `InvalidTarget`.
pub fn split_target(target: &str) -> (r: Result<(Option<String>, String), SshKeyCtlError>)
    ensures
        match r {
            Ok(p) => split_ok(target@, opt_view(p.0), p.1@),
            Err(e) => e == SshKeyCtlError::InvalidTarget && !target_well_formed(target@),
        },
{
    let n = target.unicode_len();
    let i = find_at(target, 0);
    if i == n {
        if n == 0 {
            proof {
                assert forall|user: Option<Seq<char>>, host: Seq<char>|
                    !split_ok(target@, user, host) by {
                    if split_ok(target@, user, host) {
                        match user {
                            Option::None => {},
                            Option::Some(u) => {
                                assert(target@.len() == u.len() + 1 + host.len());
                            },
                        }
                    }
                }
            }
            Err(SshKeyCtlError::InvalidTarget)
        } else {
            let host = target.to_owned();
            proof {
                assert(!host@.contains('@'));
            }
            Ok((None, host))
        }
    } else {
        let j = find_at(target, i + 1);
        if j < n || i + 1 == n {
            proof {
                assert forall|user: Option<Seq<char>>, host: Seq<char>|
                    !split_ok(target@, user, host) by {
                    if split_ok(target@, user, host) {
                        lemma_split_at_first_at(target@, user, host, i as int);
                        let h = target@.subrange(i + 1, n as int);
                        if j < n {
                            assert(h.contains('@')) by {
                                assert(h[j - i - 1] == '@');
                            }
                        } else {
                            assert(h.len() == 0);
                        }
                    }
                }
            }
            Err(SshKeyCtlError::InvalidTarget)
        } else {
            let user = target.substring_char(0, i).to_owned();
            let host = target.substring_char(i + 1, n).to_owned();
            proof {
                assert(forall|k: int|
                    0 <= k < host@.len() ==> host@[k] == target@[k + i + 1]);
                assert(!host@.contains('@')) by {
                    assert(forall|k: int| i < k < n ==> target@[k] != '@');
                }
                assert(!user@.contains('@'));
                assert(target@ =~= user@.push('@') + host@);
            }
            Ok((Some(user), host))
        }
    }
}

} // verus!
