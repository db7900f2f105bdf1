//! Construction of the remote revocation command: the pattern built from a
//! public key line and the stream-edit command that deletes every
//! authorized-keys line containing it.
//!
//! The deletion is a substring match on the escaped key text. Should one
//! key's base64 body ever be a literal substring of another's —
//! cryptographically implausible, but not structurally impossible for short
//! or malformed keys — both lines would be deleted; exact matching on the
//! decoded key blob would be the stronger design.

use vstd::prelude::*;
use crate::textops::{
    escape_pattern, lemma_escape_roundtrip, spec_escape, spec_trim, spec_unescape, trim_spaces,
};

verus! {

/// The pattern the revocation searches for: the key line trimmed of its
/// surrounding whitespace, with `/` escaped for the stream editor.
pub open spec fn spec_revoke_pattern(key_text: Seq<char>) -> Seq<char> {
    spec_escape(spec_trim(key_text))
}

/// The remote command deleting every authorized-keys line that contains
/// `pattern`.
pub open spec fn spec_delete_command(pattern: Seq<char>) -> Seq<char> {
    "sed -i '/"@ + pattern + "/d' .ssh/authorized_keys"@
}

/// The pattern searched for stands for exactly the trimmed key line it was
/// built from: a key line read back from the file an initialization wrote,
/// put through the matching step, is byte-identical — modulo the escaping
/// transform — to what the revocation searches for.
pub proof fn lemma_pattern_matches_trimmed_key(key_text: Seq<char>)
    ensures
        spec_unescape(spec_revoke_pattern(key_text)) == spec_trim(key_text),
{
    lemma_escape_roundtrip(spec_trim(key_text));
}

/// Builds the revocation pattern from the text of a public key file.
pub fn revoke_pattern(key_text: &str) -> (r: String)
    ensures
        r@ == spec_revoke_pattern(key_text@),
{
    let trimmed = trim_spaces(key_text);
    escape_pattern(trimmed.as_str())
}

/// Builds the remote deletion command around an already-escaped pattern.
pub fn delete_command(pattern: &str) -> (r: String)
    ensures
        r@ == spec_delete_command(pattern@),
{
    let mut out = String::from_str("sed -i '/");
    out.append(pattern);
    out.append("/d' .ssh/authorized_keys");
    out
}

} // verus!
