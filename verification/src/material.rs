//! Key material: generation and serialization of a keypair, through the
//! key-pair collaborator. The material is created once per initialization,
//! persisted, and never retained beyond the call that uses it.

use vstd::prelude::*;
use crate::cli::KeyType;
use crate::error::SshKeyCtlError;

verus! {

/// The key-pair handle of the collaborator, opaque to this library.
#[verifier::external_type_specification]
#[verifier::external_body]
pub struct ExKeyPair(osshkeys::KeyPair);

/// One generated identity, serialized: the private key in OpenSSH format
/// and the public key as a single line ending in a newline.
pub struct KeyMaterial {
    pub private_blob: String,
    pub public_blob: String,
}

/// Relies on osshkeys::KeyPair::generate: a fresh keypair of the requested
/// algorithm at its default bit size. The result is random, so nothing is
/// assumed of it beyond the error mapping.
#[verifier::external_body]
fn generate_keypair(key_type: KeyType) -> (r: Result<osshkeys::KeyPair, SshKeyCtlError>)
    ensures
        r matches Err(e) ==> e == SshKeyCtlError::KeyGenerationError,
{
    let t = match key_type {
        KeyType::RSA => osshkeys::keys::KeyType::RSA,
        KeyType::DSA => osshkeys::keys::KeyType::DSA,
        KeyType::ED25519 => osshkeys::keys::KeyType::ED25519,
        KeyType::ECDSA => osshkeys::keys::KeyType::ECDSA,
    };
    osshkeys::KeyPair::generate(t, 0).map_err(|_| SshKeyCtlError::KeyGenerationError)
}

/// Relies on osshkeys::KeyPair::comment_mut: replaces the comment that the
/// public-key serialization appends as the line's trailing field.
#[verifier::external_body]
fn set_comment(key_pair: &mut osshkeys::KeyPair, comment: &str) {
    *key_pair.comment_mut() = comment.to_string();
}

/// Relies on osshkeys::KeyPair::serialize_openssh: the private key in the
/// OpenSSH armored format, AES-256-CTR encrypted when a passphrase is given
/// and unencrypted otherwise.
#[verifier::external_body]
fn serialize_private(key_pair: &osshkeys::KeyPair, passphrase: Option<&str>) -> (r: Result<
    String,
    SshKeyCtlError,
>)
    ensures
        r matches Err(e) ==> e == SshKeyCtlError::SerializationError,
{
    key_pair.serialize_openssh(passphrase, osshkeys::cipher::Cipher::Aes256_Ctr).map_err(
        |_| SshKeyCtlError::SerializationError,
    )
}

/// Relies on osshkeys::KeyPair::serialize_publickey: the public key as one
/// `<algorithm> <base64>[ <comment>]` line without a trailing newline.
#[verifier::external_body]
fn serialize_public(key_pair: &osshkeys::KeyPair) -> (r: Result<String, SshKeyCtlError>)
    ensures
        r matches Err(e) ==> e == SshKeyCtlError::SerializationError,
{
    key_pair.serialize_publickey().map_err(|_| SshKeyCtlError::SerializationError)
}

/// Assembles the persisted material from the two serialized halves: the
/// private key text as it came, and the public key line with the newline
/// appended that the stored `.pub` file ends with.
pub fn assemble_material(private_blob: String, public_blob: String) -> (m: KeyMaterial)
    ensures
        m.private_blob@ == private_blob@,
        m.public_blob@ == public_blob@.push('\n'),
{
    let mut public_blob = public_blob;
    public_blob.push('\n');
    KeyMaterial { private_blob, public_blob }
}

/// Generates a keypair of the requested algorithm with the given comment
/// (an empty comment leaves the comment field off the public line) and
/// serializes both halves; the public blob gets the newline the stored
/// `.pub` file ends with. The keys are random, so only the blobs' shape can
/// be stated here; [`assemble_material`] carries the exact relation between
/// what the serializers returned and what is persisted.
pub fn generate_material(key_type: KeyType, comment: &str, passphrase: Option<&String>) -> (r:
    Result<KeyMaterial, SshKeyCtlError>)
    ensures
        r matches Err(e) ==> (e == SshKeyCtlError::KeyGenerationError
            || e == SshKeyCtlError::SerializationError),
        r matches Ok(m) ==> m.public_blob@.len() > 0 && m.public_blob@[m.public_blob@.len()
            - 1] == '\n',
{
    let mut key_pair = match generate_keypair(key_type) {
        Ok(k) => k,
        Err(e) => {
            return Err(e);
        },
    };
    set_comment(&mut key_pair, comment);
    let pass: Option<&str> = match passphrase {
        Some(p) => Some(p.as_str()),
        None => None,
    };
    let private_blob = match serialize_private(&key_pair, pass) {
        Ok(s) => s,
        Err(e) => {
            return Err(e);
        },
    };
    let public_blob = match serialize_public(&key_pair) {
        Ok(s) => s,
        Err(e) => {
            return Err(e);
        },
    };
    Ok(assemble_material(private_blob, public_blob))
}

} // verus!
