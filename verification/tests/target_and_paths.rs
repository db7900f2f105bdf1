use ssh_keyctl::cli::{KeyInit, KeyRenew, KeyRevoke, KeyType, ParseError};
use ssh_keyctl::error::SshKeyCtlError;
use ssh_keyctl::paths::resolve_identity_paths;
use ssh_keyctl::target::split_target;

#[test]
fn split_bare_host() {
    let r = split_target("example.com").unwrap();
    assert_eq!(r.0, None);
    assert_eq!(r.1, "example.com");
}

#[test]
fn split_user_and_host() {
    let r = split_target("alice@example.com").unwrap();
    assert_eq!(r.0.as_deref(), Some("alice"));
    assert_eq!(r.1, "example.com");
}

#[test]
fn split_empty_user_keeps_host() {
    let r = split_target("@example.com").unwrap();
    assert_eq!(r.0.as_deref(), Some(""));
    assert_eq!(r.1, "example.com");
}

#[test]
fn split_two_ats_is_invalid() {
    assert_eq!(split_target("a@b@c"), Err(SshKeyCtlError::InvalidTarget));
}

#[test]
fn split_empty_string_is_invalid() {
    assert_eq!(split_target(""), Err(SshKeyCtlError::InvalidTarget));
}

#[test]
fn split_empty_host_is_invalid() {
    assert_eq!(split_target("user@"), Err(SshKeyCtlError::InvalidTarget));
}

#[test]
fn default_identity_name_is_host() {
    // For both target forms the default identity name is the host part.
    let host = split_target("alice@example.com").unwrap().1;
    let pair = resolve_identity_paths("/home/alice/.ssh", &host, None);
    assert_eq!(pair.private_path, "/home/alice/.ssh/example.com");
    assert_eq!(pair.public_path, "/home/alice/.ssh/example.com.pub");
    let host2 = split_target("example.com").unwrap().1;
    let pair2 = resolve_identity_paths("/home/alice/.ssh", &host2, None);
    assert_eq!(pair2.private_path, pair.private_path);
}

#[test]
fn explicit_identity_name_wins() {
    let name = String::from("work-key");
    let pair = resolve_identity_paths("/root/.ssh", "example.com", Some(&name));
    assert_eq!(pair.private_path, "/root/.ssh/work-key");
    assert_eq!(pair.public_path, "/root/.ssh/work-key.pub");
}

#[test]
fn key_type_from_str_accepts_the_four_names() {
    assert_eq!(KeyType::from_str("rsa"), Ok(KeyType::RSA));
    assert_eq!(KeyType::from_str("dsa"), Ok(KeyType::DSA));
    assert_eq!(KeyType::from_str("ed25519"), Ok(KeyType::ED25519));
    assert_eq!(KeyType::from_str("ecdsa"), Ok(KeyType::ECDSA));
}

#[test]
fn key_type_from_str_rejects_others() {
    let e = KeyType::from_str("ed448").unwrap_err();
    assert_eq!(e, ParseError::UnknownKeyType(String::from("ed448")));
    assert_eq!(e.message(), "Must be one of rsa, dsa, ecdsa, or ed25519");
}

#[test]
fn key_type_default_is_ed25519() {
    assert_eq!(KeyType::default(), KeyType::ED25519);
}

#[test]
fn renew_splits_into_init_and_revoke() {
    let renew = KeyRenew {
        target: String::from("bob@host.example"),
        key_type: KeyType::RSA,
        comment: Some(String::from("c@m")),
        port: 2222,
        password: Some(String::from("pw")),
        force: false,
        identity_file_path: Some(String::from("oldname")),
        delete_identity_file: true,
    };
    let init = KeyInit::from(KeyRenew {
        identity_file_path: renew.identity_file_path.clone(),
        target: renew.target.clone(),
        comment: renew.comment.clone(),
        password: renew.password.clone(),
        ..renew
    });
    assert_eq!(init.target, "bob@host.example");
    assert_eq!(init.key_type, KeyType::RSA);
    assert_eq!(init.comment.as_deref(), Some("c@m"));
    assert_eq!(init.port, 2222);
    assert_eq!(init.passphrase.as_deref(), Some("pw"));
    // The init part of a renew implies overwrite, whatever the renew's own
    // flag said: the identity's files exist by definition of being renewed.
    assert!(init.force);
    let revoke = KeyRevoke::from(renew);
    assert_eq!(revoke.target, "bob@host.example");
    assert_eq!(revoke.identity_file_path.as_deref(), Some("oldname"));
    assert_eq!(revoke.port, 2222);
    assert!(revoke.delete_identity_file);
}

#[test]
fn store_root_is_the_ssh_directory() {
    if let Some(root) = ssh_keyctl::paths::identity_store_root() {
        assert!(root.ends_with("/.ssh"));
    }
}

#[test]
fn store_root_sits_under_the_home_directory() {
    assert_eq!(
        ssh_keyctl::paths::store_root_from(String::from("/home/alice")),
        "/home/alice/.ssh"
    );
    assert_eq!(ssh_keyctl::paths::store_root_from(String::from("")), "/.ssh");
}

#[test]
fn error_messages_name_each_failure() {
    assert!(SshKeyCtlError::InvalidTarget.message().contains("target"));
    assert!(SshKeyCtlError::AlreadyExists.message().contains("exists"));
    assert!(SshKeyCtlError::IoError.message().len() > 0);
    assert!(SshKeyCtlError::KeyGenerationError.message().contains("generate"));
    assert!(SshKeyCtlError::SerializationError.message().contains("serialize"));
    assert!(SshKeyCtlError::DeploymentFailed(Some(1)).message().contains("deploy"));
    assert!(SshKeyCtlError::RevocationFailed(None).message().contains("revok"));
}
