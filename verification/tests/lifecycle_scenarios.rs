use ssh_keyctl::cli::{KeyInit, KeyRenew, KeyRevoke, KeyType, SubCommands};
use ssh_keyctl::error::SshKeyCtlError;
use ssh_keyctl::lifecycle::{start, Action, Event, Phase};
use ssh_keyctl::material::generate_material;

fn init_args(target: &str, force: bool) -> SubCommands {
    SubCommands::Init(KeyInit {
        target: String::from(target),
        key_type: KeyType::ED25519,
        comment: Some(String::from("a@b")),
        port: 22,
        passphrase: None,
        force,
    })
}

fn revoke_args(target: &str, delete: bool) -> SubCommands {
    SubCommands::Revoke(KeyRevoke {
        target: String::from(target),
        identity_file_path: None,
        port: 22,
        delete_identity_file: delete,
    })
}

fn renew_args(target: &str) -> SubCommands {
    SubCommands::Renew(KeyRenew {
        target: String::from(target),
        key_type: KeyType::ED25519,
        comment: Some(String::from("a@b")),
        port: 22,
        password: None,
        force: false,
        identity_file_path: None,
        delete_identity_file: false,
    })
}

const ROOT: &str = "/home/alice/.ssh";

#[test]
fn init_walks_check_write_write_deploy() {
    // A fresh store: both files are created, the private one exclusively and
    // with owner-only permission bits, then the deploy step runs against the
    // full target on the requested port.
    let (mut o, a) = start(init_args("alice@example.com", false), Some(String::from(ROOT)));
    match a {
        Action::CheckExists { path } => assert_eq!(path, "/home/alice/.ssh/example.com"),
        other => panic!("expected an existence check, got {:?}", other),
    }
    let a = o.step(Event::Exists(false));
    let private_contents = match a {
        Action::WriteFile { path, contents, plan } => {
            assert_eq!(path, "/home/alice/.ssh/example.com");
            assert!(plan.create_new);
            assert_eq!(plan.mode, Some(0o600));
            contents
        },
        other => panic!("expected the private key write, got {:?}", other),
    };
    assert!(private_contents.contains("OPENSSH PRIVATE KEY"));
    let a = o.step(Event::Wrote(true));
    match a {
        Action::CheckExists { path } => assert_eq!(path, "/home/alice/.ssh/example.com.pub"),
        other => panic!("expected an existence check, got {:?}", other),
    }
    let a = o.step(Event::Exists(false));
    match a {
        Action::WriteFile { path, contents, plan } => {
            assert_eq!(path, "/home/alice/.ssh/example.com.pub");
            assert!(plan.create_new);
            assert_eq!(plan.mode, None);
            assert!(contents.starts_with("ssh-ed25519 "));
            assert!(contents.ends_with("a@b\n"));
        },
        other => panic!("expected the public key write, got {:?}", other),
    }
    let a = o.step(Event::Wrote(true));
    match a {
        Action::RunKeyDeploy { destination, port, private_key_path } => {
            assert_eq!(destination, "alice@example.com");
            assert_eq!(port, 22);
            assert_eq!(private_key_path, "/home/alice/.ssh/example.com");
        },
        other => panic!("expected the deploy step, got {:?}", other),
    }
    let a = o.step(Event::ExitCode(Some(0)));
    assert!(matches!(a, Action::Stop));
    assert!(o.finished());
    assert_eq!(o.failure, None);
}

#[test]
fn init_on_existing_key_fails_before_writing() {
    // The second identical call without force: the collision is fatal and
    // no write is ever ordered.
    let (mut o, a) = start(init_args("alice@example.com", false), Some(String::from(ROOT)));
    assert!(matches!(a, Action::CheckExists { .. }));
    let a = o.step(Event::Exists(true));
    assert!(matches!(a, Action::Stop));
    assert_eq!(o.failure, Some(SshKeyCtlError::AlreadyExists));
}

#[test]
fn init_with_force_skips_the_checks() {
    let (mut o, a) = start(init_args("example.com", true), Some(String::from(ROOT)));
    match a {
        Action::WriteFile { path, plan, .. } => {
            assert_eq!(path, "/home/alice/.ssh/example.com");
            assert!(!plan.create_new);
            assert_eq!(plan.mode, Some(0o600));
        },
        other => panic!("expected the private key write, got {:?}", other),
    }
    let a = o.step(Event::Wrote(true));
    match a {
        Action::WriteFile { path, plan, .. } => {
            assert_eq!(path, "/home/alice/.ssh/example.com.pub");
            assert!(!plan.create_new);
        },
        other => panic!("expected the public key write, got {:?}", other),
    }
}

#[test]
fn init_invalid_target_fails_at_once() {
    let (o, a) = start(init_args("a@b@c", false), Some(String::from(ROOT)));
    assert!(matches!(a, Action::Stop));
    assert_eq!(o.failure, Some(SshKeyCtlError::InvalidTarget));
}

#[test]
fn init_without_home_directory_fails_at_once() {
    let (o, a) = start(init_args("example.com", false), None);
    assert!(matches!(a, Action::Stop));
    assert_eq!(o.failure, Some(SshKeyCtlError::IoError));
}

#[test]
fn failed_deploy_leaves_the_local_files() {
    // Deployment failure reports the exit status; the already-written local
    // files are not rolled back (no removal is ordered).
    let (mut o, _) = start(init_args("example.com", true), Some(String::from(ROOT)));
    o.step(Event::Wrote(true));
    o.step(Event::Wrote(true));
    let a = o.step(Event::ExitCode(Some(255)));
    assert!(matches!(a, Action::Stop));
    assert_eq!(o.failure, Some(SshKeyCtlError::DeploymentFailed(Some(255))));
}

#[test]
fn revoke_reads_then_deletes_remotely_then_removes_locally() {
    // An existing `.pub` with key line K: the remote deletion targets lines
    // containing K, and only then are both local files removed.
    let (mut o, a) = start(revoke_args("example.com", true), Some(String::from(ROOT)));
    match a {
        Action::ReadFile { path } => assert_eq!(path, "/home/alice/.ssh/example.com.pub"),
        other => panic!("expected a read, got {:?}", other),
    }
    let a = o.step(Event::ReadDone(Some(String::from("ssh-ed25519 AA/BB a@b\n"))));
    match a {
        Action::RunRemoteCommand { destination, port, remote_command } => {
            assert_eq!(destination, "example.com");
            assert_eq!(port, 22);
            assert_eq!(
                remote_command,
                "sed -i '/ssh-ed25519 AA\\/BB a@b/d' .ssh/authorized_keys"
            );
        },
        other => panic!("expected the remote deletion, got {:?}", other),
    }
    let a = o.step(Event::ExitCode(Some(0)));
    match a {
        Action::RemoveFile { path } => assert_eq!(path, "/home/alice/.ssh/example.com.pub"),
        other => panic!("expected removal of the public key, got {:?}", other),
    }
    let a = o.step(Event::Removed(true));
    match a {
        Action::RemoveFile { path } => assert_eq!(path, "/home/alice/.ssh/example.com"),
        other => panic!("expected removal of the private key, got {:?}", other),
    }
    let a = o.step(Event::Removed(true));
    assert!(matches!(a, Action::Stop));
    assert!(o.finished());
    assert_eq!(o.failure, None);
}

#[test]
fn revoke_remote_failure_removes_nothing() {
    let (mut o, _) = start(revoke_args("example.com", true), Some(String::from(ROOT)));
    o.step(Event::ReadDone(Some(String::from("ssh-ed25519 AA a@b\n"))));
    let a = o.step(Event::ExitCode(Some(1)));
    assert!(matches!(a, Action::Stop));
    assert_eq!(o.failure, Some(SshKeyCtlError::RevocationFailed(Some(1))));
}

#[test]
fn revoke_of_undeployed_key_is_a_noop_success() {
    // Deleting zero matching lines remotely still exits zero, and the
    // revocation succeeds: running revoke against an already-clean list is
    // not an error.
    let (mut o, _) = start(revoke_args("example.com", false), Some(String::from(ROOT)));
    o.step(Event::ReadDone(Some(String::from("ssh-ed25519 NEVER-DEPLOYED a@b\n"))));
    let a = o.step(Event::ExitCode(Some(0)));
    assert!(matches!(a, Action::Stop));
    assert!(o.finished());
    assert_eq!(o.failure, None);
}

#[test]
fn revoke_missing_local_key_is_fatal_before_any_remote_action() {
    let (mut o, _) = start(revoke_args("example.com", true), Some(String::from(ROOT)));
    let a = o.step(Event::ReadDone(None));
    assert!(matches!(a, Action::Stop));
    assert_eq!(o.failure, Some(SshKeyCtlError::IoError));
}

#[test]
fn renew_runs_revoke_then_init_with_force_implied() {
    let (mut o, a) = start(renew_args("alice@example.com"), Some(String::from(ROOT)));
    assert!(matches!(a, Action::ReadFile { .. }));
    let a = o.step(Event::ReadDone(Some(String::from("ssh-ed25519 OLD a@b\n"))));
    assert!(matches!(a, Action::RunRemoteCommand { .. }));
    let a = o.step(Event::ExitCode(Some(0)));
    match a {
        Action::WriteFile { path, plan, .. } => {
            assert_eq!(path, "/home/alice/.ssh/example.com");
            // force is implied: the identity exists by definition of renewal
            assert!(!plan.create_new);
            assert_eq!(plan.mode, Some(0o600));
        },
        other => panic!("expected the private key write, got {:?}", other),
    }
    let a = o.step(Event::Wrote(true));
    match a {
        Action::WriteFile { path, .. } => {
            assert_eq!(path, "/home/alice/.ssh/example.com.pub");
        },
        other => panic!("expected the public key write, got {:?}", other),
    }
    let a = o.step(Event::Wrote(true));
    assert!(matches!(a, Action::RunKeyDeploy { .. }));
    let a = o.step(Event::ExitCode(Some(0)));
    assert!(matches!(a, Action::Stop));
    assert_eq!(o.failure, None);
}

#[test]
fn renew_whose_revoke_fails_never_initializes() {
    // The revocation could not even read the local public key: the renew
    // reports that failure, and no generation or write is ever ordered.
    let (mut o, _) = start(renew_args("example.com"), Some(String::from(ROOT)));
    let a = o.step(Event::ReadDone(None));
    assert!(matches!(a, Action::Stop));
    assert!(o.finished());
    assert_eq!(o.failure, Some(SshKeyCtlError::IoError));
    assert!(matches!(o.phase, Phase::Finished));
}

#[test]
fn renew_remote_failure_stops_before_init() {
    let (mut o, _) = start(renew_args("example.com"), Some(String::from(ROOT)));
    o.step(Event::ReadDone(Some(String::from("ssh-ed25519 OLD a@b\n"))));
    let a = o.step(Event::ExitCode(None));
    assert!(matches!(a, Action::Stop));
    assert_eq!(o.failure, Some(SshKeyCtlError::RevocationFailed(None)));
}

#[test]
fn generated_material_round_trips_through_the_revoke_pattern() {
    // The public key line written by an initialization, read back and put
    // through the revocation's trim-and-escape step, unescapes to exactly
    // the trimmed line.
    let m = generate_material(KeyType::ED25519, "a@b", None).unwrap();
    let pattern = ssh_keyctl::remote::revoke_pattern(&m.public_blob);
    let back = ssh_keyctl::textops::unescape_pattern(&pattern);
    assert_eq!(back, m.public_blob.trim());
}

#[test]
fn assembled_material_keeps_both_halves() {
    let m = ssh_keyctl::material::assemble_material(
        String::from("PRIVATE TEXT"),
        String::from("ssh-ed25519 AAA c@d"),
    );
    assert_eq!(m.private_blob, "PRIVATE TEXT");
    assert_eq!(m.public_blob, "ssh-ed25519 AAA c@d\n");
}

#[test]
fn generated_material_is_openssh_shaped() {
    let m = generate_material(KeyType::ED25519, "me@here", None).unwrap();
    assert!(m.public_blob.starts_with("ssh-ed25519 "));
    assert!(m.public_blob.ends_with(" me@here\n"));
    assert!(m.private_blob.contains("BEGIN OPENSSH PRIVATE KEY"));
    assert!(m.private_blob.contains("END OPENSSH PRIVATE KEY"));
}

#[test]
fn passphrase_protected_material_is_still_openssh_shaped() {
    let pw = String::from("correct horse");
    let m = generate_material(KeyType::ECDSA, "c@d", Some(&pw)).unwrap();
    assert!(m.public_blob.starts_with("ecdsa-"));
    assert!(m.private_blob.contains("BEGIN OPENSSH PRIVATE KEY"));
}
