//! The lifecycle orchestrator: a state machine that sequences Init, Revoke,
//! and Renew (revoke, then init) and fixes the failure policy across the
//! sequence.
//!
//! The machine decides; the surrounding binary acts. Each call of
//! [`Orchestrator::step`] consumes the outcome of the previous [`Action`]
//! and returns the next one. The binary performs filesystem and remote
//! actions exactly as asked and feeds the result back as an [`Event`], so
//! every decision — what is checked, written, run or removed, in which
//! order, and what failure ends the operation — is fixed here.
//!
//! During the revocation phases no key material is generated and no local
//! write is ordered: a failure there finishes the whole operation, so a
//! renew whose revocation fails never reaches its initialization part.

use vstd::prelude::*;
use crate::cli::{clone_opt_string, KeyInit, KeyRenew, KeyRevoke, SubCommands};
use crate::error::SshKeyCtlError;
use crate::fswrite::{plan_write, WritePlan, OWNER_RW_MODE};
use crate::material::{generate_material, KeyMaterial};
use crate::paths::{
    resolve_identity_paths, spec_identity_name, spec_private_path, spec_public_path,
    IdentityFilePair,
};
use crate::remote::{delete_command, revoke_pattern, spec_delete_command, spec_revoke_pattern};
use crate::target::{lemma_host_of, opt_view, spec_host_of, split_target, target_well_formed};

verus! {

/// What the surrounding binary must do next. It answers each action with the
/// matching [`Event`]; `Stop` ends the exchange.
#[derive(Debug)]
pub enum Action {
    /// Report whether a file exists at `path` (answer: `Event::Exists`).
    CheckExists { path: String },
    /// Write `contents` to `path` as the plan says: open with exclusive
    /// creation when `plan.create_new`, and where the platform has POSIX
    /// permission bits, set the bits `plan.mode` orders before the content
    /// is written (answer: `Event::Wrote`).
    WriteFile { path: String, contents: String, plan: WritePlan },
    /// Read the text of the file at `path` (answer: `Event::ReadDone`).
    ReadFile { path: String },
    /// Run the external key-copy utility for the private key at
    /// `private_key_path` against `destination` on `port`
    /// (answer: `Event::ExitCode`).
    RunKeyDeploy { destination: String, port: u16, private_key_path: String },
    /// Run `remote_command` over an SSH session to `destination` on `port`
    /// (answer: `Event::ExitCode`).
    RunRemoteCommand { destination: String, port: u16, remote_command: String },
    /// Remove the local file at `path` (answer: `Event::Removed`).
    RemoveFile { path: String },
    /// The operation has finished; the orchestrator's `failure` says how.
    Stop,
}

/// The outcome of one performed [`Action`].
#[derive(Debug)]
pub enum Event {
    /// Whether the checked path exists.
    Exists(bool),
    /// Whether the ordered write fully succeeded.
    Wrote(bool),
    /// The text read, or `None` when the file could not be read.
    ReadDone(Option<String>),
    /// The exit code of the external utility, or `None` when it could not
    /// be spawned.
    ExitCode(Option<i32>),
    /// Whether the ordered removal succeeded.
    Removed(bool),
}

/// Where the operation stands: which answer the machine is waiting for.
#[derive(Debug, Clone, Copy, PartialEq, Eq)]
pub enum Phase {
    /// Init: waiting for the existence report on the private key path.
    InitCheckPrivate,
    /// Init: waiting for the private key write to finish.
    InitWritePrivate,
    /// Init: waiting for the existence report on the public key path.
    InitCheckPublic,
    /// Init: waiting for the public key write to finish.
    InitWritePublic,
    /// Init: waiting for the deploy utility's exit code.
    InitDeploy,
    /// Revoke: waiting for the text of the local public key file.
    RevokeRead,
    /// Revoke: waiting for the remote deletion's exit code.
    RevokeRemote,
    /// Revoke: waiting for the removal of the local public key file.
    RevokeRemovePublic,
    /// Revoke: waiting for the removal of the local private key file.
    RevokeRemovePrivate,
    /// The operation is over; no further event is taken.
    Finished,
}

/// The state of one lifecycle operation.
pub struct Orchestrator {
    /// Where the operation stands.
    pub phase: Phase,
    /// Why it failed, once `phase` is `Finished`; `None` means success.
    pub failure: Option<SshKeyCtlError>,
    /// The full `[user@]host` target string: the deploy destination.
    pub destination: String,
    /// The bare host part: the revocation destination.
    pub host: String,
    /// The port the remote SSH server listens on.
    pub port: u16,
    /// Whether existing local key files may be overwritten.
    pub force: bool,
    /// Whether a successful revocation removes the local key files.
    pub delete_identity_file: bool,
    /// The file pair of the sub-operation under way.
    pub paths: IdentityFilePair,
    /// For a renew: the file pair its initialization part will use.
    pub init_paths: Option<IdentityFilePair>,
    /// For a renew: the initialization to run after a successful revocation,
    /// with overwrite implied.
    pub pending_init: Option<KeyInit>,
    /// The generated material an initialization persists.
    pub material: Option<KeyMaterial>,
}

/// Which event answers the action of each phase.
pub open spec fn expects(phase: Phase, ev: Event) -> bool {
    match phase {
        Phase::InitCheckPrivate => ev is Exists,
        Phase::InitWritePrivate => ev is Wrote,
        Phase::InitCheckPublic => ev is Exists,
        Phase::InitWritePublic => ev is Wrote,
        Phase::InitDeploy => ev is ExitCode,
        Phase::RevokeRead => ev is ReadDone,
        Phase::RevokeRemote => ev is ExitCode,
        Phase::RevokeRemovePublic => ev is Removed,
        Phase::RevokeRemovePrivate => ev is Removed,
        Phase::Finished => false,
    }
}

/// `a` asks for an existence check of `path`.
pub open spec fn action_checks(a: Action, path: Seq<char>) -> bool {
    a matches Action::CheckExists { path: p } && p@ == path
}

/// `a` asks for the text of `path`.
pub open spec fn action_reads(a: Action, path: Seq<char>) -> bool {
    a matches Action::ReadFile { path: p } && p@ == path
}

/// `a` asks for the removal of `path`.
pub open spec fn action_removes(a: Action, path: Seq<char>) -> bool {
    a matches Action::RemoveFile { path: p } && p@ == path
}

/// `a` writes the generated private key to the private key path, exclusively
/// created unless overwriting was forced, its permission bits pinned to
/// owner read/write whatever the process's umask.
pub open spec fn writes_private_key(s: Orchestrator, a: Action) -> bool {
    &&& a matches Action::WriteFile { path, contents, plan } && ({
        &&& path@ == s.paths.private_path@
        &&& (s.material matches Some(m) && contents@ == m.private_blob@)
        &&& plan.mode == Some(OWNER_RW_MODE)
        &&& plan.create_new == !s.force
    })
}

/// `a` writes the generated public key line to the public key path,
/// exclusively created unless overwriting was forced, with the platform's
/// default permission bits.
pub open spec fn writes_public_key(s: Orchestrator, a: Action) -> bool {
    &&& a matches Action::WriteFile { path, contents, plan } && ({
        &&& path@ == s.paths.public_path@
        &&& (s.material matches Some(m) && contents@ == m.public_blob@)
        &&& plan.mode is None
        &&& plan.create_new == !s.force
    })
}

/// `a` hands the private key path to the key-copy utility against the full
/// target on the configured port.
pub open spec fn action_deploys(s: Orchestrator, a: Action) -> bool {
    &&& a matches Action::RunKeyDeploy { destination, port, private_key_path } && ({
        &&& destination@ == s.destination@
        &&& port == s.port
        &&& private_key_path@ == s.paths.private_path@
    })
}

/// `a` runs, against the bare host on the configured port, the remote
/// command deleting every authorized-keys line containing the pattern built
/// from `key_text`.
pub open spec fn action_revokes(s: Orchestrator, a: Action, key_text: Seq<char>) -> bool {
    &&& a matches Action::RunRemoteCommand { destination, port, remote_command } && ({
        &&& destination@ == s.host@
        &&& port == s.port
        &&& remote_command@ == spec_delete_command(spec_revoke_pattern(key_text))
    })
}

/// `post` is `pre` finished with failure `e`; nothing else moved.
pub open spec fn failed_from(pre: Orchestrator, post: Orchestrator, e: SshKeyCtlError) -> bool {
    post == (Orchestrator { phase: Phase::Finished, failure: Some(e), ..pre })
}

/// `post` is `pre` moved to `phase`; nothing else moved.
pub open spec fn moved_to(pre: Orchestrator, post: Orchestrator, phase: Phase) -> bool {
    post == (Orchestrator { phase, ..pre })
}

/// What follows a completed revocation: a plain revoke finishes
/// successfully; a renew generates fresh material here — and only here —
/// and begins its initialization part on the renewed identity's paths with
/// overwrite implied.
pub open spec fn revoke_complete(pre: Orchestrator, post: Orchestrator, a: Action) -> bool {
    match pre.pending_init {
        Option::None => {
            &&& post == (Orchestrator { phase: Phase::Finished, failure: Option::None, ..pre })
            &&& a is Stop
        },
        Option::Some(_) => {
            ||| (failed_from(pre, post, SshKeyCtlError::KeyGenerationError) && a is Stop)
            ||| (failed_from(pre, post, SshKeyCtlError::SerializationError) && a is Stop)
            ||| ({
                &&& post.phase is InitWritePrivate
                &&& post.failure is None
                &&& post.force == true
                &&& post.pending_init is None
                &&& post.destination == pre.destination
                &&& post.host == pre.host
                &&& post.port == pre.port
                &&& post.delete_identity_file == pre.delete_identity_file
                &&& (pre.init_paths matches Some(ip) && post.paths.private_path@
                    == ip.private_path@ && post.paths.public_path@ == ip.public_path@)
                &&& post.init_paths == pre.init_paths
                &&& post.material is Some
                &&& writes_private_key(post, a)
            })
        },
    }
}

impl Orchestrator {
    /// The machine's well-formedness: the material an initialization still
    /// has to persist is present, any material held was serialized with the
    /// newline the stored `.pub` line ends with, and a pending
    /// initialization knows its paths.
    pub open spec fn wf(self) -> bool {
        &&& ((self.phase is InitCheckPrivate || self.phase is InitWritePrivate
            || self.phase is InitCheckPublic) ==> self.material is Some)
        &&& (self.material matches Some(m) ==> m.public_blob@.len() > 0
            && m.public_blob@[m.public_blob@.len() - 1] == '\n')
        &&& (self.pending_init is Some ==> self.init_paths is Some)
    }

    /// The operation finished and failed with `e`.
    pub open spec fn failed_with(self, e: SshKeyCtlError) -> bool {
        self.phase is Finished && self.failure == Some(e)
    }

    /// Whether the operation is over.
    pub fn finished(&self) -> (r: bool)
        ensures
            r == (self.phase is Finished),
    {
        matches!(self.phase, Phase::Finished)
    }

    /// Finishes the operation with failure `e`.
    fn fail(&mut self, e: SshKeyCtlError) -> (a: Action)
        ensures
            failed_from(*old(self), *final(self), e),
            a is Stop,
    {
        self.phase = Phase::Finished;
        self.failure = Some(e);
        Action::Stop
    }

    /// The action writing the generated private key under the current plan.
    fn write_private_action(&self) -> (a: Action)
        requires
            self.material is Some,
        ensures
            writes_private_key(*self, a),
    {
        let plan = match plan_write(false, true, self.force) {
            Ok(p) => p,
            Err(_) => {
                proof {
                    assert(false);
                }
                return Action::Stop;
            },
        };
        Action::WriteFile {
            path: self.paths.private_path.clone(),
            contents: self.material.as_ref().unwrap().private_blob.clone(),
            plan,
        }
    }

    /// The action writing the generated public key line under the current plan.
    fn write_public_action(&self) -> (a: Action)
        requires
            self.material is Some,
        ensures
            writes_public_key(*self, a),
    {
        let plan = match plan_write(false, false, self.force) {
            Ok(p) => p,
            Err(_) => {
                proof {
                    assert(false);
                }
                return Action::Stop;
            },
        };
        Action::WriteFile {
            path: self.paths.public_path.clone(),
            contents: self.material.as_ref().unwrap().public_blob.clone(),
            plan,
        }
    }

    /// What follows a completed revocation: finish a plain revoke, or begin
    /// the initialization part of a renew. Key material for the renewed
    /// identity is generated here and nowhere earlier, so a revocation that
    /// fails never causes generation.
    fn complete_revocation(&mut self) -> (a: Action)
        requires
            old(self).wf(),
        ensures
            final(self).wf(),
            revoke_complete(*old(self), *final(self), a),
    {
        let has_pending = match &self.pending_init {
            Some(_) => true,
            None => false,
        };
        if !has_pending {
            self.phase = Phase::Finished;
            self.failure = None;
            Action::Stop
        } else {
            let m_res = {
                let args = self.pending_init.as_ref().unwrap();
                let comment: &str = match &args.comment {
                    Some(c) => c.as_str(),
                    None => "",
                };
                generate_material(args.key_type, comment, args.passphrase.as_ref())
            };
            match m_res {
                Err(e) => self.fail(e),
                Ok(m) => {
                    let new_paths = match &self.init_paths {
                        Some(ip) => ip.clone_pair(),
                        None => {
                            proof {
                                assert(false);
                            }
                            return Action::Stop;
                        },
                    };
                    self.material = Some(m);
                    self.pending_init = None;
                    self.force = true;
                    self.paths = new_paths;
                    self.failure = None;
                    self.phase = Phase::InitWritePrivate;
                    self.write_private_action()
                },
            }
        }
    }

    /// Consumes the outcome of the previous action and decides the next one.
    ///
    /// The contract fixes the whole failure policy: a collision without
    /// `force` finishes with `AlreadyExists` before anything is written; a
    /// failed write or read or removal finishes with `IoError`; a remote
    /// exit code of zero — deleting zero matching lines included — never
    /// fails a revocation, while any other outcome finishes the operation
    /// with the phase's failure and orders nothing further, so a renew whose
    /// revocation fails never generates a key or touches the filesystem.
    pub fn step(&mut self, ev: Event) -> (a: Action)
        requires
            old(self).wf(),
            expects(old(self).phase, ev),
        ensures
            final(self).wf(),
            ({
                let o = *old(self);
                let s = *final(self);
                match o.phase {
                    Phase::InitCheckPrivate => ev matches Event::Exists(ex) && (
                    if ex && !o.force {
                        failed_from(o, s, SshKeyCtlError::AlreadyExists) && a is Stop
                    } else {
                        moved_to(o, s, Phase::InitWritePrivate) && writes_private_key(s, a)
                    }),
                    Phase::InitWritePrivate => ev matches Event::Wrote(ok) && (
                    if !ok {
                        failed_from(o, s, SshKeyCtlError::IoError) && a is Stop
                    } else if o.force {
                        moved_to(o, s, Phase::InitWritePublic) && writes_public_key(s, a)
                    } else {
                        moved_to(o, s, Phase::InitCheckPublic) && action_checks(
                            a,
                            o.paths.public_path@,
                        )
                    }),
                    Phase::InitCheckPublic => ev matches Event::Exists(ex) && (
                    if ex && !o.force {
                        failed_from(o, s, SshKeyCtlError::AlreadyExists) && a is Stop
                    } else {
                        moved_to(o, s, Phase::InitWritePublic) && writes_public_key(s, a)
                    }),
                    Phase::InitWritePublic => ev matches Event::Wrote(ok) && (
                    if !ok {
                        failed_from(o, s, SshKeyCtlError::IoError) && a is Stop
                    } else {
                        moved_to(o, s, Phase::InitDeploy) && action_deploys(s, a)
                    }),
                    Phase::InitDeploy => ev matches Event::ExitCode(c) && (
                    if c == Some(0i32) {
                        s == (Orchestrator {
                            phase: Phase::Finished,
                            failure: Option::None,
                            ..o
                        }) && a is Stop
                    } else {
                        failed_from(o, s, SshKeyCtlError::DeploymentFailed(c)) && a is Stop
                    }),
                    Phase::RevokeRead => ev matches Event::ReadDone(t) && (match t {
                        Option::None => failed_from(o, s, SshKeyCtlError::IoError) && a is Stop,
                        Option::Some(text) => moved_to(o, s, Phase::RevokeRemote)
                            && action_revokes(s, a, text@),
                    }),
                    Phase::RevokeRemote => ev matches Event::ExitCode(c) && (
                    if c == Some(0i32) {
                        if o.delete_identity_file {
                            moved_to(o, s, Phase::RevokeRemovePublic) && action_removes(
                                a,
                                o.paths.public_path@,
                            )
                        } else {
                            revoke_complete(o, s, a)
                        }
                    } else {
                        failed_from(o, s, SshKeyCtlError::RevocationFailed(c)) && a is Stop
                    }),
                    Phase::RevokeRemovePublic => ev matches Event::Removed(ok) && (
                    if !ok {
                        failed_from(o, s, SshKeyCtlError::IoError) && a is Stop
                    } else {
                        moved_to(o, s, Phase::RevokeRemovePrivate) && action_removes(
                            a,
                            o.paths.private_path@,
                        )
                    }),
                    Phase::RevokeRemovePrivate => ev matches Event::Removed(ok) && (
                    if !ok {
                        failed_from(o, s, SshKeyCtlError::IoError) && a is Stop
                    } else {
                        revoke_complete(o, s, a)
                    }),
                    Phase::Finished => true,
                }
            }),
    {
        let ph = self.phase;
        match ph {
            Phase::InitCheckPrivate => {
                let ex = match ev {
                    Event::Exists(b) => b,
                    _ => {
                        proof {
                            assert(false);
                        }
                        false
                    },
                };
                match plan_write(ex, true, self.force) {
                    Err(e) => self.fail(e),
                    Ok(_) => {
                        self.phase = Phase::InitWritePrivate;
                        self.write_private_action()
                    },
                }
            },
            Phase::InitWritePrivate => {
                let ok = match ev {
                    Event::Wrote(b) => b,
                    _ => {
                        proof {
                            assert(false);
                        }
                        false
                    },
                };
                if !ok {
                    self.fail(SshKeyCtlError::IoError)
                } else if self.force {
                    self.phase = Phase::InitWritePublic;
                    self.write_public_action()
                } else {
                    self.phase = Phase::InitCheckPublic;
                    Action::CheckExists { path: self.paths.public_path.clone() }
                }
            },
            Phase::InitCheckPublic => {
                let ex = match ev {
                    Event::Exists(b) => b,
                    _ => {
                        proof {
                            assert(false);
                        }
                        false
                    },
                };
                match plan_write(ex, false, self.force) {
                    Err(e) => self.fail(e),
                    Ok(_) => {
                        self.phase = Phase::InitWritePublic;
                        self.write_public_action()
                    },
                }
            },
            Phase::InitWritePublic => {
                let ok = match ev {
                    Event::Wrote(b) => b,
                    _ => {
                        proof {
                            assert(false);
                        }
                        false
                    },
                };
                if !ok {
                    self.fail(SshKeyCtlError::IoError)
                } else {
                    self.phase = Phase::InitDeploy;
                    Action::RunKeyDeploy {
                        destination: self.destination.clone(),
                        port: self.port,
                        private_key_path: self.paths.private_path.clone(),
                    }
                }
            },
            Phase::InitDeploy => {
                let c = match ev {
                    Event::ExitCode(c) => c,
                    _ => {
                        proof {
                            assert(false);
                        }
                        None
                    },
                };
                match c {
                    Some(code) => {
                        if code == 0 {
                            self.phase = Phase::Finished;
                            self.failure = None;
                            Action::Stop
                        } else {
                            self.fail(SshKeyCtlError::DeploymentFailed(Some(code)))
                        }
                    },
                    None => self.fail(SshKeyCtlError::DeploymentFailed(None)),
                }
            },
            Phase::RevokeRead => {
                let t = match ev {
                    Event::ReadDone(t) => t,
                    _ => {
                        proof {
                            assert(false);
                        }
                        None
                    },
                };
                match t {
                    None => self.fail(SshKeyCtlError::IoError),
                    Some(text) => {
                        let pattern = revoke_pattern(text.as_str());
                        let command = delete_command(pattern.as_str());
                        self.phase = Phase::RevokeRemote;
                        Action::RunRemoteCommand {
                            destination: self.host.clone(),
                            port: self.port,
                            remote_command: command,
                        }
                    },
                }
            },
            Phase::RevokeRemote => {
                let c = match ev {
                    Event::ExitCode(c) => c,
                    _ => {
                        proof {
                            assert(false);
                        }
                        None
                    },
                };
                match c {
                    Some(code) => {
                        if code == 0 {
                            if self.delete_identity_file {
                                self.phase = Phase::RevokeRemovePublic;
                                Action::RemoveFile { path: self.paths.public_path.clone() }
                            } else {
                                self.complete_revocation()
                            }
                        } else {
                            self.fail(SshKeyCtlError::RevocationFailed(Some(code)))
                        }
                    },
                    None => self.fail(SshKeyCtlError::RevocationFailed(None)),
                }
            },
            Phase::RevokeRemovePublic => {
                let ok = match ev {
                    Event::Removed(b) => b,
                    _ => {
                        proof {
                            assert(false);
                        }
                        false
                    },
                };
                if !ok {
                    self.fail(SshKeyCtlError::IoError)
                } else {
                    self.phase = Phase::RevokeRemovePrivate;
                    Action::RemoveFile { path: self.paths.private_path.clone() }
                }
            },
            Phase::RevokeRemovePrivate => {
                let ok = match ev {
                    Event::Removed(b) => b,
                    _ => {
                        proof {
                            assert(false);
                        }
                        false
                    },
                };
                if !ok {
                    self.fail(SshKeyCtlError::IoError)
                } else {
                    self.complete_revocation()
                }
            },
            Phase::Finished => {
                proof {
                    assert(false);
                }
                Action::Stop
            },
        }
    }
}

/// A machine already finished with failure `e`, for an operation that could
/// not begin.
fn failed_orchestrator(e: SshKeyCtlError) -> (o: Orchestrator)
    ensures
        o.failed_with(e),
        o.wf(),
        o.pending_init is None,
{
    Orchestrator {
        phase: Phase::Finished,
        failure: Some(e),
        destination: String::new(),
        host: String::new(),
        port: 0,
        force: false,
        delete_identity_file: false,
        paths: IdentityFilePair { private_path: String::new(), public_path: String::new() },
        init_paths: None,
        pending_init: None,
        material: None,
    }
}

/// Begins an initialization: resolve the target, generate the material,
/// then either write the private key at once (with `force`) or check for a
/// collision first.
fn start_init(args: KeyInit, root: String) -> (r: (Orchestrator, Action))
    ensures
        r.0.wf(),
        !target_well_formed(args.target@) ==> r.0.failed_with(SshKeyCtlError::InvalidTarget)
            && r.1 is Stop,
        target_well_formed(args.target@) ==> ({
            let h = spec_host_of(args.target@);
            ||| (r.1 is Stop && (r.0.failed_with(SshKeyCtlError::KeyGenerationError)
                || r.0.failed_with(SshKeyCtlError::SerializationError)))
            ||| ({
                &&& r.0.failure is None
                &&& r.0.destination@ == args.target@
                &&& r.0.host@ == h
                &&& r.0.port == args.port
                &&& r.0.force == args.force
                &&& r.0.paths.private_path@ == spec_private_path(root@, h)
                &&& r.0.paths.public_path@ == spec_public_path(root@, h)
                &&& r.0.pending_init is None
                &&& r.0.material is Some
                &&& (args.force ==> r.0.phase is InitWritePrivate && writes_private_key(
                    r.0,
                    r.1,
                ))
                &&& (!args.force ==> r.0.phase is InitCheckPrivate && action_checks(
                    r.1,
                    spec_private_path(root@, h),
                ))
            })
        }),
{
    let (user, host) = match split_target(args.target.as_str()) {
        Err(e) => {
            return (failed_orchestrator(e), Action::Stop);
        },
        Ok(p) => p,
    };
    proof {
        lemma_host_of(args.target@, opt_view(user), host@);
    }
    let comment: &str = match &args.comment {
        Some(c) => c.as_str(),
        None => "",
    };
    let m = match generate_material(args.key_type, comment, args.passphrase.as_ref()) {
        Err(e) => {
            return (failed_orchestrator(e), Action::Stop);
        },
        Ok(m) => m,
    };
    let paths = resolve_identity_paths(root.as_str(), host.as_str(), None);
    let mut orch = Orchestrator {
        phase: Phase::InitCheckPrivate,
        failure: None,
        destination: args.target,
        host,
        port: args.port,
        force: args.force,
        delete_identity_file: false,
        paths,
        init_paths: None,
        pending_init: None,
        material: Some(m),
    };
    if orch.force {
        orch.phase = Phase::InitWritePrivate;
        let a = orch.write_private_action();
        (orch, a)
    } else {
        let a = Action::CheckExists { path: orch.paths.private_path.clone() };
        (orch, a)
    }
}

/// Begins a revocation: resolve the identity's paths and ask for the text
/// of its public key file.
fn start_revoke(args: KeyRevoke, root: String) -> (r: (Orchestrator, Action))
    ensures
        r.0.wf(),
        !target_well_formed(args.target@) ==> r.0.failed_with(SshKeyCtlError::InvalidTarget)
            && r.1 is Stop,
        target_well_formed(args.target@) ==> ({
            let h = spec_host_of(args.target@);
            let name = spec_identity_name(opt_view(args.identity_file_path), h);
            &&& r.0.phase is RevokeRead
            &&& r.0.failure is None
            &&& r.0.destination@ == args.target@
            &&& r.0.host@ == h
            &&& r.0.port == args.port
            &&& r.0.delete_identity_file == args.delete_identity_file
            &&& r.0.paths.private_path@ == spec_private_path(root@, name)
            &&& r.0.paths.public_path@ == spec_public_path(root@, name)
            &&& r.0.pending_init is None
            &&& r.0.material is None
            &&& action_reads(r.1, spec_public_path(root@, name))
        }),
{
    let (user, host) = match split_target(args.target.as_str()) {
        Err(e) => {
            return (failed_orchestrator(e), Action::Stop);
        },
        Ok(p) => p,
    };
    proof {
        lemma_host_of(args.target@, opt_view(user), host@);
    }
    let paths = resolve_identity_paths(
        root.as_str(),
        host.as_str(),
        args.identity_file_path.as_ref(),
    );
    let a = Action::ReadFile { path: paths.public_path.clone() };
    let orch = Orchestrator {
        phase: Phase::RevokeRead,
        failure: None,
        destination: args.target,
        host,
        port: args.port,
        force: false,
        delete_identity_file: args.delete_identity_file,
        paths,
        init_paths: None,
        pending_init: None,
        material: None,
    };
    (orch, a)
}

/// Begins a renew: a revocation of the named identity that, on success,
/// hands over to an initialization of the host's identity with overwrite
/// implied.
fn start_renew(args: KeyRenew, root: String) -> (r: (Orchestrator, Action))
    ensures
        r.0.wf(),
        !target_well_formed(args.target@) ==> r.0.failed_with(SshKeyCtlError::InvalidTarget)
            && r.1 is Stop,
        target_well_formed(args.target@) ==> ({
            let h = spec_host_of(args.target@);
            let name = spec_identity_name(opt_view(args.identity_file_path), h);
            &&& r.0.phase is RevokeRead
            &&& r.0.failure is None
            &&& r.0.destination@ == args.target@
            &&& r.0.host@ == h
            &&& r.0.port == args.port
            &&& r.0.delete_identity_file == args.delete_identity_file
            &&& r.0.paths.private_path@ == spec_private_path(root@, name)
            &&& r.0.paths.public_path@ == spec_public_path(root@, name)
            &&& (r.0.init_paths matches Some(ip) && ip.private_path@ == spec_private_path(
                root@,
                h,
            ) && ip.public_path@ == spec_public_path(root@, h))
            &&& (r.0.pending_init matches Some(p) && ({
                &&& p.force == true
                &&& p.key_type == args.key_type
                &&& p.target@ == args.target@
                &&& p.port == args.port
                &&& opt_view(p.comment) == opt_view(args.comment)
                &&& opt_view(p.passphrase) == opt_view(args.password)
            }))
            &&& r.0.material is None
            &&& action_reads(r.1, spec_public_path(root@, name))
        }),
{
    let (user, host) = match split_target(args.target.as_str()) {
        Err(e) => {
            return (failed_orchestrator(e), Action::Stop);
        },
        Ok(p) => p,
    };
    proof {
        lemma_host_of(args.target@, opt_view(user), host@);
    }
    let paths = resolve_identity_paths(
        root.as_str(),
        host.as_str(),
        args.identity_file_path.as_ref(),
    );
    let init_paths = resolve_identity_paths(root.as_str(), host.as_str(), None);
    let pending = KeyInit {
        target: args.target.clone(),
        key_type: args.key_type,
        comment: clone_opt_string(&args.comment),
        port: args.port,
        passphrase: clone_opt_string(&args.password),
        force: true,
    };
    let a = Action::ReadFile { path: paths.public_path.clone() };
    let orch = Orchestrator {
        phase: Phase::RevokeRead,
        failure: None,
        destination: args.target,
        host,
        port: args.port,
        force: false,
        delete_identity_file: args.delete_identity_file,
        paths,
        init_paths: Some(init_paths),
        pending_init: Some(pending),
        material: None,
    };
    (orch, a)
}

/// Begins the requested operation against the identity store root the
/// platform reported, returning the machine and its first action. With no
/// store root the operation fails at once; a malformed target fails with
/// `InvalidTarget` before anything else happens.
pub fn start(cmd: SubCommands, store_root: Option<String>) -> (r: (Orchestrator, Action))
    ensures
        r.0.wf(),
        store_root is None ==> r.0.failed_with(SshKeyCtlError::IoError) && r.1 is Stop,
        store_root matches Some(root) ==> cmd matches SubCommands::Init(args) ==> ({
            if !target_well_formed(args.target@) {
                r.0.failed_with(SshKeyCtlError::InvalidTarget) && r.1 is Stop
            } else {
                let h = spec_host_of(args.target@);
                ||| (r.1 is Stop && (r.0.failed_with(SshKeyCtlError::KeyGenerationError)
                    || r.0.failed_with(SshKeyCtlError::SerializationError)))
                ||| ({
                    &&& r.0.failure is None
                    &&& r.0.destination@ == args.target@
                    &&& r.0.host@ == h
                    &&& r.0.port == args.port
                    &&& r.0.force == args.force
                    &&& r.0.paths.private_path@ == spec_private_path(root@, h)
                    &&& r.0.paths.public_path@ == spec_public_path(root@, h)
                    &&& r.0.pending_init is None
                    &&& r.0.material is Some
                    &&& (args.force ==> r.0.phase is InitWritePrivate && writes_private_key(
                        r.0,
                        r.1,
                    ))
                    &&& (!args.force ==> r.0.phase is InitCheckPrivate && action_checks(
                        r.1,
                        spec_private_path(root@, h),
                    ))
                })
            }
        }),
        store_root matches Some(root) ==> cmd matches SubCommands::Revoke(args) ==> ({
            if !target_well_formed(args.target@) {
                r.0.failed_with(SshKeyCtlError::InvalidTarget) && r.1 is Stop
            } else {
                let h = spec_host_of(args.target@);
                let name = spec_identity_name(opt_view(args.identity_file_path), h);
                &&& r.0.phase is RevokeRead
                &&& r.0.failure is None
                &&& r.0.host@ == h
                &&& r.0.port == args.port
                &&& r.0.delete_identity_file == args.delete_identity_file
                &&& r.0.paths.private_path@ == spec_private_path(root@, name)
                &&& r.0.paths.public_path@ == spec_public_path(root@, name)
                &&& r.0.pending_init is None
                &&& r.0.material is None
                &&& action_reads(r.1, spec_public_path(root@, name))
            }
        }),
        store_root matches Some(root) ==> cmd matches SubCommands::Renew(args) ==> ({
            if !target_well_formed(args.target@) {
                r.0.failed_with(SshKeyCtlError::InvalidTarget) && r.1 is Stop
            } else {
                let h = spec_host_of(args.target@);
                let name = spec_identity_name(opt_view(args.identity_file_path), h);
                &&& r.0.phase is RevokeRead
                &&& r.0.failure is None
                &&& r.0.destination@ == args.target@
                &&& r.0.host@ == h
                &&& r.0.port == args.port
                &&& r.0.delete_identity_file == args.delete_identity_file
                &&& r.0.paths.private_path@ == spec_private_path(root@, name)
                &&& r.0.paths.public_path@ == spec_public_path(root@, name)
                &&& (r.0.init_paths matches Some(ip) && ip.private_path@ == spec_private_path(
                    root@,
                    h,
                ) && ip.public_path@ == spec_public_path(root@, h))
                &&& (r.0.pending_init matches Some(p) && ({
                    &&& p.force == true
                    &&& p.key_type == args.key_type
                    &&& p.target@ == args.target@
                    &&& p.port == args.port
                    &&& opt_view(p.comment) == opt_view(args.comment)
                    &&& opt_view(p.passphrase) == opt_view(args.password)
                }))
                &&& r.0.material is None
                &&& action_reads(r.1, spec_public_path(root@, name))
            }
        }),
{
    let root = match store_root {
        None => {
            return (failed_orchestrator(SshKeyCtlError::IoError), Action::Stop);
        },
        Some(root) => root,
    };
    match cmd {
        SubCommands::Init(args) => start_init(args, root),
        SubCommands::Revoke(args) => start_revoke(args, root),
        SubCommands::Renew(args) => start_renew(args, root),
    }
}

} // verus!
