use vstd::prelude::*;
use vstd::string::StringExecFns;

use crate::cgroup::{cgroup_config_ok, cgroup_name_text, cgroup_spec_matches, CgroupSpec, CpuLimit,
    MemLimit};
use crate::config::{command_or_default, default_shell, ContainerConfig};
use crate::errors::Error;
use crate::ident::{hex8, random_id};
use crate::namespaces::ContainerNamespaces;
use crate::registry::{container_dir, container_dir_text, init_pid_text, runtime_root,
    MkdirOutcome};

verus! {

/// Where a container's lifecycle stands: before which step of the
/// create-run-destroy sequence.
#[derive(Clone, Copy, Debug, PartialEq, Eq, Structural)]
pub enum LifecycleStage {
    /// About to create the runtime root directory.
    EnsureRoot,
    /// About to attempt exclusive creation of the candidate directory.
    Allocate,
    /// About to canonicalize the configured root directory.
    CanonRoot,
    /// About to create the container's cgroup.
    CreateCgroup,
    /// About to spawn the child under the namespace plan, with the
    /// pre-unfreeze hook publishing its PID and jailing it.
    Spawn,
    /// Child running; about to wait for its exit.
    Wait,
    /// Tearing down: about to delete the cgroup.
    DeleteCgroup,
    /// Tearing down: about to remove the container directory.
    RemoveDir,
    /// The lifecycle is over.
    Finished,
}

/// The next side-effecting step the shell must perform for a lifecycle.
pub enum LifecycleAction {
    /// Create the runtime root directory, tolerating its existence.
    CreateRuntimeRoot { path: String },
    /// Exclusively create the candidate container directory.
    CreateContainerDir { path: String },
    /// Canonicalize the configured root directory.
    CanonicalizeRoot { path: String },
    /// Create the cgroup with exactly these controllers.
    CreateCgroup { name: String, cpu: Option<CpuLimit>, mem: Option<MemLimit> },
    /// Spawn the child: run `command` under the namespace plan, and in the
    /// pre-unfreeze hook write the child's PID as decimal text into
    /// `pid_file` and add the PID to the cgroup named `cgroup_name`.
    SpawnChild { command: String, pid_file: String, cgroup_name: String },
    /// Wait for the child's exit.
    WaitChild,
    /// Delete the cgroup; a failure is logged, not propagated.
    DeleteCgroup { name: String },
    /// Recursively remove the container directory; a failure is logged,
    /// not propagated.
    RemoveDir { path: String },
    /// The lifecycle is over; report this result, the child's exit code on
    /// success.
    Finish { result: Result<i32, Error> },
}

/// What the shell observed when performing the requested action.
pub enum LifecycleEvent {
    /// The outcome of a directory-creation attempt.
    Mkdir(MkdirOutcome),
    /// The canonicalized root directory.
    CanonPath(String),
    /// The action succeeded.
    Succeeded,
    /// The child was spawned with this PID, and the pre-unfreeze hook
    /// published the PID and jailed it.
    SpawnedAndHooked(u32),
    /// The child exited with this code.
    Exited(i32),
    /// The action failed.
    Failed,
}

/// The decision machine of a container's lifecycle. It dictates the exact
/// order of the side-effecting steps of `new`, `run` and teardown; the
/// shell performs each action and reports its outcome. Whatever fails, the
/// machine unwinds what was created, in reverse order of creation, before
/// it finishes.
pub struct Lifecycle {
    /// Where the lifecycle stands.
    pub stage: LifecycleStage,
    /// The immutable configuration.
    pub config: ContainerConfig,
    /// The namespace plan derived from the configuration.
    pub plan: ContainerNamespaces,
    /// The candidate (later: allocated) container identifier.
    pub id: String,
    /// The candidate (later: allocated) container directory.
    pub dir_path: String,
    /// The canonicalized root directory, once known.
    pub canon_root: Option<String>,
    /// The cgroup controllers to create, once derived.
    pub cgroup: Option<CgroupSpec>,
    /// The child's PID, once spawned.
    pub child_pid: u32,
    /// The child's exit code, once collected.
    pub exit_code: i32,
    /// Whether the container directory currently exists.
    pub dir_live: bool,
    /// Whether the cgroup currently exists.
    pub cgroup_live: bool,
    /// The failure to report, if one occurred.
    pub pending: Option<Error>,
}

impl Lifecycle {
    /// The identifier fields agree: the identifier is eight hexadecimal
    /// digits and the directory is the matching registry path.
    pub open spec fn ids_coherent(self) -> bool {
        (exists|n: u32| self.id@ == hex8(n)) && self.dir_path@ == container_dir_text(self.id@)
    }

    /// The derived cgroup controllers are exactly what the configuration
    /// calls for.
    pub open spec fn cgroup_ok(self) -> bool {
        self.cgroup matches Some(s) && cgroup_spec_matches(s, self.id@, self.config)
    }

    /// Whether the lifecycle is over.
    pub open spec fn terminal(self) -> bool {
        self.stage == LifecycleStage::Finished
    }

    /// What holds at each stage: identifiers are coherent once drawn, the
    /// directory and cgroup are live exactly between their creation and
    /// removal, the cgroup is deleted before the directory, and a finished
    /// lifecycle holds no live resource.
    pub open spec fn wf(self) -> bool {
        &&& (self.stage == LifecycleStage::EnsureRoot ==> !self.dir_live && !self.cgroup_live)
        &&& (self.stage == LifecycleStage::Allocate ==> self.ids_coherent() && !self.dir_live
            && !self.cgroup_live)
        &&& (self.stage == LifecycleStage::CanonRoot ==> self.ids_coherent() && self.dir_live
            && !self.cgroup_live && self.config.root is Some)
        &&& (self.stage == LifecycleStage::CreateCgroup ==> self.ids_coherent() && self.dir_live
            && !self.cgroup_live && self.cgroup_ok())
        &&& (self.stage == LifecycleStage::Spawn ==> self.ids_coherent() && self.dir_live
            && self.cgroup_live && self.cgroup_ok())
        &&& (self.stage == LifecycleStage::Wait ==> self.ids_coherent() && self.dir_live
            && self.cgroup_live && self.cgroup_ok())
        &&& (self.stage == LifecycleStage::DeleteCgroup ==> self.ids_coherent() && self.dir_live
            && self.cgroup_live && self.cgroup_ok())
        &&& (self.stage == LifecycleStage::RemoveDir ==> self.ids_coherent() && self.dir_live
            && !self.cgroup_live)
        &&& (self.stage == LifecycleStage::Finished ==> !self.dir_live && !self.cgroup_live)
    }

    /// Which events the shell may report at each stage.
    pub open spec fn accepts(self, ev: LifecycleEvent) -> bool {
        match self.stage {
            LifecycleStage::EnsureRoot | LifecycleStage::Allocate => ev is Mkdir,
            LifecycleStage::CanonRoot => ev is CanonPath || ev is Failed,
            LifecycleStage::CreateCgroup => ev is Succeeded || ev is Failed,
            LifecycleStage::Spawn => ev is SpawnedAndHooked || ev is Failed,
            LifecycleStage::Wait => ev is Exited || ev is Failed,
            LifecycleStage::DeleteCgroup | LifecycleStage::RemoveDir => ev is Succeeded
                || ev is Failed,
            LifecycleStage::Finished => false,
        }
    }

    /// Starts the lifecycle of one container under a configuration.
    pub fn start(config: ContainerConfig) -> (r: Lifecycle)
        ensures
            r.stage == LifecycleStage::EnsureRoot,
            r.config == config,
            r.pending is None,
            r.plan.unshare_net == config.unshare_net,
            match (r.plan.root, config.root) {
                (None, None) => true,
                (Some(a), Some(b)) => a@ == b@,
                _ => false,
            },
            r.wf(),
    {
        let plan = match ContainerNamespaces::new(&config) {
            Ok(p) => p,
            Err(_) => ContainerNamespaces { root: None, unshare_net: config.unshare_net },
        };
        Lifecycle {
            stage: LifecycleStage::EnsureRoot,
            config,
            plan,
            id: String::new(),
            dir_path: String::new(),
            canon_root: None,
            cgroup: None,
            child_pid: 0,
            exit_code: 0,
            dir_live: false,
            cgroup_live: false,
            pending: None,
        }
    }

    /// The action the shell must perform next. The values carried are
    /// pinned to the machine's state: the allocated identifier's paths, the
    /// configured command or the shell default, and the derived cgroup
    /// controllers.
    pub fn current_action(&self) -> (a: LifecycleAction)
        requires
            self.wf(),
        ensures
            match self.stage {
                LifecycleStage::EnsureRoot => a matches LifecycleAction::CreateRuntimeRoot {
                    path,
                } && path@ == runtime_root(),
                LifecycleStage::Allocate => a matches LifecycleAction::CreateContainerDir { path }
                    && path@ == self.dir_path@,
                LifecycleStage::CanonRoot => a matches LifecycleAction::CanonicalizeRoot { path }
                    && self.config.root matches Some(root) && path@ == root@,
                LifecycleStage::CreateCgroup => a matches LifecycleAction::CreateCgroup {
                    name,
                    cpu,
                    mem,
                } && self.cgroup matches Some(s) && name@ == s.name@ && cpu == s.cpu && mem
                    == s.mem,
                LifecycleStage::Spawn => a matches LifecycleAction::SpawnChild {
                    command,
                    pid_file,
                    cgroup_name,
                } && (match self.config.command {
                    Some(c) => command@ == c@,
                    None => command@ == default_shell(),
                }) && pid_file@ == init_pid_text(self.id@) && cgroup_name@ == cgroup_name_text(
                    self.id@,
                ),
                LifecycleStage::Wait => a is WaitChild,
                LifecycleStage::DeleteCgroup => a matches LifecycleAction::DeleteCgroup { name }
                    && name@ == cgroup_name_text(self.id@),
                LifecycleStage::RemoveDir => a matches LifecycleAction::RemoveDir { path } && path@
                    == self.dir_path@,
                LifecycleStage::Finished => a matches LifecycleAction::Finish { result }
                    && match self.pending {
                    Some(e) => result == Err::<i32, Error>(e),
                    None => result == Ok::<i32, Error>(self.exit_code),
                },
            },
    {
        match self.stage {
            LifecycleStage::EnsureRoot => LifecycleAction::CreateRuntimeRoot {
                path: String::from_str(crate::registry::runtime_root_path()),
            },
            LifecycleStage::Allocate => LifecycleAction::CreateContainerDir {
                path: self.dir_path.clone(),
            },
            LifecycleStage::CanonRoot => LifecycleAction::CanonicalizeRoot {
                path: match &self.config.root {
                    Some(r) => r.clone(),
                    None => String::new(),
                },
            },
            LifecycleStage::CreateCgroup => match &self.cgroup {
                Some(s) => LifecycleAction::CreateCgroup {
                    name: s.name.clone(),
                    cpu: s.cpu,
                    mem: s.mem,
                },
                None => LifecycleAction::CreateCgroup { name: String::new(), cpu: None, mem: None },
            },
            LifecycleStage::Spawn => LifecycleAction::SpawnChild {
                command: command_or_default(&self.config),
                pid_file: crate::registry::init_pid_path(self.id.as_str()),
                cgroup_name: crate::cgroup::cgroup_name(self.id.as_str()),
            },
            LifecycleStage::Wait => LifecycleAction::WaitChild,
            LifecycleStage::DeleteCgroup => LifecycleAction::DeleteCgroup {
                name: crate::cgroup::cgroup_name(self.id.as_str()),
            },
            LifecycleStage::RemoveDir => LifecycleAction::RemoveDir {
                path: self.dir_path.clone(),
            },
            LifecycleStage::Finished => LifecycleAction::Finish {
                result: match self.pending {
                    Some(e) => Err(e),
                    None => Ok(self.exit_code),
                },
            },
        }
    }

    /// Draws a fresh candidate identifier and its directory path.
    fn draw_candidate(&mut self)
        ensures
            final(self).ids_coherent(),
            final(self).stage == old(self).stage,
            final(self).config == old(self).config,
            final(self).plan == old(self).plan,
            final(self).canon_root == old(self).canon_root,
            final(self).cgroup == old(self).cgroup,
            final(self).child_pid == old(self).child_pid,
            final(self).exit_code == old(self).exit_code,
            final(self).dir_live == old(self).dir_live,
            final(self).cgroup_live == old(self).cgroup_live,
            final(self).pending == old(self).pending,
    {
        self.id = random_id();
        self.dir_path = container_dir(self.id.as_str());
    }

    /// Derives the cgroup controllers and enters the creation stage, or
    /// unwinds with `InvalidInput` when the configuration's caps cannot be
    /// translated.
    fn enter_create_cgroup(&mut self)
        requires
            old(self).ids_coherent(),
            old(self).dir_live,
            !old(self).cgroup_live,
        ensures
            final(self).id == old(self).id,
            final(self).dir_path == old(self).dir_path,
            final(self).config == old(self).config,
            final(self).plan == old(self).plan,
            final(self).canon_root == old(self).canon_root,
            final(self).child_pid == old(self).child_pid,
            final(self).exit_code == old(self).exit_code,
            final(self).dir_live == old(self).dir_live,
            final(self).cgroup_live == old(self).cgroup_live,
            cgroup_config_ok(old(self).config) ==> final(self).stage
                == LifecycleStage::CreateCgroup && final(self).cgroup_ok() && final(self).pending
                == old(self).pending,
            !cgroup_config_ok(old(self).config) ==> final(self).stage == LifecycleStage::RemoveDir
                && final(self).pending == Some(Error::InvalidInput),
            final(self).wf(),
    {
        match CgroupSpec::build(self.id.as_str(), &self.config) {
            Ok(s) => {
                self.cgroup = Some(s);
                self.stage = LifecycleStage::CreateCgroup;
            },
            Err(e) => {
                self.pending = Some(e);
                self.stage = LifecycleStage::RemoveDir;
            },
        }
    }

    /// Advances the machine on the outcome of the action just performed.
    /// Failures before the child ran unwind the directory and cgroup in
    /// reverse order of creation; failures during teardown are recorded and
    /// teardown continues.
    pub fn on_event(&mut self, ev: LifecycleEvent)
        requires
            old(self).wf(),
            old(self).accepts(ev),
        ensures
            final(self).wf(),
            final(self).config == old(self).config,
            final(self).plan == old(self).plan,
            match old(self).stage {
                LifecycleStage::EnsureRoot => (match ev {
                    LifecycleEvent::Mkdir(MkdirOutcome::Created)
                    | LifecycleEvent::Mkdir(MkdirOutcome::AlreadyExists) => final(self).stage
                        == LifecycleStage::Allocate && final(self).pending == old(self).pending,
                    _ => final(self).stage == LifecycleStage::Finished && final(self).pending
                        == Some(Error::IOFailure),
                }),
                LifecycleStage::Allocate => (match ev {
                    LifecycleEvent::Mkdir(MkdirOutcome::Created) => final(self).dir_live
                        && final(self).id == old(self).id && final(self).dir_path == old(self).dir_path && (if old(self).config.root is Some {
                        final(self).stage == LifecycleStage::CanonRoot && final(self).pending
                            == old(self).pending
                    } else {
                        (cgroup_config_ok(old(self).config) ==> final(self).stage
                            == LifecycleStage::CreateCgroup && final(self).cgroup_ok() && final(self).pending == old(self).pending) && (!cgroup_config_ok(old(self).config)
                            ==> final(self).stage == LifecycleStage::RemoveDir && final(self).pending == Some(Error::InvalidInput))
                    }),
                    LifecycleEvent::Mkdir(MkdirOutcome::AlreadyExists) => final(self).stage
                        == LifecycleStage::Allocate && !final(self).dir_live && final(self).pending
                        == old(self).pending,
                    _ => final(self).stage == LifecycleStage::Finished && final(self).pending
                        == Some(Error::IOFailure),
                }),
                LifecycleStage::CanonRoot => (match ev {
                    LifecycleEvent::CanonPath(p) => final(self).canon_root == Some(p) && (
                    cgroup_config_ok(old(self).config) ==> final(self).stage
                        == LifecycleStage::CreateCgroup && final(self).cgroup_ok() && final(self).pending == old(self).pending) && (!cgroup_config_ok(old(self).config)
                        ==> final(self).stage == LifecycleStage::RemoveDir && final(self).pending
                        == Some(Error::InvalidInput)),
                    _ => final(self).stage == LifecycleStage::RemoveDir && final(self).pending
                        == Some(Error::IOFailure),
                }),
                LifecycleStage::CreateCgroup => (match ev {
                    LifecycleEvent::Succeeded => final(self).stage == LifecycleStage::Spawn
                        && final(self).cgroup_live && final(self).pending == old(self).pending,
                    _ => final(self).stage == LifecycleStage::RemoveDir && final(self).pending
                        == Some(Error::KernelReject),
                }),
                LifecycleStage::Spawn => (match ev {
                    LifecycleEvent::SpawnedAndHooked(pid) => final(self).stage
                        == LifecycleStage::Wait && final(self).child_pid == pid && final(self).pending == old(self).pending,
                    _ => final(self).stage == LifecycleStage::DeleteCgroup && final(self).pending
                        == Some(Error::SpawnFailure),
                }),
                LifecycleStage::Wait => (match ev {
                    LifecycleEvent::Exited(code) => final(self).stage
                        == LifecycleStage::DeleteCgroup && final(self).exit_code == code && final(self).pending == old(self).pending,
                    _ => final(self).stage == LifecycleStage::DeleteCgroup && final(self).pending
                        == Some(Error::WaitFailure),
                }),
                LifecycleStage::DeleteCgroup => !final(self).cgroup_live && final(self).stage
                    == LifecycleStage::RemoveDir && final(self).pending == old(self).pending,
                LifecycleStage::RemoveDir => !final(self).dir_live && final(self).stage
                    == LifecycleStage::Finished && final(self).pending == old(self).pending,
                LifecycleStage::Finished => *final(self) == *old(self),
            },
    {
        match self.stage {
            LifecycleStage::EnsureRoot => match ev {
                LifecycleEvent::Mkdir(MkdirOutcome::Created)
                | LifecycleEvent::Mkdir(MkdirOutcome::AlreadyExists) => {
                    self.stage = LifecycleStage::Allocate;
                    self.draw_candidate();
                },
                _ => {
                    self.pending = Some(Error::IOFailure);
                    self.stage = LifecycleStage::Finished;
                },
            },
            LifecycleStage::Allocate => match ev {
                LifecycleEvent::Mkdir(MkdirOutcome::Created) => {
                    self.dir_live = true;
                    if self.config.root.is_some() {
                        self.stage = LifecycleStage::CanonRoot;
                    } else {
                        self.enter_create_cgroup();
                    }
                },
                LifecycleEvent::Mkdir(MkdirOutcome::AlreadyExists) => {
                    self.draw_candidate();
                },
                _ => {
                    self.pending = Some(Error::IOFailure);
                    self.stage = LifecycleStage::Finished;
                },
            },
            LifecycleStage::CanonRoot => match ev {
                LifecycleEvent::CanonPath(p) => {
                    self.canon_root = Some(p);
                    self.enter_create_cgroup();
                },
                _ => {
                    self.pending = Some(Error::IOFailure);
                    self.stage = LifecycleStage::RemoveDir;
                },
            },
            LifecycleStage::CreateCgroup => match ev {
                LifecycleEvent::Succeeded => {
                    self.cgroup_live = true;
                    self.stage = LifecycleStage::Spawn;
                },
                _ => {
                    self.pending = Some(Error::KernelReject);
                    self.stage = LifecycleStage::RemoveDir;
                },
            },
            LifecycleStage::Spawn => match ev {
                LifecycleEvent::SpawnedAndHooked(pid) => {
                    self.child_pid = pid;
                    self.stage = LifecycleStage::Wait;
                },
                _ => {
                    self.pending = Some(Error::SpawnFailure);
                    self.stage = LifecycleStage::DeleteCgroup;
                },
            },
            LifecycleStage::Wait => match ev {
                LifecycleEvent::Exited(code) => {
                    self.exit_code = code;
                    self.stage = LifecycleStage::DeleteCgroup;
                },
                _ => {
                    self.pending = Some(Error::WaitFailure);
                    self.stage = LifecycleStage::DeleteCgroup;
                },
            },
            LifecycleStage::DeleteCgroup => {
                self.cgroup_live = false;
                self.stage = LifecycleStage::RemoveDir;
            },
            LifecycleStage::RemoveDir => {
                self.dir_live = false;
                self.stage = LifecycleStage::Finished;
            },
            LifecycleStage::Finished => {},
        }
    }
}

/// Teardown is complete at the end of every lifecycle: when the machine
/// reports its result, it has already issued the removal of the cgroup and
/// of the container directory it created, so neither outlives the
/// container.
pub proof fn lemma_teardown_complete(m: Lifecycle)
    requires
        m.wf(),
        m.terminal(),
    ensures
        !m.dir_live,
        !m.cgroup_live,
{
}

} // verus!
