use vstd::prelude::*;
use crate::managers::ManagerKind;
use crate::{Invocation, PackageManager};

verus! {

/// What a failed command was installing.
#[derive(Clone, Debug)]
pub enum InstallTarget {
    Package(String),
    /// A whole batch, installed with one command.
    Batch,
}

/// Why an install did not complete.
#[derive(Clone, Debug)]
pub enum InstallError {
    /// The command failed to start or exited with a failure status.
    BackendFailed { manager: ManagerKind, target: InstallTarget, detail: String },
}

impl InstallError {
    /// `<manager name> failed to install <package or "batch">`, then
    /// `: <detail>` where there is a detail.
    pub open spec fn spec_message(&self) -> Seq<char> {
        match self {
            InstallError::BackendFailed { manager, target, detail } => {
                let what = match target {
                    InstallTarget::Package(p) => p@,
                    InstallTarget::Batch => "batch"@,
                };
                let head = manager.spec_name() + " failed to install "@ + what;
                if detail@.len() == 0 {
                    head
                } else {
                    head + ": "@ + detail@
                }
            },
        }
    }

    pub fn message(&self) -> (r: String)
        ensures
            r@ == self.spec_message(),
    {
        match self {
            InstallError::BackendFailed { manager, target, detail } => {
                let head = String::from_str(manager.name()).concat(" failed to install ");
                let head = match target {
                    InstallTarget::Package(p) => head.concat(p.as_str()),
                    InstallTarget::Batch => head.concat("batch"),
                };
                if detail.as_str().is_empty() {
                    head
                } else {
                    head.concat(": ").concat(detail.as_str())
                }
            },
        }
    }
}

/// The commands of one batch install, run in order, stopping at the first
/// failure.
///
/// The caller runs `next_command` and reports its outcome with `record` until
/// `outcome` is known. An empty batch needs no command at all.
pub struct InstallRun {
    manager: ManagerKind,
    packages: Vec<String>,
    plan: Vec<Invocation>,
    done: usize,
    failure: Option<InstallError>,
}

impl InstallRun {
    pub closed spec fn spec_manager(&self) -> ManagerKind {
        self.manager
    }

    pub closed spec fn spec_packages(&self) -> Seq<String> {
        self.packages@
    }

    /// The command lines of the batch, in order.
    pub closed spec fn spec_plan(&self) -> Seq<(Seq<char>, Seq<Seq<char>>)> {
        self.plan@.map_values(|c: Invocation| c@)
    }

    /// How many commands have succeeded.
    pub closed spec fn spec_done(&self) -> nat {
        self.done as nat
    }

    pub closed spec fn spec_failure(&self) -> Option<InstallError> {
        self.failure
    }

    pub closed spec fn wf(&self) -> bool {
        &&& self.spec_plan() == self.manager.spec_install_plan(self.packages.deep_view())
        &&& self.done <= self.plan@.len()
        &&& (self.failure is Some ==> self.done < self.plan@.len())
    }

    /// The command to run next, if the run is still going.
    pub open spec fn spec_next(&self) -> Option<(Seq<char>, Seq<Seq<char>>)> {
        if self.spec_failure() is None && self.spec_done() < self.spec_plan().len() {
            Some(self.spec_plan()[self.spec_done() as int])
        } else {
            None
        }
    }

    /// `Ok` once every command succeeded, the error of the first failure, or
    /// nothing while commands remain.
    pub open spec fn spec_outcome(&self) -> Option<Result<(), InstallError>> {
        match self.spec_failure() {
            Some(e) => Some(Err(e)),
            None => if self.spec_done() == self.spec_plan().len() {
                Some(Ok(()))
            } else {
                None
            },
        }
    }

    /// What the command now running installs: the batch, for a backend that
    /// takes it in one command, else its package.
    pub open spec fn spec_target(&self) -> InstallTarget {
        if self.spec_manager().spec_combines_batch() {
            InstallTarget::Batch
        } else {
            InstallTarget::Package(self.spec_packages()[self.spec_done() as int])
        }
    }

    pub fn new(manager: ManagerKind, packages: Vec<String>) -> (r: InstallRun)
        ensures
            r.wf(),
            r.spec_manager() == manager,
            r.spec_packages() == packages@,
            r.spec_plan() == manager.spec_install_plan(packages.deep_view()),
            r.spec_done() == 0,
            r.spec_failure() is None,
            packages@.len() == 0 ==> r.spec_outcome() == Some(Ok::<(), InstallError>(())),
    {
        let plan = manager.install_many(&packages);
        InstallRun { manager, packages, plan, done: 0, failure: None }
    }

    pub fn next_command(&self) -> (r: Option<&Invocation>)
        requires
            self.wf(),
        ensures
            match r {
                Some(c) => self.spec_next() == Some(c@),
                None => self.spec_next() is None,
            },
    {
        if self.failure.is_none() && self.done < self.plan.len() {
            Some(&self.plan[self.done])
        } else {
            None
        }
    }

    /// Takes the outcome of the command that `next_command` gave: `Err` holds
    /// what went wrong. Nothing changes once the run is over.
    pub fn record(&mut self, result: Result<(), String>)
        requires
            old(self).wf(),
        ensures
            final(self).wf(),
            final(self).spec_manager() == old(self).spec_manager(),
            final(self).spec_packages() == old(self).spec_packages(),
            final(self).spec_plan() == old(self).spec_plan(),
            old(self).spec_next() is None ==> *final(self) == *old(self),
            old(self).spec_next() is Some ==> match result {
                Ok(()) => final(self).spec_done() == old(self).spec_done() + 1
                    && final(self).spec_failure() is None,
                Err(detail) => final(self).spec_done() == old(self).spec_done()
                    && final(self).spec_failure() == Some(
                    InstallError::BackendFailed {
                        manager: old(self).spec_manager(),
                        target: old(self).spec_target(),
                        detail,
                    },
                ),
            },
    {
        if self.failure.is_some() || self.done >= self.plan.len() {
            return;
        }
        match result {
            Ok(()) => {
                self.done = self.done + 1;
            },
            Err(detail) => {
                let target = if self.manager.combines_batch() {
                    InstallTarget::Batch
                } else {
                    InstallTarget::Package(self.packages[self.done].clone())
                };
                self.failure = Some(InstallError::BackendFailed { manager: self.manager, target, detail });
            },
        }
    }

    /// How the run ended, once it has.
    pub fn outcome(&self) -> (r: Option<Result<(), InstallError>>)
        requires
            self.wf(),
        ensures
            r == self.spec_outcome(),
    {
        match &self.failure {
            Some(e) => Some(Err(e.duplicate())),
            None => if self.done == self.plan.len() {
                Some(Ok(()))
            } else {
                None
            },
        }
    }
}

impl InstallTarget {
    pub fn duplicate(&self) -> (r: InstallTarget)
        ensures
            r == *self,
    {
        match self {
            InstallTarget::Package(p) => InstallTarget::Package(p.clone()),
            InstallTarget::Batch => InstallTarget::Batch,
        }
    }
}

impl InstallError {
    pub fn duplicate(&self) -> (r: InstallError)
        ensures
            r == *self,
    {
        match self {
            InstallError::BackendFailed { manager, target, detail } => InstallError::BackendFailed {
                manager: *manager,
                target: target.duplicate(),
                detail: detail.clone(),
            },
        }
    }
}

/// An empty batch needs no command, whatever the backend, so it succeeds
/// without starting any process.
pub proof fn lemma_empty_batch_needs_no_command(manager: ManagerKind)
    ensures
        manager.spec_install_plan(seq![]).len() == 0,
{
}

} // verus!
