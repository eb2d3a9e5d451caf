//! The provisioning workflow as a state machine: each event (a package list
//! written, a command finished) gives the next action (run a command, or
//! finish with a result). The caller performs the actions one at a time, so
//! at most one command runs at once and the order of the steps is kept.

use crate::command::{
    create_invocation, create_group_script, create_user_script, exec_create_group,
    exec_create_user, exec_invocation, exec_ssh_service, exec_sudo_config, run_iocage_create,
    ssh_service_script, sudo_config_script, CommandInvocation, InvocationView, JailSpec,
};
use crate::error::{CmdError, Error, IocageExecError};
use crate::host::Identity;
use crate::pkglist::create_pkglist_json;
use vstd::prelude::*;

verus! {

/// What to provision: a jail, optionally a user copied from the host, and
/// optionally an SSH service.
#[derive(Debug, Clone)]
pub struct ProvisioningRequest {
    pub jail: JailSpec,
    pub identity: Option<Identity>,
    pub ssh: bool,
}

/// One step of provisioning, each run as one external command.
#[derive(Debug, Clone, Copy, PartialEq, Eq, Structural)]
pub enum Step {
    CreateJail,
    SudoConfig,
    CreateGroup,
    CreateUser,
    SshService,
}

/// The steps that `req` asks for, in the order in which they run.
pub open spec fn planned_steps(req: ProvisioningRequest) -> Seq<Step> {
    seq![Step::CreateJail] + (if req.identity is Some {
        seq![Step::SudoConfig, Step::CreateGroup, Step::CreateUser]
    } else {
        Seq::empty()
    }) + (if req.ssh {
        seq![Step::SshService]
    } else {
        Seq::empty()
    })
}

/// The command that runs `step` of `req`, with the package list at `pkglist`.
pub open spec fn step_invocation(
    req: ProvisioningRequest,
    pkglist: Seq<char>,
    step: Step,
) -> InvocationView {
    match step {
        Step::CreateJail => create_invocation(req.jail, pkglist),
        Step::SudoConfig => exec_invocation(req.jail.name@, sudo_config_script()),
        Step::CreateGroup => exec_invocation(req.jail.name@, create_group_script(req.identity->0)),
        Step::CreateUser => exec_invocation(req.jail.name@, create_user_script(req.identity->0)),
        Step::SshService => exec_invocation(req.jail.name@, ssh_service_script()),
    }
}

/// The commands that `req` runs when every one of them succeeds, in order.
pub open spec fn planned_invocations(req: ProvisioningRequest, pkglist: Seq<char>) -> Seq<
    InvocationView,
> {
    planned_steps(req).map_values(|s: Step| step_invocation(req, pkglist, s))
}

/// The error that a failed command gives, attributed to the step it ran.
pub open spec fn step_error(step: Step, e: CmdError) -> Error {
    match step {
        Step::CreateJail => Error::IocageCreate(e),
        Step::SudoConfig => Error::ExecSudoConfig(IocageExecError(e)),
        Step::CreateGroup => Error::ExecCreateGroup(IocageExecError(e)),
        Step::CreateUser => Error::ExecCreateUser(IocageExecError(e)),
        Step::SshService => Error::ExecSshService(IocageExecError(e)),
    }
}

/// Whether a command succeeded: it ran and exited with code 0. A command
/// killed by a signal has no exit code and fails with code `-1`.
pub open spec fn verdict_of(outcome: Result<Option<i32>, CmdError>) -> Result<(), CmdError> {
    match outcome {
        Ok(Some(code)) => if code == 0 {
            Ok(())
        } else {
            Err(CmdError::Failed(code))
        },
        Ok(None) => Err(CmdError::Failed(-1i32)),
        Err(e) => Err(e),
    }
}

/// Turns what running a command gave (its exit code, or an error) into success or an error.
pub fn exit_verdict(outcome: Result<Option<i32>, CmdError>) -> (r: Result<(), CmdError>)
    ensures
        r == verdict_of(outcome),
{
    match outcome {
        Ok(Some(code)) => if code == 0 {
            Ok(())
        } else {
            Err(CmdError::Failed(code))
        },
        Ok(None) => Err(CmdError::Failed(-1)),
        Err(e) => Err(e),
    }
}

fn attribute_error(step: Step, e: CmdError) -> (r: Error)
    ensures
        r == step_error(step, e),
{
    match step {
        Step::CreateJail => Error::IocageCreate(e),
        Step::SudoConfig => Error::ExecSudoConfig(IocageExecError(e)),
        Step::CreateGroup => Error::ExecCreateGroup(IocageExecError(e)),
        Step::CreateUser => Error::ExecCreateUser(IocageExecError(e)),
        Step::SshService => Error::ExecSshService(IocageExecError(e)),
    }
}

fn plan_steps(req: &ProvisioningRequest) -> (r: Vec<Step>)
    ensures
        r@ == planned_steps(*req),
{
    let mut v: Vec<Step> = Vec::new();
    v.push(Step::CreateJail);
    if req.identity.is_some() {
        v.push(Step::SudoConfig);
        v.push(Step::CreateGroup);
        v.push(Step::CreateUser);
    }
    if req.ssh {
        v.push(Step::SshService);
    }
    assert(v@ =~= planned_steps(*req));
    v
}

/// Where provisioning stands.
#[derive(Debug, Clone, Copy, PartialEq, Eq, Structural)]
pub enum Phase {
    /// The package list is being written.
    AwaitingPkglist,
    /// The last command given out is running.
    Running,
    /// Every step succeeded.
    Succeeded,
    /// A step failed; nothing more runs.
    Failed,
}

/// What happened since the last action.
#[derive(Debug)]
pub enum Event {
    /// The package list was written to the file at this path.
    PkglistWritten(String),
    /// The package list could not be written.
    PkglistFailed(std::io::Error),
    /// The last command given out ran: its exit code (none when a signal
    /// killed it), or why it could not be run.
    StepRan(Result<Option<i32>, CmdError>),
}

/// What the caller does next.
#[derive(Debug)]
pub enum Action {
    /// Write this package list JSON to a fresh temporary file.
    WritePkglist(String),
    /// Run this command and report how it ended.
    Run(CommandInvocation),
    /// Provisioning is over, with this result.
    Finish(Result<(), Error>),
}

/// The provisioning of one jail.
#[derive(Debug)]
pub struct Provisioner {
    pub request: ProvisioningRequest,
    pub steps: Vec<Step>,
    pub phase: Phase,
    pub pkglist: String,
    /// How many commands have been given out.
    pub issued: usize,
}

impl Provisioner {
    /// The state is consistent: the steps are those that the request asks
    /// for, and the count of commands given out fits the phase.
    pub open spec fn wf(&self) -> bool {
        &&& self.steps@ == planned_steps(self.request)
        &&& self.issued <= self.steps@.len()
        &&& (self.phase == Phase::AwaitingPkglist ==> self.issued == 0)
        &&& (self.phase == Phase::Running ==> self.issued >= 1)
        &&& (self.phase == Phase::Succeeded ==> self.issued == self.steps@.len())
    }

    /// Whether `event` is one that can happen in the current phase.
    pub open spec fn expects(&self, event: Event) -> bool {
        match self.phase {
            Phase::AwaitingPkglist => !(event is StepRan),
            Phase::Running => event is StepRan,
            _ => false,
        }
    }

    /// The commands given out so far, in order.
    pub open spec fn issued_invocations(&self) -> Seq<InvocationView> {
        planned_invocations(self.request, self.pkglist@).take(self.issued as int)
    }

    /// Starts provisioning: the first action writes the package list.
    pub fn new(request: ProvisioningRequest) -> (r: (Provisioner, Action))
        ensures
            r.0.wf(),
            r.0.request == request,
            r.0.phase == Phase::AwaitingPkglist,
            r.1 is WritePkglist,
            r.1->WritePkglist_0@ == crate::pkglist::pkglist_for(request.identity),
    {
        let steps = plan_steps(&request);
        let json = match &request.identity {
            Some(id) => create_pkglist_json(Some(id)),
            None => create_pkglist_json(None),
        };
        let p = Provisioner {
            request,
            steps,
            phase: Phase::AwaitingPkglist,
            pkglist: String::new(),
            issued: 0,
        };
        (p, Action::WritePkglist(json))
    }

    fn command_for(&self, step: Step) -> (r: CommandInvocation)
        requires
            self.wf(),
            self.steps@.contains(step),
        ensures
            r@ == step_invocation(self.request, self.pkglist@, step),
    {
        let name = self.request.jail.name.as_str();
        match step {
            Step::CreateJail => run_iocage_create(&self.request.jail, self.pkglist.as_str()),
            Step::SudoConfig => exec_sudo_config(name),
            Step::SshService => exec_ssh_service(name),
            Step::CreateGroup | Step::CreateUser => {
                match &self.request.identity {
                    Some(id) => if step == Step::CreateGroup {
                        exec_create_group(name, id)
                    } else {
                        exec_create_user(name, id)
                    },
                    None => {
                        proof {
                            let i = choose|i: int|
                                0 <= i < self.steps@.len() && self.steps@[i] == step;
                            assert(self.steps@[i] == step);
                        }
                        exec_sudo_config(name)
                    },
                }
            },
        }
    }

    /// Takes in what happened and returns what to do next.
    ///
    /// A written package list starts the first step, the creation of the
    /// jail. A step that succeeded starts the next planned step, or ends
    /// provisioning with success after the last one. A step that failed ends
    /// provisioning with its error, attributed to that step, and no later step
    /// runs.
    pub fn advance(&mut self, event: Event) -> (r: Action)
        requires
            old(self).wf(),
            old(self).expects(event),
        ensures
            final(self).wf(),
            final(self).request == old(self).request,
            final(self).issued >= old(self).issued,
            old(self).phase == Phase::Running ==> final(self).pkglist == old(self).pkglist,
            r is Run ==> final(self).issued_invocations() == old(
                self,
            ).issued_invocations().push(r->Run_0@),
            match event {
                Event::PkglistWritten(path) => {
                    &&& final(self).phase == Phase::Running
                    &&& final(self).pkglist@ == path@
                    &&& final(self).issued == 1
                    &&& r is Run
                    &&& r->Run_0@ == create_invocation(old(self).request.jail, path@)
                },
                Event::PkglistFailed(e) => {
                    &&& final(self).phase == Phase::Failed
                    &&& final(self).issued == 0
                    &&& r == Action::Finish(Err(Error::CreatePkglistJson(e)))
                },
                Event::StepRan(outcome) => {
                    let step = old(self).steps@[old(self).issued - 1];
                    match verdict_of(outcome) {
                        Err(e) => {
                            &&& final(self).phase == Phase::Failed
                            &&& final(self).issued == old(self).issued
                            &&& r == Action::Finish(Err(step_error(step, e)))
                        },
                        Ok(()) => if old(self).issued == old(self).steps@.len() {
                            &&& final(self).phase == Phase::Succeeded
                            &&& final(self).issued == old(self).issued
                            &&& r == Action::Finish(Ok(()))
                        } else {
                            &&& final(self).phase == Phase::Running
                            &&& final(self).issued == old(self).issued + 1
                            &&& r is Run
                            &&& r->Run_0@ == planned_invocations(
                                old(self).request,
                                old(self).pkglist@,
                            )[old(self).issued as int]
                        },
                    }
                },
            },
    {
        match event {
            Event::PkglistWritten(path) => {
                self.pkglist = path;
                self.phase = Phase::Running;
                self.issued = 1;
                let cmd = run_iocage_create(&self.request.jail, self.pkglist.as_str());
                assert(self.issued_invocations() =~= seq![cmd@]);
                Action::Run(cmd)
            },
            Event::PkglistFailed(e) => {
                self.phase = Phase::Failed;
                Action::Finish(Err(Error::CreatePkglistJson(e)))
            },
            Event::StepRan(outcome) => {
                let step = self.steps[self.issued - 1];
                match exit_verdict(outcome) {
                    Err(e) => {
                        self.phase = Phase::Failed;
                        Action::Finish(Err(attribute_error(step, e)))
                    },
                    Ok(()) => if self.issued == self.steps.len() {
                        self.phase = Phase::Succeeded;
                        Action::Finish(Ok(()))
                    } else {
                        let next = self.steps[self.issued];
                        assert(self.steps@[self.issued as int] == next);
                        let cmd = self.command_for(next);
                        self.issued = self.issued + 1;
                        assert(self.issued_invocations() =~= old(self).issued_invocations().push(
                            cmd@,
                        ));
                        Action::Run(cmd)
                    },
                }
            },
        }
    }
}

/// A request without a user and without SSH runs exactly one command, the
/// creation of the jail; nothing runs inside the jail.
pub proof fn law_bare_request_only_creates(req: ProvisioningRequest, pkglist: Seq<char>)
    requires
        req.identity is None,
        !req.ssh,
    ensures
        planned_invocations(req, pkglist) == seq![create_invocation(req.jail, pkglist)],
{
    assert(planned_steps(req) =~= seq![Step::CreateJail]);
    assert(planned_invocations(req, pkglist) =~= seq![create_invocation(req.jail, pkglist)]);
}

/// A request with a user runs the creation of the jail, then the sudo
/// config, then the group, then the user, and then only the SSH service if
/// it is asked for.
pub proof fn law_identity_steps_in_order(req: ProvisioningRequest)
    requires
        req.identity is Some,
    ensures
        planned_steps(req).take(4) == seq![
            Step::CreateJail,
            Step::SudoConfig,
            Step::CreateGroup,
            Step::CreateUser,
        ],
        planned_steps(req).len() == if req.ssh {
            5int
        } else {
            4int
        },
{
    assert(planned_steps(req).take(4) =~= seq![
        Step::CreateJail,
        Step::SudoConfig,
        Step::CreateGroup,
        Step::CreateUser,
    ]);
}

/// Once provisioning has failed or succeeded nothing more happens: it
/// expects no further event, so no later step is ever given out.
pub proof fn law_failure_is_final(p: Provisioner, event: Event)
    requires
        p.wf(),
        p.phase == Phase::Failed || p.phase == Phase::Succeeded,
    ensures
        !p.expects(event),
{
}

/// Provisioning is deterministic: two runs of one request with the same
/// package list path, in which every command succeeded, gave out the same
/// commands in the same order, namely the planned ones.
pub proof fn law_replay_same_invocations(first: Provisioner, second: Provisioner)
    requires
        first.wf(),
        second.wf(),
        first.request == second.request,
        first.pkglist@ == second.pkglist@,
        first.phase == Phase::Succeeded,
        second.phase == Phase::Succeeded,
    ensures
        first.issued_invocations() == second.issued_invocations(),
        first.issued_invocations() == planned_invocations(first.request, first.pkglist@),
{
    assert(first.issued_invocations() =~= planned_invocations(first.request, first.pkglist@));
    assert(second.issued_invocations() =~= planned_invocations(second.request, second.pkglist@));
}

} // verus!
