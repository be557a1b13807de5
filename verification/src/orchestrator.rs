//! One update cycle as a state machine. The machine decides; the caller
//! performs each action that it is handed and reports back what came of it.

use crate::change_log::{entry_line, entry_line_spec, last_entry_spec, ChangeLog};
use crate::config::{services_view, Config};
use crate::discovery::{discovered_ip, discovered_ip_spec, DISCOVERY_URL};
use crate::error::{diagnostic, diagnostic_text, Error, ErrorView, Stage};
use crate::provider::{
    provider_response, provider_response_spec, tell_service, tell_service_spec, Service,
    ServiceView, UpdateRequest, UpdateRequestView,
};
use crate::reply::{Reply, ReplyView};
use crate::view::{option_view, result_view};
use vstd::prelude::*;

verus! {

/// How a cycle ended.
#[derive(Debug, PartialEq, Eq)]
pub enum Outcome {
    /// The address is the one that the log ends with: nothing was done.
    NoChange { ip: String },
    /// Every service was told of the address, and the log now ends with it.
    Updated { ip: String },
    /// The cycle was abandoned at `stage`.
    Failed { stage: Stage, error: Error },
}

/// An [`Outcome`] with its texts as sequences of characters.
pub enum OutcomeView {
    NoChange { ip: Seq<char> },
    Updated { ip: Seq<char> },
    Failed { stage: Stage, error: ErrorView },
}

impl View for Outcome {
    type V = OutcomeView;

    open spec fn view(&self) -> OutcomeView {
        match self {
            Outcome::NoChange { ip } => OutcomeView::NoChange { ip: ip@ },
            Outcome::Updated { ip } => OutcomeView::Updated { ip: ip@ },
            Outcome::Failed { stage, error } => OutcomeView::Failed {
                stage: *stage,
                error: error@,
            },
        }
    }
}

impl Clone for Outcome {
    fn clone(&self) -> (copy: Self)
        ensures
            copy@ == self@,
    {
        match self {
            Outcome::NoChange { ip } => Outcome::NoChange { ip: ip.clone() },
            Outcome::Updated { ip } => Outcome::Updated { ip: ip.clone() },
            Outcome::Failed { stage, error } => Outcome::Failed {
                stage: *stage,
                error: error.clone(),
            },
        }
    }
}

impl OutcomeView {
    /// The line that tells the user of this outcome. A cycle that updated
    /// every service ends without a word.
    pub open spec fn report(self) -> Option<Seq<char>> {
        match self {
            OutcomeView::NoChange { ip } => Some(
                "[ INFO ] Old ip: "@ + ip + " \n New ip: "@ + ip + " \n No change in ip."@,
            ),
            OutcomeView::Updated { .. } => None,
            OutcomeView::Failed { stage, error } => Some(diagnostic_text(stage, error)),
        }
    }
}

impl Outcome {
    /// The line to print for this outcome, if there is one.
    pub fn report(&self) -> (line: Option<String>)
        ensures
            option_view(line) == self@.report(),
    {
        match self {
            Outcome::NoChange { ip } => {
                let mut line = String::from_str("[ INFO ] Old ip: ");
                line.append(ip.as_str());
                line.append(" \n New ip: ");
                line.append(ip.as_str());
                line.append(" \n No change in ip.");
                Some(line)
            },
            Outcome::Updated { .. } => None,
            Outcome::Failed { stage, error } => Some(diagnostic(*stage, error)),
        }
    }
}

/// What the caller is to do next.
#[derive(Debug, PartialEq, Eq)]
pub enum Action {
    /// GET `url` and report the body.
    DiscoverIp { url: String },
    /// Read the file at `path`, creating it if it is absent, and report its text.
    ReadLog { path: String },
    /// Send the request and report the body of the answer.
    Notify(UpdateRequest),
    /// Append `line` to the file at `path`.
    AppendLog { path: String, line: String },
    /// Stop: the cycle has ended.
    Finish(Outcome),
}

/// An [`Action`] with its texts as sequences of characters.
pub enum ActionView {
    DiscoverIp { url: Seq<char> },
    ReadLog { path: Seq<char> },
    Notify(UpdateRequestView),
    AppendLog { path: Seq<char>, line: Seq<char> },
    Finish(OutcomeView),
}

impl View for Action {
    type V = ActionView;

    open spec fn view(&self) -> ActionView {
        match self {
            Action::DiscoverIp { url } => ActionView::DiscoverIp { url: url@ },
            Action::ReadLog { path } => ActionView::ReadLog { path: path@ },
            Action::Notify(request) => ActionView::Notify(request@),
            Action::AppendLog { path, line } => ActionView::AppendLog { path: path@, line: line@ },
            Action::Finish(outcome) => ActionView::Finish(outcome@),
        }
    }
}

/// What a cycle is waiting for.
#[derive(Debug, PartialEq, Eq)]
pub enum Phase {
    /// The reply of the address service.
    AwaitIp,
    /// The text of the change log.
    AwaitLog { ip: String },
    /// The answer of the service at `index`.
    AwaitNotify { ip: String, index: usize },
    /// The word that `ip` was appended to the change log.
    AwaitAppend { ip: String },
    /// Nothing: the cycle has ended.
    Finished(Outcome),
}

/// A [`Phase`] with its texts as sequences of characters.
pub enum PhaseView {
    AwaitIp,
    AwaitLog { ip: Seq<char> },
    AwaitNotify { ip: Seq<char>, index: nat },
    AwaitAppend { ip: Seq<char> },
    Finished(OutcomeView),
}

impl View for Phase {
    type V = PhaseView;

    open spec fn view(&self) -> PhaseView {
        match self {
            Phase::AwaitIp => PhaseView::AwaitIp,
            Phase::AwaitLog { ip } => PhaseView::AwaitLog { ip: ip@ },
            Phase::AwaitNotify { ip, index } => PhaseView::AwaitNotify {
                ip: ip@,
                index: *index as nat,
            },
            Phase::AwaitAppend { ip } => PhaseView::AwaitAppend { ip: ip@ },
            Phase::Finished(outcome) => PhaseView::Finished(outcome@),
        }
    }
}

/// The state of a cycle as the contracts speak of it.
pub struct OrchestratorView {
    /// Where the change log lies.
    pub log_path: Seq<char>,
    /// The services to notify, in order.
    pub targets: Seq<ServiceView>,
    /// What the cycle is waiting for.
    pub phase: PhaseView,
}

/// The end of a cycle with `outcome`: its last state and its last action.
pub open spec fn finished(log_path: Seq<char>, targets: Seq<ServiceView>, outcome: OutcomeView) -> (
    OrchestratorView,
    ActionView,
) {
    (
        OrchestratorView { log_path, targets, phase: PhaseView::Finished(outcome) },
        ActionView::Finish(outcome),
    )
}

/// A cycle turns to the service at `index`: it sends the request that tells
/// the service of `ip`, or ends where that request cannot be built. Behind
/// the last service, it appends `ip` to the change log.
pub open spec fn turned_to(
    log_path: Seq<char>,
    targets: Seq<ServiceView>,
    ip: Seq<char>,
    index: nat,
) -> (OrchestratorView, ActionView) {
    if index < targets.len() {
        match tell_service_spec(ip, targets[index as int]) {
            Ok(request) => (
                OrchestratorView { log_path, targets, phase: PhaseView::AwaitNotify { ip, index } },
                ActionView::Notify(request),
            ),
            Err(error) => finished(
                log_path,
                targets,
                OutcomeView::Failed { stage: Stage::Notify, error },
            ),
        }
    } else {
        (
            OrchestratorView { log_path, targets, phase: PhaseView::AwaitAppend { ip } },
            ActionView::AppendLog { path: log_path, line: entry_line_spec(ip) },
        )
    }
}

impl OrchestratorView {
    /// A cycle that has not ended has a service to notify, and it waits
    /// only for the answer of a service that it has.
    pub open spec fn inv(self) -> bool {
        match self.phase {
            PhaseView::Finished(_) => true,
            PhaseView::AwaitNotify { index, .. } => index < self.targets.len(),
            _ => self.targets.len() > 0,
        }
    }

    /// The cycle ends with `outcome`.
    pub open spec fn finish(self, outcome: OutcomeView) -> (OrchestratorView, ActionView) {
        finished(self.log_path, self.targets, outcome)
    }

    /// The cycle turns to the service at `index`, or to the change log
    /// behind the last one.
    pub open spec fn turn_to(self, ip: Seq<char>, index: nat) -> (OrchestratorView, ActionView) {
        turned_to(self.log_path, self.targets, ip, index)
    }

    /// The state after `reply`, and the action to perform next.
    pub open spec fn step(self, reply: ReplyView) -> (OrchestratorView, ActionView) {
        match self.phase {
            PhaseView::AwaitIp => match discovered_ip_spec(reply) {
                Ok(ip) => (
                    OrchestratorView { phase: PhaseView::AwaitLog { ip }, ..self },
                    ActionView::ReadLog { path: self.log_path },
                ),
                Err(error) => self.finish(
                    OutcomeView::Failed { stage: Stage::DiscoverIp, error },
                ),
            },
            PhaseView::AwaitLog { ip } => match reply {
                Ok(contents) => if last_entry_spec(contents) == ip {
                    self.finish(OutcomeView::NoChange { ip })
                } else {
                    self.turn_to(ip, 0)
                },
                Err(message) => self.finish(
                    OutcomeView::Failed {
                        stage: Stage::ReadLog,
                        error: ErrorView::LogIOError(message),
                    },
                ),
            },
            PhaseView::AwaitNotify { ip, index } => match provider_response_spec(reply) {
                Ok(_) => self.turn_to(ip, index + 1),
                Err(error) => self.finish(OutcomeView::Failed { stage: Stage::Notify, error }),
            },
            PhaseView::AwaitAppend { ip } => match reply {
                Ok(_) => self.finish(OutcomeView::Updated { ip }),
                Err(message) => self.finish(
                    OutcomeView::Failed {
                        stage: Stage::AppendLog,
                        error: ErrorView::LogIOError(message),
                    },
                ),
            },
            PhaseView::Finished(outcome) => (self, ActionView::Finish(outcome)),
        }
    }
}

/// What is said of a configuration that names no service.
pub open spec fn no_target() -> ErrorView {
    ErrorView::ConfigError("no provider target is configured"@)
}

/// The first state of a cycle and its first action, from the configuration
/// that was loaded, or not, and the place of the change log.
pub open spec fn start_spec(loaded: Result<Seq<ServiceView>, Seq<char>>, log_path: Seq<char>) -> (
    OrchestratorView,
    ActionView,
) {
    match loaded {
        Ok(targets) => if targets.len() == 0 {
            finished(
                log_path,
                targets,
                OutcomeView::Failed { stage: Stage::LoadConfig, error: no_target() },
            )
        } else {
            (
                OrchestratorView { log_path, targets, phase: PhaseView::AwaitIp },
                ActionView::DiscoverIp { url: DISCOVERY_URL@ },
            )
        },
        Err(message) => finished(
            log_path,
            Seq::empty(),
            OutcomeView::Failed {
                stage: Stage::LoadConfig,
                error: ErrorView::ConfigError(message),
            },
        ),
    }
}

/// One update cycle: the services, the place of the change log, and how far
/// the cycle has come.
#[derive(Debug)]
pub struct Orchestrator {
    log_path: String,
    targets: Vec<Service>,
    phase: Phase,
}

impl View for Orchestrator {
    type V = OrchestratorView;

    closed spec fn view(&self) -> OrchestratorView {
        OrchestratorView {
            log_path: self.log_path@,
            targets: services_view(self.targets@),
            phase: self.phase@,
        }
    }
}

impl Orchestrator {
    #[verifier::type_invariant]
    spec fn well_formed(self) -> bool {
        self@.inv()
    }

    /// Begins a cycle. With a configuration that names a service, the first
    /// thing to do is to find out the address; without one, the cycle ends
    /// at once.
    pub fn start(loaded: Result<Config, String>, log_path: String) -> (begun: (
        Orchestrator,
        Action,
    ))
        ensures
            (begun.0@, begun.1@) == start_spec(result_view(loaded), log_path@),
    {
        match loaded {
            Ok(config) => {
                let targets = config.targets;
                if targets.len() == 0 {
                    let error = Error::ConfigError(
                        String::from_str("no provider target is configured"),
                    );
                    Self::finish(
                        log_path,
                        targets,
                        Outcome::Failed { stage: Stage::LoadConfig, error },
                    )
                } else {
                    let state = Orchestrator { log_path, targets, phase: Phase::AwaitIp };
                    (state, Action::DiscoverIp { url: String::from_str(DISCOVERY_URL) })
                }
            },
            Err(message) => {
                let outcome = Outcome::Failed {
                    stage: Stage::LoadConfig,
                    error: Error::ConfigError(message),
                };
                let targets: Vec<Service> = Vec::new();
                assert(services_view(targets@) =~= Seq::<ServiceView>::empty());
                Self::finish(log_path, targets, outcome)
            },
        }
    }

    /// What the cycle is waiting for.
    pub fn phase(&self) -> (phase: &Phase)
        ensures
            phase@ == self@.phase,
    {
        &self.phase
    }

    /// Whether the cycle has ended.
    pub fn is_finished(&self) -> (ended: bool)
        ensures
            ended == (self@.phase is Finished),
    {
        match &self.phase {
            Phase::Finished(_) => true,
            _ => false,
        }
    }

    /// Takes the reply to the action that was handed out last, and hands out
    /// the next one. A cycle that has ended stays as it is.
    pub fn step(self, reply: Reply) -> (next: (Orchestrator, Action))
        ensures
            (next.0@, next.1@) == self@.step(result_view(reply)),
    {
        proof {
            use_type_invariant(&self);
        }
        let Orchestrator { log_path, targets, phase } = self;
        match phase {
            Phase::AwaitIp => match discovered_ip(reply) {
                Ok(ip) => {
                    let action = Action::ReadLog { path: log_path.clone() };
                    (Orchestrator { log_path, targets, phase: Phase::AwaitLog { ip } }, action)
                },
                Err(error) => Self::finish(
                    log_path,
                    targets,
                    Outcome::Failed { stage: Stage::DiscoverIp, error },
                ),
            },
            Phase::AwaitLog { ip } => match reply {
                Ok(contents) => {
                    let last = ChangeLog::from_text(contents).read_last_entry();
                    if last == ip {
                        Self::finish(log_path, targets, Outcome::NoChange { ip })
                    } else {
                        Self::turn_to(log_path, targets, ip, 0)
                    }
                },
                Err(message) => Self::finish(
                    log_path,
                    targets,
                    Outcome::Failed { stage: Stage::ReadLog, error: Error::LogIOError(message) },
                ),
            },
            Phase::AwaitNotify { ip, index } => match provider_response(reply) {
                Ok(_) => {
                    assert(index < targets.len());
                    Self::turn_to(log_path, targets, ip, index + 1)
                },
                Err(error) => Self::finish(
                    log_path,
                    targets,
                    Outcome::Failed { stage: Stage::Notify, error },
                ),
            },
            Phase::AwaitAppend { ip } => match reply {
                Ok(_) => Self::finish(log_path, targets, Outcome::Updated { ip }),
                Err(message) => Self::finish(
                    log_path,
                    targets,
                    Outcome::Failed { stage: Stage::AppendLog, error: Error::LogIOError(message) },
                ),
            },
            Phase::Finished(outcome) => {
                let action = Action::Finish(outcome.clone());
                (Orchestrator { log_path, targets, phase: Phase::Finished(outcome) }, action)
            },
        }
    }

    /// Ends the cycle with `outcome`.
    fn finish(log_path: String, targets: Vec<Service>, outcome: Outcome) -> (next: (
        Orchestrator,
        Action,
    ))
        ensures
            (next.0@, next.1@) == finished(log_path@, services_view(targets@), outcome@),
    {
        let action = Action::Finish(outcome.clone());
        (Orchestrator { log_path, targets, phase: Phase::Finished(outcome) }, action)
    }

    /// Turns to the service at `index`, or to the change log behind the last one.
    fn turn_to(log_path: String, targets: Vec<Service>, ip: String, index: usize) -> (next: (
        Orchestrator,
        Action,
    ))
        requires
            targets.len() > 0,
        ensures
            (next.0@, next.1@) == turned_to(log_path@, services_view(targets@), ip@, index as nat),
    {
        if index < targets.len() {
            match tell_service(ip.as_str(), &targets[index]) {
                Ok(request) => (
                    Orchestrator { log_path, targets, phase: Phase::AwaitNotify { ip, index } },
                    Action::Notify(request),
                ),
                Err(error) => Self::finish(
                    log_path,
                    targets,
                    Outcome::Failed { stage: Stage::Notify, error },
                ),
            }
        } else {
            let line = entry_line(ip.as_str());
            let action = Action::AppendLog { path: log_path.clone(), line };
            (Orchestrator { log_path, targets, phase: Phase::AwaitAppend { ip } }, action)
        }
    }
}

} // verus!
