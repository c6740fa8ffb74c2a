use vstd::prelude::*;
use crate::llm::Message;
use crate::routes::{
    probe_route_paths, probe_targets, route_paths, RouteObject,
};

verus! {

/// Build failures that are retried before the run gives up.
pub const RETRY_LIMIT: u8 = 2;

/// Seconds the freshly started server is given before it is probed.
pub const WARM_UP_SECONDS: u64 = 5;

/// Seconds each endpoint probe may take.
pub const PROBE_TIMEOUT_SECONDS: u64 = 5;

/// The coarse phases of an agent.
#[derive(Debug, Clone, Copy, PartialEq, Eq, Structural)]
pub enum AgentState {
    Discovery,
    Working,
    UnitTesting,
    Finished,
}

/// Where the validation phase stands.
#[derive(Debug, Clone, Copy, PartialEq, Eq, Structural)]
pub enum ValidationStep {
    AwaitingConfirmation,
    Building,
    UpdatingDependencies,
    ExtractingEndpoints,
    StartingServer,
    WarmingUp,
    Probing,
    Terminating,
}

/// The conditions that end a run without success.
#[derive(Debug, Clone, Copy, PartialEq, Eq, Structural)]
pub enum FatalError {
    /// The model could not be reached, even after one retry.
    GenerationTransport,
    /// The model's endpoint schema could not be decoded.
    Decode,
    /// The build kept failing past the retry limit.
    TooManyBugs,
    /// Updating the build dependencies failed.
    DependencyUpdateFailure,
    /// The operator refused to run the generated code.
    SafetyDeclined,
}

/// What is asked of the code generator.
#[derive(Debug, Clone, Copy, PartialEq, Eq, Structural)]
pub enum GenerationMode {
    /// A first server from the template and the project description.
    Initial,
    /// An improved version of the current code.
    Improve,
    /// A version of the current code with the last build errors fixed.
    Fix,
}

/// What an endpoint probe observed.
#[derive(Debug, Clone, PartialEq)]
pub enum ProbeOutcome {
    Status(u16),
    NetworkError(String),
}

/// A probed endpoint that did not answer `200`.
#[derive(Debug, Clone, PartialEq)]
pub struct ValidationIssue {
    pub route: String,
    pub outcome: ProbeOutcome,
}

/// The work the agent asks its driver to do next.
#[derive(Debug, Clone, PartialEq)]
pub enum Action {
    Generate(GenerationMode),
    ConfirmSafety,
    Build,
    UpdateDependencies,
    ExtractEndpoints,
    StartServer,
    WarmUp { seconds: u64 },
    Probe { route: String, timeout_seconds: u64 },
    TerminateServer,
    Finish,
    Abort(FatalError),
}

/// What the driver observed when it did the work.
pub enum Event {
    Generated(String),
    GenerationFailed,
    Confirmed(bool),
    BuildFinished { success: bool, stderr: String },
    DependenciesUpdated { success: bool },
    EndpointsExtracted(Vec<RouteObject>),
    EndpointsUndecodable,
    ServerStarted,
    WarmedUp,
    Probed(ProbeOutcome),
    ServerTerminated,
}

/// The scope flags of a project.
#[derive(Debug, Clone, Copy, PartialEq, Eq, Structural)]
pub struct ProjectScope {
    pub is_crud_required: bool,
    pub is_user_login_and_logout: bool,
    pub is_external_urls_required: bool,
}

/// The project record the agents share.
pub struct FactSheet {
    pub project_description: String,
    pub project_scope: Option<ProjectScope>,
    pub external_urls: Option<Vec<String>>,
    pub backend_code: Option<String>,
    pub api_endpoint_schema: Option<Vec<RouteObject>>,
}

/// What every agent has.
pub struct BasicAgent {
    pub objective: String,
    pub position: String,
    pub state: AgentState,
    pub memory: Vec<Message>,
}

/// The agent that writes, builds and checks the backend server.
pub struct AgentBackendDeveloper {
    pub attributes: BasicAgent,
    pub bug_errors: Option<String>,
    pub bug_count: u8,
    pub step: ValidationStep,
    pub probe_routes: Vec<String>,
    pub next_probe: usize,
    pub issues: Vec<ValidationIssue>,
    pub fatal: Option<FatalError>,
}

/// The part of the agent that its decisions read and change.
pub struct AgentView {
    pub state: AgentState,
    pub step: ValidationStep,
    pub bug_count: u8,
    pub bug_errors: Option<String>,
    pub routes: Seq<String>,
    pub next_probe: nat,
    pub issues: Seq<ValidationIssue>,
    pub fatal: Option<FatalError>,
}

impl View for AgentBackendDeveloper {
    type V = AgentView;

    open spec fn view(&self) -> AgentView {
        AgentView {
            state: self.attributes.state,
            step: self.step,
            bug_count: self.bug_count,
            bug_errors: self.bug_errors,
            routes: self.probe_routes@,
            next_probe: self.next_probe as nat,
            issues: self.issues@,
            fatal: self.fatal,
        }
    }
}

/// The invariant of an agent: below the retry limit while it runs, and probing
/// only while routes are left.
pub open spec fn wf(v: AgentView) -> bool {
    &&& v.fatal.is_none() ==> v.bug_count <= RETRY_LIMIT
    &&& v.bug_count <= RETRY_LIMIT + 1
    &&& v.next_probe <= v.routes.len()
    &&& (v.fatal.is_none() && v.state == AgentState::UnitTesting && v.step
        == ValidationStep::Probing) ==> v.next_probe < v.routes.len()
    &&& (v.step == ValidationStep::StartingServer || v.step == ValidationStep::WarmingUp)
        ==> v.next_probe == 0
}

/// Whether a probe outcome is reported as an issue.
pub open spec fn is_issue(o: ProbeOutcome) -> bool {
    o != ProbeOutcome::Status(200)
}

/// The work that an agent in state `v` asks for.
pub open spec fn pending(v: AgentView) -> Action {
    match v.fatal {
        Some(e) => Action::Abort(e),
        None => match v.state {
            AgentState::Discovery => Action::Generate(GenerationMode::Initial),
            AgentState::Working => if v.bug_count == 0 {
                Action::Generate(GenerationMode::Improve)
            } else {
                Action::Generate(GenerationMode::Fix)
            },
            AgentState::Finished => Action::Finish,
            AgentState::UnitTesting => match v.step {
                ValidationStep::AwaitingConfirmation => Action::ConfirmSafety,
                ValidationStep::Building => Action::Build,
                ValidationStep::UpdatingDependencies => Action::UpdateDependencies,
                ValidationStep::ExtractingEndpoints => Action::ExtractEndpoints,
                ValidationStep::StartingServer => Action::StartServer,
                ValidationStep::WarmingUp => Action::WarmUp { seconds: WARM_UP_SECONDS },
                ValidationStep::Probing => if v.next_probe < v.routes.len() {
                    Action::Probe {
                        route: v.routes[v.next_probe as int],
                        timeout_seconds: PROBE_TIMEOUT_SECONDS,
                    }
                } else {
                    Action::TerminateServer
                },
                ValidationStep::Terminating => Action::TerminateServer,
            },
        },
    }
}

/// The agent in state `v` after it observes `e` during validation.
pub open spec fn apply_validation(v: AgentView, e: Event) -> AgentView {
    match (v.step, e) {
        (ValidationStep::AwaitingConfirmation, Event::Confirmed(ok)) => if ok {
            AgentView { step: ValidationStep::Building, ..v }
        } else {
            AgentView { fatal: Some(FatalError::SafetyDeclined), ..v }
        },
        (ValidationStep::Building, Event::BuildFinished { success, stderr }) => if success {
            AgentView {
                bug_count: 0,
                bug_errors: None,
                step: ValidationStep::ExtractingEndpoints,
                ..v
            }
        } else {
            AgentView {
                bug_errors: Some(stderr),
                step: ValidationStep::UpdatingDependencies,
                ..v
            }
        },
        (ValidationStep::UpdatingDependencies, Event::DependenciesUpdated { success }) => if !success {
            AgentView { fatal: Some(FatalError::DependencyUpdateFailure), ..v }
        } else if v.bug_count + 1 > RETRY_LIMIT {
            AgentView {
                bug_count: (v.bug_count + 1) as u8,
                fatal: Some(FatalError::TooManyBugs),
                ..v
            }
        } else {
            AgentView { bug_count: (v.bug_count + 1) as u8, state: AgentState::Working, ..v }
        },
        (ValidationStep::ExtractingEndpoints, Event::EndpointsExtracted(es)) => AgentView {
            routes: route_paths(probe_targets(es@)),
            next_probe: 0,
            step: ValidationStep::StartingServer,
            ..v
        },
        (ValidationStep::ExtractingEndpoints, Event::EndpointsUndecodable) => AgentView {
            fatal: Some(FatalError::Decode),
            ..v
        },
        (ValidationStep::ExtractingEndpoints, Event::GenerationFailed) => AgentView {
            fatal: Some(FatalError::GenerationTransport),
            ..v
        },
        (ValidationStep::StartingServer, Event::ServerStarted) => AgentView {
            step: ValidationStep::WarmingUp,
            ..v
        },
        (ValidationStep::WarmingUp, Event::WarmedUp) => if v.routes.len() > 0 {
            AgentView { step: ValidationStep::Probing, ..v }
        } else {
            AgentView { step: ValidationStep::Terminating, ..v }
        },
        (ValidationStep::Probing, Event::Probed(o)) => AgentView {
            issues: if is_issue(o) {
                v.issues.push(ValidationIssue { route: v.routes[v.next_probe as int], outcome: o })
            } else {
                v.issues
            },
            next_probe: v.next_probe + 1,
            step: if v.next_probe + 1 < v.routes.len() {
                ValidationStep::Probing
            } else {
                ValidationStep::Terminating
            },
            ..v
        },
        (ValidationStep::Terminating, Event::ServerTerminated) => AgentView {
            state: AgentState::Finished,
            ..v
        },
        _ => v,
    }
}

/// The agent in state `v` after it observes `e`. An event that does not
/// answer the pending work changes nothing; a fatal error is final.
pub open spec fn apply(v: AgentView, e: Event) -> AgentView {
    if v.fatal.is_some() {
        v
    } else {
        match v.state {
            AgentState::Discovery => match e {
                Event::Generated(_) => AgentView { state: AgentState::Working, ..v },
                Event::GenerationFailed => AgentView {
                    fatal: Some(FatalError::GenerationTransport),
                    ..v
                },
                _ => v,
            },
            AgentState::Working => match e {
                Event::Generated(_) => AgentView {
                    state: AgentState::UnitTesting,
                    step: ValidationStep::AwaitingConfirmation,
                    ..v
                },
                Event::GenerationFailed => AgentView {
                    fatal: Some(FatalError::GenerationTransport),
                    ..v
                },
                _ => v,
            },
            AgentState::UnitTesting => apply_validation(v, e),
            AgentState::Finished => v,
        }
    }
}

/// One transition: the next state, and the work it asks for.
pub open spec fn next(v: AgentView, e: Event) -> (AgentView, Action) {
    let w = apply(v, e);
    (w, pending(w))
}

/// The project record after the agent observes `e` in state `v`: generated
/// code replaces the current code. (A decoded schema is stored whole; `step`
/// states that case itself.)
pub open spec fn sheet_next(v: AgentView, f: FactSheet, e: Event) -> FactSheet {
    if v.fatal.is_some() {
        f
    } else {
        match e {
            Event::Generated(code) => if v.state == AgentState::Discovery || v.state
                == AgentState::Working {
                FactSheet { backend_code: Some(code), ..f }
            } else {
                f
            },
            _ => f,
        }
    }
}

/// Whether `e` is the schema the agent in state `v` was waiting for.
pub open spec fn takes_schema(v: AgentView, e: Event) -> bool {
    v.fatal.is_none() && v.state == AgentState::UnitTesting && v.step
        == ValidationStep::ExtractingEndpoints && e is EndpointsExtracted
}

/// The outcome's issue, if it is one.
pub fn issue_of(route: String, outcome: ProbeOutcome) -> (r: Option<ValidationIssue>)
    ensures
        is_issue(outcome) ==> r == Some(ValidationIssue { route, outcome }),
        !is_issue(outcome) ==> r.is_none(),
{
    let ok = match &outcome {
        ProbeOutcome::Status(code) => *code == 200,
        ProbeOutcome::NetworkError(_) => false,
    };
    if ok {
        None
    } else {
        Some(ValidationIssue { route, outcome })
    }
}

impl AgentBackendDeveloper {
    pub fn new() -> (r: Self)
        ensures
            r.attributes.objective@ == "Develops backend code for webserver and json database"@,
            r.attributes.position@ == "Backend Developer"@,
            r.attributes.memory@.len() == 0,
            r@.state == AgentState::Discovery,
            r@.bug_count == 0,
            r@.bug_errors.is_none(),
            r@.routes.len() == 0,
            r@.issues.len() == 0,
            r@.fatal.is_none(),
            wf(r@),
    {
        let attributes = BasicAgent {
            objective: String::from_str("Develops backend code for webserver and json database"),
            position: String::from_str("Backend Developer"),
            state: AgentState::Discovery,
            memory: Vec::new(),
        };
        AgentBackendDeveloper {
            attributes,
            bug_errors: None,
            bug_count: 0,
            step: ValidationStep::AwaitingConfirmation,
            probe_routes: Vec::new(),
            next_probe: 0,
            issues: Vec::new(),
            fatal: None,
        }
    }

    pub fn get_attributes_from_agent(&self) -> (r: &BasicAgent)
        ensures
            r == &self.attributes,
    {
        &self.attributes
    }

    /// The work that the agent asks for in its present state.
    pub fn pending_action(&self) -> (r: Action)
        ensures
            r == pending(self@),
    {
        match self.fatal {
            Some(e) => Action::Abort(e),
            None => match self.attributes.state {
                AgentState::Discovery => Action::Generate(GenerationMode::Initial),
                AgentState::Working => if self.bug_count == 0 {
                    Action::Generate(GenerationMode::Improve)
                } else {
                    Action::Generate(GenerationMode::Fix)
                },
                AgentState::Finished => Action::Finish,
                AgentState::UnitTesting => match self.step {
                    ValidationStep::AwaitingConfirmation => Action::ConfirmSafety,
                    ValidationStep::Building => Action::Build,
                    ValidationStep::UpdatingDependencies => Action::UpdateDependencies,
                    ValidationStep::ExtractingEndpoints => Action::ExtractEndpoints,
                    ValidationStep::StartingServer => Action::StartServer,
                    ValidationStep::WarmingUp => Action::WarmUp { seconds: WARM_UP_SECONDS },
                    ValidationStep::Probing => if self.next_probe < self.probe_routes.len() {
                        Action::Probe {
                            route: self.probe_routes[self.next_probe].clone(),
                            timeout_seconds: PROBE_TIMEOUT_SECONDS,
                        }
                    } else {
                        Action::TerminateServer
                    },
                    ValidationStep::Terminating => Action::TerminateServer,
                },
            },
        }
    }

    /// Takes in what the driver observed, moves to the next state, records
    /// generated code and the full decoded endpoint schema in `factsheet`, and
    /// says what to do next. Only the schema's static `GET` routes are probed.
    pub fn step(&mut self, factsheet: &mut FactSheet, event: Event) -> (r: Action)
        requires
            wf(old(self)@),
        ensures
            wf(final(self)@),
            (final(self)@, r) == next(old(self)@, event),
            final(self).attributes.objective == old(self).attributes.objective,
            final(self).attributes.position == old(self).attributes.position,
            final(self).attributes.memory == old(self).attributes.memory,
            !takes_schema(old(self)@, event) ==> *final(factsheet) == sheet_next(
                old(self)@,
                *old(factsheet),
                event,
            ),
            takes_schema(old(self)@, event) ==> {
                &&& final(factsheet).project_description == old(factsheet).project_description
                &&& final(factsheet).project_scope == old(factsheet).project_scope
                &&& final(factsheet).external_urls == old(factsheet).external_urls
                &&& final(factsheet).backend_code == old(factsheet).backend_code
                &&& final(factsheet).api_endpoint_schema matches Some(s)
                &&& s@ == event->EndpointsExtracted_0@
            },
    {
        if self.fatal.is_some() {
            return self.pending_action();
        }
        match self.attributes.state {
            AgentState::Discovery => match event {
                Event::Generated(code) => {
                    factsheet.backend_code = Some(code);
                    self.attributes.state = AgentState::Working;
                },
                Event::GenerationFailed => {
                    self.fatal = Some(FatalError::GenerationTransport);
                },
                _ => {},
            },
            AgentState::Working => match event {
                Event::Generated(code) => {
                    factsheet.backend_code = Some(code);
                    self.attributes.state = AgentState::UnitTesting;
                    self.step = ValidationStep::AwaitingConfirmation;
                },
                Event::GenerationFailed => {
                    self.fatal = Some(FatalError::GenerationTransport);
                },
                _ => {},
            },
            AgentState::UnitTesting => {
                self.validate(factsheet, event);
            },
            AgentState::Finished => {},
        }
        self.pending_action()
    }

    fn validate(&mut self, factsheet: &mut FactSheet, event: Event)
        requires
            wf(old(self)@),
            old(self).fatal.is_none(),
            old(self).attributes.state == AgentState::UnitTesting,
        ensures
            wf(final(self)@),
            final(self)@ == apply_validation(old(self)@, event),
            final(self).attributes.objective == old(self).attributes.objective,
            final(self).attributes.position == old(self).attributes.position,
            final(self).attributes.memory == old(self).attributes.memory,
            !takes_schema(old(self)@, event) ==> *final(factsheet) == *old(factsheet),
            takes_schema(old(self)@, event) ==> {
                &&& final(factsheet).project_description == old(factsheet).project_description
                &&& final(factsheet).project_scope == old(factsheet).project_scope
                &&& final(factsheet).external_urls == old(factsheet).external_urls
                &&& final(factsheet).backend_code == old(factsheet).backend_code
                &&& final(factsheet).api_endpoint_schema matches Some(s)
                &&& s@ == event->EndpointsExtracted_0@
            },
    {
        match (self.step, event) {
            (ValidationStep::AwaitingConfirmation, Event::Confirmed(ok)) => {
                if ok {
                    self.step = ValidationStep::Building;
                } else {
                    self.fatal = Some(FatalError::SafetyDeclined);
                }
            },
            (ValidationStep::Building, Event::BuildFinished { success, stderr }) => {
                if success {
                    self.bug_count = 0;
                    self.bug_errors = None;
                    self.step = ValidationStep::ExtractingEndpoints;
                } else {
                    self.bug_errors = Some(stderr);
                    self.step = ValidationStep::UpdatingDependencies;
                }
            },
            (ValidationStep::UpdatingDependencies, Event::DependenciesUpdated { success }) => {
                if !success {
                    self.fatal = Some(FatalError::DependencyUpdateFailure);
                } else {
                    self.bug_count = self.bug_count + 1;
                    if self.bug_count > RETRY_LIMIT {
                        self.fatal = Some(FatalError::TooManyBugs);
                    } else {
                        self.attributes.state = AgentState::Working;
                    }
                }
            },
            (ValidationStep::ExtractingEndpoints, Event::EndpointsExtracted(es)) => {
                self.probe_routes = probe_route_paths(&es);
                self.next_probe = 0;
                self.step = ValidationStep::StartingServer;
                factsheet.api_endpoint_schema = Some(es);
            },
            (ValidationStep::ExtractingEndpoints, Event::EndpointsUndecodable) => {
                self.fatal = Some(FatalError::Decode);
            },
            (ValidationStep::ExtractingEndpoints, Event::GenerationFailed) => {
                self.fatal = Some(FatalError::GenerationTransport);
            },
            (ValidationStep::StartingServer, Event::ServerStarted) => {
                self.step = ValidationStep::WarmingUp;
            },
            (ValidationStep::WarmingUp, Event::WarmedUp) => {
                if self.probe_routes.len() > 0 {
                    self.step = ValidationStep::Probing;
                } else {
                    self.step = ValidationStep::Terminating;
                }
            },
            (ValidationStep::Probing, Event::Probed(o)) => {
                let n: usize = self.probe_routes.len();
                let route = self.probe_routes[self.next_probe].clone();
                match issue_of(route, o) {
                    Some(issue) => self.issues.push(issue),
                    None => {},
                }
                self.next_probe = self.next_probe + 1;
                if self.next_probe >= n {
                    self.step = ValidationStep::Terminating;
                }
            },
            (ValidationStep::Terminating, Event::ServerTerminated) => {
                self.attributes.state = AgentState::Finished;
            },
            _ => {},
        }
    }
}

} // verus!
