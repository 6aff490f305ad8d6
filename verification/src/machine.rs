//! The startup supervisor as an explicit state machine.
//!
//! The supervisor never performs outside work itself. The driving loop
//! asks [`Supervisor::next_action`] what to do, performs that action
//! (an HTTP probe, a process spawn, a timed wait), and feeds the outcome
//! back through [`Supervisor::step`]. Every transition is specified by
//! [`spec_step`] and verified against it, so the ordering of stages, the
//! polling budgets and the error bookkeeping are all proved.

use vstd::prelude::*;
use vstd::string::*;

use crate::config::AUX_READY_ATTEMPTS;
use crate::config::HEALTH_ATTEMPTS;
use crate::config::ModelRequirement;
use crate::config::ModelView;
use crate::config::models_view;
use crate::status::Stage;
use crate::status::StatusRecord;
use crate::status::StatusView;
use crate::status::opt_text_view;
use crate::text::seq_contains;
use crate::text::str_contains;

verus! {

/// Internal control state: where in the sequence the supervisor stands,
/// and what outcome it is waiting for.
#[derive(Clone, Copy, Debug, PartialEq, Eq, Structural)]
pub enum Phase {
    /// Nothing has happened yet.
    Init,
    /// Waiting for the initial reachability probe of the auxiliary service.
    AuxProbe,
    /// Waiting for the spawn outcome of auxiliary install path `idx`
    /// (`idx` one past the last path means the bare-name fallback).
    AuxSpawn { idx: usize },
    /// Waiting for one readiness poll of the just-spawned auxiliary
    /// service; `attempts` polls have already failed.
    AuxWait { attempts: u32 },
    /// Waiting for the model-listing response that decides whether model
    /// `idx` is present.
    ModelCheck { idx: usize },
    /// Waiting for the download of model `idx` to finish.
    ModelFetch { idx: usize },
    /// Waiting for any prior backend instance to be terminated.
    ClearPrior,
    /// Waiting to hear whether backend candidate path `idx` exists.
    Resolve { idx: usize },
    /// Waiting for the spawn outcome of backend candidate `idx`.
    Spawning { idx: usize },
    /// Waiting for one backend health probe; `attempts` probes have
    /// already failed.
    HealthWait { attempts: u32 },
    /// Terminal: the run ended ready or in error.
    Done,
}

/// What the driving loop must do next.
#[derive(Clone, Copy, Debug, PartialEq, Eq, Structural)]
pub enum Action {
    /// Acknowledge the start of supervision (no outside work).
    Begin,
    /// Probe the auxiliary service's listing endpoint with a short timeout.
    CheckAux,
    /// Try to spawn the auxiliary service from install path `idx`
    /// (`idx` one past the last path: spawn by bare name).
    SpawnAux { idx: usize },
    /// Sleep one interval, then probe the auxiliary service again.
    PollAux,
    /// Query the model listing to decide whether model `idx` is present.
    CheckModel { idx: usize },
    /// Ask the auxiliary service to download model `idx` and await it.
    FetchModel { idx: usize },
    /// Terminate any prior backend instance and let the port be released.
    TerminatePrior,
    /// Check whether backend candidate path `idx` exists on disk.
    CheckCandidate { idx: usize },
    /// Spawn the backend from candidate path `idx`.
    SpawnBackend { idx: usize },
    /// Sleep one interval, then probe the backend health endpoint.
    ProbeHealth,
    /// Terminal: nothing left to do.
    Idle,
}

/// Outcome of one performed action, fed back into the machine.
pub enum Event {
    /// Supervision begins.
    Start,
    /// Auxiliary-service probe outcome: the HTTP status, or `None` on
    /// timeout or connection failure.
    AuxStatus { status: Option<u16> },
    /// Did the auxiliary-service spawn succeed?
    AuxSpawned { ok: bool },
    /// Model-listing response body, or `None` if the request failed.
    ModelList { body: Option<String> },
    /// Download outcome: `None` on success, the cause on failure.
    FetchDone { error: Option<String> },
    /// Any prior backend instance is gone and the port released.
    PriorTerminated,
    /// Does the queried candidate path exist?
    CandidateExists { exists: bool },
    /// Backend spawn outcome: `None` on success, the cause on failure.
    BackendSpawned { error: Option<String> },
    /// Backend health probe outcome, as for `AuxStatus`.
    HealthStatus { status: Option<u16> },
}

/// Mathematical view of an event.
pub enum EventView {
    Start,
    AuxStatus { status: Option<u16> },
    AuxSpawned { ok: bool },
    ModelList { body: Option<Seq<char>> },
    FetchDone { error: Option<Seq<char>> },
    PriorTerminated,
    CandidateExists { exists: bool },
    BackendSpawned { error: Option<Seq<char>> },
    HealthStatus { status: Option<u16> },
}

impl View for Event {
    type V = EventView;

    open spec fn view(&self) -> EventView {
        match self {
            Event::Start => EventView::Start,
            Event::AuxStatus { status } => EventView::AuxStatus { status: *status },
            Event::AuxSpawned { ok } => EventView::AuxSpawned { ok: *ok },
            Event::ModelList { body } => EventView::ModelList { body: opt_text_view(*body) },
            Event::FetchDone { error } => EventView::FetchDone { error: opt_text_view(*error) },
            Event::PriorTerminated => EventView::PriorTerminated,
            Event::CandidateExists { exists } => EventView::CandidateExists { exists: *exists },
            Event::BackendSpawned { error } => EventView::BackendSpawned {
                error: opt_text_view(*error),
            },
            Event::HealthStatus { status } => EventView::HealthStatus { status: *status },
        }
    }
}

/// Mathematical view of the whole supervisor.
#[verifier::ext_equal]
pub struct AState {
    pub phase: Phase,
    pub stage: Stage,
    pub message: Seq<char>,
    pub last_error: Option<Seq<char>>,
    pub ready: bool,
    pub has_handle: bool,
    pub models: Seq<ModelView>,
    pub n_backend_candidates: nat,
    pub n_aux_paths: nat,
}

/// An HTTP status that counts as healthy: present and in the success range.
pub open spec fn status_ok(status: Option<u16>) -> bool {
    match status {
        Option::Some(c) => 200 <= c < 300,
        Option::None => false,
    }
}

/// Executable twin of [`status_ok`].
pub fn response_ok(status: Option<u16>) -> (r: bool)
    ensures
        r == status_ok(status),
{
    match status {
        Option::Some(c) => 200 <= c && c < 300,
        Option::None => false,
    }
}

/// Does a listing body (if any) mention the given model identifier?
pub open spec fn model_listed(body: Option<Seq<char>>, identifier: Seq<char>) -> bool {
    match body {
        Option::Some(b) => seq_contains(b, identifier),
        Option::None => false,
    }
}

/// Text recorded when a model download fails.
pub open spec fn fetch_error_text(identifier: Seq<char>, cause: Seq<char>) -> Seq<char> {
    "Failed to download "@ + identifier + ": "@ + cause
}

/// Text recorded when the backend spawn itself fails (the fatal path).
pub open spec fn spawn_error_text(cause: Seq<char>) -> Seq<char> {
    "Failed to start backend: "@ + cause
}

/// Which event answers which phase. A terminal machine expects nothing.
pub open spec fn event_matches(p: Phase, e: EventView) -> bool {
    match p {
        Phase::Init => e is Start,
        Phase::AuxProbe => e is AuxStatus,
        Phase::AuxSpawn { .. } => e is AuxSpawned,
        Phase::AuxWait { .. } => e is AuxStatus,
        Phase::ModelCheck { .. } => e is ModelList,
        Phase::ModelFetch { .. } => e is FetchDone,
        Phase::ClearPrior => e is PriorTerminated,
        Phase::Resolve { .. } => e is CandidateExists,
        Phase::Spawning { .. } => e is BackendSpawned,
        Phase::HealthWait { .. } => e is HealthStatus,
        Phase::Done => false,
    }
}

/// Well-formedness: indices and attempt counters in bounds, the stage
/// consistent with the phase, the ready flag tied to the `Ready` stage.
pub open spec fn wf(s: AState) -> bool {
    &&& s.models.len() <= usize::MAX
    &&& s.n_backend_candidates <= usize::MAX
    &&& s.n_aux_paths <= usize::MAX
    &&& match s.phase {
        Phase::Init => s.stage == Stage::Starting && !s.ready && !s.has_handle,
        Phase::AuxProbe => s.stage == Stage::StartingOllama && !s.ready && !s.has_handle,
        Phase::AuxSpawn { idx } => s.stage == Stage::StartingOllama && idx <= s.n_aux_paths
            && !s.ready && !s.has_handle,
        Phase::AuxWait { attempts } => s.stage == Stage::StartingOllama
            && attempts < AUX_READY_ATTEMPTS && !s.ready && !s.has_handle,
        Phase::ModelCheck { idx } => s.stage == Stage::CheckingModels && idx < s.models.len()
            && !s.ready && !s.has_handle,
        Phase::ModelFetch { idx } => s.stage == Stage::DownloadingModel && idx < s.models.len()
            && !s.ready && !s.has_handle,
        Phase::ClearPrior => s.stage == Stage::StartingBackend && !s.ready && !s.has_handle,
        Phase::Resolve { idx } => s.stage == Stage::StartingBackend
            && idx < s.n_backend_candidates && !s.ready && !s.has_handle,
        Phase::Spawning { idx } => s.stage == Stage::StartingBackend
            && idx < s.n_backend_candidates && !s.ready && !s.has_handle,
        Phase::HealthWait { attempts } => s.stage == Stage::WaitingForBackend
            && attempts < HEALTH_ATTEMPTS && !s.ready,
        Phase::Done => (s.stage == Stage::Ready || s.stage == Stage::Error) && (s.ready <==> s.stage
            == Stage::Ready),
    }
}

/// Enter the model-checking part of the sequence (or skip straight to
/// the backend when no models are declared).
pub open spec fn enter_models(s: AState) -> AState {
    if s.models.len() == 0 {
        enter_backend(s)
    } else {
        AState {
            phase: Phase::ModelCheck { idx: 0 },
            stage: Stage::CheckingModels,
            message: "Checking required models"@,
            ..s
        }
    }
}

/// Move past model `idx`: on to the next model, or to the backend.
pub open spec fn advance_model(s: AState, idx: usize) -> AState {
    if idx + 1 < s.models.len() {
        AState {
            phase: Phase::ModelCheck { idx: (idx + 1) as usize },
            stage: Stage::CheckingModels,
            message: "Checking required models"@,
            ..s
        }
    } else {
        enter_backend(s)
    }
}

/// Enter the backend-launch part of the sequence.
pub open spec fn enter_backend(s: AState) -> AState {
    AState {
        phase: Phase::ClearPrior,
        stage: Stage::StartingBackend,
        message: "Starting backend"@,
        ..s
    }
}

/// Enter the health-polling wait.
pub open spec fn enter_health(s: AState) -> AState {
    AState {
        phase: Phase::HealthWait { attempts: 0 },
        stage: Stage::WaitingForBackend,
        message: "Waiting for backend"@,
        ..s
    }
}

/// The action owed in each phase.
pub open spec fn spec_next_action(s: AState) -> Action {
    match s.phase {
        Phase::Init => Action::Begin,
        Phase::AuxProbe => Action::CheckAux,
        Phase::AuxSpawn { idx } => Action::SpawnAux { idx },
        Phase::AuxWait { .. } => Action::PollAux,
        Phase::ModelCheck { idx } => Action::CheckModel { idx },
        Phase::ModelFetch { idx } => Action::FetchModel { idx },
        Phase::ClearPrior => Action::TerminatePrior,
        Phase::Resolve { idx } => Action::CheckCandidate { idx },
        Phase::Spawning { idx } => Action::SpawnBackend { idx },
        Phase::HealthWait { .. } => Action::ProbeHealth,
        Phase::Done => Action::Idle,
    }
}

/// The transition function. An event that does not answer the current
/// phase leaves the state unchanged.
pub open spec fn spec_step(s: AState, e: EventView) -> AState {
    match (s.phase, e) {
        (Phase::Init, EventView::Start) => AState {
            phase: Phase::AuxProbe,
            stage: Stage::StartingOllama,
            message: "Checking auxiliary service"@,
            ..s
        },
        (Phase::AuxProbe, EventView::AuxStatus { status }) => if status_ok(status) {
            enter_models(s)
        } else {
            AState {
                phase: Phase::AuxSpawn { idx: 0 },
                message: "Starting auxiliary service"@,
                ..s
            }
        },
        (Phase::AuxSpawn { idx }, EventView::AuxSpawned { ok }) => if ok {
            AState {
                phase: Phase::AuxWait { attempts: 0 },
                message: "Waiting for auxiliary service"@,
                ..s
            }
        } else if idx < s.n_aux_paths {
            AState { phase: Phase::AuxSpawn { idx: (idx + 1) as usize }, ..s }
        } else {
            enter_models(
                AState {
                    last_error: Option::Some("Auxiliary service could not be started"@),
                    ..s
                },
            )
        },
        (Phase::AuxWait { attempts }, EventView::AuxStatus { status }) => if status_ok(status) {
            enter_models(s)
        } else if attempts + 1 < AUX_READY_ATTEMPTS {
            AState { phase: Phase::AuxWait { attempts: (attempts + 1) as u32 }, ..s }
        } else {
            enter_models(
                AState {
                    last_error: Option::Some("Auxiliary service did not become ready"@),
                    ..s
                },
            )
        },
        (Phase::ModelCheck { idx }, EventView::ModelList { body }) => if model_listed(
            body,
            s.models[idx as int].identifier,
        ) {
            advance_model(s, idx)
        } else {
            AState {
                phase: Phase::ModelFetch { idx },
                stage: Stage::DownloadingModel,
                message: "Downloading "@ + s.models[idx as int].description,
                ..s
            }
        },
        (Phase::ModelFetch { idx }, EventView::FetchDone { error }) => match error {
            Option::None => advance_model(s, idx),
            Option::Some(cause) => advance_model(
                AState {
                    last_error: Option::Some(
                        fetch_error_text(s.models[idx as int].identifier, cause),
                    ),
                    ..s
                },
                idx,
            ),
        },
        (Phase::ClearPrior, EventView::PriorTerminated) => if s.n_backend_candidates == 0 {
            enter_health(s)
        } else {
            AState { phase: Phase::Resolve { idx: 0 }, ..s }
        },
        (Phase::Resolve { idx }, EventView::CandidateExists { exists }) => if exists {
            AState { phase: Phase::Spawning { idx }, ..s }
        } else if idx + 1 < s.n_backend_candidates {
            AState { phase: Phase::Resolve { idx: (idx + 1) as usize }, ..s }
        } else {
            enter_health(s)
        },
        (Phase::Spawning { .. }, EventView::BackendSpawned { error }) => match error {
            Option::None => enter_health(AState { has_handle: true, ..s }),
            Option::Some(cause) => AState {
                phase: Phase::Done,
                stage: Stage::Error,
                message: "Backend startup failed"@,
                last_error: Option::Some(spawn_error_text(cause)),
                ..s
            },
        },
        (Phase::HealthWait { attempts }, EventView::HealthStatus { status }) => if status_ok(
            status,
        ) {
            AState {
                phase: Phase::Done,
                stage: Stage::Ready,
                message: "Backend ready"@,
                last_error: Option::None,
                ready: true,
                ..s
            }
        } else if attempts + 1 < HEALTH_ATTEMPTS {
            AState { phase: Phase::HealthWait { attempts: (attempts + 1) as u32 }, ..s }
        } else {
            AState {
                phase: Phase::Done,
                stage: Stage::Error,
                message: "Backend did not become ready"@,
                last_error: Option::Some("Backend failed to start within timeout"@),
                ..s
            }
        },
        _ => s,
    }
}

/// The state a fresh supervisor starts in.
pub open spec fn init_state(models: Seq<ModelView>, n_backend: nat, n_aux: nat) -> AState {
    AState {
        phase: Phase::Init,
        stage: Stage::Starting,
        message: "Initializing"@,
        last_error: Option::None,
        ready: false,
        has_handle: false,
        models,
        n_backend_candidates: n_backend,
        n_aux_paths: n_aux,
    }
}

/// The startup supervisor. It owns the status record and the declared
/// configuration counts; the driving loop owns the actual path lists and
/// the spawned process handle.
pub struct Supervisor {
    status: StatusRecord,
    ready: bool,
    has_handle: bool,
    phase: Phase,
    models: Vec<ModelRequirement>,
    n_backend_candidates: usize,
    n_aux_paths: usize,
}

impl View for Supervisor {
    type V = AState;

    closed spec fn view(&self) -> AState {
        AState {
            phase: self.phase,
            stage: self.status.stage,
            message: self.status.message@,
            last_error: opt_text_view(self.status.last_error),
            ready: self.ready,
            has_handle: self.has_handle,
            models: models_view(self.models@),
            n_backend_candidates: self.n_backend_candidates as nat,
            n_aux_paths: self.n_aux_paths as nat,
        }
    }
}

impl Supervisor {
    /// A fresh supervisor over the given model list, number of backend
    /// candidate paths and number of auxiliary install paths.
    pub fn new(
        models: Vec<ModelRequirement>,
        n_backend_candidates: usize,
        n_aux_paths: usize,
    ) -> (s: Supervisor)
        ensures
            s@ == init_state(
                models_view(models@),
                n_backend_candidates as nat,
                n_aux_paths as nat,
            ),
            wf(s@),
    {
        // The length call puts the model count within machine bounds,
        // which well-formedness records.
        let n_models = models.len();
        proof {
            assert(models_view(models@).len() == n_models);
        }
        let s = Supervisor {
            status: StatusRecord {
                stage: Stage::Starting,
                message: String::from_str("Initializing"),
                last_error: Option::None,
            },
            ready: false,
            has_handle: false,
            phase: Phase::Init,
            models,
            n_backend_candidates,
            n_aux_paths,
        };
        proof {
            assert(s@ =~~= init_state(
                models_view(s.models@),
                n_backend_candidates as nat,
                n_aux_paths as nat,
            ));
        }
        s
    }

    /// The action the driving loop owes the machine next.
    pub fn next_action(&self) -> (a: Action)
        ensures
            a == spec_next_action(self@),
    {
        match self.phase {
            Phase::Init => Action::Begin,
            Phase::AuxProbe => Action::CheckAux,
            Phase::AuxSpawn { idx } => Action::SpawnAux { idx },
            Phase::AuxWait { .. } => Action::PollAux,
            Phase::ModelCheck { idx } => Action::CheckModel { idx },
            Phase::ModelFetch { idx } => Action::FetchModel { idx },
            Phase::ClearPrior => Action::TerminatePrior,
            Phase::Resolve { idx } => Action::CheckCandidate { idx },
            Phase::Spawning { idx } => Action::SpawnBackend { idx },
            Phase::HealthWait { .. } => Action::ProbeHealth,
            Phase::Done => Action::Idle,
        }
    }

    /// Does this event answer the machine's current phase?
    pub fn expects(&self, ev: &Event) -> (r: bool)
        ensures
            r == event_matches(self@.phase, ev@),
    {
        match (self.phase, ev) {
            (Phase::Init, Event::Start) => true,
            (Phase::AuxProbe, Event::AuxStatus { .. }) => true,
            (Phase::AuxSpawn { .. }, Event::AuxSpawned { .. }) => true,
            (Phase::AuxWait { .. }, Event::AuxStatus { .. }) => true,
            (Phase::ModelCheck { .. }, Event::ModelList { .. }) => true,
            (Phase::ModelFetch { .. }, Event::FetchDone { .. }) => true,
            (Phase::ClearPrior, Event::PriorTerminated) => true,
            (Phase::Resolve { .. }, Event::CandidateExists { .. }) => true,
            (Phase::Spawning { .. }, Event::BackendSpawned { .. }) => true,
            (Phase::HealthWait { .. }, Event::HealthStatus { .. }) => true,
            _ => false,
        }
    }

    /// Is the run over (ready or in error)?
    pub fn is_done(&self) -> (r: bool)
        ensures
            r == (self@.phase is Done),
    {
        match self.phase {
            Phase::Done => true,
            _ => false,
        }
    }

    /// Non-blocking readiness query.
    pub fn is_ready(&self) -> (r: bool)
        ensures
            r == self@.ready,
    {
        self.ready
    }

    /// Is a spawned backend process owned by this run?
    pub fn owns_backend(&self) -> (r: bool)
        ensures
            r == self@.has_handle,
    {
        self.has_handle
    }

    /// The current stage.
    pub fn current_stage(&self) -> (r: Stage)
        ensures
            r == self@.stage,
    {
        self.status.stage
    }

    /// A consistent copy of the whole status record, for publication to
    /// concurrent readers.
    pub fn status_snapshot(&self) -> (r: StatusRecord)
        ensures
            r@ == (StatusView {
                stage: self@.stage,
                message: self@.message,
                last_error: self@.last_error,
            }),
    {
        self.status.duplicate()
    }

    /// How many models are declared.
    pub fn model_count(&self) -> (n: usize)
        ensures
            n == self@.models.len(),
    {
        proof {
            assert(self@.models.len() == self.models@.len());
        }
        self.models.len()
    }

    /// Identifier of the model an action refers to.
    pub fn model_identifier(&self, idx: usize) -> (r: &String)
        requires
            idx < self@.models.len(),
        ensures
            r@ == self@.models[idx as int].identifier,
    {
        &self.models[idx].identifier
    }

    /// Enter the model-checking part of the sequence.
    fn go_models(&mut self)
        ensures
            final(self)@ == enter_models(old(self)@),
    {
        if self.models.len() == 0 {
            self.go_backend();
            proof {
                assert(self@ =~~= enter_models(old(self)@));
            }
        } else {
            self.status.stage = Stage::CheckingModels;
            self.status.message = String::from_str("Checking required models");
            self.phase = Phase::ModelCheck { idx: 0 };
            proof {
                assert(self@ =~~= enter_models(old(self)@));
            }
        }
    }

    /// Enter the backend-launch part of the sequence.
    fn go_backend(&mut self)
        ensures
            final(self)@ == enter_backend(old(self)@),
    {
        self.status.stage = Stage::StartingBackend;
        self.status.message = String::from_str("Starting backend");
        self.phase = Phase::ClearPrior;
        proof {
            assert(self@ =~~= enter_backend(old(self)@));
        }
    }

    /// Enter the health-polling wait.
    fn go_health(&mut self)
        ensures
            final(self)@ == enter_health(old(self)@),
    {
        self.status.stage = Stage::WaitingForBackend;
        self.status.message = String::from_str("Waiting for backend");
        self.phase = Phase::HealthWait { attempts: 0 };
        proof {
            assert(self@ =~~= enter_health(old(self)@));
        }
    }

    /// Move past model `idx`.
    fn advance(&mut self, idx: usize)
        requires
            idx < old(self)@.models.len(),
        ensures
            final(self)@ == advance_model(old(self)@, idx),
    {
        proof {
            assert(old(self)@.models.len() == self.models@.len());
        }
        let n = self.models.len();
        if idx + 1 < n {
            self.status.stage = Stage::CheckingModels;
            self.status.message = String::from_str("Checking required models");
            self.phase = Phase::ModelCheck { idx: idx + 1 };
            proof {
                assert(self@ =~~= advance_model(old(self)@, idx));
            }
        } else {
            self.go_backend();
            proof {
                assert(self@ =~~= advance_model(old(self)@, idx));
            }
        }
    }

    /// Feed the outcome of the last action back into the machine.
    ///
    /// An event that does not answer the current phase leaves the state
    /// unchanged, as [`spec_step`] says.
    pub fn step(&mut self, ev: Event)
        requires
            wf(old(self)@),
        ensures
            final(self)@ == spec_step(old(self)@, ev@),
            wf(final(self)@),
    {
        let ghost pre = self@;
        let ghost eview = ev@;
        match (self.phase, ev) {
            (Phase::Init, Event::Start) => {
                self.status.stage = Stage::StartingOllama;
                self.status.message = String::from_str("Checking auxiliary service");
                self.phase = Phase::AuxProbe;
                proof {
                    assert(self@ =~~= spec_step(pre, eview));
                }
            },
            (Phase::AuxProbe, Event::AuxStatus { status }) => {
                if response_ok(status) {
                    self.go_models();
                } else {
                    self.status.message = String::from_str("Starting auxiliary service");
                    self.phase = Phase::AuxSpawn { idx: 0 };
                }
                proof {
                    assert(self@ =~~= spec_step(pre, eview));
                }
            },
            (Phase::AuxSpawn { idx }, Event::AuxSpawned { ok }) => {
                if ok {
                    self.status.message = String::from_str("Waiting for auxiliary service");
                    self.phase = Phase::AuxWait { attempts: 0 };
                } else if idx < self.n_aux_paths {
                    self.phase = Phase::AuxSpawn { idx: idx + 1 };
                } else {
                    self.status.last_error = Option::Some(
                        String::from_str("Auxiliary service could not be started"),
                    );
                    self.go_models();
                }
                proof {
                    assert(self@ =~~= spec_step(pre, eview));
                }
            },
            (Phase::AuxWait { attempts }, Event::AuxStatus { status }) => {
                if response_ok(status) {
                    self.go_models();
                } else if attempts + 1 < AUX_READY_ATTEMPTS {
                    self.phase = Phase::AuxWait { attempts: attempts + 1 };
                } else {
                    self.status.last_error = Option::Some(
                        String::from_str("Auxiliary service did not become ready"),
                    );
                    self.go_models();
                }
                proof {
                    assert(self@ =~~= spec_step(pre, eview));
                }
            },
            (Phase::ModelCheck { idx }, Event::ModelList { body }) => {
                let present = match &body {
                    Option::Some(b) => str_contains(
                        b.as_str(),
                        self.models[idx].identifier.as_str(),
                    ),
                    Option::None => false,
                };
                if present {
                    self.advance(idx);
                } else {
                    self.status.stage = Stage::DownloadingModel;
                    self.status.message = String::from_str("Downloading ").concat(
                        self.models[idx].description.as_str(),
                    );
                    self.phase = Phase::ModelFetch { idx };
                }
                proof {
                    assert(self@ =~~= spec_step(pre, eview));
                }
            },
            (Phase::ModelFetch { idx }, Event::FetchDone { error }) => {
                match error {
                    Option::None => {},
                    Option::Some(cause) => {
                        self.status.last_error = Option::Some(
                            String::from_str("Failed to download ").concat(
                                self.models[idx].identifier.as_str(),
                            ).concat(": ").concat(cause.as_str()),
                        );
                    },
                }
                self.advance(idx);
                proof {
                    assert(self@ =~~= spec_step(pre, eview));
                }
            },
            (Phase::ClearPrior, Event::PriorTerminated) => {
                if self.n_backend_candidates == 0 {
                    self.go_health();
                } else {
                    self.phase = Phase::Resolve { idx: 0 };
                }
                proof {
                    assert(self@ =~~= spec_step(pre, eview));
                }
            },
            (Phase::Resolve { idx }, Event::CandidateExists { exists }) => {
                if exists {
                    self.phase = Phase::Spawning { idx };
                } else if idx + 1 < self.n_backend_candidates {
                    self.phase = Phase::Resolve { idx: idx + 1 };
                } else {
                    self.go_health();
                }
                proof {
                    assert(self@ =~~= spec_step(pre, eview));
                }
            },
            (Phase::Spawning { idx: _ }, Event::BackendSpawned { error }) => {
                match error {
                    Option::None => {
                        self.has_handle = true;
                        self.go_health();
                    },
                    Option::Some(cause) => {
                        self.status.stage = Stage::Error;
                        self.status.message = String::from_str("Backend startup failed");
                        self.status.last_error = Option::Some(
                            String::from_str("Failed to start backend: ").concat(cause.as_str()),
                        );
                        self.phase = Phase::Done;
                    },
                }
                proof {
                    assert(self@ =~~= spec_step(pre, eview));
                }
            },
            (Phase::HealthWait { attempts }, Event::HealthStatus { status }) => {
                if response_ok(status) {
                    self.status.stage = Stage::Ready;
                    self.status.message = String::from_str("Backend ready");
                    self.status.last_error = Option::None;
                    self.ready = true;
                    self.phase = Phase::Done;
                } else if attempts + 1 < HEALTH_ATTEMPTS {
                    self.phase = Phase::HealthWait { attempts: attempts + 1 };
                } else {
                    self.status.stage = Stage::Error;
                    self.status.message = String::from_str("Backend did not become ready");
                    self.status.last_error = Option::Some(
                        String::from_str("Backend failed to start within timeout"),
                    );
                    self.phase = Phase::Done;
                }
                proof {
                    assert(self@ =~~= spec_step(pre, eview));
                }
            },
            _ => {
                proof {
                    assert(self@ =~~= spec_step(pre, eview));
                }
            },
        }
    }
}

} // verus!
