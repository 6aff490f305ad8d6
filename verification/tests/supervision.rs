use localbook_supervisor::config::backend_candidates;
use localbook_supervisor::config::required_models;
use localbook_supervisor::config::spawn_request;
use localbook_supervisor::machine::Action;
use localbook_supervisor::machine::Event;
use localbook_supervisor::machine::Supervisor;
use localbook_supervisor::status::stage_order;
use localbook_supervisor::status::Stage;

fn fresh() -> Supervisor {
    Supervisor::new(required_models(), 2, 3)
}

fn listing_with_all_models() -> Event {
    Event::ModelList {
        body: Some(String::from(
            "{\"models\":[{\"name\":\"llama3.2:latest\"},{\"name\":\"nomic-embed-text:latest\"},{\"name\":\"llava:latest\"}]}",
        )),
    }
}

fn empty_listing() -> Event {
    Event::ModelList {
        body: Some(String::from("{\"models\":[]}")),
    }
}

/// Drive a fresh supervisor through: start, auxiliary service already up.
fn drive_to_checking_models(sup: &mut Supervisor) {
    assert_eq!(sup.next_action(), Action::Begin);
    sup.step(Event::Start);
    assert_eq!(sup.next_action(), Action::CheckAux);
    sup.step(Event::AuxStatus { status: Some(200) });
    assert_eq!(sup.current_stage(), Stage::CheckingModels);
}

/// Answer the three model checks with a listing that has every model.
fn drive_models_present(sup: &mut Supervisor) {
    for i in 0..3 {
        assert_eq!(sup.next_action(), Action::CheckModel { idx: i });
        sup.step(listing_with_all_models());
    }
}

/// Continue through prior-instance cleanup and a first-candidate spawn.
fn drive_to_health_polling(sup: &mut Supervisor) {
    assert_eq!(sup.next_action(), Action::TerminatePrior);
    sup.step(Event::PriorTerminated);
    assert_eq!(sup.next_action(), Action::CheckCandidate { idx: 0 });
    sup.step(Event::CandidateExists { exists: true });
    assert_eq!(sup.next_action(), Action::SpawnBackend { idx: 0 });
    sup.step(Event::BackendSpawned { error: None });
    assert_eq!(sup.current_stage(), Stage::WaitingForBackend);
}

fn assert_stages_forward(observed: &[Stage]) {
    for w in observed.windows(2) {
        assert!(
            stage_order(w[0]) <= stage_order(w[1]),
            "stage moved backward: {:?} -> {:?}",
            w[0],
            w[1]
        );
    }
}

#[test]
fn happy_path_reaches_ready() {
    let mut sup = fresh();
    let mut stages = vec![sup.current_stage()];
    assert_eq!(stages[0], Stage::Starting);
    assert!(!sup.is_ready());

    drive_to_checking_models(&mut sup);
    stages.push(sup.current_stage());
    drive_models_present(&mut sup);
    stages.push(sup.current_stage());
    drive_to_health_polling(&mut sup);
    stages.push(sup.current_stage());

    assert_eq!(sup.next_action(), Action::ProbeHealth);
    sup.step(Event::HealthStatus { status: Some(200) });
    stages.push(sup.current_stage());

    assert!(sup.is_ready());
    assert!(sup.is_done());
    assert!(sup.owns_backend());
    assert_eq!(sup.current_stage(), Stage::Ready);
    assert_eq!(sup.next_action(), Action::Idle);
    let snap = sup.status_snapshot();
    assert!(snap.last_error.is_none());
    assert_stages_forward(&stages);
}

#[test]
fn ready_flag_stays_set_after_stray_event() {
    let mut sup = fresh();
    drive_to_checking_models(&mut sup);
    drive_models_present(&mut sup);
    drive_to_health_polling(&mut sup);
    sup.step(Event::HealthStatus { status: Some(204) });
    assert!(sup.is_ready());

    // A terminal machine absorbs anything further without change.
    sup.step(Event::HealthStatus { status: None });
    sup.step(Event::Start);
    assert!(sup.is_ready());
    assert_eq!(sup.current_stage(), Stage::Ready);
}

#[test]
fn reachable_service_issues_no_spawn_attempt() {
    let mut sup = fresh();
    let mut saw_spawn = false;
    assert_eq!(sup.next_action(), Action::Begin);
    sup.step(Event::Start);
    sup.step(Event::AuxStatus { status: Some(200) });
    // Walk the rest of a full run and record every owed action.
    while !sup.is_done() {
        let act = sup.next_action();
        if matches!(act, Action::SpawnAux { .. }) {
            saw_spawn = true;
        }
        let ev = match act {
            Action::CheckModel { .. } => listing_with_all_models(),
            Action::TerminatePrior => Event::PriorTerminated,
            Action::CheckCandidate { .. } => Event::CandidateExists { exists: true },
            Action::SpawnBackend { .. } => Event::BackendSpawned { error: None },
            Action::ProbeHealth => Event::HealthStatus { status: Some(200) },
            _ => panic!("unexpected action {:?}", act),
        };
        sup.step(ev);
    }
    assert!(!saw_spawn);
    assert!(sup.is_ready());
}

#[test]
fn fetch_attempted_once_per_absent_model_despite_failures() {
    let mut sup = fresh();
    drive_to_checking_models(&mut sup);
    let mut fetches = 0;
    for i in 0..3 {
        assert_eq!(sup.next_action(), Action::CheckModel { idx: i });
        sup.step(empty_listing());
        assert_eq!(sup.current_stage(), Stage::DownloadingModel);
        assert_eq!(sup.next_action(), Action::FetchModel { idx: i });
        fetches += 1;
        // Every download fails; the sequence must still move on.
        sup.step(Event::FetchDone {
            error: Some(String::from("connection reset")),
        });
    }
    assert_eq!(fetches, 3);
    assert_eq!(sup.current_stage(), Stage::StartingBackend);
    let snap = sup.status_snapshot();
    let err = snap.last_error.expect("failures must be recorded");
    assert_eq!(err, "Failed to download llava: connection reset");
}

#[test]
fn fetch_failure_message_names_identifier_and_cause() {
    let mut sup = fresh();
    drive_to_checking_models(&mut sup);
    sup.step(empty_listing());
    assert_eq!(sup.next_action(), Action::FetchModel { idx: 0 });
    sup.step(Event::FetchDone {
        error: Some(String::from("410 gone")),
    });
    let snap = sup.status_snapshot();
    assert_eq!(
        snap.last_error.as_deref(),
        Some("Failed to download llama3.2: 410 gone")
    );
    // Not fatal: the next model is still checked.
    assert_eq!(sup.next_action(), Action::CheckModel { idx: 1 });
    assert_eq!(sup.current_stage(), Stage::CheckingModels);
}

#[test]
fn present_models_skip_download_stage() {
    let mut sup = fresh();
    drive_to_checking_models(&mut sup);
    let mut saw_download_stage = false;
    let mut fetches = 0;
    for i in 0..3 {
        assert_eq!(sup.next_action(), Action::CheckModel { idx: i });
        sup.step(listing_with_all_models());
        if sup.current_stage() == Stage::DownloadingModel {
            saw_download_stage = true;
        }
        if matches!(sup.next_action(), Action::FetchModel { .. }) {
            fetches += 1;
        }
    }
    assert_eq!(fetches, 0);
    assert!(!saw_download_stage);
    assert_eq!(sup.current_stage(), Stage::StartingBackend);
}

#[test]
fn missing_executable_is_dev_mode_not_error() {
    let mut sup = fresh();
    drive_to_checking_models(&mut sup);
    drive_models_present(&mut sup);
    assert_eq!(sup.next_action(), Action::TerminatePrior);
    sup.step(Event::PriorTerminated);
    for i in 0..2 {
        assert_eq!(sup.next_action(), Action::CheckCandidate { idx: i });
        sup.step(Event::CandidateExists { exists: false });
    }
    // No spawn happened, no error was recorded: external management.
    assert_eq!(sup.next_action(), Action::ProbeHealth);
    assert_eq!(sup.current_stage(), Stage::WaitingForBackend);
    assert!(!sup.owns_backend());
    assert!(sup.status_snapshot().last_error.is_none());
}

#[test]
fn second_candidate_selected_with_its_working_dir() {
    let mut sup = fresh();
    drive_to_checking_models(&mut sup);
    drive_models_present(&mut sup);
    sup.step(Event::PriorTerminated);
    assert_eq!(sup.next_action(), Action::CheckCandidate { idx: 0 });
    sup.step(Event::CandidateExists { exists: false });
    assert_eq!(sup.next_action(), Action::CheckCandidate { idx: 1 });
    sup.step(Event::CandidateExists { exists: true });
    let act = sup.next_action();
    assert_eq!(act, Action::SpawnBackend { idx: 1 });

    // The spawn request for that candidate runs from its own directory.
    let cands = backend_candidates("/opt/app");
    let req = spawn_request(&cands[1]);
    assert_eq!(req.working_dir, "/opt/app/resources");
    assert_eq!(req.program, "/opt/app/resources/localbook-backend");
}

#[test]
fn backend_spawn_failure_is_fatal() {
    let mut sup = fresh();
    drive_to_checking_models(&mut sup);
    drive_models_present(&mut sup);
    sup.step(Event::PriorTerminated);
    sup.step(Event::CandidateExists { exists: true });
    assert_eq!(sup.next_action(), Action::SpawnBackend { idx: 0 });
    sup.step(Event::BackendSpawned {
        error: Some(String::from("permission denied")),
    });
    assert!(sup.is_done());
    assert!(!sup.is_ready());
    assert!(!sup.owns_backend());
    assert_eq!(sup.current_stage(), Stage::Error);
    assert_eq!(
        sup.status_snapshot().last_error.as_deref(),
        Some("Failed to start backend: permission denied")
    );
    assert_eq!(sup.next_action(), Action::Idle);
}

#[test]
fn health_polling_exhausts_after_thirty_attempts() {
    let mut sup = fresh();
    drive_to_checking_models(&mut sup);
    drive_models_present(&mut sup);
    drive_to_health_polling(&mut sup);
    let mut probes = 0;
    while !sup.is_done() {
        assert_eq!(sup.next_action(), Action::ProbeHealth);
        probes += 1;
        // Alternate unreachable and unhealthy outcomes; neither counts.
        let status = if probes % 2 == 0 { Some(500) } else { None };
        sup.step(Event::HealthStatus { status });
    }
    assert_eq!(probes, 30);
    assert_eq!(sup.current_stage(), Stage::Error);
    assert!(!sup.is_ready());
    let err = sup.status_snapshot().last_error.expect("timeout recorded");
    assert!(!err.is_empty());
    assert_eq!(err, "Backend failed to start within timeout");
    assert_eq!(sup.next_action(), Action::Idle);
}

#[test]
fn aux_spawned_from_first_valid_path_without_warning() {
    let mut sup = fresh();
    sup.step(Event::Start);
    assert_eq!(sup.next_action(), Action::CheckAux);
    sup.step(Event::AuxStatus { status: None });
    // Unreachable: the first install path is tried, and the spawn works.
    assert_eq!(sup.next_action(), Action::SpawnAux { idx: 0 });
    sup.step(Event::AuxSpawned { ok: true });
    // Readiness arrives on the third poll, within the budget of ten.
    for _ in 0..2 {
        assert_eq!(sup.next_action(), Action::PollAux);
        sup.step(Event::AuxStatus { status: None });
    }
    assert_eq!(sup.next_action(), Action::PollAux);
    sup.step(Event::AuxStatus { status: Some(200) });
    assert_eq!(sup.current_stage(), Stage::CheckingModels);
    // No warning was logged on the way.
    assert!(sup.status_snapshot().last_error.is_none());
}

#[test]
fn aux_spawn_falls_back_to_bare_name() {
    let mut sup = fresh();
    sup.step(Event::Start);
    sup.step(Event::AuxStatus { status: None });
    // All three install paths fail; index three is the bare-name fallback.
    for i in 0..4 {
        assert_eq!(sup.next_action(), Action::SpawnAux { idx: i });
        sup.step(Event::AuxSpawned { ok: false });
    }
    // Even a failed fallback is non-fatal: the run continues with a
    // recorded warning.
    assert_eq!(sup.current_stage(), Stage::CheckingModels);
    assert_eq!(
        sup.status_snapshot().last_error.as_deref(),
        Some("Auxiliary service could not be started")
    );
}

#[test]
fn aux_poll_timeout_is_nonfatal_warning() {
    let mut sup = fresh();
    sup.step(Event::Start);
    sup.step(Event::AuxStatus { status: None });
    sup.step(Event::AuxSpawned { ok: true });
    let mut polls = 0;
    while sup.current_stage() == Stage::StartingOllama {
        assert_eq!(sup.next_action(), Action::PollAux);
        polls += 1;
        sup.step(Event::AuxStatus { status: Some(503) });
    }
    assert_eq!(polls, 10);
    assert_eq!(sup.current_stage(), Stage::CheckingModels);
    assert_eq!(
        sup.status_snapshot().last_error.as_deref(),
        Some("Auxiliary service did not become ready")
    );
}

#[test]
fn stages_never_move_backward_on_failure_path() {
    let mut sup = fresh();
    let mut stages = vec![sup.current_stage()];
    sup.step(Event::Start);
    stages.push(sup.current_stage());
    sup.step(Event::AuxStatus { status: None });
    stages.push(sup.current_stage());
    for _ in 0..4 {
        sup.step(Event::AuxSpawned { ok: false });
        stages.push(sup.current_stage());
    }
    for _ in 0..3 {
        sup.step(empty_listing());
        stages.push(sup.current_stage());
        sup.step(Event::FetchDone {
            error: Some(String::from("no space left")),
        });
        stages.push(sup.current_stage());
    }
    sup.step(Event::PriorTerminated);
    stages.push(sup.current_stage());
    sup.step(Event::CandidateExists { exists: false });
    sup.step(Event::CandidateExists { exists: false });
    stages.push(sup.current_stage());
    while !sup.is_done() {
        sup.step(Event::HealthStatus { status: None });
        stages.push(sup.current_stage());
    }
    assert_stages_forward(&stages);
    assert_eq!(*stages.last().unwrap(), Stage::Error);
}

#[test]
fn snapshot_agrees_with_accessors() {
    let mut sup = fresh();
    drive_to_checking_models(&mut sup);
    let snap = sup.status_snapshot();
    assert_eq!(snap.stage, sup.current_stage());
    assert_eq!(snap.message, "Checking required models");
    assert!(snap.last_error.is_none());
    assert_eq!(sup.model_identifier(0).as_str(), "llama3.2");
}
