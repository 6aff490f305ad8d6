//! Laws of the supervision sequence, proved over whole runs.
//!
//! A run is the fold of [`spec_step`] over a sequence of events; the
//! action emitted at each point is [`spec_next_action`] of the state the
//! machine stood in when the event arrived. The lemmas here state the
//! global guarantees of the supervisor: stages only move forward,
//! readiness is permanent, the polling and download budgets hold, and a
//! missing backend executable is development mode, never an error.

use vstd::prelude::*;

use crate::config::HEALTH_ATTEMPTS;
use crate::machine::AState;
use crate::machine::EventView;
use crate::machine::Phase;
use crate::machine::event_matches;
use crate::machine::fetch_error_text;
use crate::machine::model_listed;
use crate::machine::spec_next_action;
use crate::machine::spec_step;
use crate::machine::status_ok;
use crate::machine::wf;
use crate::status::Stage;
use crate::status::stage_rank;

verus! {

/// The state after a whole run of events.
pub open spec fn run_state(s: AState, evs: Seq<EventView>) -> AState
    decreases evs.len(),
{
    if evs.len() == 0 {
        s
    } else {
        run_state(spec_step(s, evs[0]), evs.drop_first())
    }
}

/// Every event in the run answers the phase the machine stood in.
pub open spec fn run_ok(s: AState, evs: Seq<EventView>) -> bool
    decreases evs.len(),
{
    evs.len() == 0 || (event_matches(s.phase, evs[0]) && run_ok(spec_step(s, evs[0]), evs.drop_first()))
}

/// How many auxiliary-service spawn attempts the run issues.
pub open spec fn aux_spawns_of_run(s: AState, evs: Seq<EventView>) -> int
    decreases evs.len(),
{
    if evs.len() == 0 {
        0
    } else {
        (if spec_next_action(s) is SpawnAux {
            1int
        } else {
            0int
        }) + aux_spawns_of_run(spec_step(s, evs[0]), evs.drop_first())
    }
}

/// How many model downloads the run attempts.
pub open spec fn fetches_of_run(s: AState, evs: Seq<EventView>) -> int
    decreases evs.len(),
{
    if evs.len() == 0 {
        0
    } else {
        (if spec_next_action(s) is FetchModel {
            1int
        } else {
            0int
        }) + fetches_of_run(spec_step(s, evs[0]), evs.drop_first())
    }
}

/// How many backend spawn attempts the run issues.
pub open spec fn backend_spawns_of_run(s: AState, evs: Seq<EventView>) -> int
    decreases evs.len(),
{
    if evs.len() == 0 {
        0
    } else {
        (if spec_next_action(s) is SpawnBackend {
            1int
        } else {
            0int
        }) + backend_spawns_of_run(spec_step(s, evs[0]), evs.drop_first())
    }
}

/// How many backend health probes the run issues.
pub open spec fn probes_of_run(s: AState, evs: Seq<EventView>) -> int
    decreases evs.len(),
{
    if evs.len() == 0 {
        0
    } else {
        (if spec_next_action(s) is ProbeHealth {
            1int
        } else {
            0int
        }) + probes_of_run(spec_step(s, evs[0]), evs.drop_first())
    }
}

/// One step keeps the state well-formed.
pub proof fn lemma_step_wf(s: AState, e: EventView)
    requires
        wf(s),
    ensures
        wf(spec_step(s, e)),
{
}

/// One step never lowers the stage's rank.
pub proof fn lemma_step_stage_forward(s: AState, e: EventView)
    requires
        wf(s),
    ensures
        stage_rank(spec_step(s, e).stage) >= stage_rank(s.stage),
{
}

/// The reported stage never moves backward through the phase list, over
/// any sequence of probe outcomes whatsoever.
pub proof fn lemma_stage_never_backward(s: AState, evs: Seq<EventView>)
    requires
        wf(s),
    ensures
        wf(run_state(s, evs)),
        stage_rank(run_state(s, evs).stage) >= stage_rank(s.stage),
    decreases evs.len(),
{
    if evs.len() > 0 {
        lemma_step_wf(s, evs[0]);
        lemma_step_stage_forward(s, evs[0]);
        lemma_stage_never_backward(spec_step(s, evs[0]), evs.drop_first());
    }
}

/// Once the ready flag is set, no later event can clear it, and the
/// stage stays `Ready`.
pub proof fn lemma_ready_is_permanent(s: AState, evs: Seq<EventView>)
    requires
        wf(s),
        s.ready,
    ensures
        run_state(s, evs).ready,
        run_state(s, evs).stage == Stage::Ready,
    decreases evs.len(),
{
    if evs.len() > 0 {
        lemma_step_wf(s, evs[0]);
        lemma_ready_is_permanent(spec_step(s, evs[0]), evs.drop_first());
    }
}

/// A terminal machine absorbs every event and owes no further work.
pub proof fn lemma_terminal_absorbs(s: AState, e: EventView)
    requires
        wf(s),
        s.phase is Done,
    ensures
        spec_step(s, e) == s,
        spec_next_action(s) is Idle,
        !event_matches(s.phase, e),
{
}

/// The phases from which an auxiliary spawn attempt is still possible.
pub open spec fn before_aux_spawn_settled(p: Phase) -> bool {
    p is Init || p is AuxProbe || p is AuxSpawn
}

/// Once the machine is past the auxiliary spawn window it never
/// re-enters it and never issues another spawn attempt.
pub proof fn lemma_past_aux_window_no_spawn(s: AState, evs: Seq<EventView>)
    requires
        wf(s),
        !before_aux_spawn_settled(s.phase),
    ensures
        aux_spawns_of_run(s, evs) == 0,
        !before_aux_spawn_settled(run_state(s, evs).phase),
    decreases evs.len(),
{
    if evs.len() > 0 {
        lemma_step_wf(s, evs[0]);
        lemma_past_aux_window_no_spawn(spec_step(s, evs[0]), evs.drop_first());
    }
}

/// If the auxiliary service answers its first reachability probe, the
/// whole run issues no spawn attempt for it.
pub proof fn lemma_reachable_service_never_spawned(s: AState, evs: Seq<EventView>)
    requires
        wf(s),
        s.phase is AuxProbe,
        evs.len() > 0,
        evs[0] matches EventView::AuxStatus { status } && status_ok(status),
    ensures
        aux_spawns_of_run(s, evs) == 0,
    decreases evs.len(),
{
    lemma_step_wf(s, evs[0]);
    lemma_past_aux_window_no_spawn(spec_step(s, evs[0]), evs.drop_first());
}

/// How many downloads the rest of the run may still attempt.
pub open spec fn fetch_budget(s: AState) -> int {
    match s.phase {
        Phase::Init => s.models.len() as int,
        Phase::AuxProbe => s.models.len() as int,
        Phase::AuxSpawn { .. } => s.models.len() as int,
        Phase::AuxWait { .. } => s.models.len() as int,
        Phase::ModelCheck { idx } => s.models.len() - idx,
        Phase::ModelFetch { idx } => s.models.len() - idx,
        _ => 0,
    }
}

/// One answered step uses no more of the download budget than it has.
pub proof fn lemma_step_fetch_budget(s: AState, e: EventView)
    requires
        wf(s),
        event_matches(s.phase, e),
    ensures
        fetch_budget(spec_step(s, e)) + (if spec_next_action(s) is FetchModel {
            1int
        } else {
            0int
        }) <= fetch_budget(s),
        fetch_budget(spec_step(s, e)) >= 0,
{
}

/// Over a run of N declared models, at most N downloads are attempted,
/// regardless of each download's outcome.
pub proof fn lemma_fetch_attempts_bounded(s: AState, evs: Seq<EventView>)
    requires
        wf(s),
        run_ok(s, evs),
    ensures
        fetches_of_run(s, evs) <= fetch_budget(s),
        fetch_budget(s) <= s.models.len(),
        fetches_of_run(s, evs) >= 0,
    decreases evs.len(),
{
    if evs.len() > 0 {
        lemma_step_wf(s, evs[0]);
        lemma_step_fetch_budget(s, evs[0]);
        lemma_fetch_attempts_bounded(spec_step(s, evs[0]), evs.drop_first());
    }
}

/// A failed download is recorded but never fatal: the sequence moves on
/// to the next model (or to the backend), not to the error stage.
pub proof fn lemma_fetch_failure_not_fatal(s: AState, idx: usize, cause: Seq<char>)
    requires
        wf(s),
        s.phase == (Phase::ModelFetch { idx }),
    ensures
        spec_step(s, EventView::FetchDone { error: Option::Some(cause) }).stage != Stage::Error,
        !(spec_step(s, EventView::FetchDone { error: Option::Some(cause) }).phase is Done),
        spec_step(s, EventView::FetchDone { error: Option::Some(cause) }).last_error
            == Option::Some(fetch_error_text(s.models[idx as int].identifier, cause)),
{
}

/// A model the listing already names is never downloaded: the check
/// moves straight on without entering the download phase.
pub proof fn lemma_present_model_not_fetched(s: AState, idx: usize, body: Option<Seq<char>>)
    requires
        wf(s),
        s.phase == (Phase::ModelCheck { idx }),
        model_listed(body, s.models[idx as int].identifier),
    ensures
        !(spec_step(s, EventView::ModelList { body }).phase is ModelFetch),
        spec_step(s, EventView::ModelList { body }).stage != Stage::DownloadingModel,
        spec_step(s, EventView::ModelList { body }).last_error == s.last_error,
{
}

/// When no backend candidate path exists on disk, the run spawns
/// nothing, records no error, and proceeds to health polling assuming
/// an externally managed backend.
pub proof fn lemma_missing_backend_is_dev_mode(s: AState, evs: Seq<EventView>)
    requires
        wf(s),
        s.phase matches Phase::Resolve { idx } && evs.len() == s.n_backend_candidates - idx,
        forall|i: int|
            0 <= i < evs.len() ==> evs[i] == (EventView::CandidateExists { exists: false }),
    ensures
        run_state(s, evs).phase == (Phase::HealthWait { attempts: 0 }),
        run_state(s, evs).stage == Stage::WaitingForBackend,
        !run_state(s, evs).has_handle,
        !run_state(s, evs).ready,
        run_state(s, evs).last_error == s.last_error,
        backend_spawns_of_run(s, evs) == 0,
    decreases evs.len(),
{
    lemma_step_wf(s, evs[0]);
    if evs.len() > 1 {
        lemma_missing_backend_is_dev_mode(spec_step(s, evs[0]), evs.drop_first());
    } else {
        assert(run_state(spec_step(s, evs[0]), evs.drop_first()) == spec_step(s, evs[0]));
        assert(backend_spawns_of_run(spec_step(s, evs[0]), evs.drop_first()) == 0);
    }
}

/// A failed health probe, seen in spec terms.
pub open spec fn failed_probe(e: EventView) -> bool {
    match e {
        EventView::HealthStatus { status } => !status_ok(status),
        _ => false,
    }
}

/// If every probe fails, health polling terminates after exactly the
/// declared attempt budget, one probe per event, and the run ends in the
/// error stage with a non-empty recorded cause and the ready flag off.
pub proof fn lemma_health_exhaustion(s: AState, evs: Seq<EventView>)
    requires
        wf(s),
        s.phase matches Phase::HealthWait { attempts } && evs.len() == HEALTH_ATTEMPTS - attempts,
        forall|i: int| 0 <= i < evs.len() ==> failed_probe(evs[i]),
    ensures
        run_state(s, evs).phase is Done,
        run_state(s, evs).stage == Stage::Error,
        !run_state(s, evs).ready,
        run_state(s, evs).last_error == Option::Some("Backend failed to start within timeout"@),
        "Backend failed to start within timeout"@.len() > 0,
        probes_of_run(s, evs) == evs.len(),
    decreases evs.len(),
{
    reveal_strlit("Backend failed to start within timeout");
    lemma_step_wf(s, evs[0]);
    if evs.len() > 1 {
        lemma_health_exhaustion(spec_step(s, evs[0]), evs.drop_first());
    } else {
        assert(run_state(spec_step(s, evs[0]), evs.drop_first()) == spec_step(s, evs[0]));
        assert(probes_of_run(spec_step(s, evs[0]), evs.drop_first()) == 0);
    }
}

/// The error stage is reachable two ways only: the backend spawn itself
/// fails, or the last health probe of the budget fails. Either way a
/// cause is recorded.
pub proof fn lemma_error_needs_cause(s: AState, e: EventView)
    requires
        wf(s),
        s.stage != Stage::Error,
        spec_step(s, e).stage == Stage::Error,
    ensures
        (s.phase is Spawning && (e matches EventView::BackendSpawned { error } && error is Some))
            || (s.phase matches Phase::HealthWait { attempts } && attempts + 1 == HEALTH_ATTEMPTS
            && failed_probe(e)),
        spec_step(s, e).last_error is Some,
{
}

/// The ready flag can only be set by a successful health probe.
pub proof fn lemma_ready_needs_healthy_probe(s: AState, e: EventView)
    requires
        wf(s),
        !s.ready,
        spec_step(s, e).ready,
    ensures
        s.phase is HealthWait,
        e matches EventView::HealthStatus { status } && status_ok(status),
{
}

/// The first successful probe ends the run ready: stage `Ready`, the
/// recorded error cleared, the ready flag set for good.
pub proof fn lemma_health_success(s: AState, status: Option<u16>)
    requires
        wf(s),
        s.phase is HealthWait,
        status_ok(status),
    ensures
        spec_step(s, EventView::HealthStatus { status }).ready,
        spec_step(s, EventView::HealthStatus { status }).stage == Stage::Ready,
        spec_step(s, EventView::HealthStatus { status }).last_error is None,
        spec_step(s, EventView::HealthStatus { status }).phase is Done,
{
}

} // verus!
