//! The startup stages and the shared status record.

use vstd::prelude::*;

verus! {

/// One named phase of the startup sequence, exposed for progress display.
///
/// The stages form a forward-ordered list (see [`stage_rank`]); a run
/// never moves backward through it. `CheckingModels` and
/// `DownloadingModel` share a rank because the sequence alternates
/// between them once per required model.
#[derive(Clone, Copy, Debug, PartialEq, Eq, Structural)]
pub enum Stage {
    Starting,
    StartingOllama,
    CheckingModels,
    DownloadingModel,
    StartingBackend,
    WaitingForBackend,
    Ready,
    Error,
}

/// Position of a stage in the forward order of the startup sequence.
pub open spec fn stage_rank(s: Stage) -> int {
    match s {
        Stage::Starting => 0,
        Stage::StartingOllama => 1,
        Stage::CheckingModels => 2,
        Stage::DownloadingModel => 2,
        Stage::StartingBackend => 3,
        Stage::WaitingForBackend => 4,
        Stage::Ready => 5,
        Stage::Error => 5,
    }
}

/// Executable twin of [`stage_rank`], for callers that want to compare
/// two observed stages.
pub fn stage_order(s: Stage) -> (r: u32)
    ensures
        r == stage_rank(s),
{
    match s {
        Stage::Starting => 0,
        Stage::StartingOllama => 1,
        Stage::CheckingModels => 2,
        Stage::DownloadingModel => 2,
        Stage::StartingBackend => 3,
        Stage::WaitingForBackend => 4,
        Stage::Ready => 5,
        Stage::Error => 5,
    }
}

/// Snapshot of the supervisor's progress: the current stage, a
/// human-readable message, and the most recent sub-step failure, if any.
pub struct StatusRecord {
    pub stage: Stage,
    pub message: String,
    pub last_error: Option<String>,
}

/// Mathematical view of an `Option<String>`.
pub open spec fn opt_text_view(o: Option<String>) -> Option<Seq<char>> {
    match o {
        Option::None => Option::<Seq<char>>::None,
        Option::Some(s) => Option::Some(s@),
    }
}

/// Mathematical view of a status record.
pub struct StatusView {
    pub stage: Stage,
    pub message: Seq<char>,
    pub last_error: Option<Seq<char>>,
}

impl View for StatusRecord {
    type V = StatusView;

    open spec fn view(&self) -> StatusView {
        StatusView {
            stage: self.stage,
            message: self.message@,
            last_error: opt_text_view(self.last_error),
        }
    }
}

impl StatusRecord {
    /// Deep copy, so that a caller can publish a snapshot while
    /// keeping its own record.
    pub fn duplicate(&self) -> (r: StatusRecord)
        ensures
            r@ == self@,
    {
        StatusRecord {
            stage: self.stage,
            message: self.message.clone(),
            last_error: match &self.last_error {
                Option::None => Option::None,
                Option::Some(e) => Option::Some(e.clone()),
            },
        }
    }
}

} // verus!
