use vstd::prelude::*;
use vstd::string::StringExecFns;

use crate::runner::{lemma_panic_reason_nonempty, panic_reason};

verus! {

/// What the first completion signal to resolve carried.
#[derive(Debug)]
pub enum Completion {
    /// The stage's runner reported this outcome.
    Reported(Result<(), String>),
    /// The signal closed without a report.
    Dropped,
}

/// The pipeline failed because of this stage; `reason` is `None` when the
/// stage ended without a report.
#[derive(Debug, Clone)]
pub struct StageFailure {
    pub stage: String,
    pub reason: Option<String>,
}

/// The pipeline's outcome when stage `winner` of `names` is the first to
/// complete, with `signal`.
pub open spec fn spec_race(names: Seq<String>, winner: int, signal: Completion) -> Result<
    (),
    StageFailure,
> {
    match signal {
        Completion::Reported(Ok(())) => Ok(()),
        Completion::Reported(Err(reason)) => Err(
            StageFailure { stage: names[winner], reason: Some(reason) },
        ),
        Completion::Dropped => Err(StageFailure { stage: names[winner], reason: None }),
    }
}

/// The text of the failure of stage `stage` for `reason`.
pub open spec fn failure_text(stage: Seq<char>, reason: Option<Seq<char>>) -> Seq<char> {
    match reason {
        Some(r) => "Task '"@ + stage + "' failed: "@ + r,
        None => "Task '"@ + stage + "' failed for unknown reason"@,
    }
}

/// The pipeline's outcome when stage `winner` is the first to complete: success
/// when it reported success, else a failure naming it, with its reason if it
/// gave one. The other stages' outcomes play no part.
pub fn race_outcome(names: &Vec<String>, winner: usize, signal: Completion) -> (r: Result<
    (),
    StageFailure,
>)
    requires
        winner < names@.len(),
    ensures
        r == spec_race(names@, winner as int, signal),
{
    match signal {
        Completion::Reported(Ok(())) => Ok(()),
        Completion::Reported(Err(reason)) => Err(
            StageFailure { stage: names[winner].clone(), reason: Some(reason) },
        ),
        Completion::Dropped => Err(StageFailure { stage: names[winner].clone(), reason: None }),
    }
}

impl StageFailure {
    /// The view of the reason.
    pub open spec fn reason_view(&self) -> Option<Seq<char>> {
        match self.reason {
            Some(r) => Some(r@),
            None => None,
        }
    }

    /// The failure as text: `Task '<stage>' failed: <reason>`, or
    /// `Task '<stage>' failed for unknown reason`.
    pub fn message(&self) -> (r: String)
        ensures
            r@ == failure_text(self.stage@, self.reason_view()),
    {
        let mut text = String::from_str("Task '");
        text.append(self.stage.as_str());
        match &self.reason {
            Some(reason) => {
                text.append("' failed: ");
                text.append(reason.as_str());
            },
            None => {
                text.append("' failed for unknown reason");
            },
        }
        text
    }
}

/// The pipeline succeeds exactly when the first stage to complete reported
/// success; otherwise its failure names that stage.
pub proof fn lemma_first_completion_decides(names: Seq<String>, winner: int, signal: Completion)
    requires
        0 <= winner < names.len(),
    ensures
        spec_race(names, winner, signal) is Ok <==> signal matches Completion::Reported(Ok(_)),
        spec_race(names, winner, signal) matches Err(f) ==> f.stage == names[winner],
{
}

/// When the first stage to complete is one whose run logic panicked, the
/// pipeline fails naming that stage, with a non-empty reason.
pub proof fn lemma_panic_fails_pipeline(
    names: Seq<String>,
    k: int,
    payload: Option<Seq<char>>,
    report: String,
)
    requires
        0 <= k < names.len(),
        report@ == panic_reason(payload),
    ensures
        spec_race(names, k, Completion::Reported(Err(report))) is Err,
        spec_race(names, k, Completion::Reported(Err(report)))->Err_0.stage == names[k],
        spec_race(names, k, Completion::Reported(Err(report)))->Err_0.reason_view() == Some(
            report@,
        ),
        report@.len() > 0,
{
    lemma_panic_reason_nonempty(payload);
}

} // verus!
