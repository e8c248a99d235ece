use vstd::prelude::*;
use vstd::string::StringExecFns;

verus! {

/// Why a stage did not reach readiness.
#[derive(Debug, Clone)]
pub enum LaunchFailure {
    /// The stage signalled nothing within the readiness timeout.
    TimedOut,
    /// The readiness signal closed before the stage wrote to it.
    Closed,
    /// The stage reported that it could not initialise.
    Reported(String),
}

/// Errors that building a pipeline can return.
#[derive(Debug, Clone)]
pub enum MediaError {
    /// No stage was registered.
    EmptyPipeline,
    /// The named stage did not reach readiness.
    TaskLaunch { stage: String, failure: LaunchFailure },
}

/// A registration that the registry refused.
#[derive(Debug, Clone)]
pub enum RegisterError {
    /// A stage of this name is already registered.
    DuplicateName(String),
}

/// The text of a launch error of stage `stage`.
pub open spec fn launch_text(stage: Seq<char>, failure: LaunchFailure) -> Seq<char> {
    match failure {
        LaunchFailure::TimedOut => "task timed out: '"@ + stage + "'"@,
        LaunchFailure::Closed => stage + " build / readiness signal closed"@,
        LaunchFailure::Reported(reason) => stage + " build / "@ + reason@,
    }
}

impl MediaError {
    /// The error as text.
    pub fn message(&self) -> (r: String)
        ensures
            self matches MediaError::EmptyPipeline ==> r@ == "pipeline has no tasks"@,
            self matches MediaError::TaskLaunch { stage, failure } ==> r@ == launch_text(
                stage@,
                *failure,
            ),
    {
        match self {
            MediaError::EmptyPipeline => String::from_str("pipeline has no tasks"),
            MediaError::TaskLaunch { stage, failure } => match failure {
                LaunchFailure::TimedOut => {
                    let mut text = String::from_str("task timed out: '");
                    text.append(stage.as_str());
                    text.append("'");
                    text
                },
                LaunchFailure::Closed => {
                    let mut text = stage.clone();
                    text.append(" build / readiness signal closed");
                    text
                },
                LaunchFailure::Reported(reason) => {
                    let mut text = stage.clone();
                    text.append(" build / ");
                    text.append(reason.as_str());
                    text
                },
            },
        }
    }
}

} // verus!
