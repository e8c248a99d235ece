use vstd::prelude::*;

use crate::error::{LaunchFailure, MediaError};

verus! {

/// How long, in milliseconds, the builder waits for each stage's readiness.
pub const READINESS_TIMEOUT_MS: u64 = 5000;

/// The pause, in milliseconds, after every stage is ready and before the
/// pipeline is declared live, so that consumers started last have begun
/// reading.
pub const LIVE_GRACE_MS: u64 = 10;

/// What was observed while awaiting one stage's readiness signal.
#[derive(Debug, Clone)]
pub enum Readiness {
    /// The stage signalled that it is initialised.
    Ready,
    /// The stage signalled that it failed to initialise, with its reason.
    Failed(String),
    /// The signal closed before the stage wrote to it.
    Closed,
    /// Nothing arrived within the readiness timeout.
    TimedOut,
}

/// What the builder does next during launch.
#[derive(Debug, Clone)]
pub enum LaunchStep {
    /// Await the readiness signal of the stage at this position.
    Await(usize),
    /// Every stage is ready: the pipeline goes live.
    Live,
    /// Stop building with this error.
    Abort(MediaError),
}

/// The failure that a readiness observation other than `Ready` stands for.
pub open spec fn failure_of(event: Readiness) -> LaunchFailure {
    match event {
        Readiness::Failed(reason) => LaunchFailure::Reported(reason),
        Readiness::Closed => LaunchFailure::Closed,
        _ => LaunchFailure::TimedOut,
    }
}

/// The first step of launch over the stages `names`.
pub open spec fn spec_start(names: Seq<String>) -> LaunchStep {
    if names.len() == 0 {
        LaunchStep::Abort(MediaError::EmptyPipeline)
    } else {
        LaunchStep::Await(0)
    }
}

/// The step after observing `event` on the readiness signal of stage `index`.
pub open spec fn spec_step(names: Seq<String>, index: int, event: Readiness) -> LaunchStep {
    match event {
        Readiness::Ready => if index < names.len() - 1 {
            LaunchStep::Await((index + 1) as usize)
        } else {
            LaunchStep::Live
        },
        _ => LaunchStep::Abort(
            MediaError::TaskLaunch { stage: names[index], failure: failure_of(event) },
        ),
    }
}

/// Where launch ends from stage `index` on, when stage `i` would show
/// `events[i]`: the stages are awaited in order and the first one that is not
/// ready ends it.
pub open spec fn drive(names: Seq<String>, events: Seq<Readiness>, index: int) -> LaunchStep
    decreases names.len() - index,
{
    if 0 <= index < names.len() && index < events.len() {
        match spec_step(names, index, events[index]) {
            LaunchStep::Await(next) => if index < next < names.len() {
                drive(names, events, next as int)
            } else {
                LaunchStep::Await(next)
            },
            other => other,
        }
    } else {
        LaunchStep::Await(index as usize)
    }
}

/// Where launch ends over the stages `names` when stage `i` would show
/// `events[i]`.
pub open spec fn spec_launch(names: Seq<String>, events: Seq<Readiness>) -> LaunchStep {
    match spec_start(names) {
        LaunchStep::Await(first) => drive(names, events, first as int),
        other => other,
    }
}

/// The first step of launch: refuse an empty pipeline, else await the first
/// stage.
pub fn launch_start(names: &Vec<String>) -> (r: LaunchStep)
    ensures
        r == spec_start(names@),
{
    if names.len() == 0 {
        LaunchStep::Abort(MediaError::EmptyPipeline)
    } else {
        LaunchStep::Await(0)
    }
}

/// The step after observing `event` on the readiness signal of stage `index`:
/// await the next stage, go live after the last, or abort naming this stage.
pub fn launch_step(names: &Vec<String>, index: usize, event: Readiness) -> (r: LaunchStep)
    requires
        index < names@.len(),
    ensures
        r == spec_step(names@, index as int, event),
{
    match event {
        Readiness::Ready => if index < names.len() - 1 {
            LaunchStep::Await(index + 1)
        } else {
            LaunchStep::Live
        },
        Readiness::Failed(reason) => LaunchStep::Abort(
            MediaError::TaskLaunch {
                stage: names[index].clone(),
                failure: LaunchFailure::Reported(reason),
            },
        ),
        Readiness::Closed => LaunchStep::Abort(
            MediaError::TaskLaunch { stage: names[index].clone(), failure: LaunchFailure::Closed },
        ),
        Readiness::TimedOut => LaunchStep::Abort(
            MediaError::TaskLaunch {
                stage: names[index].clone(),
                failure: LaunchFailure::TimedOut,
            },
        ),
    }
}

/// Launch goes live when every one of at least one stage signals readiness.
pub proof fn lemma_all_ready_goes_live(names: Seq<String>, events: Seq<Readiness>)
    requires
        1 <= names.len() <= usize::MAX,
        events.len() == names.len(),
        forall|i: int| 0 <= i < events.len() ==> #[trigger] events[i] is Ready,
    ensures
        spec_launch(names, events) == LaunchStep::Live,
{
    lemma_ready_from(names, events, 0);
}

proof fn lemma_ready_from(names: Seq<String>, events: Seq<Readiness>, index: int)
    requires
        0 <= index < names.len() <= usize::MAX,
        events.len() == names.len(),
        forall|i: int| 0 <= i < events.len() ==> #[trigger] events[i] is Ready,
    ensures
        drive(names, events, index) == LaunchStep::Live,
    decreases names.len() - index,
{
    assert(events[index] is Ready);
    if index + 1 < names.len() {
        lemma_ready_from(names, events, index + 1);
    }
}

/// An empty pipeline is refused before any stage is awaited.
pub proof fn lemma_empty_is_refused(events: Seq<Readiness>)
    ensures
        spec_launch(Seq::<String>::empty(), events) == LaunchStep::Abort(MediaError::EmptyPipeline),
{
}

/// When the stages before stage `k` are ready and stage `k` shows anything but
/// readiness, launch aborts naming stage `k` and its failure, whatever the
/// stages after it would show.
pub proof fn lemma_first_unready_is_named(names: Seq<String>, events: Seq<Readiness>, k: int)
    requires
        0 <= k < names.len() <= usize::MAX,
        events.len() == names.len(),
        forall|i: int| 0 <= i < k ==> #[trigger] events[i] is Ready,
        !(events[k] is Ready),
    ensures
        spec_launch(names, events) == LaunchStep::Abort(
            MediaError::TaskLaunch { stage: names[k], failure: failure_of(events[k]) },
        ),
{
    lemma_unready_from(names, events, k, 0);
}

proof fn lemma_unready_from(names: Seq<String>, events: Seq<Readiness>, k: int, index: int)
    requires
        0 <= index <= k < names.len() <= usize::MAX,
        events.len() == names.len(),
        forall|i: int| 0 <= i < k ==> #[trigger] events[i] is Ready,
        !(events[k] is Ready),
    ensures
        drive(names, events, index) == LaunchStep::Abort(
            MediaError::TaskLaunch { stage: names[k], failure: failure_of(events[k]) },
        ),
    decreases k - index,
{
    if index < k {
        assert(events[index] is Ready);
        lemma_unready_from(names, events, k, index + 1);
    }
}

} // verus!
