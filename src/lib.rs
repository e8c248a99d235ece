//! Orchestration logic of a media pipeline: a registry of uniquely named
//! stages, the control listeners of those stages, the decisions of the
//! two-phase launch, the report of a stage's exit, and the completion race
//! that turns the first report into the pipeline's outcome.
pub mod control;
pub mod error;
pub mod launch;
pub mod race;
pub mod registry;
pub mod runner;
