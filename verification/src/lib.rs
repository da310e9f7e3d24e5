//! Shapes task-execution statistics into batches of named, unit-tagged
//! metric records and models the periodic loop that publishes them to a
//! remote telemetry service.

pub mod batch;
pub mod metric;
pub mod snapshot;
pub mod span;
pub mod stream;
