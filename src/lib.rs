//! Ships structured log events to a remote log-ingestion endpoint.
//!
//! The library holds the logic of the pipeline: the severity table, the
//! formatted message line, the environment metadata and its fallbacks, the
//! JSON document posted for each entry, the queue hand-off, and the decisions
//! of the delivery worker. Network, file and environment access, the
//! background task and the hook into the logging framework live outside it.
pub mod entry;
pub mod metadata;
pub mod queue;
pub mod record;
pub mod severity;
pub mod worker;
