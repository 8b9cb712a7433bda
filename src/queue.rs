//! The sending end of the unbounded queue between the capture path and the
//! delivery worker.
use vstd::prelude::*;
use tokio::sync::mpsc::UnboundedSender;
use crate::record::{LogRecord, capture_record};
use crate::severity::Level;

verus! {

#[verifier::external_type_specification]
#[verifier::external_body]
#[verifier::reject_recursive_types(T)]
pub struct ExUnboundedSender<T>(UnboundedSender<T>);

/// Relies on tokio's `UnboundedSender::send`: it queues the record without
/// blocking, fails only where the receiving end is gone, and has no path that
/// panics (a count overflow aborts). Whether the receiving end is gone
/// depends on the rest of the process, so nothing is stated of the result.
#[verifier::external_body]
fn send_record(channel: &UnboundedSender<LogRecord>, record: LogRecord) -> (accepted: bool)
    no_unwind
{
    channel.send(record).is_ok()
}

/// The capture side of the pipeline: turns events into records and queues
/// them for the worker. It never blocks and never fails the caller.
pub struct LogQueue {
    channel: UnboundedSender<LogRecord>,
}

impl LogQueue {
    /// A queue that hands records to the receiving end of `channel`.
    pub fn new(channel: UnboundedSender<LogRecord>) -> (r: Self) {
        LogQueue { channel }
    }

    /// Queues a record. Returns false, and drops the record, where the
    /// receiving end is gone; it never panics, the queue open or closed.
    pub fn push(&self, record: LogRecord) -> (accepted: bool)
        no_unwind
    {
        send_record(&self.channel, record)
    }

    /// Captures an event and queues its record. Returns false where the
    /// record was dropped because the receiving end is gone.
    pub fn on_event(
        &self,
        level: Level,
        target: &str,
        file: Option<&str>,
        line: Option<u32>,
        message: Option<String>,
    ) -> (accepted: bool) {
        let record = capture_record(level, target, file, line, message);
        self.push(record)
    }
}

} // verus!
