//! The decisions of the delivery worker: what to do with each record that
//! comes off the queue.
use vstd::prelude::*;
use crate::entry::{entry_body, entry_body_of};
use crate::metadata::LogContextMetadata;
use crate::record::LogRecord;

verus! {

/// What the worker does next, without its data.
#[derive(Clone, Copy, Debug, PartialEq, Eq, Structural)]
pub enum ActionKind {
    Idle,
    WarnNoAuth,
    Drop,
    Post,
}

/// What the worker does next.
pub enum WorkerAction {
    /// The queue is closed: wait without end.
    Idle,
    /// Drop the record and warn, once, that no token is available.
    WarnNoAuth,
    /// Drop the record without a word.
    Drop,
    /// Post `body` to the ingestion endpoint with `bearer` as the token.
    Post { body: String, bearer: String },
}

pub open spec fn kind_of(a: WorkerAction) -> ActionKind {
    match a {
        WorkerAction::Idle => ActionKind::Idle,
        WorkerAction::WarnNoAuth => ActionKind::WarnNoAuth,
        WorkerAction::Drop => ActionKind::Drop,
        WorkerAction::Post { .. } => ActionKind::Post,
    }
}

/// The next action, for a worker that skips sending (it has no token) or
/// not, has warned or not, and has received a record or found the queue
/// closed.
pub open spec fn next_kind(skip: bool, warned: bool, received: bool) -> ActionKind {
    if !received {
        ActionKind::Idle
    } else if skip && !warned {
        ActionKind::WarnNoAuth
    } else if skip {
        ActionKind::Drop
    } else {
        ActionKind::Post
    }
}

/// Whether the worker has warned after the step.
pub open spec fn next_warned(skip: bool, warned: bool, received: bool) -> bool {
    warned || (skip && received)
}

/// How many actions of `kind` the worker takes on a run of steps, each of
/// which receives a record (true) or finds the queue closed (false).
pub open spec fn count_actions(kind: ActionKind, skip: bool, warned: bool, steps: Seq<bool>) -> nat
    decreases steps.len(),
{
    if steps.len() == 0 {
        0
    } else {
        (if next_kind(skip, warned, steps[0]) == kind { 1nat } else { 0nat }) + count_actions(
            kind,
            skip,
            next_warned(skip, warned, steps[0]),
            steps.drop_first(),
        )
    }
}

/// How many of the steps receive a record.
pub open spec fn count_received(steps: Seq<bool>) -> nat
    decreases steps.len(),
{
    if steps.len() == 0 {
        0
    } else {
        (if steps[0] { 1nat } else { 0nat }) + count_received(steps.drop_first())
    }
}

/// The state of the background task that drains the queue. The token and the
/// metadata are fixed when it starts.
pub struct DeliveryWorker {
    /// The bearer token; empty where none could be had
    pub token: String,
    /// The environment metadata attached to every entry
    pub metadata: LogContextMetadata,
    /// Whether the missing token has been reported
    pub warned_no_auth: bool,
}

impl DeliveryWorker {
    /// Whether the worker drops every record: it has no token.
    pub open spec fn skips(&self) -> bool {
        self.token@.len() == 0
    }

    /// A worker that has not yet warned.
    pub fn new(token: String, metadata: LogContextMetadata) -> (r: Self)
        ensures
            r.token@ == token@,
            r.metadata == metadata,
            !r.warned_no_auth,
    {
        DeliveryWorker { token, metadata, warned_no_auth: false }
    }

    /// Decides what to do with what came off the queue: a record, or `None`
    /// where the queue is closed.
    pub fn step(&mut self, received: Option<LogRecord>) -> (a: WorkerAction)
        ensures
            final(self).token == old(self).token,
            final(self).metadata == old(self).metadata,
            final(self).warned_no_auth == next_warned(
                old(self).skips(),
                old(self).warned_no_auth,
                received is Some,
            ),
            kind_of(a) == next_kind(old(self).skips(), old(self).warned_no_auth, received is Some),
            a matches WorkerAction::Post { body, bearer } ==> body@ == entry_body_of(
                old(self).metadata,
                received->0,
            ) && bearer@ == old(self).token@,
    {
        match received {
            None => WorkerAction::Idle,
            Some(record) => {
                if self.token.as_str().is_empty() {
                    if self.warned_no_auth {
                        WorkerAction::Drop
                    } else {
                        self.warned_no_auth = true;
                        WorkerAction::WarnNoAuth
                    }
                } else {
                    let body = entry_body(&self.metadata, &record);
                    WorkerAction::Post { body, bearer: self.token.clone() }
                }
            },
        }
    }
}

proof fn lemma_skipping_run(warned: bool, steps: Seq<bool>)
    ensures
        count_actions(ActionKind::Post, true, warned, steps) == 0,
        count_actions(ActionKind::WarnNoAuth, true, warned, steps) == if !warned && steps.contains(
            true,
        ) {
            1nat
        } else {
            0nat
        },
    decreases steps.len(),
{
    if steps.len() > 0 {
        let rest = steps.drop_first();
        lemma_skipping_run(next_warned(true, warned, steps[0]), rest);
        if steps[0] {
            assert(steps.contains(true));
        } else if rest.contains(true) {
            let i = choose|i: int| 0 <= i < rest.len() && rest[i] == true;
            assert(steps[i + 1] == true);
        } else if steps.contains(true) {
            let i = choose|i: int| 0 <= i < steps.len() && steps[i] == true;
            assert(rest[i - 1] == true);
        }
    }
}

/// Without a token the worker posts nothing, however many records come, and
/// warns exactly once as soon as one has come.
pub proof fn lemma_no_token_no_posts(steps: Seq<bool>)
    ensures
        count_actions(ActionKind::Post, true, false, steps) == 0,
        count_actions(ActionKind::WarnNoAuth, true, false, steps) == if steps.contains(true) {
            1nat
        } else {
            0nat
        },
{
    lemma_skipping_run(false, steps);
}

/// With a token the worker posts exactly once for each record that comes.
pub proof fn lemma_one_post_per_record(warned: bool, steps: Seq<bool>)
    ensures
        count_actions(ActionKind::Post, false, warned, steps) == count_received(steps),
    decreases steps.len(),
{
    if steps.len() > 0 {
        lemma_one_post_per_record(next_warned(false, warned, steps[0]), steps.drop_first());
    }
}

} // verus!
