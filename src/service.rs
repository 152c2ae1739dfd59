use vstd::prelude::*;

verus! {

/// What is left of a token after an attempt that changed `rows` rows, floored at zero.
pub open spec fn budget_after(token: u32, rows: u32) -> u32 {
    if rows <= token { (token - rows) as u32 } else { 0 }
}

pub fn remaining_after(token: u32, rows: u32) -> (r: u32)
    ensures
        r == budget_after(token, rows),
{
    if token >= rows {
        token - rows
    } else {
        0
    }
}

/// How one transaction attempt ended.
#[derive(Clone, Copy, Debug, PartialEq, Eq, Structural)]
pub enum AttemptOutcome {
    /// Committed, having changed this many rows (zero for a soft skip).
    Committed(u32),
    /// A storage error: fatal for the worker.
    Failed,
}

/// What a worker does next.
#[derive(Clone, Copy, Debug, PartialEq, Eq, Structural)]
pub enum WorkerStep {
    /// Run one more attempt of the transaction body in a fresh transaction.
    Attempt,
    /// Wait for the next token.
    Receive,
    /// The token stream is closed: stop cleanly.
    Exit,
    /// Stop and hand the error on.
    Fail,
}

/// A token-driven worker: the part of its current token not yet spent.
#[derive(Clone, Copy, Debug, PartialEq, Eq, Structural)]
pub struct TokenWorker {
    pub budget: u32,
}

impl TokenWorker {
    pub fn new() -> (r: TokenWorker)
        ensures
            r.budget == 0,
    {
        TokenWorker { budget: 0 }
    }

    /// A receive from the token stream came back: `Some(token)`, or `None` once the
    /// stream is closed and drained. A delivered token is always spent before the
    /// worker looks at the stream again.
    pub fn on_receive(&mut self, token: Option<u32>) -> (step: WorkerStep)
        ensures
            match token {
                Some(n) => {
                    &&& final(self).budget == n
                    &&& step == if n > 0 { WorkerStep::Attempt } else { WorkerStep::Receive }
                },
                None => {
                    &&& final(self).budget == old(self).budget
                    &&& step == WorkerStep::Exit
                },
            },
    {
        match token {
            Some(n) => {
                self.budget = n;
                if n > 0 {
                    WorkerStep::Attempt
                } else {
                    WorkerStep::Receive
                }
            },
            None => WorkerStep::Exit,
        }
    }

    /// An attempt ended: spend its rows from the token, and go on with the same
    /// token while some of it is left.
    pub fn on_attempt(&mut self, outcome: AttemptOutcome) -> (step: WorkerStep)
        ensures
            match outcome {
                AttemptOutcome::Committed(rows) => {
                    &&& final(self).budget == budget_after(old(self).budget, rows)
                    &&& step == if final(self).budget > 0 {
                        WorkerStep::Attempt
                    } else {
                        WorkerStep::Receive
                    }
                },
                AttemptOutcome::Failed => {
                    &&& final(self).budget == old(self).budget
                    &&& step == WorkerStep::Fail
                },
            },
    {
        match outcome {
            AttemptOutcome::Committed(rows) => {
                self.budget = remaining_after(self.budget, rows);
                if self.budget > 0 {
                    WorkerStep::Attempt
                } else {
                    WorkerStep::Receive
                }
            },
            AttemptOutcome::Failed => WorkerStep::Fail,
        }
    }
}

/// Joins the results of all workers: success when every worker succeeded,
/// otherwise the error of the first worker, in spawn order, that failed.
pub fn first_error<E>(results: Vec<Result<(), E>>) -> (r: Result<(), E>)
    ensures
        r is Ok <==> (forall|i: int| 0 <= i < results@.len() ==> results@[i] is Ok),
        r is Err ==> exists|i: int|
            0 <= i < results@.len() && results@[i] == r && (forall|j: int|
                0 <= j < i ==> results@[j] is Ok),
{
    let mut pending = results;
    let ghost all = pending@;
    let mut i: usize = 0;
    while i < pending.len()
        invariant
            pending@ == all,
            all == results@,
            i <= all.len(),
            forall|j: int| 0 <= j < i ==> all[j] is Ok,
        decreases all.len() - i,
    {
        if pending[i].is_err() {
            let r = pending.remove(i);
            assert(r == results@[i as int] && r is Err);
            return r;
        }
        i = i + 1;
    }
    Ok(())
}

} // verus!
