//! Futures: the native driver's handles of operations under way.
//!
//! A future owns one native future, which is released once: by the wait,
//! or, where the future is never waited on, by `free`. Both consume the
//! future. A wait blocks until the operation is over, asks for its status,
//! releases the native future, and yields what the operation gave or why
//! it failed.

use crate::error::CassError;
use crate::error::CASS_OK;
use crate::exchange::Awaited;
use crate::exchange::Exchange;
use crate::exchange::Outcome;
use crate::exchange::Plan;
use crate::exchange::Request;
use crate::handle::CassPrepared;
use crate::handle::CassResult;
use crate::laws::free_releases_the_future_once;
use crate::native::Entry;
use crate::native::Reply;
use crate::runs::execution_wait_runs;
use crate::runs::failed_execution_wait_runs;
use crate::runs::failed_prepare_wait_runs;
use crate::runs::fetch_calls;
use crate::runs::fetch_replies;
use crate::runs::free_releases_the_future;
use crate::runs::plain_wait_runs;
use crate::runs::prepare_wait_runs;
use crate::runs::wait_calls;
use crate::runs::wait_replies;
use vstd::prelude::*;

verus! {

/// The request that opens a wait on `on`.
pub open spec fn wait_plan(on: Awaited) -> Plan {
    Plan {
        entry: Entry::FutureWait { future: on.handle() },
        text: Seq::empty(),
        exchange: Exchange::Waiting { on },
    }
}

/// Opens a wait on `on`.
pub fn wait_on(on: Awaited) -> (request: Request)
    ensures
        request@ == wait_plan(on),
{
    let future = on.raw();
    Request {
        entry: Entry::FutureWait { future },
        text: Vec::new(),
        exchange: Exchange::Waiting { on },
    }
}

/// What is left when `on` is given up without a wait: the session that the
/// future of a connect held, which goes back to the caller; nothing, for
/// the other futures.
pub open spec fn left_by(on: Awaited) -> Outcome {
    match on {
        Awaited::Session(future) => Outcome::Session(future.1),
        _ => Outcome::Released,
    }
}

/// The request that gives `on` up without a wait.
pub open spec fn free_plan(on: Awaited) -> Plan {
    Plan {
        entry: Entry::FutureFree { future: on.handle() },
        text: Seq::empty(),
        exchange: Exchange::Releasing { outcome: left_by(on) },
    }
}

/// Gives `on` up without a wait: its native future is released, and
/// nothing else is asked of the driver.
pub fn free_of(on: Awaited) -> (request: Request)
    ensures
        request@ == free_plan(on),
        forall|replies: Seq<Reply>| #[trigger]
            request@.calls(replies) == seq![Entry::FutureFree { future: on.handle() }],
        request@.outcome(seq![Reply::Returned]) == Some(left_by(on)),
{
    proof {
        assert forall|replies: Seq<Reply>| #[trigger]
            free_plan(on).calls(replies) == seq![Entry::FutureFree { future: on.handle() }] by {
            free_releases_the_future_once(on, replies);
        }
        free_releases_the_future(on);
    }
    let future = on.raw();
    let outcome = match on {
        Awaited::Session(future) => Outcome::Session(future.1),
        _ => Outcome::Released,
    };
    Request {
        entry: Entry::FutureFree { future },
        text: Vec::new(),
        exchange: Exchange::Releasing { outcome },
    }
}

/// A future that yields nothing but its success.
#[derive(Debug, PartialEq, Eq)]
pub struct CassFuture(pub usize);

impl CassFuture {
    /// What the future yields when the driver reports `code`.
    pub open spec fn resolved(self, code: u32) -> Result<(), CassError> {
        if code == CASS_OK {
            Ok(())
        } else {
            Err(CassError::Native(code))
        }
    }

    /// Waits for the operation to be over.
    pub fn wait(self) -> (request: Request)
        ensures
            request@ == wait_plan(Awaited::Plain(self)),
            forall|code: u32|
                #![trigger request@.calls(wait_replies(code))]
                #![trigger request@.outcome(wait_replies(code))]
                request@.calls(wait_replies(code)) == wait_calls(self.0) && request@.outcome(
                    wait_replies(code),
                ) == Some(Outcome::Waited(self.resolved(code))),
    {
        proof {
            let plan = wait_plan(Awaited::Plain(self));
            assert forall|code: u32|
                #![trigger plan.calls(wait_replies(code))]
                #![trigger plan.outcome(wait_replies(code))]
                plan.calls(wait_replies(code)) == wait_calls(self.0) && plan.outcome(
                    wait_replies(code),
                ) == Some(Outcome::Waited(self.resolved(code))) by {
                plain_wait_runs(self, code);
            }
        }
        wait_on(Awaited::Plain(self))
    }

    /// Gives the future up without a wait: its native future is released.
    pub fn free(self) -> (request: Request)
        ensures
            request@ == free_plan(Awaited::Plain(self)),
            forall|replies: Seq<Reply>| #[trigger]
                request@.calls(replies) == seq![Entry::FutureFree { future: self.0 }],
            request@.outcome(seq![Reply::Returned]) == Some(Outcome::Released),
    {
        free_of(Awaited::Plain(self))
    }

    /// Turns the status of the finished operation into its result.
    pub fn error_code(self, code: u32) -> (result: Result<(), CassError>)
        ensures
            result == self.resolved(code),
    {
        CassError::build(code).wrap(())
    }
}

/// The future of a prepare: it yields a prepared statement.
#[derive(Debug, PartialEq, Eq)]
pub struct PreparedFuture(pub usize);

impl PreparedFuture {
    /// Waits for the prepare to be over.
    pub fn wait(self) -> (request: Request)
        ensures
            request@ == wait_plan(Awaited::Prepared(self)),
            forall|code: u32|
                #![trigger request@.calls(wait_replies(code))]
                #![trigger request@.outcome(wait_replies(code))]
                code != CASS_OK ==> request@.calls(wait_replies(code)) == wait_calls(self.0)
                    && request@.outcome(wait_replies(code)) == Some(
                    Outcome::Prepared(Err(CassError::Native(code))),
                ),
            forall|prepared: usize|
                #![trigger request@.calls(fetch_replies(prepared))]
                #![trigger request@.outcome(fetch_replies(prepared))]
                request@.calls(fetch_replies(prepared)) == fetch_calls(
                    self.0,
                    Entry::FutureGetPrepared { future: self.0 },
                ) && request@.outcome(fetch_replies(prepared)) == Some(
                    Outcome::Prepared(Ok(CassPrepared(prepared))),
                ),
    {
        proof {
            let plan = wait_plan(Awaited::Prepared(self));
            assert forall|code: u32|
                #![trigger plan.calls(wait_replies(code))]
                #![trigger plan.outcome(wait_replies(code))]
                code != CASS_OK implies plan.calls(wait_replies(code)) == wait_calls(self.0)
                && plan.outcome(wait_replies(code)) == Some(
                Outcome::Prepared(Err(CassError::Native(code))),
            ) by {
                failed_prepare_wait_runs(self, code);
            }
            assert forall|prepared: usize|
                #![trigger plan.calls(fetch_replies(prepared))]
                #![trigger plan.outcome(fetch_replies(prepared))]
                plan.calls(fetch_replies(prepared)) == fetch_calls(
                    self.0,
                    Entry::FutureGetPrepared { future: self.0 },
                ) && plan.outcome(fetch_replies(prepared)) == Some(
                    Outcome::Prepared(Ok(CassPrepared(prepared))),
                ) by {
                prepare_wait_runs(self, prepared);
            }
        }
        wait_on(Awaited::Prepared(self))
    }

    /// Gives the future up without a wait: its native future is released.
    pub fn free(self) -> (request: Request)
        ensures
            request@ == free_plan(Awaited::Prepared(self)),
            forall|replies: Seq<Reply>| #[trigger]
                request@.calls(replies) == seq![Entry::FutureFree { future: self.0 }],
            request@.outcome(seq![Reply::Returned]) == Some(Outcome::Released),
    {
        free_of(Awaited::Prepared(self))
    }

    /// Hands the future back where `code` reports success, for its prepared
    /// statement to be fetched, and fails with the status as an error where
    /// it does not.
    pub fn error_code(self, code: u32) -> (result: Result<PreparedFuture, CassError>)
        ensures
            code == CASS_OK ==> result == Ok::<PreparedFuture, CassError>(self),
            code != CASS_OK ==> result == Err::<PreparedFuture, CassError>(
                CassError::Native(code),
            ),
    {
        CassError::build(code).wrap(self)
    }
}

/// The future of an execution: it yields a result set.
#[derive(Debug, PartialEq, Eq)]
pub struct ResultFuture(pub usize);

impl ResultFuture {
    /// Waits for the execution to be over.
    pub fn wait(self) -> (request: Request)
        ensures
            request@ == wait_plan(Awaited::Result(self)),
            forall|code: u32|
                #![trigger request@.calls(wait_replies(code))]
                #![trigger request@.outcome(wait_replies(code))]
                code != CASS_OK ==> request@.calls(wait_replies(code)) == wait_calls(self.0)
                    && request@.outcome(wait_replies(code)) == Some(
                    Outcome::Executed(Err(CassError::Native(code))),
                ),
            forall|result: usize|
                #![trigger request@.calls(fetch_replies(result))]
                #![trigger request@.outcome(fetch_replies(result))]
                request@.calls(fetch_replies(result)) == fetch_calls(
                    self.0,
                    Entry::FutureGetResult { future: self.0 },
                ) && request@.outcome(fetch_replies(result)) == Some(
                    Outcome::Executed(Ok(CassResult(result))),
                ),
    {
        proof {
            let plan = wait_plan(Awaited::Result(self));
            assert forall|code: u32|
                #![trigger plan.calls(wait_replies(code))]
                #![trigger plan.outcome(wait_replies(code))]
                code != CASS_OK implies plan.calls(wait_replies(code)) == wait_calls(self.0)
                && plan.outcome(wait_replies(code)) == Some(
                Outcome::Executed(Err(CassError::Native(code))),
            ) by {
                failed_execution_wait_runs(self, code);
            }
            assert forall|result: usize|
                #![trigger plan.calls(fetch_replies(result))]
                #![trigger plan.outcome(fetch_replies(result))]
                plan.calls(fetch_replies(result)) == fetch_calls(
                    self.0,
                    Entry::FutureGetResult { future: self.0 },
                ) && plan.outcome(fetch_replies(result)) == Some(
                    Outcome::Executed(Ok(CassResult(result))),
                ) by {
                execution_wait_runs(self, result);
            }
        }
        wait_on(Awaited::Result(self))
    }

    /// Gives the future up without a wait: its native future is released.
    pub fn free(self) -> (request: Request)
        ensures
            request@ == free_plan(Awaited::Result(self)),
            forall|replies: Seq<Reply>| #[trigger]
                request@.calls(replies) == seq![Entry::FutureFree { future: self.0 }],
            request@.outcome(seq![Reply::Returned]) == Some(Outcome::Released),
    {
        free_of(Awaited::Result(self))
    }

    /// Hands the future back where `code` reports success, for its result to
    /// be fetched, and fails with the status as an error where it does not.
    pub fn error_code(self, code: u32) -> (result: Result<ResultFuture, CassError>)
        ensures
            code == CASS_OK ==> result == Ok::<ResultFuture, CassError>(self),
            code != CASS_OK ==> result == Err::<ResultFuture, CassError>(CassError::Native(code)),
    {
        CassError::build(code).wrap(self)
    }
}

} // verus!
