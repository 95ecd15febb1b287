//! Exchanges with the native driver.
//!
//! An operation of this crate does not call the driver. It returns a
//! [`Request`]: the first native call to make, and the [`Exchange`] to
//! resume with what that call returned. Resuming gives a [`Step`]: the next
//! call, or the operation's [`Outcome`]. The embedding performs each call as
//! it is given and decides nothing.

use crate::error::CassError;
use crate::error::CASS_OK;
use crate::future::CassFuture;
use crate::future::PreparedFuture;
use crate::future::ResultFuture;
use crate::handle::CassBatch;
use crate::handle::CassPrepared;
use crate::handle::CassResult;
use crate::handle::CassSchema;
use crate::handle::CassStatement;
use crate::handle::Cluster;
use crate::native::Entry;
use crate::native::Reply;
use crate::native::ReplyKind;
use crate::session::ConnectFailure;
use crate::session::Session;
use crate::session::SessionFuture;
use vstd::prelude::*;

verus! {

/// What an operation ends with.
#[derive(Debug, PartialEq, Eq)]
pub enum Outcome {
    /// A session was created, or came back out of a future of a connect
    /// that was given up.
    Session(Session),
    /// A native object was released.
    Released,
    /// A close, or a connect to a keyspace, was begun.
    Future(CassFuture),
    /// A connect was begun.
    SessionFuture(SessionFuture),
    /// A prepare was begun.
    PreparedFuture(PreparedFuture),
    /// An execution was begun.
    ResultFuture(ResultFuture),
    /// A snapshot of the schema was taken.
    Schema(CassSchema),
    /// A close, or a connect to a keyspace, completed.
    Waited(Result<(), CassError>),
    /// A connect completed.
    Connected(Result<Session, ConnectFailure>),
    /// A prepare completed.
    Prepared(Result<CassPrepared, CassError>),
    /// An execution completed.
    Executed(Result<CassResult, CassError>),
}

/// A future of one of the four kinds, as an operation on futures takes it.
#[derive(Debug, PartialEq, Eq)]
pub enum Awaited {
    Plain(CassFuture),
    Session(SessionFuture),
    Prepared(PreparedFuture),
    Result(ResultFuture),
}

impl Awaited {
    /// The handle of the native future.
    pub open spec fn handle(self) -> usize {
        match self {
            Awaited::Plain(future) => future.0,
            Awaited::Session(future) => future.0,
            Awaited::Prepared(future) => future.0,
            Awaited::Result(future) => future.0,
        }
    }

    /// The handle of the native future.
    pub fn raw(&self) -> (handle: usize)
        ensures
            handle == self.handle(),
    {
        match self {
            Awaited::Plain(future) => future.0,
            Awaited::Session(future) => future.0,
            Awaited::Prepared(future) => future.0,
            Awaited::Result(future) => future.0,
        }
    }
}

/// An operation under way: what it waits for, and what it still holds.
///
/// Each variant waits for the return of one native call, which the
/// embedding was given when the exchange reached that variant.
#[derive(Debug, PartialEq, Eq)]
pub enum Exchange {
    /// Waits for the handle of a new session.
    Creating,
    /// Waits for the future of a close.
    Closing,
    /// Waits for the future of a connect; the cluster is released next, and
    /// the session goes into the future.
    Connecting { session: Session, cluster: Cluster },
    /// Waits for the future of a connect to a keyspace; the cluster is
    /// released next.
    ConnectingKeyspace { cluster: Cluster },
    /// Waits for the future of a prepare.
    Preparing,
    /// Waits for the handle of a statement made for one execution on the
    /// session at `target`.
    Building { target: usize },
    /// Waits for the future of the execution of a statement of the caller's.
    Executing,
    /// Waits for the future of the execution of a statement made for it; the
    /// statement is released next.
    ExecutingOnce { statement: CassStatement },
    /// Waits for the future of the execution of a batch; the batch is
    /// released next.
    ExecutingBatch { batch: CassBatch },
    /// Waits for the handle of a schema snapshot.
    Describing,
    /// Waits for the blocking wait on a future to return.
    Waiting { on: Awaited },
    /// Waits for the status of a future that is set.
    Querying { on: Awaited },
    /// Waits for the prepared statement of a future that succeeded.
    FetchingPrepared { prepare: PreparedFuture },
    /// Waits for the result of a future that succeeded.
    FetchingResult { execution: ResultFuture },
    /// Waits for a release to return; `outcome` is then handed out.
    Releasing { outcome: Outcome },
}

/// What follows a reply.
#[derive(Debug, PartialEq, Eq)]
pub enum Step {
    /// Call `entry`, with no text, and resume `exchange` with what it
    /// returned.
    Perform { entry: Entry, exchange: Exchange },
    /// The reply was not of the kind that the outstanding call returns. The
    /// call is still outstanding, and `exchange` is as it was.
    Unanswered { exchange: Exchange },
    /// The operation is over.
    Done(Outcome),
}

impl Exchange {
    /// The step that `reply` leads to.
    pub open spec fn next(self, reply: Reply) -> Step {
        match (self, reply) {
            (Exchange::Creating, Reply::Handle(session)) => Step::Done(
                Outcome::Session(Session(session)),
            ),
            (Exchange::Closing, Reply::Handle(future)) => Step::Done(
                Outcome::Future(CassFuture(future)),
            ),
            (Exchange::Connecting { session, cluster }, Reply::Handle(future)) => Step::Perform {
                entry: Entry::ClusterFree { cluster: cluster.0 },
                exchange: Exchange::Releasing {
                    outcome: Outcome::SessionFuture(SessionFuture(future, session)),
                },
            },
            (Exchange::ConnectingKeyspace { cluster }, Reply::Handle(future)) => Step::Perform {
                entry: Entry::ClusterFree { cluster: cluster.0 },
                exchange: Exchange::Releasing { outcome: Outcome::Future(CassFuture(future)) },
            },
            (Exchange::Preparing, Reply::Handle(future)) => Step::Done(
                Outcome::PreparedFuture(PreparedFuture(future)),
            ),
            (Exchange::Building { target }, Reply::Handle(statement)) => Step::Perform {
                entry: Entry::SessionExecute { session: target, statement },
                exchange: Exchange::ExecutingOnce { statement: CassStatement(statement) },
            },
            (Exchange::Executing, Reply::Handle(future)) => Step::Done(
                Outcome::ResultFuture(ResultFuture(future)),
            ),
            (Exchange::ExecutingOnce { statement }, Reply::Handle(future)) => Step::Perform {
                entry: Entry::StatementFree { statement: statement.0 },
                exchange: Exchange::Releasing {
                    outcome: Outcome::ResultFuture(ResultFuture(future)),
                },
            },
            (Exchange::ExecutingBatch { batch }, Reply::Handle(future)) => Step::Perform {
                entry: Entry::BatchFree { batch: batch.0 },
                exchange: Exchange::Releasing {
                    outcome: Outcome::ResultFuture(ResultFuture(future)),
                },
            },
            (Exchange::Describing, Reply::Handle(schema)) => Step::Done(
                Outcome::Schema(CassSchema(schema)),
            ),
            (Exchange::Waiting { on }, Reply::Returned) => Step::Perform {
                entry: Entry::FutureErrorCode { future: on.handle() },
                exchange: Exchange::Querying { on },
            },
            (Exchange::Querying { on }, Reply::Status(code)) => match on {
                Awaited::Plain(future) => Step::Perform {
                    entry: Entry::FutureFree { future: future.0 },
                    exchange: Exchange::Releasing {
                        outcome: Outcome::Waited(future.resolved(code)),
                    },
                },
                Awaited::Session(future) => Step::Perform {
                    entry: Entry::FutureFree { future: future.0 },
                    exchange: Exchange::Releasing {
                        outcome: Outcome::Connected(future.resolved(code)),
                    },
                },
                Awaited::Prepared(future) => if code == CASS_OK {
                    Step::Perform {
                        entry: Entry::FutureGetPrepared { future: future.0 },
                        exchange: Exchange::FetchingPrepared { prepare: future },
                    }
                } else {
                    Step::Perform {
                        entry: Entry::FutureFree { future: future.0 },
                        exchange: Exchange::Releasing {
                            outcome: Outcome::Prepared(Err(CassError::Native(code))),
                        },
                    }
                },
                Awaited::Result(future) => if code == CASS_OK {
                    Step::Perform {
                        entry: Entry::FutureGetResult { future: future.0 },
                        exchange: Exchange::FetchingResult { execution: future },
                    }
                } else {
                    Step::Perform {
                        entry: Entry::FutureFree { future: future.0 },
                        exchange: Exchange::Releasing {
                            outcome: Outcome::Executed(Err(CassError::Native(code))),
                        },
                    }
                },
            },
            (Exchange::FetchingPrepared { prepare }, Reply::Handle(prepared)) => Step::Perform {
                entry: Entry::FutureFree { future: prepare.0 },
                exchange: Exchange::Releasing {
                    outcome: Outcome::Prepared(Ok(CassPrepared(prepared))),
                },
            },
            (Exchange::FetchingResult { execution }, Reply::Handle(result)) => Step::Perform {
                entry: Entry::FutureFree { future: execution.0 },
                exchange: Exchange::Releasing {
                    outcome: Outcome::Executed(Ok(CassResult(result))),
                },
            },
            (Exchange::Releasing { outcome }, Reply::Returned) => Step::Done(outcome),
            (exchange, _) => Step::Unanswered { exchange },
        }
    }

    /// The kind of value that the outstanding call returns.
    pub open spec fn awaits(self) -> ReplyKind {
        match self {
            Exchange::Waiting { .. } => ReplyKind::Returned,
            Exchange::Querying { .. } => ReplyKind::Status,
            Exchange::Releasing { .. } => ReplyKind::Returned,
            _ => ReplyKind::Handle,
        }
    }

    /// The release that the exchange has still to ask for, if any.
    pub open spec fn owes(self) -> Option<Entry> {
        match self {
            Exchange::Connecting { cluster, .. } => Some(Entry::ClusterFree { cluster: cluster.0 }),
            Exchange::ConnectingKeyspace { cluster } => Some(
                Entry::ClusterFree { cluster: cluster.0 },
            ),
            Exchange::ExecutingOnce { statement } => Some(
                Entry::StatementFree { statement: statement.0 },
            ),
            Exchange::ExecutingBatch { batch } => Some(Entry::BatchFree { batch: batch.0 }),
            Exchange::Waiting { on } => Some(Entry::FutureFree { future: on.handle() }),
            Exchange::Querying { on } => Some(Entry::FutureFree { future: on.handle() }),
            Exchange::FetchingPrepared { prepare } => Some(Entry::FutureFree { future: prepare.0 }),
            Exchange::FetchingResult { execution } => Some(
                Entry::FutureFree { future: execution.0 },
            ),
            _ => None,
        }
    }

    /// The entries that the exchange hands out while it is resumed with
    /// `replies`, one after the other.
    pub open spec fn calls(self, replies: Seq<Reply>) -> Seq<Entry>
        decreases replies.len(),
    {
        if replies.len() == 0 {
            Seq::empty()
        } else {
            match self.next(replies[0]) {
                Step::Perform { entry, exchange } => seq![entry] + exchange.calls(
                    replies.drop_first(),
                ),
                Step::Unanswered { exchange } => exchange.calls(replies.drop_first()),
                Step::Done(_) => Seq::empty(),
            }
        }
    }

    /// What the operation ends with when the exchange is resumed with
    /// `replies`, one after the other; `None` while they do not bring it to
    /// its end. Replies after the end go unread.
    pub open spec fn outcome(self, replies: Seq<Reply>) -> Option<Outcome>
        decreases replies.len(),
    {
        if replies.len() == 0 {
            None
        } else {
            match self.next(replies[0]) {
                Step::Perform { exchange, .. } => exchange.outcome(replies.drop_first()),
                Step::Unanswered { exchange } => exchange.outcome(replies.drop_first()),
                Step::Done(outcome) => Some(outcome),
            }
        }
    }

    /// Takes what the outstanding call returned and says what follows.
    pub fn resume(self, reply: Reply) -> (step: Step)
        ensures
            step == self.next(reply),
    {
        match (self, reply) {
            (Exchange::Creating, Reply::Handle(session)) => Step::Done(
                Outcome::Session(Session(session)),
            ),
            (Exchange::Closing, Reply::Handle(future)) => Step::Done(
                Outcome::Future(CassFuture(future)),
            ),
            (Exchange::Connecting { session, cluster }, Reply::Handle(future)) => Step::Perform {
                entry: Entry::ClusterFree { cluster: cluster.0 },
                exchange: Exchange::Releasing {
                    outcome: Outcome::SessionFuture(SessionFuture(future, session)),
                },
            },
            (Exchange::ConnectingKeyspace { cluster }, Reply::Handle(future)) => Step::Perform {
                entry: Entry::ClusterFree { cluster: cluster.0 },
                exchange: Exchange::Releasing { outcome: Outcome::Future(CassFuture(future)) },
            },
            (Exchange::Preparing, Reply::Handle(future)) => Step::Done(
                Outcome::PreparedFuture(PreparedFuture(future)),
            ),
            (Exchange::Building { target }, Reply::Handle(statement)) => Step::Perform {
                entry: Entry::SessionExecute { session: target, statement },
                exchange: Exchange::ExecutingOnce { statement: CassStatement(statement) },
            },
            (Exchange::Executing, Reply::Handle(future)) => Step::Done(
                Outcome::ResultFuture(ResultFuture(future)),
            ),
            (Exchange::ExecutingOnce { statement }, Reply::Handle(future)) => Step::Perform {
                entry: Entry::StatementFree { statement: statement.0 },
                exchange: Exchange::Releasing {
                    outcome: Outcome::ResultFuture(ResultFuture(future)),
                },
            },
            (Exchange::ExecutingBatch { batch }, Reply::Handle(future)) => Step::Perform {
                entry: Entry::BatchFree { batch: batch.0 },
                exchange: Exchange::Releasing {
                    outcome: Outcome::ResultFuture(ResultFuture(future)),
                },
            },
            (Exchange::Describing, Reply::Handle(schema)) => Step::Done(
                Outcome::Schema(CassSchema(schema)),
            ),
            (Exchange::Waiting { on }, Reply::Returned) => {
                let future = on.raw();
                Step::Perform {
                    entry: Entry::FutureErrorCode { future },
                    exchange: Exchange::Querying { on },
                }
            },
            (Exchange::Querying { on }, Reply::Status(code)) => {
                let handle = on.raw();
                let free = Entry::FutureFree { future: handle };
                match on {
                    Awaited::Plain(future) => Step::Perform {
                        entry: free,
                        exchange: Exchange::Releasing {
                            outcome: Outcome::Waited(future.error_code(code)),
                        },
                    },
                    Awaited::Session(future) => Step::Perform {
                        entry: free,
                        exchange: Exchange::Releasing {
                            outcome: Outcome::Connected(future.error_code(code)),
                        },
                    },
                    Awaited::Prepared(future) => match future.error_code(code) {
                        Ok(future) => Step::Perform {
                            entry: Entry::FutureGetPrepared { future: handle },
                            exchange: Exchange::FetchingPrepared { prepare: future },
                        },
                        Err(error) => Step::Perform {
                            entry: free,
                            exchange: Exchange::Releasing {
                                outcome: Outcome::Prepared(Err(error)),
                            },
                        },
                    },
                    Awaited::Result(future) => match future.error_code(code) {
                        Ok(future) => Step::Perform {
                            entry: Entry::FutureGetResult { future: handle },
                            exchange: Exchange::FetchingResult { execution: future },
                        },
                        Err(error) => Step::Perform {
                            entry: free,
                            exchange: Exchange::Releasing {
                                outcome: Outcome::Executed(Err(error)),
                            },
                        },
                    },
                }
            },
            (Exchange::FetchingPrepared { prepare }, Reply::Handle(prepared)) => Step::Perform {
                entry: Entry::FutureFree { future: prepare.0 },
                exchange: Exchange::Releasing {
                    outcome: Outcome::Prepared(Ok(CassPrepared(prepared))),
                },
            },
            (Exchange::FetchingResult { execution }, Reply::Handle(result)) => Step::Perform {
                entry: Entry::FutureFree { future: execution.0 },
                exchange: Exchange::Releasing {
                    outcome: Outcome::Executed(Ok(CassResult(result))),
                },
            },
            (Exchange::Releasing { outcome }, Reply::Returned) => Step::Done(outcome),
            (exchange, _) => Step::Unanswered { exchange },
        }
    }
}

/// The first call of an operation, and the exchange that it opens.
#[derive(Debug, PartialEq, Eq)]
#[must_use]
pub struct Request {
    /// The entry point to call.
    pub entry: Entry,
    /// The text that the entry point takes; empty where it takes none.
    pub text: Vec<u8>,
    /// The exchange to resume with what the call returned.
    pub exchange: Exchange,
}

/// A request as a value: what `Request` holds, with its text as a sequence.
pub struct Plan {
    pub entry: Entry,
    pub text: Seq<u8>,
    pub exchange: Exchange,
}

impl Plan {
    /// True where the exchange waits for what the first call returns.
    pub open spec fn answerable(self) -> bool {
        self.exchange.awaits() == self.entry.answer_kind()
    }

    /// The entries that the operation hands out while `replies` come in:
    /// its first, then those of its exchange.
    pub open spec fn calls(self, replies: Seq<Reply>) -> Seq<Entry> {
        seq![self.entry] + self.exchange.calls(replies)
    }

    /// What the operation ends with when `replies` come in.
    pub open spec fn outcome(self, replies: Seq<Reply>) -> Option<Outcome> {
        self.exchange.outcome(replies)
    }
}

/// One step of `calls` and of `outcome`: through `first`, then `rest`.
pub proof fn lemma_unfold(exchange: Exchange, first: Reply, rest: Seq<Reply>)
    ensures
        exchange.calls(seq![first] + rest) == match exchange.next(first) {
            Step::Perform { entry, exchange: then } => seq![entry] + then.calls(rest),
            Step::Unanswered { exchange: same } => same.calls(rest),
            Step::Done(_) => Seq::empty(),
        },
        exchange.outcome(seq![first] + rest) == match exchange.next(first) {
            Step::Perform { exchange: then, .. } => then.outcome(rest),
            Step::Unanswered { exchange: same } => same.outcome(rest),
            Step::Done(outcome) => Some(outcome),
        },
{
    assert((seq![first] + rest).drop_first() =~= rest);
}

impl Request {
    /// Runs the operation against replies that are known beforehand: hands
    /// each reply to the exchange in turn, and returns the entries that were
    /// to be called, the first included, and the outcome if the replies
    /// brought the operation to its end.
    pub fn replay(self, replies: &[Reply]) -> (run: (Vec<Entry>, Option<Outcome>))
        ensures
            run.0@ == self@.calls(replies@),
            run.1 == self@.outcome(replies@),
    {
        let ghost plan = self@;
        let mut calls: Vec<Entry> = Vec::new();
        calls.push(self.entry);
        let mut exchange = self.exchange;
        let mut i: usize = 0;
        proof {
            assert(replies@.subrange(0, replies@.len() as int) =~= replies@);
            assert(calls@ =~= seq![plan.entry]);
        }
        while i < replies.len()
            invariant
                i <= replies.len(),
                plan == self@,
                plan.calls(replies@) == calls@ + exchange.calls(
                    replies@.subrange(i as int, replies@.len() as int),
                ),
                plan.outcome(replies@) == exchange.outcome(
                    replies@.subrange(i as int, replies@.len() as int),
                ),
            decreases replies.len() - i,
        {
            let ghost left = replies@.subrange(i as int, replies@.len() as int);
            let ghost rest = replies@.subrange(i as int + 1, replies@.len() as int);
            let ghost before = exchange;
            proof {
                assert(left =~= seq![replies@[i as int]] + rest);
                lemma_unfold(before, replies@[i as int], rest);
            }
            match exchange.resume(replies[i]) {
                Step::Perform { entry, exchange: then } => {
                    proof {
                        assert(calls@ + (seq![entry] + then.calls(rest)) =~= calls@.push(entry)
                            + then.calls(rest));
                    }
                    calls.push(entry);
                    exchange = then;
                },
                Step::Unanswered { exchange: same } => {
                    exchange = same;
                },
                Step::Done(outcome) => {
                    proof {
                        assert(calls@ + Seq::<Entry>::empty() =~= calls@);
                    }
                    return (calls, Some(outcome));
                },
            }
            i = i + 1;
        }
        proof {
            assert(calls@ + Seq::<Entry>::empty() =~= calls@);
        }
        (calls, None)
    }
}

impl View for Request {
    type V = Plan;

    open spec fn view(&self) -> Plan {
        Plan { entry: self.entry, text: self.text@, exchange: self.exchange }
    }
}

} // verus!
