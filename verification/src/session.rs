//! Sessions: the native driver's connection contexts.

use crate::error::CassError;
use crate::error::CASS_OK;
use crate::exchange::Awaited;
use crate::exchange::Exchange;
use crate::exchange::Outcome;
use crate::exchange::Plan;
use crate::exchange::Request;
use crate::future::free_of;
use crate::future::free_plan;
use crate::future::wait_on;
use crate::future::wait_plan;
use crate::future::CassFuture;
use crate::future::PreparedFuture;
use crate::future::ResultFuture;
use crate::handle::CassBatch;
use crate::handle::CassSchema;
use crate::handle::CassStatement;
use crate::handle::Cluster;
use crate::laws::close_releases_nothing;
use crate::laws::free_releases_the_session_once;
use crate::native::Entry;
use crate::native::Reply;
use crate::runs::close_begins_a_close;
use crate::runs::connect_keyspace_releases_the_cluster;
use crate::runs::connect_moves_the_session_into_the_future;
use crate::runs::connect_wait_runs;
use crate::runs::execute_batch_releases_the_batch;
use crate::runs::execute_makes_and_releases_a_statement;
use crate::runs::execute_statement_begins_an_execution;
use crate::runs::free_releases_the_session;
use crate::runs::get_schema_takes_a_snapshot;
use crate::runs::one_handle;
use crate::runs::handle_and_return;
use crate::runs::handles_and_return;
use crate::runs::new_makes_a_session;
use crate::runs::prepare_begins_a_prepare;
use crate::runs::wait_calls;
use crate::runs::wait_replies;
use crate::text::c_string;
use crate::text::has_nul;
use crate::text::terminated;
use vstd::prelude::*;
use vstd::string::StrSliceExecFns;
use vstd::string::StringSliceAdditionalSpecFns;

verus! {

/// A session: the owner of one native session.
///
/// The native session is released when the value is given up, by `free`,
/// and by nothing else. `connect` moves the value into the future of the
/// connect, which gives it back when waited on or given up. The other
/// operations, `close` among them, borrow it.
#[derive(Debug, PartialEq, Eq)]
pub struct Session(pub usize);

/// A connect that failed: why, and the session that tried.
#[derive(Debug, PartialEq, Eq)]
pub struct ConnectFailure {
    pub error: CassError,
    pub session: Session,
}

impl Session {
    /// The request that `new` makes.
    pub open spec fn new_plan() -> Plan {
        Plan { entry: Entry::SessionNew, text: Seq::empty(), exchange: Exchange::Creating }
    }

    /// The request that `free` makes.
    pub open spec fn free_plan(self) -> Plan {
        Plan {
            entry: Entry::SessionFree { session: self.0 },
            text: Seq::empty(),
            exchange: Exchange::Releasing { outcome: Outcome::Released },
        }
    }

    /// The request that `close` makes.
    pub open spec fn close_plan(self) -> Plan {
        Plan {
            entry: Entry::SessionClose { session: self.0 },
            text: Seq::empty(),
            exchange: Exchange::Closing,
        }
    }

    /// The request that `connect` makes.
    pub open spec fn connect_plan(self, cluster: Cluster) -> Plan {
        Plan {
            entry: Entry::SessionConnect { session: self.0, cluster: cluster.0 },
            text: Seq::empty(),
            exchange: Exchange::Connecting { session: self, cluster },
        }
    }

    /// The request that `connect_keyspace` makes for a keyspace of these
    /// bytes.
    pub open spec fn connect_keyspace_plan(self, cluster: Cluster, keyspace: Seq<u8>) -> Plan {
        Plan {
            entry: Entry::SessionConnectKeyspace { session: self.0, cluster: cluster.0 },
            text: terminated(keyspace),
            exchange: Exchange::ConnectingKeyspace { cluster },
        }
    }

    /// The request that `prepare` makes for a query of these bytes.
    pub open spec fn prepare_plan(self, query: Seq<u8>) -> Plan {
        Plan {
            entry: Entry::SessionPrepare { session: self.0 },
            text: terminated(query),
            exchange: Exchange::Preparing,
        }
    }

    /// The request that `execute` makes for a statement of these bytes.
    pub open spec fn execute_plan(self, statement: Seq<u8>, parameter_count: u64) -> Plan {
        Plan {
            entry: Entry::StatementNew { parameter_count },
            text: statement,
            exchange: Exchange::Building { target: self.0 },
        }
    }

    /// The request that `execute_statement` makes.
    pub open spec fn execute_statement_plan(self, statement: CassStatement) -> Plan {
        Plan {
            entry: Entry::SessionExecute { session: self.0, statement: statement.0 },
            text: Seq::empty(),
            exchange: Exchange::Executing,
        }
    }

    /// The request that `execute_batch` makes.
    pub open spec fn execute_batch_plan(self, batch: CassBatch) -> Plan {
        Plan {
            entry: Entry::SessionExecuteBatch { session: self.0, batch: batch.0 },
            text: Seq::empty(),
            exchange: Exchange::ExecutingBatch { batch },
        }
    }

    /// The request that `get_schema` makes.
    pub open spec fn get_schema_plan(self) -> Plan {
        Plan {
            entry: Entry::SessionGetSchema { session: self.0 },
            text: Seq::empty(),
            exchange: Exchange::Describing,
        }
    }

    /// Creates a session, not connected.
    pub fn new() -> (request: Request)
        ensures
            request@ == Session::new_plan(),
            forall|handle: usize| #[trigger]
                request@.outcome(one_handle(handle)) == Some(
                    Outcome::Session(Session(handle)),
                ),
    {
        let request = Request {
            entry: Entry::SessionNew,
            text: Vec::new(),
            exchange: Exchange::Creating,
        };
        proof {
            assert forall|handle: usize| #[trigger]
                request@.outcome(one_handle(handle)) == Some(
                    Outcome::Session(Session(handle)),
                ) by {
                new_makes_a_session(handle);
            }
        }
        request
    }

    /// Gives up the session: its native session is released, whether or not
    /// it was ever connected. Nothing else is asked of the driver.
    pub fn free(self) -> (request: Request)
        ensures
            request@ == self.free_plan(),
            forall|replies: Seq<Reply>| #[trigger]
                request@.calls(replies) == seq![Entry::SessionFree { session: self.0 }],
            request@.outcome(seq![Reply::Returned]) == Some(Outcome::Released),
    {
        let request = Request {
            entry: Entry::SessionFree { session: self.0 },
            text: Vec::new(),
            exchange: Exchange::Releasing { outcome: Outcome::Released },
        };
        proof {
            assert forall|replies: Seq<Reply>| #[trigger]
                request@.calls(replies) == seq![Entry::SessionFree { session: self.0 }] by {
                free_releases_the_session_once(self, replies);
            }
            free_releases_the_session(self);
        }
        request
    }

    /// Begins to close the session: the one call signals the disconnection,
    /// and the future tells when it is over. The session stays the caller's,
    /// and its native session is not released before `free`.
    pub fn close(&self) -> (request: Request)
        ensures
            request@ == self.close_plan(),
            forall|replies: Seq<Reply>| #[trigger]
                request@.calls(replies) == seq![Entry::SessionClose { session: self.0 }],
            forall|future: usize| #[trigger]
                request@.outcome(one_handle(future)) == Some(Outcome::Future(CassFuture(future))),
    {
        let request = Request {
            entry: Entry::SessionClose { session: self.0 },
            text: Vec::new(),
            exchange: Exchange::Closing,
        };
        proof {
            assert forall|replies: Seq<Reply>| #[trigger]
                request@.calls(replies) == seq![Entry::SessionClose { session: self.0 }] by {
                close_releases_nothing(*self, replies);
            }
            assert forall|future: usize| #[trigger]
                request@.outcome(one_handle(future)) == Some(
                    Outcome::Future(CassFuture(future)),
                ) by {
                close_begins_a_close(*self, future);
            }
        }
        request
    }

    /// Begins to connect the session with the parameters of `cluster`, and
    /// gives the cluster up. The session goes into the future, which gives
    /// it back when waited on, whether the connect succeeded or not.
    pub fn connect(self, cluster: Cluster) -> (request: Request)
        ensures
            request@ == self.connect_plan(cluster),
            forall|future: usize|
                #![trigger request@.calls(handle_and_return(future))]
                #![trigger request@.outcome(handle_and_return(future))]
                request@.calls(handle_and_return(future)) == seq![
                    Entry::SessionConnect { session: self.0, cluster: cluster.0 },
                    Entry::ClusterFree { cluster: cluster.0 },
                ] && request@.outcome(handle_and_return(future)) == Some(
                    Outcome::SessionFuture(SessionFuture(future, self)),
                ),
    {
        let ghost session = self;
        let ghost given = cluster;
        let request = Request {
            entry: Entry::SessionConnect { session: self.0, cluster: cluster.0 },
            text: Vec::new(),
            exchange: Exchange::Connecting { session: self, cluster },
        };
        proof {
            assert forall|future: usize|
                #![trigger request@.calls(handle_and_return(future))]
                #![trigger request@.outcome(handle_and_return(future))]
                request@.calls(handle_and_return(future)) == seq![
                    Entry::SessionConnect { session: session.0, cluster: given.0 },
                    Entry::ClusterFree { cluster: given.0 },
                ] && request@.outcome(handle_and_return(future)) == Some(
                    Outcome::SessionFuture(SessionFuture(future, session)),
                ) by {
                connect_moves_the_session_into_the_future(session, given, future);
            }
        }
        request
    }

    /// Begins to prepare `query`. Fails, before any native call, where
    /// `query` holds a zero byte.
    pub fn prepare(&self, query: &str) -> (result: Result<Request, CassError>)
        ensures
            has_nul(query.spec_bytes()) ==> result == Err::<Request, CassError>(
                CassError::Encoding,
            ),
            !has_nul(query.spec_bytes()) ==> result is Ok && result->Ok_0@ == self.prepare_plan(
                query.spec_bytes(),
            ),
            result matches Ok(request) ==> request.text@ == terminated(query.spec_bytes())
                && forall|future: usize|
                #![trigger request@.calls(one_handle(future))]
                #![trigger request@.outcome(one_handle(future))]
                request@.calls(one_handle(future)) == seq![
                    Entry::SessionPrepare { session: self.0 },
                ] && request@.outcome(one_handle(future)) == Some(
                    Outcome::PreparedFuture(PreparedFuture(future)),
                ),
    {
        match c_string(query) {
            Ok(text) => {
                proof {
                    assert forall|future: usize|
                        #![trigger self.prepare_plan(query.spec_bytes()).calls(one_handle(future))]
                        #![trigger self.prepare_plan(query.spec_bytes()).outcome(one_handle(future))]
                        self.prepare_plan(query.spec_bytes()).calls(one_handle(future))
                            == seq![Entry::SessionPrepare { session: self.0 }]
                            && self.prepare_plan(query.spec_bytes()).outcome(
                            one_handle(future),
                        ) == Some(Outcome::PreparedFuture(PreparedFuture(future))) by {
                        prepare_begins_a_prepare(*self, query.spec_bytes(), future);
                    }
                }
                Ok(
                    Request {
                        entry: Entry::SessionPrepare { session: self.0 },
                        text,
                        exchange: Exchange::Preparing,
                    },
                )
            },
            Err(error) => Err(error),
        }
    }

    /// Begins to execute the statement `statement` with `parameter_count`
    /// bound parameters. The count is handed on as it is.
    pub fn execute(&self, statement: &str, parameter_count: u64) -> (request: Request)
        ensures
            request@ == self.execute_plan(statement.spec_bytes(), parameter_count),
            forall|made: usize, future: usize|
                #![trigger request@.calls(handles_and_return(made, future))]
                #![trigger request@.outcome(handles_and_return(made, future))]
                request@.calls(handles_and_return(made, future)) == seq![
                    Entry::StatementNew { parameter_count },
                    Entry::SessionExecute { session: self.0, statement: made },
                    Entry::StatementFree { statement: made },
                ] && request@.outcome(handles_and_return(made, future)) == Some(
                    Outcome::ResultFuture(ResultFuture(future)),
                ),
    {
        let request = Request {
            entry: Entry::StatementNew { parameter_count },
            text: statement.as_bytes_vec(),
            exchange: Exchange::Building { target: self.0 },
        };
        proof {
            let text = statement.spec_bytes();
            assert forall|made: usize, future: usize|
                #![trigger request@.calls(handles_and_return(made, future))]
                #![trigger request@.outcome(handles_and_return(made, future))]
                request@.calls(handles_and_return(made, future)) == seq![
                    Entry::StatementNew { parameter_count },
                    Entry::SessionExecute { session: self.0, statement: made },
                    Entry::StatementFree { statement: made },
                ] && request@.outcome(handles_and_return(made, future)) == Some(
                    Outcome::ResultFuture(ResultFuture(future)),
                ) by {
                execute_makes_and_releases_a_statement(*self, text, parameter_count, made, future);
            }
        }
        request
    }

    /// Begins to execute `statement`, which stays the caller's.
    pub fn execute_statement(&self, statement: &CassStatement) -> (request: Request)
        ensures
            request@ == self.execute_statement_plan(*statement),
            forall|future: usize|
                #![trigger request@.calls(one_handle(future))]
                #![trigger request@.outcome(one_handle(future))]
                request@.outcome(one_handle(future)) == Some(
                    Outcome::ResultFuture(ResultFuture(future)),
                ) && request@.calls(one_handle(future)) == seq![
                    Entry::SessionExecute { session: self.0, statement: statement.0 },
                ],
    {
        let request = Request {
            entry: Entry::SessionExecute { session: self.0, statement: statement.0 },
            text: Vec::new(),
            exchange: Exchange::Executing,
        };
        proof {
            assert forall|future: usize|
                #![trigger request@.calls(one_handle(future))]
                #![trigger request@.outcome(one_handle(future))]
                request@.outcome(one_handle(future)) == Some(
                    Outcome::ResultFuture(ResultFuture(future)),
                ) && request@.calls(one_handle(future)) == seq![
                    Entry::SessionExecute { session: self.0, statement: statement.0 },
                ] by {
                execute_statement_begins_an_execution(*self, *statement, future);
            }
        }
        request
    }

    /// Begins to execute `batch` as one operation, and gives the batch up.
    pub fn execute_batch(&self, batch: CassBatch) -> (request: Request)
        ensures
            request@ == self.execute_batch_plan(batch),
            forall|future: usize|
                #![trigger request@.calls(handle_and_return(future))]
                #![trigger request@.outcome(handle_and_return(future))]
                request@.calls(handle_and_return(future)) == seq![
                    Entry::SessionExecuteBatch { session: self.0, batch: batch.0 },
                    Entry::BatchFree { batch: batch.0 },
                ] && request@.outcome(handle_and_return(future)) == Some(
                    Outcome::ResultFuture(ResultFuture(future)),
                ),
    {
        let ghost given = batch;
        let request = Request {
            entry: Entry::SessionExecuteBatch { session: self.0, batch: batch.0 },
            text: Vec::new(),
            exchange: Exchange::ExecutingBatch { batch },
        };
        proof {
            assert forall|future: usize|
                #![trigger request@.calls(handle_and_return(future))]
                #![trigger request@.outcome(handle_and_return(future))]
                request@.calls(handle_and_return(future)) == seq![
                    Entry::SessionExecuteBatch { session: self.0, batch: given.0 },
                    Entry::BatchFree { batch: given.0 },
                ] && request@.outcome(handle_and_return(future)) == Some(
                    Outcome::ResultFuture(ResultFuture(future)),
                ) by {
                execute_batch_releases_the_batch(*self, given, future);
            }
        }
        request
    }

    /// Takes a snapshot of the session's schema.
    pub fn get_schema(&self) -> (request: Request)
        ensures
            request@ == self.get_schema_plan(),
            forall|schema: usize|
                #![trigger request@.calls(one_handle(schema))]
                #![trigger request@.outcome(one_handle(schema))]
                request@.outcome(one_handle(schema)) == Some(
                    Outcome::Schema(CassSchema(schema)),
                ) && request@.calls(one_handle(schema)) == seq![
                    Entry::SessionGetSchema { session: self.0 },
                ],
    {
        let request = Request {
            entry: Entry::SessionGetSchema { session: self.0 },
            text: Vec::new(),
            exchange: Exchange::Describing,
        };
        proof {
            assert forall|schema: usize|
                #![trigger request@.calls(one_handle(schema))]
                #![trigger request@.outcome(one_handle(schema))]
                request@.outcome(one_handle(schema)) == Some(
                    Outcome::Schema(CassSchema(schema)),
                ) && request@.calls(one_handle(schema)) == seq![
                    Entry::SessionGetSchema { session: self.0 },
                ] by {
                get_schema_takes_a_snapshot(*self, schema);
            }
        }
        request
    }

    /// Begins to connect the session to `keyspace` with the parameters of
    /// `cluster`, and gives the cluster up. Fails, before any native call,
    /// where `keyspace` holds a zero byte.
    pub fn connect_keyspace(&self, cluster: Cluster, keyspace: &str) -> (result: Result<
        Request,
        CassError,
    >)
        ensures
            has_nul(keyspace.spec_bytes()) ==> result == Err::<Request, CassError>(
                CassError::Encoding,
            ),
            !has_nul(keyspace.spec_bytes()) ==> result is Ok && result->Ok_0@
                == self.connect_keyspace_plan(cluster, keyspace.spec_bytes()),
            result matches Ok(request) ==> request.text@ == terminated(keyspace.spec_bytes())
                && forall|future: usize|
                #![trigger request@.calls(handle_and_return(future))]
                #![trigger request@.outcome(handle_and_return(future))]
                request@.calls(handle_and_return(future)) == seq![
                    Entry::SessionConnectKeyspace { session: self.0, cluster: cluster.0 },
                    Entry::ClusterFree { cluster: cluster.0 },
                ] && request@.outcome(handle_and_return(future)) == Some(
                    Outcome::Future(CassFuture(future)),
                ),
    {
        match c_string(keyspace) {
            Ok(text) => {
                proof {
                    let plan = self.connect_keyspace_plan(cluster, keyspace.spec_bytes());
                    assert forall|future: usize|
                        #![trigger plan.calls(handle_and_return(future))]
                        #![trigger plan.outcome(handle_and_return(future))]
                        plan.calls(handle_and_return(future)) == seq![
                            Entry::SessionConnectKeyspace { session: self.0, cluster: cluster.0 },
                            Entry::ClusterFree { cluster: cluster.0 },
                        ] && plan.outcome(handle_and_return(future)) == Some(
                            Outcome::Future(CassFuture(future)),
                        ) by {
                        connect_keyspace_releases_the_cluster(
                            *self,
                            cluster,
                            keyspace.spec_bytes(),
                            future,
                        );
                    }
                }
                Ok(
                    Request {
                        entry: Entry::SessionConnectKeyspace {
                            session: self.0,
                            cluster: cluster.0,
                        },
                        text,
                        exchange: Exchange::ConnectingKeyspace { cluster },
                    },
                )
            },
            Err(error) => Err(error),
        }
    }
}

/// The future of a connect. It owns the session that is connecting, and
/// gives it back when it is waited on or given up.
#[derive(Debug, PartialEq, Eq)]
pub struct SessionFuture(pub usize, pub Session);

impl SessionFuture {
    /// What the future yields when the driver reports `code`: the session,
    /// connected, or the session with the reason why it is not.
    pub open spec fn resolved(self, code: u32) -> Result<Session, ConnectFailure> {
        if code == CASS_OK {
            Ok(self.1)
        } else {
            Err(ConnectFailure { error: CassError::Native(code), session: self.1 })
        }
    }

    /// Waits for the connect to be over.
    pub fn wait(self) -> (request: Request)
        ensures
            request@ == wait_plan(Awaited::Session(self)),
            forall|code: u32|
                #![trigger request@.calls(wait_replies(code))]
                #![trigger request@.outcome(wait_replies(code))]
                request@.calls(wait_replies(code)) == wait_calls(self.0) && request@.outcome(
                    wait_replies(code),
                ) == Some(Outcome::Connected(self.resolved(code))),
    {
        proof {
            let plan = wait_plan(Awaited::Session(self));
            assert forall|code: u32|
                #![trigger plan.calls(wait_replies(code))]
                #![trigger plan.outcome(wait_replies(code))]
                plan.calls(wait_replies(code)) == wait_calls(self.0) && plan.outcome(
                    wait_replies(code),
                ) == Some(Outcome::Connected(self.resolved(code))) by {
                connect_wait_runs(self, code);
            }
        }
        wait_on(Awaited::Session(self))
    }

    /// Gives the future up without a wait: its native future is released,
    /// and the session that it held goes back to the caller, not released.
    pub fn free(self) -> (request: Request)
        ensures
            request@ == free_plan(Awaited::Session(self)),
            forall|replies: Seq<Reply>| #[trigger]
                request@.calls(replies) == seq![Entry::FutureFree { future: self.0 }],
            request@.outcome(seq![Reply::Returned]) == Some(Outcome::Session(self.1)),
    {
        free_of(Awaited::Session(self))
    }

    /// Turns the status of the finished connect into its result.
    pub fn error_code(self, code: u32) -> (result: Result<Session, ConnectFailure>)
        ensures
            result == self.resolved(code),
    {
        match CassError::build(code).wrap(()) {
            Ok(()) => Ok(self.1),
            Err(error) => Err(ConnectFailure { error, session: self.1 }),
        }
    }
}

} // verus!
