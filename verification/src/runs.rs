//! The complete run of each operation: the calls that it makes when every
//! call is answered, and what it ends with.

use crate::error::CassError;
use crate::error::CASS_OK;
use crate::exchange::lemma_unfold;
use crate::exchange::Awaited;
use crate::exchange::Exchange;
use crate::exchange::Outcome;
use crate::future::free_plan;
use crate::future::left_by;
use crate::future::wait_plan;
use crate::future::CassFuture;
use crate::future::PreparedFuture;
use crate::future::ResultFuture;
use crate::handle::CassBatch;
use crate::handle::CassPrepared;
use crate::handle::CassResult;
use crate::handle::CassSchema;
use crate::handle::CassStatement;
use crate::handle::Cluster;
use crate::native::Entry;
use crate::native::Reply;
use crate::session::ConnectFailure;
use crate::session::Session;
use crate::session::SessionFuture;
use crate::text::terminated;
use vstd::prelude::*;

verus! {

/// The replies to one call that returns `handle`.
pub open spec fn one_handle(handle: usize) -> Seq<Reply> {
    seq![Reply::Handle(handle)]
}

/// The replies to a call that returns `handle` and a release after it.
pub open spec fn handle_and_return(handle: usize) -> Seq<Reply> {
    seq![Reply::Handle(handle), Reply::Returned]
}

/// The replies to a call that returns `first`, one that returns `second`,
/// and a release after them.
pub open spec fn handles_and_return(first: usize, second: usize) -> Seq<Reply> {
    seq![Reply::Handle(first), Reply::Handle(second), Reply::Returned]
}

/// The replies to the three calls of a wait that fetches nothing, where the
/// driver reports `code`.
pub open spec fn wait_replies(code: u32) -> Seq<Reply> {
    seq![Reply::Returned, Reply::Status(code), Reply::Returned]
}

/// The replies to the four calls of a wait that fetches what the operation
/// gave, at `fetched`, after the driver reported success.
pub open spec fn fetch_replies(fetched: usize) -> Seq<Reply> {
    seq![Reply::Returned, Reply::Status(CASS_OK), Reply::Handle(fetched), Reply::Returned]
}

/// The three calls of a wait that fetches nothing: the blocking wait, the
/// status, the release.
pub open spec fn wait_calls(future: usize) -> Seq<Entry> {
    seq![
        Entry::FutureWait { future },
        Entry::FutureErrorCode { future },
        Entry::FutureFree { future },
    ]
}

/// The four calls of a wait that fetches what the operation gave, by the
/// call `fetch`: the blocking wait, the status, the fetch, the release.
pub open spec fn fetch_calls(future: usize, fetch: Entry) -> Seq<Entry> {
    seq![
        Entry::FutureWait { future },
        Entry::FutureErrorCode { future },
        fetch,
        Entry::FutureFree { future },
    ]
}

/// Up to four replies in a row, as the first and the rest.
proof fn lemma_first_and_rest(a: Reply, b: Reply, c: Reply, d: Reply)
    ensures
        seq![a] == seq![a] + Seq::<Reply>::empty(),
        seq![a, b] == seq![a] + seq![b],
        seq![a, b, c] == seq![a] + seq![b, c],
        seq![a, b, c, d] == seq![a] + seq![b, c, d],
{
    assert(seq![a] =~= seq![a] + Seq::<Reply>::empty());
    assert(seq![a, b] =~= seq![a] + seq![b]);
    assert(seq![a, b, c] =~= seq![a] + seq![b, c]);
    assert(seq![a, b, c, d] =~= seq![a] + seq![b, c, d]);
}

/// An exchange that waits for a release to return ends with its outcome
/// when it does.
proof fn lemma_release_returns(outcome: Outcome)
    ensures
        (Exchange::Releasing { outcome }).calls(seq![Reply::Returned]) == Seq::<Entry>::empty(),
        (Exchange::Releasing { outcome }).outcome(seq![Reply::Returned]) == Some(outcome),
{
    lemma_first_and_rest(Reply::Returned, Reply::Returned, Reply::Returned, Reply::Returned);
    lemma_unfold(Exchange::Releasing { outcome }, Reply::Returned, Seq::empty());
}

/// `new` calls for a session and ends with the session at the handle that
/// came back.
pub proof fn new_makes_a_session(handle: usize)
    ensures
        Session::new_plan().calls(one_handle(handle)) == seq![Entry::SessionNew],
        Session::new_plan().outcome(one_handle(handle)) == Some(
            Outcome::Session(Session(handle)),
        ),
{
    let got = Reply::Handle(handle);
    lemma_first_and_rest(got, got, got, got);
    lemma_unfold(Exchange::Creating, got, Seq::empty());
    assert(Session::new_plan().calls(seq![got]) =~= seq![Entry::SessionNew]);
}

/// `free` asks for the release of the session and ends when it returns.
pub proof fn free_releases_the_session(session: Session)
    ensures
        session.free_plan().calls(seq![Reply::Returned]) == seq![
            Entry::SessionFree { session: session.0 },
        ],
        session.free_plan().outcome(seq![Reply::Returned]) == Some(Outcome::Released),
{
    lemma_release_returns(Outcome::Released);
    assert(session.free_plan().calls(seq![Reply::Returned]) =~= seq![
        Entry::SessionFree { session: session.0 },
    ]);
}

/// `close` makes one call, which begins the close, and ends with the
/// future of the close. It asks for no release: the session stays the
/// caller's.
pub proof fn close_begins_a_close(session: Session, future: usize)
    ensures
        session.close_plan().calls(one_handle(future)) == seq![
            Entry::SessionClose { session: session.0 },
        ],
        session.close_plan().outcome(one_handle(future)) == Some(
            Outcome::Future(CassFuture(future)),
        ),
{
    let got = Reply::Handle(future);
    lemma_first_and_rest(got, got, got, got);
    lemma_unfold(Exchange::Closing, got, Seq::empty());
    assert(session.close_plan().calls(seq![got]) =~= seq![
        Entry::SessionClose { session: session.0 },
    ]);
}

/// `connect` begins the connect, then releases the cluster, and ends with a
/// future that holds the session.
pub proof fn connect_moves_the_session_into_the_future(
    session: Session,
    cluster: Cluster,
    future: usize,
)
    ensures
        session.connect_plan(cluster).calls(handle_and_return(future))
            == seq![
            Entry::SessionConnect { session: session.0, cluster: cluster.0 },
            Entry::ClusterFree { cluster: cluster.0 },
        ],
        session.connect_plan(cluster).outcome(handle_and_return(future))
            == Some(Outcome::SessionFuture(SessionFuture(future, session))),
{
    let got = Reply::Handle(future);
    lemma_first_and_rest(got, Reply::Returned, got, got);
    lemma_unfold(Exchange::Connecting { session, cluster }, got, seq![Reply::Returned]);
    lemma_release_returns(Outcome::SessionFuture(SessionFuture(future, session)));
    assert(session.connect_plan(cluster).calls(seq![got, Reply::Returned]) =~= seq![
        Entry::SessionConnect { session: session.0, cluster: cluster.0 },
        Entry::ClusterFree { cluster: cluster.0 },
    ]);
}

/// `connect_keyspace` begins the connect with the terminated name of the
/// keyspace, then releases the cluster, and ends with the future of the
/// connect. The session stays the caller's.
pub proof fn connect_keyspace_releases_the_cluster(
    session: Session,
    cluster: Cluster,
    keyspace: Seq<u8>,
    future: usize,
)
    ensures
        session.connect_keyspace_plan(cluster, keyspace).text == terminated(keyspace),
        session.connect_keyspace_plan(cluster, keyspace).calls(
            handle_and_return(future),
        ) == seq![
            Entry::SessionConnectKeyspace { session: session.0, cluster: cluster.0 },
            Entry::ClusterFree { cluster: cluster.0 },
        ],
        session.connect_keyspace_plan(cluster, keyspace).outcome(
            handle_and_return(future),
        ) == Some(Outcome::Future(CassFuture(future))),
{
    let got = Reply::Handle(future);
    lemma_first_and_rest(got, Reply::Returned, got, got);
    lemma_unfold(Exchange::ConnectingKeyspace { cluster }, got, seq![Reply::Returned]);
    lemma_release_returns(Outcome::Future(CassFuture(future)));
    assert(session.connect_keyspace_plan(cluster, keyspace).calls(seq![got, Reply::Returned])
        =~= seq![
        Entry::SessionConnectKeyspace { session: session.0, cluster: cluster.0 },
        Entry::ClusterFree { cluster: cluster.0 },
    ]);
}

/// `prepare` makes one call, with the terminated query, and ends with the
/// future of the prepare.
pub proof fn prepare_begins_a_prepare(session: Session, query: Seq<u8>, future: usize)
    ensures
        session.prepare_plan(query).text == terminated(query),
        session.prepare_plan(query).calls(one_handle(future)) == seq![
            Entry::SessionPrepare { session: session.0 },
        ],
        session.prepare_plan(query).outcome(one_handle(future)) == Some(
            Outcome::PreparedFuture(PreparedFuture(future)),
        ),
{
    let got = Reply::Handle(future);
    lemma_first_and_rest(got, got, got, got);
    lemma_unfold(Exchange::Preparing, got, Seq::empty());
    assert(session.prepare_plan(query).calls(seq![got]) =~= seq![
        Entry::SessionPrepare { session: session.0 },
    ]);
}

/// `execute` makes a statement from the text, executes it, releases it, and
/// ends with the future of the execution.
pub proof fn execute_makes_and_releases_a_statement(
    session: Session,
    text: Seq<u8>,
    parameter_count: u64,
    statement: usize,
    future: usize,
)
    ensures
        session.execute_plan(text, parameter_count).text == text,
        session.execute_plan(text, parameter_count).calls(
            handles_and_return(statement, future),
        ) == seq![
            Entry::StatementNew { parameter_count },
            Entry::SessionExecute { session: session.0, statement },
            Entry::StatementFree { statement },
        ],
        session.execute_plan(text, parameter_count).outcome(
            handles_and_return(statement, future),
        ) == Some(Outcome::ResultFuture(ResultFuture(future))),
{
    let made = Reply::Handle(statement);
    let got = Reply::Handle(future);
    lemma_first_and_rest(made, got, Reply::Returned, got);
    lemma_first_and_rest(got, Reply::Returned, got, got);
    lemma_unfold(Exchange::Building { target: session.0 }, made, seq![got, Reply::Returned]);
    lemma_unfold(
        Exchange::ExecutingOnce { statement: CassStatement(statement) },
        got,
        seq![Reply::Returned],
    );
    lemma_release_returns(Outcome::ResultFuture(ResultFuture(future)));
    assert(session.execute_plan(text, parameter_count).calls(seq![made, got, Reply::Returned])
        =~= seq![
        Entry::StatementNew { parameter_count },
        Entry::SessionExecute { session: session.0, statement },
        Entry::StatementFree { statement },
    ]);
}

/// `execute_statement` makes one call and ends with the future of the
/// execution. The statement stays the caller's.
pub proof fn execute_statement_begins_an_execution(
    session: Session,
    statement: CassStatement,
    future: usize,
)
    ensures
        session.execute_statement_plan(statement).calls(one_handle(future)) == seq![
            Entry::SessionExecute { session: session.0, statement: statement.0 },
        ],
        session.execute_statement_plan(statement).outcome(one_handle(future)) == Some(
            Outcome::ResultFuture(ResultFuture(future)),
        ),
{
    let got = Reply::Handle(future);
    lemma_first_and_rest(got, got, got, got);
    lemma_unfold(Exchange::Executing, got, Seq::empty());
    assert(session.execute_statement_plan(statement).calls(seq![got]) =~= seq![
        Entry::SessionExecute { session: session.0, statement: statement.0 },
    ]);
}

/// `execute` on a text and `execute_statement` on the statement made from
/// that text begin the same execution and end with the same future, so that
/// a wait on either ends alike, whatever the driver replies.
pub proof fn execute_is_execute_statement(
    session: Session,
    text: Seq<u8>,
    parameter_count: u64,
    statement: usize,
    future: usize,
)
    ensures
        session.execute_plan(text, parameter_count).calls(
            handles_and_return(statement, future),
        )[1] == session.execute_statement_plan(CassStatement(statement)).calls(
            one_handle(future),
        )[0],
        session.execute_plan(text, parameter_count).outcome(
            handles_and_return(statement, future),
        ) == session.execute_statement_plan(CassStatement(statement)).outcome(
            one_handle(future),
        ),
{
    execute_makes_and_releases_a_statement(session, text, parameter_count, statement, future);
    execute_statement_begins_an_execution(session, CassStatement(statement), future);
}

/// `execute_batch` begins the execution, then releases the batch, and ends
/// with the future of the execution.
pub proof fn execute_batch_releases_the_batch(session: Session, batch: CassBatch, future: usize)
    ensures
        session.execute_batch_plan(batch).calls(handle_and_return(future))
            == seq![
            Entry::SessionExecuteBatch { session: session.0, batch: batch.0 },
            Entry::BatchFree { batch: batch.0 },
        ],
        session.execute_batch_plan(batch).outcome(handle_and_return(future))
            == Some(Outcome::ResultFuture(ResultFuture(future))),
{
    let got = Reply::Handle(future);
    lemma_first_and_rest(got, Reply::Returned, got, got);
    lemma_unfold(Exchange::ExecutingBatch { batch }, got, seq![Reply::Returned]);
    lemma_release_returns(Outcome::ResultFuture(ResultFuture(future)));
    assert(session.execute_batch_plan(batch).calls(seq![got, Reply::Returned]) =~= seq![
        Entry::SessionExecuteBatch { session: session.0, batch: batch.0 },
        Entry::BatchFree { batch: batch.0 },
    ]);
}

/// `get_schema` makes one call and ends with the snapshot.
pub proof fn get_schema_takes_a_snapshot(session: Session, schema: usize)
    ensures
        session.get_schema_plan().calls(one_handle(schema)) == seq![
            Entry::SessionGetSchema { session: session.0 },
        ],
        session.get_schema_plan().outcome(one_handle(schema)) == Some(
            Outcome::Schema(CassSchema(schema)),
        ),
{
    let got = Reply::Handle(schema);
    lemma_first_and_rest(got, got, got, got);
    lemma_unfold(Exchange::Describing, got, Seq::empty());
    assert(session.get_schema_plan().calls(seq![got]) =~= seq![
        Entry::SessionGetSchema { session: session.0 },
    ]);
}

/// What a wait on `on` ends with where nothing is fetched: what the status
/// says, for a future that yields no native object; the status as an error,
/// for one that does.
spec fn ends_unfetched(on: Awaited, code: u32) -> Outcome {
    match on {
        Awaited::Plain(future) => Outcome::Waited(future.resolved(code)),
        Awaited::Session(future) => Outcome::Connected(future.resolved(code)),
        Awaited::Prepared(_) => Outcome::Prepared(Err(CassError::Native(code))),
        Awaited::Result(_) => Outcome::Executed(Err(CassError::Native(code))),
    }
}

/// The call that fetches what the operation behind `on` gave.
spec fn fetch_of(on: Awaited) -> Entry {
    match on {
        Awaited::Prepared(future) => Entry::FutureGetPrepared { future: future.0 },
        _ => Entry::FutureGetResult { future: on.handle() },
    }
}

/// What a wait on `on` ends with after it fetched the native object at
/// `fetched`.
spec fn ends_fetched(on: Awaited, fetched: usize) -> Outcome {
    match on {
        Awaited::Prepared(_) => Outcome::Prepared(Ok(CassPrepared(fetched))),
        _ => Outcome::Executed(Ok(CassResult(fetched))),
    }
}

/// A wait up to the status: the blocking wait and the call for the status,
/// then what the exchange does with the status and with `rest`.
proof fn lemma_wait_up_to_the_status(on: Awaited, code: u32, rest: Seq<Reply>)
    ensures
        wait_plan(on).calls(seq![Reply::Returned, Reply::Status(code)] + rest) == seq![
            Entry::FutureWait { future: on.handle() },
            Entry::FutureErrorCode { future: on.handle() },
        ] + (Exchange::Querying { on }).calls(seq![Reply::Status(code)] + rest),
        wait_plan(on).outcome(seq![Reply::Returned, Reply::Status(code)] + rest) == (
        Exchange::Querying { on }).outcome(seq![Reply::Status(code)] + rest),
{
    let after = seq![Reply::Status(code)] + rest;
    assert(seq![Reply::Returned, Reply::Status(code)] + rest =~= seq![Reply::Returned] + after);
    lemma_unfold(Exchange::Waiting { on }, Reply::Returned, after);
    assert(wait_plan(on).calls(seq![Reply::Returned] + after) =~= seq![
        Entry::FutureWait { future: on.handle() },
        Entry::FutureErrorCode { future: on.handle() },
    ] + (Exchange::Querying { on }).calls(after));
}

/// The run of a wait that fetches nothing: on a future that yields no
/// native object, or after a status that is not success.
proof fn lemma_wait_runs(on: Awaited, code: u32)
    requires
        on is Plain || on is Session || code != CASS_OK,
    ensures
        wait_plan(on).calls(wait_replies(code)) == wait_calls(on.handle()),
        wait_plan(on).outcome(wait_replies(code)) == Some(ends_unfetched(on, code)),
{
    let last = seq![Reply::Returned];
    lemma_wait_up_to_the_status(on, code, last);
    lemma_unfold(Exchange::Querying { on }, Reply::Status(code), last);
    lemma_release_returns(ends_unfetched(on, code));
    assert(wait_replies(code) =~= seq![Reply::Returned, Reply::Status(code)] + last);
    assert(wait_plan(on).calls(wait_replies(code)) =~= wait_calls(on.handle()));
}

/// The run of a wait that fetches what the operation gave, after the
/// driver reported success.
proof fn lemma_fetching_wait_runs(on: Awaited, fetched: usize)
    requires
        on is Prepared || on is Result,
    ensures
        wait_plan(on).calls(fetch_replies(fetched)) == fetch_calls(on.handle(), fetch_of(on)),
        wait_plan(on).outcome(fetch_replies(fetched)) == Some(ends_fetched(on, fetched)),
{
    let got = Reply::Handle(fetched);
    let rest = seq![got, Reply::Returned];
    lemma_first_and_rest(got, Reply::Returned, got, got);
    lemma_wait_up_to_the_status(on, CASS_OK, rest);
    lemma_unfold(Exchange::Querying { on }, Reply::Status(CASS_OK), rest);
    match on {
        Awaited::Prepared(prepare) => {
            lemma_unfold(Exchange::FetchingPrepared { prepare }, got, seq![Reply::Returned]);
        },
        Awaited::Result(execution) => {
            lemma_unfold(Exchange::FetchingResult { execution }, got, seq![Reply::Returned]);
        },
        _ => {},
    }
    lemma_release_returns(ends_fetched(on, fetched));
    assert(fetch_replies(fetched) =~= seq![Reply::Returned, Reply::Status(CASS_OK)] + rest);
    assert(wait_plan(on).calls(fetch_replies(fetched)) =~= fetch_calls(
        on.handle(),
        fetch_of(on),
    ));
}

/// A wait on a plain future blocks, asks for the status, releases the
/// future, and ends with what the status says.
pub proof fn plain_wait_runs(future: CassFuture, code: u32)
    ensures
        wait_plan(Awaited::Plain(future)).calls(wait_replies(code)) == wait_calls(future.0),
        wait_plan(Awaited::Plain(future)).outcome(wait_replies(code)) == Some(
            Outcome::Waited(future.resolved(code)),
        ),
{
    lemma_wait_runs(Awaited::Plain(future), code);
}

/// A wait on the future of a connect blocks, asks for the status, releases
/// the future, and ends with the session: alone where the status is
/// success, with the status as an error where it is not. It asks for no
/// release of the session.
pub proof fn connect_wait_runs(future: SessionFuture, code: u32)
    ensures
        wait_plan(Awaited::Session(future)).calls(wait_replies(code)) == wait_calls(future.0),
        wait_plan(Awaited::Session(future)).outcome(wait_replies(code)) == Some(
            Outcome::Connected(future.resolved(code)),
        ),
        code == CASS_OK ==> future.resolved(code) == Ok::<Session, ConnectFailure>(future.1),
        code != CASS_OK ==> future.resolved(code) == Err::<Session, ConnectFailure>(
            ConnectFailure { error: CassError::Native(code), session: future.1 },
        ),
{
    lemma_wait_runs(Awaited::Session(future), code);
}

/// A connect that succeeds gives back the session that began it: the
/// session goes into the future when the connect is begun, and comes out of
/// it when the driver reports success.
pub proof fn connect_gives_the_session_back(session: Session, cluster: Cluster, future: usize)
    ensures
        session.connect_plan(cluster).outcome(handle_and_return(future)) == Some(
            Outcome::SessionFuture(SessionFuture(future, session)),
        ),
        wait_plan(Awaited::Session(SessionFuture(future, session))).outcome(wait_replies(CASS_OK))
            == Some(Outcome::Connected(Ok(session))),
{
    connect_moves_the_session_into_the_future(session, cluster, future);
    connect_wait_runs(SessionFuture(future, session), CASS_OK);
}

/// A connect that fails gives the session back with the status as an error,
/// and the wait releases the future alone: the session is still the
/// caller's to release.
pub proof fn failed_connect_keeps_the_session(future: SessionFuture, code: u32)
    requires
        code != CASS_OK,
    ensures
        wait_plan(Awaited::Session(future)).outcome(wait_replies(code)) == Some(
            Outcome::Connected(
                Err(ConnectFailure { error: CassError::Native(code), session: future.1 }),
            ),
        ),
        wait_plan(Awaited::Session(future)).calls(wait_replies(code)) == wait_calls(future.0),
{
    connect_wait_runs(future, code);
}

/// A wait on the future of a prepare that failed makes the three calls and
/// ends with the status as an error.
pub proof fn failed_prepare_wait_runs(future: PreparedFuture, code: u32)
    requires
        code != CASS_OK,
    ensures
        wait_plan(Awaited::Prepared(future)).calls(wait_replies(code)) == wait_calls(future.0),
        wait_plan(Awaited::Prepared(future)).outcome(wait_replies(code)) == Some(
            Outcome::Prepared(Err(CassError::Native(code))),
        ),
{
    lemma_wait_runs(Awaited::Prepared(future), code);
}

/// A wait on the future of a prepare that succeeded fetches the prepared
/// statement before it releases the future, and ends with the statement.
pub proof fn prepare_wait_runs(future: PreparedFuture, prepared: usize)
    ensures
        wait_plan(Awaited::Prepared(future)).calls(fetch_replies(prepared)) == fetch_calls(
            future.0,
            Entry::FutureGetPrepared { future: future.0 },
        ),
        wait_plan(Awaited::Prepared(future)).outcome(fetch_replies(prepared)) == Some(
            Outcome::Prepared(Ok(CassPrepared(prepared))),
        ),
{
    lemma_fetching_wait_runs(Awaited::Prepared(future), prepared);
}

/// A wait on the future of an execution that failed makes the three calls
/// and ends with the status as an error.
pub proof fn failed_execution_wait_runs(future: ResultFuture, code: u32)
    requires
        code != CASS_OK,
    ensures
        wait_plan(Awaited::Result(future)).calls(wait_replies(code)) == wait_calls(future.0),
        wait_plan(Awaited::Result(future)).outcome(wait_replies(code)) == Some(
            Outcome::Executed(Err(CassError::Native(code))),
        ),
{
    lemma_wait_runs(Awaited::Result(future), code);
}

/// A wait on the future of an execution that succeeded fetches the result
/// before it releases the future, and ends with the result.
pub proof fn execution_wait_runs(future: ResultFuture, result: usize)
    ensures
        wait_plan(Awaited::Result(future)).calls(fetch_replies(result)) == fetch_calls(
            future.0,
            Entry::FutureGetResult { future: future.0 },
        ),
        wait_plan(Awaited::Result(future)).outcome(fetch_replies(result)) == Some(
            Outcome::Executed(Ok(CassResult(result))),
        ),
{
    lemma_fetching_wait_runs(Awaited::Result(future), result);
}

/// Giving up a future asks for its release and ends when that returns:
/// with the session that the future of a connect held, and with nothing
/// for the other futures.
pub proof fn free_releases_the_future(on: Awaited)
    ensures
        free_plan(on).calls(seq![Reply::Returned]) == seq![
            Entry::FutureFree { future: on.handle() },
        ],
        free_plan(on).outcome(seq![Reply::Returned]) == Some(left_by(on)),
{
    lemma_release_returns(left_by(on));
    assert(free_plan(on).calls(seq![Reply::Returned]) =~= seq![
        Entry::FutureFree { future: on.handle() },
    ]);
}

} // verus!
