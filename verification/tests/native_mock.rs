use cql_session::error::CassError;
use cql_session::exchange::Awaited;
use cql_session::exchange::Exchange;
use cql_session::exchange::Outcome;
use cql_session::exchange::Request;
use cql_session::exchange::Step;
use cql_session::future::CassFuture;
use cql_session::future::PreparedFuture;
use cql_session::future::ResultFuture;
use cql_session::handle::CassBatch;
use cql_session::handle::CassPrepared;
use cql_session::handle::CassResult;
use cql_session::handle::CassSchema;
use cql_session::handle::CassStatement;
use cql_session::handle::Cluster;
use cql_session::native::Entry;
use cql_session::native::Reply;
use cql_session::native::ReplyKind;
use cql_session::session::ConnectFailure;
use cql_session::session::Session;
use cql_session::session::SessionFuture;

/// A native layer that does nothing but keep books: it hands out fresh
/// handles, reports one status for every future, and counts.
struct Mock {
    next: usize,
    status: u32,
    log: Vec<Entry>,
    texts: Vec<Vec<u8>>,
    live: Vec<usize>,
    released: Vec<usize>,
}

impl Mock {
    fn new(status: u32) -> Mock {
        Mock { next: 100, status, log: Vec::new(), texts: Vec::new(), live: Vec::new(), released: Vec::new() }
    }

    fn fresh(&mut self) -> Reply {
        self.next += 1;
        self.live.push(self.next);
        Reply::Handle(self.next)
    }

    fn adopt(&mut self, handle: usize) -> usize {
        self.live.push(handle);
        handle
    }

    fn release(&mut self, handle: usize) -> Reply {
        let at = self.live.iter().position(|live| *live == handle);
        assert!(at.is_some(), "release of {} which is not live", handle);
        self.live.remove(at.unwrap());
        self.released.push(handle);
        Reply::Returned
    }

    fn perform(&mut self, entry: Entry, text: &[u8]) -> Reply {
        self.log.push(entry);
        self.texts.push(text.to_vec());
        let reply = match entry {
            Entry::SessionNew => self.fresh(),
            Entry::SessionFree { session } => self.release(session),
            Entry::SessionClose { .. } => self.fresh(),
            Entry::SessionConnect { .. } => self.fresh(),
            Entry::SessionConnectKeyspace { .. } => self.fresh(),
            Entry::SessionPrepare { .. } => self.fresh(),
            Entry::SessionExecute { .. } => self.fresh(),
            Entry::SessionExecuteBatch { .. } => self.fresh(),
            Entry::SessionGetSchema { .. } => self.fresh(),
            Entry::StatementNew { .. } => self.fresh(),
            Entry::StatementFree { statement } => self.release(statement),
            Entry::BatchFree { batch } => self.release(batch),
            Entry::ClusterFree { cluster } => self.release(cluster),
            Entry::FutureWait { .. } => Reply::Returned,
            Entry::FutureErrorCode { .. } => Reply::Status(self.status),
            Entry::FutureGetPrepared { .. } => self.fresh(),
            Entry::FutureGetResult { .. } => self.fresh(),
            Entry::FutureFree { future } => self.release(future),
        };
        assert_eq!(reply.kind(), entry.answer());
        reply
    }

    fn run(&mut self, request: Request) -> Outcome {
        let Request { entry, text, exchange } = request;
        let mut step = exchange.resume(self.perform(entry, &text));
        loop {
            match step {
                Step::Perform { entry, exchange } => {
                    step = exchange.resume(self.perform(entry, &[]));
                }
                Step::Unanswered { .. } => panic!("the mock answered with the wrong kind"),
                Step::Done(outcome) => return outcome,
            }
        }
    }

    fn releases_of(&self, handle: usize) -> usize {
        self.released.iter().filter(|released| **released == handle).count()
    }

    fn is_live(&self, handle: usize) -> bool {
        self.live.contains(&handle)
    }
}

fn new_session(mock: &mut Mock) -> Session {
    match mock.run(Session::new()) {
        Outcome::Session(session) => session,
        other => panic!("unexpected outcome {:?}", other),
    }
}

fn connect(mock: &mut Mock, session: Session) -> SessionFuture {
    let cluster = Cluster(mock.adopt(7));
    match mock.run(session.connect(cluster)) {
        Outcome::SessionFuture(future) => future,
        other => panic!("unexpected outcome {:?}", other),
    }
}

#[test]
fn new_calls_session_new_and_wraps_the_handle() {
    let mut mock = Mock::new(0);
    let session = new_session(&mut mock);
    assert_eq!(session, Session(101));
    assert_eq!(mock.log, vec![Entry::SessionNew]);
    assert_eq!(mock.texts, vec![Vec::<u8>::new()]);
}

#[test]
fn dropping_an_unconnected_session_releases_it_once() {
    let mut mock = Mock::new(0);
    let session = new_session(&mut mock);
    let handle = session.0;
    assert_eq!(mock.run(session.free()), Outcome::Released);
    assert_eq!(mock.log, vec![Entry::SessionNew, Entry::SessionFree { session: handle }]);
    assert_eq!(mock.releases_of(handle), 1);
    assert!(mock.live.is_empty());
}

#[test]
fn close_signals_the_close_and_releases_nothing() {
    let mut mock = Mock::new(0);
    let session = new_session(&mut mock);
    let handle = session.0;
    let outcome = mock.run(session.close());
    assert_eq!(outcome, Outcome::Future(CassFuture(102)));
    assert_eq!(mock.log[1..], [Entry::SessionClose { session: handle }]);
    assert_eq!(mock.releases_of(handle), 0);
    assert!(mock.is_live(handle));
}

#[test]
fn a_session_that_is_closing_is_released_by_free_alone() {
    let mut mock = Mock::new(0);
    let session = new_session(&mut mock);
    let handle = session.0;
    let closing = match mock.run(session.close()) {
        Outcome::Future(future) => future,
        other => panic!("unexpected outcome {:?}", other),
    };
    assert_eq!(mock.run(session.free()), Outcome::Released);
    assert_eq!(
        mock.log[1..],
        [Entry::SessionClose { session: handle }, Entry::SessionFree { session: handle }]
    );
    assert_eq!(mock.releases_of(handle), 1);
    assert_eq!(mock.run(closing.wait()), Outcome::Waited(Ok(())));
    assert_eq!(mock.releases_of(102), 1);
    assert!(mock.live.is_empty());
}

#[test]
fn close_asks_for_the_close_whatever_comes_back() {
    let (calls, outcome) = Session(1).close().replay(&[]);
    assert_eq!(calls, vec![Entry::SessionClose { session: 1 }]);
    assert_eq!(outcome, None);
    let (calls, outcome) =
        Session(1).close().replay(&[Reply::Returned, Reply::Handle(5), Reply::Returned]);
    assert_eq!(calls, vec![Entry::SessionClose { session: 1 }]);
    assert_eq!(outcome, Some(Outcome::Future(CassFuture(5))));
}

#[test]
fn a_future_that_is_never_waited_on_is_released_once() {
    let mut mock = Mock::new(0);
    let plain = CassFuture(mock.adopt(1));
    let prepared = PreparedFuture(mock.adopt(3));
    let result = ResultFuture(mock.adopt(4));
    assert_eq!(mock.run(plain.free()), Outcome::Released);
    assert_eq!(mock.run(prepared.free()), Outcome::Released);
    assert_eq!(mock.run(result.free()), Outcome::Released);
    assert_eq!(
        mock.log,
        vec![
            Entry::FutureFree { future: 1 },
            Entry::FutureFree { future: 3 },
            Entry::FutureFree { future: 4 },
        ]
    );
    for future in [1usize, 3, 4] {
        assert_eq!(mock.releases_of(future), 1);
    }
    assert!(mock.live.is_empty());
}

#[test]
fn a_connect_future_that_is_given_up_hands_the_session_back() {
    let mut mock = Mock::new(0);
    let session = new_session(&mut mock);
    let future = connect(&mut mock, session);
    let handle = future.0;
    let outcome = mock.run(future.free());
    assert_eq!(outcome, Outcome::Session(Session(101)));
    assert_eq!(mock.log[3..], [Entry::FutureFree { future: handle }]);
    assert_eq!(mock.releases_of(handle), 1);
    assert_eq!(mock.releases_of(101), 0);
    assert!(mock.is_live(101));
    let session = match outcome {
        Outcome::Session(session) => session,
        other => panic!("unexpected outcome {:?}", other),
    };
    assert_eq!(mock.run(session.free()), Outcome::Released);
    assert_eq!(mock.releases_of(101), 1);
    assert!(mock.live.is_empty());
}

#[test]
fn giving_up_a_future_opens_with_its_release() {
    let request = SessionFuture(4, Session(40)).free();
    assert_eq!(request.entry, Entry::FutureFree { future: 4 });
    assert!(request.text.is_empty());
    assert_eq!(
        request.exchange,
        Exchange::Releasing { outcome: Outcome::Session(Session(40)) }
    );
    let request = CassFuture(5).free();
    assert_eq!(request.entry, Entry::FutureFree { future: 5 });
    assert_eq!(request.exchange, Exchange::Releasing { outcome: Outcome::Released });
    let (calls, outcome) = PreparedFuture(6).free().replay(&[Reply::Returned, Reply::Returned]);
    assert_eq!(calls, vec![Entry::FutureFree { future: 6 }]);
    assert_eq!(outcome, Some(Outcome::Released));
}

#[test]
fn connect_moves_the_session_into_the_future() {
    let mut mock = Mock::new(0);
    let session = new_session(&mut mock);
    let future = connect(&mut mock, session);
    assert_eq!(future, SessionFuture(102, Session(101)));
    assert_eq!(
        mock.log[1..],
        [Entry::SessionConnect { session: 101, cluster: 7 }, Entry::ClusterFree { cluster: 7 }]
    );
    assert_eq!(mock.releases_of(7), 1);
    assert_eq!(mock.releases_of(101), 0);
}

#[test]
fn successful_connect_returns_the_same_session() {
    let mut mock = Mock::new(0);
    let session = new_session(&mut mock);
    let future = connect(&mut mock, session);
    let outcome = mock.run(future.wait());
    assert_eq!(outcome, Outcome::Connected(Ok(Session(101))));
    assert_eq!(
        mock.log[3..],
        [
            Entry::FutureWait { future: 102 },
            Entry::FutureErrorCode { future: 102 },
            Entry::FutureFree { future: 102 },
        ]
    );
    assert_eq!(mock.releases_of(102), 1);
    assert_eq!(mock.releases_of(101), 0);
    assert!(mock.is_live(101));
}

#[test]
fn connected_session_takes_further_operations() {
    let mut mock = Mock::new(0);
    let session = new_session(&mut mock);
    let future = connect(&mut mock, session);
    let session = match mock.run(future.wait()) {
        Outcome::Connected(Ok(session)) => session,
        other => panic!("unexpected outcome {:?}", other),
    };
    let prepared = mock.run(session.prepare("SELECT * FROM t").unwrap());
    assert_eq!(prepared, Outcome::PreparedFuture(PreparedFuture(103)));
    let executed = mock.run(session.execute_statement(&CassStatement(9)));
    assert_eq!(executed, Outcome::ResultFuture(ResultFuture(104)));
    assert_eq!(
        mock.log[6..],
        [
            Entry::SessionPrepare { session: 101 },
            Entry::SessionExecute { session: 101, statement: 9 },
        ]
    );
}

#[test]
fn failed_connect_returns_the_session_with_the_error() {
    // "Unable to connect" of the driver's library errors.
    let mut mock = Mock::new(16777238);
    let session = new_session(&mut mock);
    let future = connect(&mut mock, session);
    let outcome = mock.run(future.wait());
    assert_eq!(
        outcome,
        Outcome::Connected(Err(ConnectFailure {
            error: CassError::Native(16777238),
            session: Session(101),
        }))
    );
    assert_eq!(mock.releases_of(102), 1);
    assert_eq!(mock.releases_of(101), 0);
    assert!(mock.is_live(101));
    let session = match outcome {
        Outcome::Connected(Err(failure)) => failure.session,
        other => panic!("unexpected outcome {:?}", other),
    };
    assert_eq!(mock.run(session.free()), Outcome::Released);
    assert_eq!(mock.releases_of(101), 1);
    assert!(mock.live.is_empty());
}

#[test]
fn prepare_returns_a_future() {
    let mut mock = Mock::new(0);
    let session = new_session(&mut mock);
    let request = session.prepare("SELECT * FROM t").unwrap();
    assert_eq!(request.entry, Entry::SessionPrepare { session: 101 });
    assert_eq!(request.text, b"SELECT * FROM t\0".to_vec());
    assert_eq!(request.exchange, Exchange::Preparing);
    assert_eq!(mock.run(request), Outcome::PreparedFuture(PreparedFuture(102)));
    assert_eq!(mock.texts[1], b"SELECT * FROM t\0".to_vec());
}

#[test]
fn prepare_refuses_an_embedded_terminator_before_any_call() {
    let mut mock = Mock::new(0);
    let session = new_session(&mut mock);
    assert_eq!(session.prepare("bad\0query"), Err(CassError::Encoding));
    assert_eq!(mock.log, vec![Entry::SessionNew]);
}

#[test]
fn execute_makes_a_statement_and_releases_it() {
    let mut mock = Mock::new(0);
    let session = new_session(&mut mock);
    let request = session.execute("SELECT * FROM t", 0);
    assert_eq!(request.entry, Entry::StatementNew { parameter_count: 0 });
    assert_eq!(request.text, b"SELECT * FROM t".to_vec());
    assert_eq!(request.exchange, Exchange::Building { target: 101 });
    assert_eq!(mock.run(request), Outcome::ResultFuture(ResultFuture(103)));
    assert_eq!(
        mock.log[1..],
        [
            Entry::StatementNew { parameter_count: 0 },
            Entry::SessionExecute { session: 101, statement: 102 },
            Entry::StatementFree { statement: 102 },
        ]
    );
    assert_eq!(mock.releases_of(102), 1);
    assert_eq!(mock.releases_of(101), 0);
}

#[test]
fn execute_sends_the_text_as_it_stands() {
    let session = Session(1);
    assert_eq!(session.execute("", 0).text, Vec::<u8>::new());
    assert_eq!(session.execute("a\0b", 0).text, vec![97u8, 0, 98]);
    assert_eq!(session.execute("é", 0).text, vec![0xC3u8, 0xA9]);
}

#[test]
fn execute_hands_the_parameter_count_on() {
    let session = Session(1);
    let request = session.execute("INSERT INTO t (a) VALUES (?)", 3);
    assert_eq!(request.entry, Entry::StatementNew { parameter_count: 3 });
    let request = session.execute("SELECT 1", u64::MAX);
    assert_eq!(request.entry, Entry::StatementNew { parameter_count: u64::MAX });
}

#[test]
fn execute_statement_leaves_the_statement_to_the_caller() {
    let mut mock = Mock::new(0);
    let session = new_session(&mut mock);
    let statement = CassStatement(mock.adopt(9));
    let first = mock.run(session.execute_statement(&statement));
    let second = mock.run(session.execute_statement(&statement));
    assert_eq!(first, Outcome::ResultFuture(ResultFuture(102)));
    assert_eq!(second, Outcome::ResultFuture(ResultFuture(103)));
    assert_eq!(
        mock.log[1..],
        [
            Entry::SessionExecute { session: 101, statement: 9 },
            Entry::SessionExecute { session: 101, statement: 9 },
        ]
    );
    assert!(mock.is_live(9));
    assert_eq!(mock.releases_of(9), 0);
}

fn outcome_of_wait(status: u32, future: ResultFuture) -> Outcome {
    let mut mock = Mock::new(status);
    mock.adopt(future.0);
    mock.next = 500;
    mock.run(future.wait())
}

#[test]
fn execute_and_execute_statement_end_alike() {
    for status in [0u32, 33562624, 16777230] {
        let mut by_text = Mock::new(status);
        let session = new_session(&mut by_text);
        let from_text = match by_text.run(session.execute("SELECT * FROM t", 0)) {
            Outcome::ResultFuture(future) => future,
            other => panic!("unexpected outcome {:?}", other),
        };

        let mut by_statement = Mock::new(status);
        let session = new_session(&mut by_statement);
        // The statement that the first mock made from the text.
        let statement = CassStatement(by_statement.adopt(102));
        by_statement.next = 102;
        let from_statement = match by_statement.run(session.execute_statement(&statement)) {
            Outcome::ResultFuture(future) => future,
            other => panic!("unexpected outcome {:?}", other),
        };

        assert_eq!(from_text, from_statement);
        let first = outcome_of_wait(status, from_text);
        let second = outcome_of_wait(status, from_statement);
        assert_eq!(first, second);
        if status == 0 {
            assert_eq!(first, Outcome::Executed(Ok(CassResult(501))));
        } else {
            assert_eq!(first, Outcome::Executed(Err(CassError::Native(status))));
        }
    }
}

#[test]
fn execute_batch_consumes_the_batch() {
    let mut mock = Mock::new(0);
    let session = new_session(&mut mock);
    let batch = CassBatch(mock.adopt(11));
    let outcome = mock.run(session.execute_batch(batch));
    assert_eq!(outcome, Outcome::ResultFuture(ResultFuture(102)));
    assert_eq!(
        mock.log[1..],
        [
            Entry::SessionExecuteBatch { session: 101, batch: 11 },
            Entry::BatchFree { batch: 11 },
        ]
    );
    assert_eq!(mock.releases_of(11), 1);
}

#[test]
fn get_schema_wraps_the_snapshot() {
    let mut mock = Mock::new(0);
    let session = new_session(&mut mock);
    let outcome = mock.run(session.get_schema());
    assert_eq!(outcome, Outcome::Schema(CassSchema(102)));
    assert_eq!(mock.log[1..], [Entry::SessionGetSchema { session: 101 }]);
    assert!(mock.is_live(101));
}

#[test]
fn connect_keyspace_sends_the_terminated_name() {
    let mut mock = Mock::new(0);
    let session = new_session(&mut mock);
    let cluster = Cluster(mock.adopt(7));
    let request = session.connect_keyspace(cluster, "system").unwrap();
    assert_eq!(request.text, b"system\0".to_vec());
    assert_eq!(request.exchange, Exchange::ConnectingKeyspace { cluster: Cluster(7) });
    assert_eq!(mock.run(request), Outcome::Future(CassFuture(102)));
    assert_eq!(
        mock.log[1..],
        [
            Entry::SessionConnectKeyspace { session: 101, cluster: 7 },
            Entry::ClusterFree { cluster: 7 },
        ]
    );
    assert_eq!(mock.releases_of(7), 1);
    assert!(mock.is_live(101));
}

#[test]
fn connect_keyspace_refuses_an_embedded_terminator() {
    let session = Session(1);
    assert_eq!(session.connect_keyspace(Cluster(7), "sys\0tem"), Err(CassError::Encoding));
}

#[test]
fn every_wait_releases_its_future_once() {
    for status in [0u32, 1, 16777217, 33558528, u32::MAX] {
        let mut mock = Mock::new(status);
        let plain = CassFuture(mock.adopt(1));
        let session = SessionFuture(mock.adopt(2), Session(mock.adopt(20)));
        let prepared = PreparedFuture(mock.adopt(3));
        let result = ResultFuture(mock.adopt(4));
        mock.run(plain.wait());
        mock.run(session.wait());
        mock.run(prepared.wait());
        mock.run(result.wait());
        for future in [1usize, 2, 3, 4] {
            assert_eq!(mock.releases_of(future), 1);
            assert!(!mock.is_live(future));
        }
        assert_eq!(mock.releases_of(20), 0);
        assert!(mock.is_live(20));
        let frees = mock.log.iter().filter(|entry| matches!(entry, Entry::FutureFree { .. })).count();
        assert_eq!(frees, 4);
    }
}

#[test]
fn plain_wait_yields_unit_or_the_error() {
    let mut mock = Mock::new(0);
    let future = CassFuture(mock.adopt(1));
    assert_eq!(mock.run(future.wait()), Outcome::Waited(Ok(())));
    let mut mock = Mock::new(16777239);
    let future = CassFuture(mock.adopt(1));
    assert_eq!(mock.run(future.wait()), Outcome::Waited(Err(CassError::Native(16777239))));
    assert_eq!(
        mock.log,
        vec![
            Entry::FutureWait { future: 1 },
            Entry::FutureErrorCode { future: 1 },
            Entry::FutureFree { future: 1 },
        ]
    );
}

#[test]
fn prepared_wait_fetches_the_statement_on_success_only() {
    let mut mock = Mock::new(0);
    let future = PreparedFuture(mock.adopt(1));
    assert_eq!(mock.run(future.wait()), Outcome::Prepared(Ok(CassPrepared(101))));
    assert_eq!(
        mock.log,
        vec![
            Entry::FutureWait { future: 1 },
            Entry::FutureErrorCode { future: 1 },
            Entry::FutureGetPrepared { future: 1 },
            Entry::FutureFree { future: 1 },
        ]
    );
    // "Syntax error" of the server errors.
    let mut mock = Mock::new(33562624);
    let future = PreparedFuture(mock.adopt(1));
    assert_eq!(mock.run(future.wait()), Outcome::Prepared(Err(CassError::Native(33562624))));
    assert_eq!(
        mock.log,
        vec![
            Entry::FutureWait { future: 1 },
            Entry::FutureErrorCode { future: 1 },
            Entry::FutureFree { future: 1 },
        ]
    );
}

#[test]
fn result_wait_fetches_the_result_on_success_only() {
    let mut mock = Mock::new(0);
    let future = ResultFuture(mock.adopt(1));
    assert_eq!(mock.run(future.wait()), Outcome::Executed(Ok(CassResult(101))));
    assert_eq!(mock.log[2], Entry::FutureGetResult { future: 1 });
    assert_eq!(mock.log[3], Entry::FutureFree { future: 1 });
    let mut mock = Mock::new(33559040);
    let future = ResultFuture(mock.adopt(1));
    assert_eq!(mock.run(future.wait()), Outcome::Executed(Err(CassError::Native(33559040))));
    assert_eq!(mock.log.len(), 3);
    assert_eq!(mock.log[2], Entry::FutureFree { future: 1 });
}

#[test]
fn error_code_turns_the_status_into_a_result() {
    assert_eq!(CassFuture(1).error_code(0), Ok(()));
    assert_eq!(CassFuture(1).error_code(5), Err(CassError::Native(5)));
    assert_eq!(PreparedFuture(2).error_code(0), Ok(PreparedFuture(2)));
    assert_eq!(PreparedFuture(2).error_code(5), Err(CassError::Native(5)));
    assert_eq!(ResultFuture(3).error_code(0), Ok(ResultFuture(3)));
    assert_eq!(ResultFuture(3).error_code(5), Err(CassError::Native(5)));
    assert_eq!(SessionFuture(4, Session(40)).error_code(0), Ok(Session(40)));
    assert_eq!(
        SessionFuture(4, Session(40)).error_code(5),
        Err(ConnectFailure { error: CassError::Native(5), session: Session(40) })
    );
}

#[test]
fn wait_opens_with_the_blocking_wait() {
    let request = SessionFuture(4, Session(40)).wait();
    assert_eq!(request.entry, Entry::FutureWait { future: 4 });
    assert!(request.text.is_empty());
    assert_eq!(
        request.exchange,
        Exchange::Waiting { on: Awaited::Session(SessionFuture(4, Session(40))) }
    );
    assert_eq!(Awaited::Plain(CassFuture(1)).raw(), 1);
    assert_eq!(Awaited::Session(SessionFuture(2, Session(3))).raw(), 2);
    assert_eq!(Awaited::Prepared(PreparedFuture(4)).raw(), 4);
    assert_eq!(Awaited::Result(ResultFuture(5)).raw(), 5);
}

#[test]
fn a_reply_of_another_kind_changes_nothing() {
    let waiting = Exchange::Waiting { on: Awaited::Plain(CassFuture(1)) };
    assert_eq!(
        waiting.resume(Reply::Status(0)),
        Step::Unanswered { exchange: Exchange::Waiting { on: Awaited::Plain(CassFuture(1)) } }
    );
    let querying = Exchange::Querying { on: Awaited::Plain(CassFuture(1)) };
    assert_eq!(
        querying.resume(Reply::Handle(3)),
        Step::Unanswered { exchange: Exchange::Querying { on: Awaited::Plain(CassFuture(1)) } }
    );
    assert_eq!(
        Exchange::Creating.resume(Reply::Returned),
        Step::Unanswered { exchange: Exchange::Creating }
    );
    let releasing = Exchange::Releasing { outcome: Outcome::Released };
    assert_eq!(
        releasing.resume(Reply::Handle(1)),
        Step::Unanswered { exchange: Exchange::Releasing { outcome: Outcome::Released } }
    );
}

#[test]
fn replay_gives_the_calls_and_the_outcome() {
    let request = SessionFuture(4, Session(40)).wait();
    let (calls, outcome) =
        request.replay(&[Reply::Returned, Reply::Status(0), Reply::Returned]);
    assert_eq!(
        calls,
        vec![
            Entry::FutureWait { future: 4 },
            Entry::FutureErrorCode { future: 4 },
            Entry::FutureFree { future: 4 },
        ]
    );
    assert_eq!(outcome, Some(Outcome::Connected(Ok(Session(40)))));
}

#[test]
fn replay_of_execute_makes_and_releases_the_statement() {
    let request = Session(1).execute("SELECT * FROM t", 2);
    let (calls, outcome) =
        request.replay(&[Reply::Handle(30), Reply::Handle(40), Reply::Returned]);
    assert_eq!(
        calls,
        vec![
            Entry::StatementNew { parameter_count: 2 },
            Entry::SessionExecute { session: 1, statement: 30 },
            Entry::StatementFree { statement: 30 },
        ]
    );
    assert_eq!(outcome, Some(Outcome::ResultFuture(ResultFuture(40))));
}

#[test]
fn replay_of_a_successful_prepare_wait_fetches_the_statement() {
    let request = PreparedFuture(4).wait();
    let (calls, outcome) = request.replay(&[
        Reply::Returned,
        Reply::Status(0),
        Reply::Handle(50),
        Reply::Returned,
    ]);
    assert_eq!(
        calls,
        vec![
            Entry::FutureWait { future: 4 },
            Entry::FutureErrorCode { future: 4 },
            Entry::FutureGetPrepared { future: 4 },
            Entry::FutureFree { future: 4 },
        ]
    );
    assert_eq!(outcome, Some(Outcome::Prepared(Ok(CassPrepared(50)))));
}

#[test]
fn every_exchange_refuses_a_reply_of_another_kind() {
    let wrong_for_handle = [Reply::Returned, Reply::Status(0)];
    for reply in wrong_for_handle {
        assert_eq!(Exchange::Creating.resume(reply), Step::Unanswered { exchange: Exchange::Creating });
        assert_eq!(Exchange::Closing.resume(reply), Step::Unanswered { exchange: Exchange::Closing });
        assert_eq!(
            Exchange::Connecting { session: Session(1), cluster: Cluster(2) }.resume(reply),
            Step::Unanswered {
                exchange: Exchange::Connecting { session: Session(1), cluster: Cluster(2) }
            }
        );
        assert_eq!(
            Exchange::ConnectingKeyspace { cluster: Cluster(2) }.resume(reply),
            Step::Unanswered { exchange: Exchange::ConnectingKeyspace { cluster: Cluster(2) } }
        );
        assert_eq!(Exchange::Preparing.resume(reply), Step::Unanswered { exchange: Exchange::Preparing });
        assert_eq!(
            Exchange::Building { target: 1 }.resume(reply),
            Step::Unanswered { exchange: Exchange::Building { target: 1 } }
        );
        assert_eq!(Exchange::Executing.resume(reply), Step::Unanswered { exchange: Exchange::Executing });
        assert_eq!(
            Exchange::ExecutingOnce { statement: CassStatement(3) }.resume(reply),
            Step::Unanswered { exchange: Exchange::ExecutingOnce { statement: CassStatement(3) } }
        );
        assert_eq!(
            Exchange::ExecutingBatch { batch: CassBatch(3) }.resume(reply),
            Step::Unanswered { exchange: Exchange::ExecutingBatch { batch: CassBatch(3) } }
        );
        assert_eq!(Exchange::Describing.resume(reply), Step::Unanswered { exchange: Exchange::Describing });
        assert_eq!(
            Exchange::FetchingPrepared { prepare: PreparedFuture(4) }.resume(reply),
            Step::Unanswered { exchange: Exchange::FetchingPrepared { prepare: PreparedFuture(4) } }
        );
        assert_eq!(
            Exchange::FetchingResult { execution: ResultFuture(4) }.resume(reply),
            Step::Unanswered { exchange: Exchange::FetchingResult { execution: ResultFuture(4) } }
        );
    }
}

#[test]
fn replay_of_too_few_replies_has_no_outcome() {
    let request = SessionFuture(4, Session(40)).wait();
    let (calls, outcome) = request.replay(&[Reply::Returned]);
    assert_eq!(
        calls,
        vec![Entry::FutureWait { future: 4 }, Entry::FutureErrorCode { future: 4 }]
    );
    assert_eq!(outcome, None);
    let (calls, outcome) = Session(1).free().replay(&[]);
    assert_eq!(calls, vec![Entry::SessionFree { session: 1 }]);
    assert_eq!(outcome, None);
}

#[test]
fn replay_reads_nothing_after_the_end() {
    let request = CassFuture(4).wait();
    let (calls, outcome) = request.replay(&[
        Reply::Returned,
        Reply::Status(7),
        Reply::Returned,
        Reply::Returned,
        Reply::Status(0),
        Reply::Handle(9),
    ]);
    assert_eq!(
        calls,
        vec![
            Entry::FutureWait { future: 4 },
            Entry::FutureErrorCode { future: 4 },
            Entry::FutureFree { future: 4 },
        ]
    );
    assert_eq!(outcome, Some(Outcome::Waited(Err(CassError::Native(7)))));
}

#[test]
fn replay_skips_replies_of_another_kind() {
    let request = CassFuture(4).wait();
    let (calls, outcome) = request.replay(&[
        Reply::Handle(1),
        Reply::Returned,
        Reply::Returned,
        Reply::Status(0),
        Reply::Status(9),
        Reply::Returned,
    ]);
    assert_eq!(
        calls,
        vec![
            Entry::FutureWait { future: 4 },
            Entry::FutureErrorCode { future: 4 },
            Entry::FutureFree { future: 4 },
        ]
    );
    assert_eq!(outcome, Some(Outcome::Waited(Ok(()))));
}

#[test]
fn entries_say_what_they_return() {
    assert_eq!(Entry::SessionNew.answer(), ReplyKind::Handle);
    assert_eq!(Entry::SessionFree { session: 1 }.answer(), ReplyKind::Returned);
    assert_eq!(Entry::SessionClose { session: 1 }.answer(), ReplyKind::Handle);
    assert_eq!(Entry::SessionConnect { session: 1, cluster: 2 }.answer(), ReplyKind::Handle);
    assert_eq!(Entry::SessionConnectKeyspace { session: 1, cluster: 2 }.answer(), ReplyKind::Handle);
    assert_eq!(Entry::SessionPrepare { session: 1 }.answer(), ReplyKind::Handle);
    assert_eq!(Entry::SessionExecute { session: 1, statement: 2 }.answer(), ReplyKind::Handle);
    assert_eq!(Entry::SessionExecuteBatch { session: 1, batch: 2 }.answer(), ReplyKind::Handle);
    assert_eq!(Entry::SessionGetSchema { session: 1 }.answer(), ReplyKind::Handle);
    assert_eq!(Entry::StatementNew { parameter_count: 0 }.answer(), ReplyKind::Handle);
    assert_eq!(Entry::StatementFree { statement: 1 }.answer(), ReplyKind::Returned);
    assert_eq!(Entry::BatchFree { batch: 1 }.answer(), ReplyKind::Returned);
    assert_eq!(Entry::ClusterFree { cluster: 1 }.answer(), ReplyKind::Returned);
    assert_eq!(Entry::FutureWait { future: 1 }.answer(), ReplyKind::Returned);
    assert_eq!(Entry::FutureErrorCode { future: 1 }.answer(), ReplyKind::Status);
    assert_eq!(Entry::FutureGetPrepared { future: 1 }.answer(), ReplyKind::Handle);
    assert_eq!(Entry::FutureGetResult { future: 1 }.answer(), ReplyKind::Handle);
    assert_eq!(Entry::FutureFree { future: 1 }.answer(), ReplyKind::Returned);
    assert_eq!(Reply::Returned.kind(), ReplyKind::Returned);
    assert_eq!(Reply::Handle(3).kind(), ReplyKind::Handle);
    assert_eq!(Reply::Status(3).kind(), ReplyKind::Status);
}
