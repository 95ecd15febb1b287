//! The boundary to the native driver: its entry points, and what they
//! return.

use vstd::prelude::*;

verus! {

/// One entry point of the native driver with the handles it is called on.
///
/// A handle is the address of a native object, held as a number. Where an
/// entry point takes a text, the text travels beside the entry (see
/// `Request::text`).
#[derive(Debug, Clone, Copy, PartialEq, Eq, Structural)]
pub enum Entry {
    /// Creates a session; returns its handle.
    SessionNew,
    /// Releases a session.
    SessionFree { session: usize },
    /// Begins closing a session; returns a future.
    SessionClose { session: usize },
    /// Begins connecting a session; returns a future.
    SessionConnect { session: usize, cluster: usize },
    /// Begins connecting a session to the keyspace named by the terminated
    /// text; returns a future.
    SessionConnectKeyspace { session: usize, cluster: usize },
    /// Begins preparing the query in the terminated text; returns a future.
    SessionPrepare { session: usize },
    /// Begins executing a statement; returns a future.
    SessionExecute { session: usize, statement: usize },
    /// Begins executing a batch; returns a future.
    SessionExecuteBatch { session: usize, batch: usize },
    /// Takes a snapshot of the schema; returns its handle.
    SessionGetSchema { session: usize },
    /// Creates a statement from the text, given with its length, and a count
    /// of bound parameters; returns its handle.
    StatementNew { parameter_count: u64 },
    /// Releases a statement.
    StatementFree { statement: usize },
    /// Releases a batch.
    BatchFree { batch: usize },
    /// Releases a cluster configuration.
    ClusterFree { cluster: usize },
    /// Blocks until a future is set.
    FutureWait { future: usize },
    /// Returns the status of a future that is set.
    FutureErrorCode { future: usize },
    /// Returns the handle of the prepared statement of a future that
    /// succeeded.
    FutureGetPrepared { future: usize },
    /// Returns the handle of the result of a future that succeeded.
    FutureGetResult { future: usize },
    /// Releases a future.
    FutureFree { future: usize },
}

/// What an entry point returned.
#[derive(Debug, Clone, Copy, PartialEq, Eq, Structural)]
pub enum Reply {
    /// It returned, and returns no value.
    Returned,
    /// It returned the handle of a native object.
    Handle(usize),
    /// It returned a status code.
    Status(u32),
}

/// The kinds of value that an entry point can return.
#[derive(Debug, Clone, Copy, PartialEq, Eq, Structural)]
pub enum ReplyKind {
    Returned,
    Handle,
    Status,
}

impl Reply {
    /// The kind of `self`.
    pub open spec fn kind_of(self) -> ReplyKind {
        match self {
            Reply::Returned => ReplyKind::Returned,
            Reply::Handle(_) => ReplyKind::Handle,
            Reply::Status(_) => ReplyKind::Status,
        }
    }

    /// The kind of `self`.
    pub fn kind(&self) -> (kind: ReplyKind)
        ensures
            kind == self.kind_of(),
    {
        match self {
            Reply::Returned => ReplyKind::Returned,
            Reply::Handle(_) => ReplyKind::Handle,
            Reply::Status(_) => ReplyKind::Status,
        }
    }
}

impl Entry {
    /// The kind of value that the entry point returns.
    pub open spec fn answer_kind(self) -> ReplyKind {
        match self {
            Entry::SessionNew => ReplyKind::Handle,
            Entry::SessionFree { .. } => ReplyKind::Returned,
            Entry::SessionClose { .. } => ReplyKind::Handle,
            Entry::SessionConnect { .. } => ReplyKind::Handle,
            Entry::SessionConnectKeyspace { .. } => ReplyKind::Handle,
            Entry::SessionPrepare { .. } => ReplyKind::Handle,
            Entry::SessionExecute { .. } => ReplyKind::Handle,
            Entry::SessionExecuteBatch { .. } => ReplyKind::Handle,
            Entry::SessionGetSchema { .. } => ReplyKind::Handle,
            Entry::StatementNew { .. } => ReplyKind::Handle,
            Entry::StatementFree { .. } => ReplyKind::Returned,
            Entry::BatchFree { .. } => ReplyKind::Returned,
            Entry::ClusterFree { .. } => ReplyKind::Returned,
            Entry::FutureWait { .. } => ReplyKind::Returned,
            Entry::FutureErrorCode { .. } => ReplyKind::Status,
            Entry::FutureGetPrepared { .. } => ReplyKind::Handle,
            Entry::FutureGetResult { .. } => ReplyKind::Handle,
            Entry::FutureFree { .. } => ReplyKind::Returned,
        }
    }

    /// True of the entry points that release a native object.
    pub open spec fn is_release(self) -> bool {
        self is SessionFree || self is StatementFree || self is BatchFree || self is ClusterFree
            || self is FutureFree
    }

    /// The kind of value that the entry point returns.
    pub fn answer(&self) -> (kind: ReplyKind)
        ensures
            kind == self.answer_kind(),
    {
        match self {
            Entry::SessionFree { .. }
            | Entry::StatementFree { .. }
            | Entry::BatchFree { .. }
            | Entry::ClusterFree { .. }
            | Entry::FutureWait { .. }
            | Entry::FutureFree { .. } => ReplyKind::Returned,
            Entry::FutureErrorCode { .. } => ReplyKind::Status,
            _ => ReplyKind::Handle,
        }
    }
}

/// The test for a release.
pub open spec fn release() -> spec_fn(Entry) -> bool {
    |entry: Entry| entry.is_release()
}

/// The test for `entry`.
pub open spec fn same_as(entry: Entry) -> spec_fn(Entry) -> bool {
    |call: Entry| call == entry
}

/// The releases among `calls`, in order.
pub open spec fn releases(calls: Seq<Entry>) -> Seq<Entry> {
    calls.filter(release())
}

/// How often `entry` stands among `calls`.
pub open spec fn occurrences(calls: Seq<Entry>, entry: Entry) -> nat {
    calls.filter(same_as(entry)).len()
}

} // verus!
