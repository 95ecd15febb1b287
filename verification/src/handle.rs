//! Handles of the native objects that a session is given or gives out.
//!
//! Each value owns the native object at the address it holds.

use vstd::prelude::*;

verus! {

/// A cluster configuration: the parameters of a connection.
#[derive(Debug, PartialEq, Eq)]
pub struct Cluster(pub usize);

/// A statement, built and bound by the caller.
#[derive(Debug, PartialEq, Eq)]
pub struct CassStatement(pub usize);

/// A batch of statements.
#[derive(Debug, PartialEq, Eq)]
pub struct CassBatch(pub usize);

/// A snapshot of a session's schema.
#[derive(Debug, PartialEq, Eq)]
pub struct CassSchema(pub usize);

/// A prepared statement.
#[derive(Debug, PartialEq, Eq)]
pub struct CassPrepared(pub usize);

/// The result set of a query.
#[derive(Debug, PartialEq, Eq)]
pub struct CassResult(pub usize);

} // verus!
