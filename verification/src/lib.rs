//! Protocol core of a session wrapper for a native Cassandra driver.
//!
//! The crate decides which native entry points are invoked, with which
//! arguments and in which order, and how what they return becomes a typed
//! result. It never touches the driver itself: every operation returns a
//! request, and the embedding makes the calls one at a time and hands back
//! what each returned.
//!
//! - `error`: status codes as results.
//! - `text`: texts in the driver's terminated form.
//! - `native`: the entry points of the driver and what they return.
//! - `handle`, `future`, `session`: the owners of native objects, and the
//!   operations on them.
//! - `exchange`: an operation under way, and the step from reply to next
//!   call.
//! - `runs`: the complete run of each operation.
//! - `laws`: what holds whatever the driver replies.

pub mod error;
pub mod exchange;
pub mod future;
pub mod handle;
pub mod laws;
pub mod native;
pub mod runs;
pub mod session;
pub mod text;
