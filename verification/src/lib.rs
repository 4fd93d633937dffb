//! A verified core for a small-footprint zenoh session: key-expression
//! matching, session bookkeeping and the decisions that drive queries,
//! replies and peer handshakes.
use vstd::prelude::*;

pub mod keyexpr;
pub mod intern;
pub mod slots;
pub mod establishment;
pub mod channel;
pub mod messages;
pub mod session;
pub mod queryable;
pub mod get;
pub mod lifecycle;
pub mod put;
pub mod publisher;
pub mod subscriber;
pub mod ts;
pub mod mesh;
pub mod ws;

verus! {

} // verus!
