//! Client-side execution engine of an embedded-SQL compatible library whose
//! statements run on a remote database reached over an HTTP pipeline or a
//! WebSocket: the prepared-statement state machine, the parameter and row
//! model, the transaction baton protocol, and the decisions of the two
//! transports. Network I/O, the foreign-call layer and the async runtime sit
//! around it and hand it plain values.
use vstd::prelude::*;

pub mod codes;
pub mod text;
pub mod sql;
pub mod value;
pub mod protocol;
pub mod database;
pub mod statement;
pub mod transport;
pub mod bus;
pub mod auth;
pub mod errors;

verus! {

} // verus!
