//! The graph-and-vector memory: the tables it keeps, the requests put to the
//! store and the reading of the rows that come back. The store itself, and
//! the embedding of texts, are reached by the caller.

pub mod events;
pub mod requests;
pub mod rows;
pub mod schema;
pub mod sync;
