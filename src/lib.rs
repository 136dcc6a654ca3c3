//! A safe layer over a handle-based version-control engine.
//!
//! The engine itself is reached by the program around this library; what
//! stands here is the part that decides: how result codes become errors,
//! when an out-parameter may be read, how text crosses the boundary, when the
//! engine is set up and torn down, and which value owns which handle.

pub mod error;
pub mod lifecycle;
pub mod repository;
pub mod text;

pub use error::{Error, ErrorRecord};
pub use lifecycle::Lifecycle;
pub use repository::{Commit, Oid, Repository, Signature};
