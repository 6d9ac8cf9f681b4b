//! The building blocks of a libsolv binding, verified: the id queue, checksums
//! over byte streams, the string pool, the digest contexts, the repository
//! data decisions, and the repositories of a dependency chase with their
//! cookies.
pub mod chksum;
pub mod queue;
pub mod repo;
pub mod repos;
pub mod strpool;
pub mod sys;

use vstd::prelude::*;

verus! {

/// An identifier as libsolv hands it out: a C `int`.
pub type Id = i32;

} // verus!
