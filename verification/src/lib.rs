//! A metering layer for a module that runs inside a larger host process.
//!
//! Two independent components share one rule: nothing in here may bring the
//! host down. The byte counter caps how much memory the module may hold at
//! once and reports exhaustion as an ordinary value. The random facility
//! hands out integers drawn from the operating system's entropy and reports
//! an entropy failure as an ordinary value too.
//!
//! - `ceiling`: the ceiling, the counter's arithmetic, the admission rule.
//! - `counter`: the counter for one holder, with exact contracts.
//! - `shared`: the same operations on one atomic word, for many threads.
//! - `history`: what holds of every sequence of allocations and releases.
//! - `interleaving`: what holds of every interleaving of atomic steps.
//! - `random`: the two random entry points.
//!
//! The library never calls the underlying allocator itself: the caller hands
//! it in as a closure, and the library decides when it runs.

pub mod ceiling;
pub mod counter;
pub mod history;
pub mod interleaving;
pub mod random;
pub mod shared;

pub use ceiling::{AllocError, CEILING};
pub use counter::ByteCounter;
pub use random::{get_secure_random_u64, get_secure_random_uint32, RandomError};
