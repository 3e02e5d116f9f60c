//! A lock-coordinated, read-optimized shared mutable cell.
//!
//! The core is the triad [`Flag`], `State` and `StateGuard`: a boolean
//! exclusion signal, a value cell offering snapshot reads and serialized
//! exclusive writes, and a scoped write lease that commits on release.
//!
//! The cell protocol is modelled with exclusive borrows: every operation that
//! mutates a flag or a state takes `&mut self`, so its effect can be stated
//! exactly in its contract.

pub mod config;
pub mod error;
pub mod flag;
pub mod lines;
pub mod logger;
pub mod state;
pub mod tail;
pub mod wake;

pub use error::Error;
pub use flag::{Flag, FlagWrap};
pub use state::{State, StateGuard, StateWrap};
