//! Exception-style error propagation with a verified protocol.
//!
//! A failing computation stages its error in an [`Exception`] slot and hands back an
//! [`Unwind`] signal instead of the error itself. The signal travels through the
//! callers until a boundary claims the slot and rebuilds an ordinary `Result`.
//! Scope guards ([`ExceptionMapper`]) convert the staged error from one type to
//! another as the signal passes through them.
pub mod exception;
pub mod forward;
pub mod mapper;
pub mod marker;
pub mod outcome;

pub use exception::Exception;
pub use forward::{catch_scope, forward, forward_same};
pub use mapper::ExceptionMapper;
pub use marker::{Marker, NoCopy};
pub use outcome::{claim, Outcome, Unwind};
