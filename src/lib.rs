//! A write-once, read-many cell whose value becomes available later, possibly
//! from another thread.

pub mod cell;
pub mod slot;
mod sync;

pub use cell::CompletableFuture;
pub use slot::{fill_once, is_empty, peek, wait_outcome, CompletionError, PollState};
