//! The logic of a view that shows the differences between two buffers: how it
//! is opened, what it is called, and how its diff is kept up to date.
//!
//! Everything that the host provides (buffers, texts, projects, panes) is passed
//! through as values of the host's own types. What the library decides is stated
//! in the contracts of its functions and, where several functions are involved,
//! in the `law_` functions.

pub mod diff;
pub mod label;
pub mod opening;
pub mod path;
pub mod recalculate;
pub mod schedule;
pub mod session;
pub mod text;
pub mod view;
