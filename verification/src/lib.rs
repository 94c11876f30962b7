//! A memory-safe object model over X11 windows that a foreign display
//! toolkit owns.
//!
//! The toolkit makes, changes and frees its windows when it pleases and tells
//! of it through callbacks. This library keeps the books on them: which
//! windows are wrapped, which lineage each belongs to, which handler listens,
//! and which registration records are spliced into the toolkit's notification
//! lists. It never touches foreign memory. Whoever drives the toolkit hands
//! in addresses as numbers and field values as copies, and carries out what
//! the library answers.
//!
//! - `liveliness`: the cells that say whether a lineage is still alive.
//! - `handle`: weak references that can be kept for any length of time.
//! - `surface`: the owned wrapper that an upgraded handle gives.
//! - `shell`: the dispatch table of one window.
//! - `handler`: the interface that application code implements.
//! - `registry`: the state blocks of all wrapped windows and of the display
//!   surfaces that back them, and dispatch.
//! - `event`, `native`, `area`: the plain values that go in and out.
//! - `model`: the mathematical model that the contracts are stated over.
//! - `trace`: what holds over every history of operations.
pub mod area;
pub mod event;
pub mod handle;
pub mod handler;
pub mod liveliness;
pub mod model;
pub mod native;
pub mod registry;
pub mod shell;
pub mod surface;
pub mod trace;
