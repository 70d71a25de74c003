//! Conway's Game of Life on a double-buffered compute and render pipeline.
//!
//! Two cell buffers alternate between the roles "read" and "write". A parity
//! bit selects one of two fixed bindings; a generation step reads one buffer
//! and writes the other, and a completed frame flips the bit. This crate holds
//! the rules of that scheme and their proofs: the automaton itself, the
//! bindings, the work a frame issues, and the decisions taken when a frame
//! cannot be presented. Driving a device and a window is left to the caller.
//!
//! Edges do not wrap: a coordinate outside the grid counts as a dead cell.

pub mod app;
pub mod binding;
pub mod compute;
pub mod grid;
pub mod life;
pub mod patterns;
pub mod pipeline;
pub mod ui;
