//! Decision logic of a small server that exposes the executables of one
//! directory as authenticated HTTP endpoints: who may run what, how the
//! output of a run is laid out as HTML, and how failures are rendered.

pub mod pattern;
pub mod config;
pub mod auth;
pub mod render;
pub mod lines;
pub mod merge;
pub mod report;
pub mod startup;
