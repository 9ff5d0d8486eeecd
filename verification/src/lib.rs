//! Verified core of a GPU texture-memory micro-benchmark.
//!
//! The library holds everything the benchmark decides or computes: the fixed
//! list of test configurations, the command-line selector, the sequence of
//! graphics commands each test issues (together with a model of the graphics
//! state it drives), and the text of every report line. The surrounding
//! binary only opens the graphics context, plays the commands, samples
//! process memory, and prints the lines the library hands it.

pub mod config;
pub mod plan;
pub mod report;
