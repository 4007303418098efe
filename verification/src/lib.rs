//! Test execution engine for an interactive algorithm trainer.
//!
//! The crate holds the decisions of the engine as verified functions over
//! plain values: how a run command is tokenised, how a finished process is
//! classified, how the worker schedules one test case at a time, and how the
//! suite keeps one status per test case.  Spawning processes, threads and
//! channels is left to the program around it.

pub mod common;
pub mod test_runner;
pub mod data;
pub mod test_suite;
pub mod text;
pub mod input_handler;
pub mod arguments;
pub mod settings;
pub mod controller;
pub mod model;
pub mod display;
pub mod complexity;
pub mod ui;
