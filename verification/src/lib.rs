//! Pendulums command line: the decisions of each command, verified.
pub mod cli;
