//! Option/argument interpreter for a command-line tool that prints a list of
//! paths as a tree.  The interpreter scans the process argument list once,
//! left to right, and produces either a validated configuration, a help or
//! usage request, or a diagnostic naming the offending token.

pub mod laws;
pub mod options;
