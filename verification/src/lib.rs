//! Minimal clipboard utility library: resolves the action to perform from the
//! command-line arguments (and, when none are given, from whether standard
//! input is attached to a terminal), and produces the fixed texts the program
//! prints (the usage message and the error messages).

pub mod help;
pub mod mode;
pub mod text;
