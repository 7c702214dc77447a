//! Build and test orchestration for C projects.
//!
//! A project is a directory with a configuration file, sources below `src`
//! and tests beside them or below `tests`. The library decides what is to
//! be done for one: which compiler, formatter or documentation generator to
//! work with, which sources go to the compiler, in which order and with
//! which flags, how each test is compiled and what the end of its run
//! means, which dependencies are linked or cloned.
//!
//! The library looks at the machine, and changes nothing on it. What it
//! decides comes back as plain values: a command to run, a request to the
//! compiler, steps to take. The caller carries them out and hands back how
//! they ended.
//!
//! Every decision has two forms. One takes what the machine would answer as
//! arguments and says exactly what follows from them. The other asks the
//! machine and decides by the first.

pub mod backend;
pub mod building;
pub mod compiler;
pub mod config;
pub mod docgen;
pub mod error;
pub mod format;
pub mod host;
pub mod install;
pub mod paths;
pub mod project;
pub mod scaffold;
pub mod sources;
pub mod testing;
pub mod text;
