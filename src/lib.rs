//! A build-then-wrap dispatcher: a build tool is run, the artifact path it
//! prints is validated, and a second tool chosen by the caller is run on it.
//!
//! The library holds every decision of that protocol: how the argument list
//! is partitioned, which build command is issued, how the build tool's output
//! becomes an artifact path, and which step follows each outcome. The process
//! work itself (spawning, waiting, reading metadata) is left to the driver.
pub mod error;
pub mod run;
pub mod split;
pub mod text;
