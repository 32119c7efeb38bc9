//! A harness that compiles WebAssembly modules, caches the artifacts under
//! keys derived from their content, and runs their entry point, in the same
//! way for every backend, so that the costs of the phases can be compared.
//!
//! - `backend` names the compilation strategies.
//! - `cache` derives the key of an artifact from its bytes, tells a key
//!   from any other text, derives paths and models the cache directory.
//! - `runner` orders the phases of each mode of operation and decides how
//!   a run ends.
//! - `wasmer_runner` and `lucet_runner` carry out the phases with their
//!   engines.
//! - `fibonacci` is the workload, in native code.

pub mod backend;
pub mod cache;
pub mod fibonacci;
pub mod lucet_runner;
pub mod runner;
pub mod wasmer_runner;
