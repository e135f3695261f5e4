//! Sans-I/O core of a JVM heap dump analyzer.
//!
//! The crate decides and computes; it never opens a file, starts a thread or
//! runs a process. A host program performs that work and hands plain values
//! in: the first bytes of a file, the preamble region, what a helper process
//! printed.

pub mod coordinator;
pub mod dtfj_search;
pub mod errors;
pub mod format;
pub mod header;
pub mod java_bridge;
pub mod pool;
pub mod prefetch;
pub mod rendered_result;
pub mod result_recorder;
pub mod slurp;
pub mod stream;
pub mod text;
