//! Encrypted credential store and worker-process supervisor.
//!
//! The secret store works on the text of the on-disk envelope; the supervisor is a
//! state machine over the handle of at most one worker process. Reading and writing
//! files, spawning processes and sleeping are left to the caller.

pub mod document;
pub mod launch;
pub mod primitives;
pub mod secrets;
pub mod supervisor;
pub mod text;
pub mod workspace;
