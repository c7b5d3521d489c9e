//! Supervision of build-tool subprocesses for mutation testing: argument
//! construction, project location and the decisions of the supervision loop.

pub mod cargo;
pub mod options;
pub mod phase;
pub mod supervisor;
pub mod locate;
