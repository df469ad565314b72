//! Keeps a set of local working copies in step with their remotes.
//!
//! The crate is the decision-making core of a fetch tool. It never touches a
//! repository itself and starts no thread: a driver performs the
//! version-control calls and the threading, and hands every answer back to
//! the state machines defined here.
//!
//! * [`task`] holds the task descriptors read from the configuration.
//! * [`vcs`] holds the calls that a worker asks for and the replies to them.
//! * [`outcome`] holds what one task can end with.
//! * [`worker`] carries one task through its calls to its outcome.
//! * [`result`] gathers the outcomes and settles the exit status.
//! * [`orchestrator`] launches one unit of work for each task and waits for
//!   all of them.
//! * [`laws`] states what holds of every run.

pub mod laws;
pub mod orchestrator;
pub mod outcome;
pub mod result;
pub mod task;
pub mod vcs;
pub mod worker;
