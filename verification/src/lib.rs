//! Build-and-sign pipeline for WebAssembly actor projects, and the request
//! framing of the application-manager client that shares its command line.
//!
//! The library decides; it performs no I/O. Callers run the toolchains, touch
//! the filesystem and talk to the message bus, and report what happened.
//!
//! The build side: `config` holds the project declaration, `backend` turns
//! it into a build plan per language, `pipeline` is the state machine that
//! sequences build, sign and push, `outcome` is how a run ends, `runs`
//! states what holds of every run, and `disk` what that means for the
//! files when the collaborators keep their side. `test_command` chooses
//! and reads the checks of a project.
//!
//! The manager side: `model` frames the requests, `reply` reads what came
//! back, and `codec` is the trusted edge to the JSON codec, the only part
//! that is not proved. `text` and `toolchain` are shared.

pub mod backend;
pub mod codec;
pub mod config;
pub mod disk;
pub mod model;
pub mod outcome;
pub mod pipeline;
pub mod reply;
pub mod runs;
pub mod test_command;
pub mod text;
pub mod toolchain;
