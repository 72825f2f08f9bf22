//! A backend process supervisor: it plans the launch of a long-running server
//! subprocess, classifies health probes and drives the readiness loop that
//! waits for the server to come up, and decides the termination actions that
//! guarantee the subprocess is cleaned up when the host application exits.
//!
//! The supervisor itself performs no I/O: spawning, HTTP probing, sleeping and
//! killing are actions that the host performs, while every decision between
//! them is made and verified here.

pub mod launcher;
pub mod lifecycle;
pub mod readiness;
pub mod supervisor;
