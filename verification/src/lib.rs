//! Sandboxed execution of untrusted code snippets inside a container runtime:
//! resolving the resource profile, assembling the runtime command line,
//! transporting the payload, and classifying the outcome of a run.

pub mod animal;
pub mod configurable;
pub mod configuration;
pub mod container;
pub mod decimal;
pub mod hardening;
pub mod question;
pub mod quiz;
pub mod reply;
pub mod runnable;
pub mod sound;
pub mod transport;
pub mod words;
