//! The decisions of the koordinator: when the process of a container is
//! started, when and how it is stopped, and with which exit code the container
//! ends.
//!
//! The crate does no I/O. The program around it watches the pod, runs the child
//! process and delivers signals; it hands what it observes to the state machines
//! of this crate and performs the actions that they answer with.

pub mod config;
pub mod coordinator;
pub mod duration;
pub mod events;
pub mod init;
pub mod laws;
pub mod numbers;
pub mod pod;
pub mod process;
pub mod results;
pub mod signals;
pub mod startup;
pub mod text;
