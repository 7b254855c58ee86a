//! A wizard that sets up a new development machine: it asks who the user is
//! and which shell, prompt, terminal and tools they want, and then installs
//! what was chosen.
//!
//! The library decides and never acts. It holds the state of the wizard
//! and what each key does to it, the install run and the set-up of git as
//! state machines that name the next command and are told how it ended,
//! and the events by which a run reports. Whoever uses the library draws
//! the screens, reads the keys, runs the commands and carries the events
//! from the worker to the interface.
//!
//! - [`wizard`]: the phases of a session and the choices made in it
//! - [`catalog`]: the tools that can be chosen
//! - [`executor`]: commands, their outcomes, and the events of a run
//! - [`run`]: the install run, with the laws that hold of every run
//! - [`github`]: the set-up of git and the code host after the run
//! - [`session`]: what keys, ticks and events do to an interactive session
//! - [`system`]: what is known of the machine, and the checks before a run
//! - [`effects`]: the animations of the interface
//! - [`text`]: operations on text that the rest is written in

pub mod catalog;
pub mod effects;
pub mod executor;
pub mod github;
pub mod run;
pub mod session;
pub mod system;
pub mod text;
pub mod wizard;
