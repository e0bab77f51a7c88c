//! The decisions of the Kubilitics desktop shell, verified.
//!
//! The shell keeps two sidecar processes alive: the backend engine and the AI
//! service that depends on it. This crate holds the supervisor of these two
//! services as code without I/O: the shell reports what it observed as an
//! event, the supervisor moves its state on and answers with the effects that
//! the shell is to perform. Every step is stated by a spec function, and the
//! laws that hold over whole runs are proved in [`laws`] and [`ownership`].
//!
//! - [`probe`] judges health probes and tells who holds a port.
//! - [`readiness`] decides how a readiness wait goes on.
//! - [`service`] and [`events`] hold the configuration and state of a service
//!   and the vocabulary of events and effects.
//! - [`supervisor`] supervises one service, [`sidecar`] manages the two.
//! - [`launcher`] finds executables and builds the environment of a launch.
//!
//! The commands that the shell offers to its web view take their decisions
//! here as well: [`commands`], [`kubeconfig`], [`crypto`], [`files`], [`menu`],
//! [`tray`] and [`mobile`]. Parsing, hashing and encryption are done by
//! `serde_json`, `serde_yaml`, `sha2`, `aes-gcm` and `base64`; the functions
//! that call them are in [`json`], [`yaml`] and [`crypto`], and their
//! contracts are taken on trust.

pub mod backend_ports;
pub mod commands;
pub mod crypto;
pub mod events;
pub mod files;
pub mod json;
pub mod kubeconfig;
pub mod launcher;
pub mod laws;
pub mod menu;
pub mod mobile;
pub mod ownership;
pub mod probe;
pub mod readiness;
pub mod service;
pub mod sidecar;
pub mod supervisor;
pub mod text;
pub mod tray;
pub mod yaml;
