//! Reconciliation logic of the Minecraft server operator.
//!
//! One custom resource declares one Minecraft server. The operator brings the
//! cluster to the state that the resource asks for: a service account, a
//! persistent volume claim, a deployment, a service and, where the platform has
//! routes, a route. This crate holds the logic of that, proved against its
//! specification; talking to the cluster is left to whoever drives it.
//!
//! - [`crd`], [`meta`], [`pod`], [`resources`]: the plain data that the logic
//!   works on, each type with its mathematical view.
//! - [`string_map`], [`named`], [`text`]: maps keyed by text, lists whose items
//!   are found by name, and helpers for text.
//! - [`ownership`], [`topology`], [`workload`]: the desired state of each child.
//! - [`sync`]: what to do about one child, given what the cluster holds.
//! - [`status`]: the outcome as the parent records it.
//! - [`controller`]: the reconciliation, one step at a time.
//! - [`cluster`]: a model of the cluster and of a whole reconciliation.
//! - [`laws`], [`idempotence`], [`convergence`]: what holds of the desired
//!   state and of whole reconciliations.

pub mod cluster;
pub mod controller;
pub mod convergence;
pub mod crd;
pub mod error;
pub mod idempotence;
pub mod laws;
pub mod meta;
pub mod named;
pub mod ownership;
pub mod pod;
pub mod resources;
pub mod status;
pub mod string_map;
pub mod sync;
pub mod text;
pub mod topology;
pub mod workload;
