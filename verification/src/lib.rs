//! A verified model of a bootstrap-resource controller.
//!
//! The library captures the decision logic of a reconciliation engine that
//! drives a custom resource toward its declared state: action selection,
//! the finalizer protocol, the desired-state comparator, idempotent
//! apply/delete of the dependent objects, and the credential bootstrap
//! pipeline. All state-changing operations act on an in-memory [`cluster::Cluster`]
//! model; the unverified host binary maps them onto real platform calls.

pub mod cdbootstrap;
pub mod cluster;
pub mod controller;
pub mod crd;
pub mod finalizer;
pub mod objects;
pub mod status;
pub mod subresources;
pub mod vault;
