//! In-memory model of the slice of the object store the controller owns.
//!
//! The platform guarantees at most one dependent object of each kind per
//! resource, so the store holds one optional slot per kind beside the
//! resource itself. Every verified state change of the library is a
//! function on this model; the unverified host binary replays the same
//! changes against the real store.

use vstd::prelude::*;

use crate::crd::{CDBootstrap, CDBootstrapView};
use crate::objects::{ConfigMap, ConfigMapView, NetworkPolicy, NetworkPolicyView, Secret,
    SecretView, Workload, WorkloadView};

verus! {

/// The custom resource together with its dependent objects.
#[derive(Debug, Clone, PartialEq, Eq)]
pub struct Cluster {
    pub resource: CDBootstrap,
    pub workload: Option<Workload>,
    pub config: Option<ConfigMap>,
    pub secret: Option<Secret>,
    pub policy: Option<NetworkPolicy>,
}

/// Abstract value of a [`Cluster`].
#[verifier::ext_equal]
pub struct ClusterView {
    pub resource: CDBootstrapView,
    pub workload: Option<WorkloadView>,
    pub config: Option<ConfigMapView>,
    pub secret: Option<SecretView>,
    pub policy: Option<NetworkPolicyView>,
}

impl View for Cluster {
    type V = ClusterView;

    open spec fn view(&self) -> ClusterView {
        ClusterView {
            resource: self.resource@,
            workload: self.workload.deep_view(),
            config: self.config.deep_view(),
            secret: self.secret.deep_view(),
            policy: self.policy.deep_view(),
        }
    }
}

} // verus!
