//! Early revision of the workload handling, kept for compatibility: a
//! plain deployment around the stock web-server image, without the
//! environment wiring the agent handler adds.

use vstd::prelude::*;

use crate::cluster::{Cluster, ClusterView};
use crate::controller::Error;
use crate::crd::CDBootstrap;
use crate::objects::Workload;
use crate::subresources::{new_simple_workload, simple_workload};

verus! {

use vstd::string::StringExecFns;

/// The store after the early-revision deploy or update: the workload
/// slot holds the plain deployment.
pub open spec fn spec_deploy_store(
    c: ClusterView,
    name: Seq<char>,
    ns: Seq<char>,
    replicas: i32,
) -> ClusterView {
    ClusterView { workload: Some(simple_workload(name, ns, "nginx:latest"@, replicas)), ..c }
}

/// Creates a new deployment of `n` pods, where `n` is the spec's replica
/// count. Creation assumes the deployment does not exist yet: an
/// existing one surfaces as a platform error.
pub fn deploy(cluster: &mut Cluster, name: &str, namespace: &str, cr: &CDBootstrap) -> (r: Result<
    Workload,
    Error,
>)
    ensures
        old(cluster)@.workload is None ==> r is Ok && final(cluster)@ == spec_deploy_store(
            old(cluster)@,
            name@,
            namespace@,
            cr@.spec.replicas,
        ) && (r matches Ok(w) ==> w@ == simple_workload(
            name@,
            namespace@,
            "nginx:latest"@,
            cr@.spec.replicas,
        )),
        old(cluster)@.workload is Some ==> (r matches Err(Error::KubeError(_)))
            && final(cluster)@ == old(cluster)@,
{
    match &cluster.workload {
        Some(_) => Err(Error::KubeError(String::from_str("deployment already exists"))),
        None => {
            let r = new_simple_workload(name, namespace, "nginx:latest", cr.spec.replicas);
            cluster.workload = Some(
                new_simple_workload(name, namespace, "nginx:latest", cr.spec.replicas),
            );
            proof {
                assert(cluster@ =~= spec_deploy_store(
                    old(cluster)@,
                    name@,
                    namespace@,
                    cr@.spec.replicas,
                ));
            }
            Ok(r)
        },
    }
}

/// Deletes the existing deployment. Existence is assumed: a missing one
/// surfaces as a platform error.
pub fn delete(cluster: &mut Cluster, name: &str, namespace: &str) -> (r: Result<(), Error>)
    ensures
        old(cluster)@.workload is Some ==> r is Ok && final(cluster)@ == (ClusterView {
            workload: None,
            ..old(cluster)@
        }),
        old(cluster)@.workload is None ==> (r matches Err(Error::KubeError(_)))
            && final(cluster)@ == old(cluster)@,
{
    match &cluster.workload {
        Some(_) => {
            cluster.workload = None;
            proof {
                assert(cluster@ =~= (ClusterView { workload: None, ..old(cluster)@ }));
            }
            Ok(())
        },
        None => Err(Error::KubeError(String::from_str("deployment not found"))),
    }
}

/// Updates the existing deployment to the spec, or creates it when it is
/// missing; either way the store afterwards holds the freshly
/// constructed deployment.
pub fn update(cluster: &mut Cluster, name: &str, namespace: &str, cr: &CDBootstrap) -> (r: Result<
    Workload,
    Error,
>)
    ensures
        r is Ok,
        final(cluster)@ == spec_deploy_store(old(cluster)@, name@, namespace@, cr@.spec.replicas),
        r matches Ok(w) ==> w@ == simple_workload(
            name@,
            namespace@,
            "nginx:latest"@,
            cr@.spec.replicas,
        ),
{
    match &cluster.workload {
        Some(_) => {
            let r = new_simple_workload(name, namespace, "nginx:latest", cr.spec.replicas);
            cluster.workload = Some(
                new_simple_workload(name, namespace, "nginx:latest", cr.spec.replicas),
            );
            proof {
                assert(cluster@ =~= spec_deploy_store(
                    old(cluster)@,
                    name@,
                    namespace@,
                    cr@.spec.replicas,
                ));
            }
            Ok(r)
        },
        None => deploy(cluster, name, namespace, cr),
    }
}

/// Create-or-replace of the deployment; the observable effect equals
/// that of [`update`].
pub fn deploy_or_update(cluster: &mut Cluster, name: &str, namespace: &str, cr: &CDBootstrap) -> (r:
    Result<Workload, Error>)
    ensures
        r is Ok,
        final(cluster)@ == spec_deploy_store(old(cluster)@, name@, namespace@, cr@.spec.replicas),
        r matches Ok(w) ==> w@ == simple_workload(
            name@,
            namespace@,
            "nginx:latest"@,
            cr@.spec.replicas,
        ),
{
    match &cluster.workload {
        Some(_) => {
            let r = new_simple_workload(name, namespace, "nginx:latest", cr.spec.replicas);
            cluster.workload = Some(
                new_simple_workload(name, namespace, "nginx:latest", cr.spec.replicas),
            );
            proof {
                assert(cluster@ =~= spec_deploy_store(
                    old(cluster)@,
                    name@,
                    namespace@,
                    cr@.spec.replicas,
                ));
            }
            Ok(r)
        },
        None => {
            let r = new_simple_workload(name, namespace, "nginx:latest", cr.spec.replicas);
            cluster.workload = Some(
                new_simple_workload(name, namespace, "nginx:latest", cr.spec.replicas),
            );
            proof {
                assert(cluster@ =~= spec_deploy_store(
                    old(cluster)@,
                    name@,
                    namespace@,
                    cr@.spec.replicas,
                ));
            }
            Ok(r)
        },
    }
}

} // verus!
