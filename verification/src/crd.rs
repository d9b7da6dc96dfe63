//! The custom resource: its spec, status and metadata.

use vstd::prelude::*;

verus! {

/// Desired state declared by the user on the custom resource.
#[derive(Debug, Clone, PartialEq, Eq)]
pub struct CDBootstrapSpec {
    pub replicas: i32,
    pub url: String,
    pub pool: String,
    pub keyvault: String,
    pub spn: String,
    pub tenant: String,
}

/// Abstract value of a [`CDBootstrapSpec`].
#[verifier::ext_equal]
pub struct CDBootstrapSpecView {
    pub replicas: i32,
    pub url: Seq<char>,
    pub pool: Seq<char>,
    pub keyvault: Seq<char>,
    pub spn: Seq<char>,
    pub tenant: Seq<char>,
}

impl View for CDBootstrapSpec {
    type V = CDBootstrapSpecView;

    open spec fn view(&self) -> CDBootstrapSpecView {
        CDBootstrapSpecView {
            replicas: self.replicas,
            url: self.url@,
            pool: self.pool@,
            keyvault: self.keyvault@,
            spn: self.spn@,
            tenant: self.tenant@,
        }
    }
}

/// Externally visible outcome of the last reconciliation pass.
#[derive(PartialEq, Eq, Structural, Clone, Copy, Debug)]
pub struct CDBootstrapStatus {
    pub succeeded: bool,
}

/// The slice of object metadata the controller reads and writes.
///
/// An empty finalizer list stands for an absent one: the platform treats
/// the two the same way, and so does the controller.
#[derive(Debug, Clone, PartialEq, Eq)]
pub struct ResourceMeta {
    pub name: Option<String>,
    pub namespace: Option<String>,
    pub deletion_timestamp: Option<String>,
    pub finalizers: Vec<String>,
}

/// Abstract value of a [`ResourceMeta`].
#[verifier::ext_equal]
pub struct ResourceMetaView {
    pub name: Option<Seq<char>>,
    pub namespace: Option<Seq<char>>,
    pub deletion_timestamp: Option<Seq<char>>,
    pub finalizers: Seq<Seq<char>>,
}

impl View for ResourceMeta {
    type V = ResourceMetaView;

    open spec fn view(&self) -> ResourceMetaView {
        ResourceMetaView {
            name: self.name.deep_view(),
            namespace: self.namespace.deep_view(),
            deletion_timestamp: self.deletion_timestamp.deep_view(),
            finalizers: self.finalizers.deep_view(),
        }
    }
}

/// The custom resource instance the controller reconciles.
#[derive(Debug, Clone, PartialEq, Eq)]
pub struct CDBootstrap {
    pub metadata: ResourceMeta,
    pub spec: CDBootstrapSpec,
    pub status: Option<CDBootstrapStatus>,
}

/// Abstract value of a [`CDBootstrap`].
#[verifier::ext_equal]
pub struct CDBootstrapView {
    pub metadata: ResourceMetaView,
    pub spec: CDBootstrapSpecView,
    pub status: Option<CDBootstrapStatus>,
}

impl View for CDBootstrap {
    type V = CDBootstrapView;

    open spec fn view(&self) -> CDBootstrapView {
        CDBootstrapView { metadata: self.metadata@, spec: self.spec@, status: self.status }
    }
}

/// The resource's name, or the empty string when none is set.
pub open spec fn spec_name_any(meta: ResourceMetaView) -> Seq<char> {
    match meta.name {
        Some(n) => n,
        None => Seq::<char>::empty(),
    }
}

impl CDBootstrap {
    /// The resource's name, or the empty string when none is set.
    pub fn name_any(&self) -> (r: String)
        ensures
            r@ == spec_name_any(self.metadata@),
    {
        match &self.metadata.name {
            Some(n) => n.clone(),
            None => String::new(),
        }
    }

    /// The resource's namespace, if one is set.
    pub fn namespace(&self) -> (r: Option<String>)
        ensures
            r.deep_view() == self.metadata@.namespace,
    {
        match &self.metadata.namespace {
            Some(ns) => Some(ns.clone()),
            None => None,
        }
    }

    /// A copy of the resource as a reconciliation pass first observed it;
    /// the pass keeps deciding against this snapshot while it mutates the
    /// stored resource.
    pub fn snapshot(&self) -> (r: CDBootstrap)
        ensures
            r@ == self@,
    {
        let mut finalizers: Vec<String> = Vec::new();
        let mut i: usize = 0;
        while i < self.metadata.finalizers.len()
            invariant
                0 <= i <= self.metadata.finalizers.len(),
                finalizers@.len() == i,
                forall|j: int|
                    0 <= j < i ==> finalizers@[j]@ == self.metadata.finalizers@[j]@,
            decreases self.metadata.finalizers.len() - i,
        {
            finalizers.push(self.metadata.finalizers[i].clone());
            i = i + 1;
        }
        proof {
            assert(finalizers.deep_view() =~= self.metadata.finalizers.deep_view());
        }
        let r = CDBootstrap {
            metadata: ResourceMeta {
                name: clone_opt_string(&self.metadata.name),
                namespace: clone_opt_string(&self.metadata.namespace),
                deletion_timestamp: clone_opt_string(&self.metadata.deletion_timestamp),
                finalizers: finalizers,
            },
            spec: CDBootstrapSpec {
                replicas: self.spec.replicas,
                url: self.spec.url.clone(),
                pool: self.spec.pool.clone(),
                keyvault: self.spec.keyvault.clone(),
                spn: self.spec.spn.clone(),
                tenant: self.spec.tenant.clone(),
            },
            status: match &self.status {
                Some(s) => Some(CDBootstrapStatus { succeeded: s.succeeded }),
                None => None,
            },
        };
        proof {
            assert(r@ =~= self@);
        }
        r
    }
}

/// A copy of an optional string.
fn clone_opt_string(s: &Option<String>) -> (r: Option<String>)
    ensures
        r.deep_view() == s.deep_view(),
{
    match s {
        Some(v) => Some(v.clone()),
        None => None,
    }
}

} // verus!
