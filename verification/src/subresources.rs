//! One handler per dependent-object kind, each with an idempotent
//! `apply` and an unconditional `delete`.
//!
//! `apply` has get-or-create semantics: whether or not the object already
//! exists, the store afterwards holds a freshly constructed object carrying
//! the current spec values (a full overwrite, never a partial merge).

use vstd::prelude::*;

use crate::cluster::{Cluster, ClusterView};
use crate::controller::Error;
use crate::crd::{spec_name_any, CDBootstrap, CDBootstrapView};
use crate::objects::{find_entry, lookup_value, ConfigEntry, ConfigEntryView, ConfigMap,
    ConfigMapView, EnvVar, EnvVarView, NetworkPolicy, NetworkPolicyView, PolicyPort,
    PolicyPortView, Secret, SecretEntry, SecretEntryView, SecretView, Workload, WorkloadView};

verus! {

use vstd::slice::slice_to_vec;
use vstd::string::StringExecFns;
use vstd::utf8::{decode_utf8, encode_utf8, valid_utf8};

/// The workload object the agent handler constructs for a resource.
pub open spec fn agent_workload(name: Seq<char>, ns: Seq<char>, cr: CDBootstrapView) -> WorkloadView {
    WorkloadView {
        name: name,
        namespace: ns,
        app_label: spec_name_any(cr.metadata),
        replicas: Some(cr.spec.replicas),
        selector_app: "example"@,
        template_app: "example"@,
        container_name: name,
        image: "ghcr.io/bartvanbenthem/azp-agent-alpine:latest"@,
        container_port: None,
        env: seq![
            EnvVarView {
                name: "AZP_TOKEN"@,
                from_config: false,
                source_name: name,
                key: "AZP_TOKEN"@,
                optional: true,
            },
            EnvVarView {
                name: "SPN_SECRET"@,
                from_config: false,
                source_name: name,
                key: "SPN_SECRET"@,
                optional: true,
            },
            EnvVarView {
                name: "AZP_URL"@,
                from_config: true,
                source_name: name,
                key: "AZP_URL"@,
                optional: true,
            },
            EnvVarView {
                name: "AZP_POOL"@,
                from_config: true,
                source_name: name,
                key: "AZP_POOL"@,
                optional: true,
            },
        ],
    }
}

/// The config object the config handler constructs for a resource.
pub open spec fn agent_config(name: Seq<char>, ns: Seq<char>, cr: CDBootstrapView) -> ConfigMapView {
    ConfigMapView {
        name: name,
        namespace: ns,
        app_label: spec_name_any(cr.metadata),
        data: seq![
            ConfigEntryView { key: "AZP_POOL"@, value: cr.spec.pool },
            ConfigEntryView { key: "AZP_URL"@, value: cr.spec.url },
        ],
    }
}

/// The secret object the secret handler constructs for a resource: both
/// named values are declared but carry no value yet.
pub open spec fn agent_secret(name: Seq<char>, ns: Seq<char>, cr: CDBootstrapView) -> SecretView {
    SecretView {
        name: name,
        namespace: ns,
        app_label: spec_name_any(cr.metadata),
        data: seq![
            SecretEntryView { key: "AZP_TOKEN"@, value: None },
            SecretEntryView { key: "SPN_SECRET"@, value: None },
        ],
    }
}

/// The network policy carries a derived name: a fixed prefix before the
/// resource's name.
pub open spec fn policy_name(name: Seq<char>) -> Seq<char> {
    "allow-egress-"@ + name
}

/// The policy object the policy handler constructs for a resource: a
/// static egress rule set, parameterized only by the owning resource's
/// label and the derived name.
pub open spec fn agent_policy(name: Seq<char>, ns: Seq<char>, cr: CDBootstrapView) -> NetworkPolicyView {
    NetworkPolicyView {
        name: name,
        namespace: ns,
        app_label: spec_name_any(cr.metadata),
        pod_selector_app: spec_name_any(cr.metadata),
        egress_ports: seq![
            PolicyPortView { port: 443, protocol: "TCP"@ },
            PolicyPortView { port: 443, protocol: "UDP"@ },
        ],
        egress_cidrs: seq![
            "13.107.6.0/24"@,
            "13.107.9.0/24"@,
            "13.107.42.0/24"@,
            "13.107.43.0/24"@,
        ],
        policy_types: seq!["Egress"@],
    }
}

/// The store after the agent handler applied the workload.
pub open spec fn spec_apply_workload(
    c: ClusterView,
    name: Seq<char>,
    ns: Seq<char>,
    cr: CDBootstrapView,
) -> ClusterView {
    ClusterView { workload: Some(agent_workload(name, ns, cr)), ..c }
}

/// The store after the config handler applied the config object.
pub open spec fn spec_apply_config(
    c: ClusterView,
    name: Seq<char>,
    ns: Seq<char>,
    cr: CDBootstrapView,
) -> ClusterView {
    ClusterView { config: Some(agent_config(name, ns, cr)), ..c }
}

/// The store after the secret handler applied the secret.
pub open spec fn spec_apply_secret(
    c: ClusterView,
    name: Seq<char>,
    ns: Seq<char>,
    cr: CDBootstrapView,
) -> ClusterView {
    ClusterView { secret: Some(agent_secret(name, ns, cr)), ..c }
}

/// The store after the policy handler applied the network policy.
pub open spec fn spec_apply_policy(
    c: ClusterView,
    name: Seq<char>,
    ns: Seq<char>,
    cr: CDBootstrapView,
) -> ClusterView {
    ClusterView { policy: Some(agent_policy(policy_name(name), ns, cr)), ..c }
}

/// Applying a handler is idempotent: a second `apply` with an unchanged
/// spec leaves exactly the store the first one produced, for every kind.
pub proof fn lemma_apply_idempotent(
    c: ClusterView,
    name: Seq<char>,
    ns: Seq<char>,
    cr: CDBootstrapView,
)
    ensures
        spec_apply_workload(spec_apply_workload(c, name, ns, cr), name, ns, cr)
            == spec_apply_workload(c, name, ns, cr),
        spec_apply_config(spec_apply_config(c, name, ns, cr), name, ns, cr)
            == spec_apply_config(c, name, ns, cr),
        spec_apply_secret(spec_apply_secret(c, name, ns, cr), name, ns, cr)
            == spec_apply_secret(c, name, ns, cr),
        spec_apply_policy(spec_apply_policy(c, name, ns, cr), name, ns, cr)
            == spec_apply_policy(c, name, ns, cr),
{
    assert(spec_apply_workload(spec_apply_workload(c, name, ns, cr), name, ns, cr)
        =~= spec_apply_workload(c, name, ns, cr));
    assert(spec_apply_config(spec_apply_config(c, name, ns, cr), name, ns, cr)
        =~= spec_apply_config(c, name, ns, cr));
    assert(spec_apply_secret(spec_apply_secret(c, name, ns, cr), name, ns, cr)
        =~= spec_apply_secret(c, name, ns, cr));
    assert(spec_apply_policy(spec_apply_policy(c, name, ns, cr), name, ns, cr)
        =~= spec_apply_policy(c, name, ns, cr));
}

/// Handler for the workload object.
pub struct Agent {}

impl Agent {
    /// Constructs the workload for the given resource: the agent image,
    /// the spec's replica count, and the container's environment wired to
    /// the secret's and the config object's named values.
    fn new(name: &str, namespace: &str, cr: &CDBootstrap) -> (r: Workload)
        ensures
            r@ == agent_workload(name@, namespace@, cr@),
    {
        let mut env: Vec<EnvVar> = Vec::new();
        env.push(EnvVar {
            name: String::from_str("AZP_TOKEN"),
            from_config: false,
            source_name: String::from_str(name),
            key: String::from_str("AZP_TOKEN"),
            optional: true,
        });
        env.push(EnvVar {
            name: String::from_str("SPN_SECRET"),
            from_config: false,
            source_name: String::from_str(name),
            key: String::from_str("SPN_SECRET"),
            optional: true,
        });
        env.push(EnvVar {
            name: String::from_str("AZP_URL"),
            from_config: true,
            source_name: String::from_str(name),
            key: String::from_str("AZP_URL"),
            optional: true,
        });
        env.push(EnvVar {
            name: String::from_str("AZP_POOL"),
            from_config: true,
            source_name: String::from_str(name),
            key: String::from_str("AZP_POOL"),
            optional: true,
        });
        let r = Workload {
            name: String::from_str(name),
            namespace: String::from_str(namespace),
            app_label: cr.name_any(),
            replicas: Some(cr.spec.replicas),
            selector_app: String::from_str("example"),
            template_app: String::from_str("example"),
            container_name: String::from_str(name),
            image: String::from_str("ghcr.io/bartvanbenthem/azp-agent-alpine:latest"),
            container_port: None,
            env: env,
        };
        proof {
            assert(r@.env =~= agent_workload(name@, namespace@, cr@).env);
            assert(r@ =~= agent_workload(name@, namespace@, cr@));
        }
        r
    }

    /// Deploys a new or updates an existing workload for the resource:
    /// afterwards the store holds exactly the freshly constructed object.
    pub fn apply(cluster: &mut Cluster, name: &str, namespace: &str, cr: &CDBootstrap) -> (r:
        Workload)
        ensures
            final(cluster)@ == spec_apply_workload(old(cluster)@, name@, namespace@, cr@),
            r@ == agent_workload(name@, namespace@, cr@),
    {
        let r = Agent::new(name, namespace, cr);
        cluster.workload = Some(Agent::new(name, namespace, cr));
        proof {
            assert(cluster@ =~= spec_apply_workload(old(cluster)@, name@, namespace@, cr@));
        }
        r
    }

    /// Deletes the existing workload. Existence is assumed: a missing
    /// object surfaces as a platform error, it is not swallowed.
    pub fn delete(cluster: &mut Cluster, name: &str, namespace: &str) -> (r: Result<(), Error>)
        ensures
            old(cluster)@.workload is Some ==> r is Ok && final(cluster)@ == (ClusterView {
                workload: None,
                ..old(cluster)@
            }),
            old(cluster)@.workload is None ==> (r matches Err(Error::KubeError(_)))
                && final(cluster)@ == old(cluster)@,
    {
        match &cluster.workload {
            Some(_) => {
                cluster.workload = None;
                proof {
                    assert(cluster@ =~= (ClusterView { workload: None, ..old(cluster)@ }));
                }
                Ok(())
            },
            None => Err(Error::KubeError(String::from_str("workload not found"))),
        }
    }

    /// Reports whether the live workload matches the spec. Only the
    /// replica count is compared; a missing workload never matches, which
    /// forces an update that recreates it.
    pub fn desired_state(cr: &CDBootstrap, workload: Option<&Workload>) -> (r: bool)
        ensures
            r == spec_desired_state(cr@, workload.deep_view()),
    {
        match workload {
            None => false,
            Some(w) => {
                let current_replicas: i32 = match w.replicas {
                    Some(n) => n,
                    None => 1,
                };
                current_replicas == cr.spec.replicas
            },
        }
    }
}

/// The live workload's replica count; the platform defaults an unset
/// count to one.
pub open spec fn spec_replicas_or_default(w: WorkloadView) -> i32 {
    match w.replicas {
        Some(n) => n,
        None => 1,
    }
}

/// True when the live workload exists and its replica count equals the
/// spec's desired count.
pub open spec fn spec_desired_state(cr: CDBootstrapView, w: Option<WorkloadView>) -> bool {
    match w {
        Some(wv) => spec_replicas_or_default(wv) == cr.spec.replicas,
        None => false,
    }
}

/// Handler for the config object.
pub struct AgentConfig {}

impl AgentConfig {
    /// Constructs the config object for the given resource: the spec's
    /// pool and upstream URL under their fixed keys.
    fn new(name: &str, namespace: &str, cr: &CDBootstrap) -> (r: ConfigMap)
        ensures
            r@ == agent_config(name@, namespace@, cr@),
    {
        let mut data: Vec<ConfigEntry> = Vec::new();
        data.push(ConfigEntry { key: String::from_str("AZP_POOL"), value: cr.spec.pool.clone() });
        data.push(ConfigEntry { key: String::from_str("AZP_URL"), value: cr.spec.url.clone() });
        let r = ConfigMap {
            name: String::from_str(name),
            namespace: String::from_str(namespace),
            app_label: cr.name_any(),
            data: data,
        };
        proof {
            assert(r@.data =~= agent_config(name@, namespace@, cr@).data);
            assert(r@ =~= agent_config(name@, namespace@, cr@));
        }
        r
    }

    /// Creates or overwrites the config object for the resource.
    pub fn apply(cluster: &mut Cluster, name: &str, namespace: &str, cr: &CDBootstrap) -> (r:
        ConfigMap)
        ensures
            final(cluster)@ == spec_apply_config(old(cluster)@, name@, namespace@, cr@),
            r@ == agent_config(name@, namespace@, cr@),
    {
        let r = AgentConfig::new(name, namespace, cr);
        cluster.config = Some(AgentConfig::new(name, namespace, cr));
        proof {
            assert(cluster@ =~= spec_apply_config(old(cluster)@, name@, namespace@, cr@));
        }
        r
    }

    /// Deletes the existing config object; a missing object surfaces as a
    /// platform error.
    pub fn delete(cluster: &mut Cluster, name: &str, namespace: &str) -> (r: Result<(), Error>)
        ensures
            old(cluster)@.config is Some ==> r is Ok && final(cluster)@ == (ClusterView {
                config: None,
                ..old(cluster)@
            }),
            old(cluster)@.config is None ==> (r matches Err(Error::KubeError(_)))
                && final(cluster)@ == old(cluster)@,
    {
        match &cluster.config {
            Some(_) => {
                cluster.config = None;
                proof {
                    assert(cluster@ =~= (ClusterView { config: None, ..old(cluster)@ }));
                }
                Ok(())
            },
            None => Err(Error::KubeError(String::from_str("config object not found"))),
        }
    }
}

/// Relies on std::str::from_utf8: it succeeds exactly on valid UTF-8
/// input, yielding that input's decoding.
#[verifier::external_body]
fn bytes_to_str(v: &[u8]) -> (r: Option<&str>)
    ensures
        r is Some <==> valid_utf8(v@),
        r matches Some(s) ==> s@ == decode_utf8(v@),
{
    std::str::from_utf8(v).ok()
}

/// True when the secret exists, carries a value under `key`, and that
/// value decodes to a non-empty string.
pub open spec fn spec_value_is_set(secret: Option<SecretView>, key: Seq<char>) -> bool {
    match secret {
        Some(s) => match lookup_value(s.data, key) {
            Some(Some(b)) => valid_utf8(b) && decode_utf8(b).len() > 0,
            _ => false,
        },
        None => false,
    }
}

/// The string stored in the secret under `key`, or the empty string when
/// the secret or the key is missing or the value does not decode.
pub open spec fn spec_get_value(secret: Option<SecretView>, key: Seq<char>) -> Seq<char> {
    match secret {
        Some(s) => match lookup_value(s.data, key) {
            Some(Some(b)) => if valid_utf8(b) {
                decode_utf8(b)
            } else {
                Seq::<char>::empty()
            },
            _ => Seq::<char>::empty(),
        },
        None => Seq::<char>::empty(),
    }
}

/// The service-principal secret value currently stored, if any.
pub open spec fn spec_stored_spn(secret: Option<SecretView>) -> Option<Seq<u8>> {
    match secret {
        Some(s) => match lookup_value(s.data, "SPN_SECRET"@) {
            Some(v) => v,
            None => None,
        },
        None => None,
    }
}

/// The store after the token value was written into the secret: the token
/// field holds the new value, the service-principal field keeps exactly
/// the value it had, and nothing else of the store moves. When no secret
/// exists yet, the write creates one.
pub open spec fn spec_set_azp_token(
    c: ClusterView,
    name: Seq<char>,
    ns: Seq<char>,
    value: Seq<char>,
) -> ClusterView {
    let data = seq![
        SecretEntryView { key: "AZP_TOKEN"@, value: Some(encode_utf8(value)) },
        SecretEntryView { key: "SPN_SECRET"@, value: spec_stored_spn(c.secret) },
    ];
    let secret = match c.secret {
        Some(s) => SecretView { data: data, ..s },
        None => SecretView {
            name: name,
            namespace: ns,
            app_label: Seq::<char>::empty(),
            data: data,
        },
    };
    ClusterView { secret: Some(secret), ..c }
}

/// Handler for the secret object.
pub struct AgentSecret {}

impl AgentSecret {
    /// Constructs the secret for the given resource, declaring its two
    /// named values without content.
    fn new(name: &str, namespace: &str, cr: &CDBootstrap) -> (r: Secret)
        ensures
            r@ == agent_secret(name@, namespace@, cr@),
    {
        let mut data: Vec<SecretEntry> = Vec::new();
        data.push(SecretEntry { key: String::from_str("AZP_TOKEN"), value: None });
        data.push(SecretEntry { key: String::from_str("SPN_SECRET"), value: None });
        let r = Secret {
            name: String::from_str(name),
            namespace: String::from_str(namespace),
            app_label: cr.name_any(),
            data: data,
        };
        proof {
            assert(r@.data =~= agent_secret(name@, namespace@, cr@).data);
            assert(r@ =~= agent_secret(name@, namespace@, cr@));
        }
        r
    }

    /// Creates or overwrites the secret for the resource.
    pub fn apply(cluster: &mut Cluster, name: &str, namespace: &str, cr: &CDBootstrap) -> (r:
        Secret)
        ensures
            final(cluster)@ == spec_apply_secret(old(cluster)@, name@, namespace@, cr@),
            r@ == agent_secret(name@, namespace@, cr@),
    {
        let r = AgentSecret::new(name, namespace, cr);
        cluster.secret = Some(AgentSecret::new(name, namespace, cr));
        proof {
            assert(cluster@ =~= spec_apply_secret(old(cluster)@, name@, namespace@, cr@));
        }
        r
    }

    /// Deletes the existing secret; a missing object surfaces as a
    /// platform error.
    pub fn delete(cluster: &mut Cluster, name: &str, namespace: &str) -> (r: Result<(), Error>)
        ensures
            old(cluster)@.secret is Some ==> r is Ok && final(cluster)@ == (ClusterView {
                secret: None,
                ..old(cluster)@
            }),
            old(cluster)@.secret is None ==> (r matches Err(Error::KubeError(_)))
                && final(cluster)@ == old(cluster)@,
    {
        match &cluster.secret {
            Some(_) => {
                cluster.secret = None;
                proof {
                    assert(cluster@ =~= (ClusterView { secret: None, ..old(cluster)@ }));
                }
                Ok(())
            },
            None => Err(Error::KubeError(String::from_str("secret not found"))),
        }
    }

    /// True when the fetched secret carries a non-empty string under
    /// `key`. A missing secret, a missing key, an unset value and a value
    /// that does not decode all count as unset.
    pub fn value_is_set(secret: Option<&Secret>, key: &str) -> (r: bool)
        ensures
            r == spec_value_is_set(secret.deep_view(), key@),
    {
        match secret {
            None => false,
            Some(s) => match find_entry(&s.data, key) {
                None => false,
                Some(entry) => match &entry.value {
                    None => false,
                    Some(bytes) => {
                        proof {
                            assert(bytes.deep_view() =~= bytes@);
                        }
                        match bytes_to_str(bytes.as_slice()) {
                            None => false,
                            Some(t) => !t.is_empty(),
                        }
                    },
                },
            },
        }
    }

    /// The string stored in the fetched secret under `key`; every failure
    /// to produce one degrades to the empty string.
    pub fn get_value(secret: Option<&Secret>, key: &str) -> (r: String)
        ensures
            r@ == spec_get_value(secret.deep_view(), key@),
    {
        match secret {
            None => String::new(),
            Some(s) => match find_entry(&s.data, key) {
                None => String::new(),
                Some(entry) => match &entry.value {
                    None => String::new(),
                    Some(bytes) => {
                        proof {
                            assert(bytes.deep_view() =~= bytes@);
                        }
                        match bytes_to_str(bytes.as_slice()) {
                            None => String::new(),
                            Some(t) => String::from_str(t),
                        }
                    },
                },
            },
        }
    }

    /// Writes the token value into the secret's token field, alongside
    /// the unchanged service-principal value. Creates the secret when it
    /// is missing.
    pub fn set_azp_token(cluster: &mut Cluster, name: &str, namespace: &str, value: &str) -> (r:
        Result<(), Error>)
        ensures
            r is Ok,
            final(cluster)@ == spec_set_azp_token(old(cluster)@, name@, namespace@, value@),
    {
        let token_bytes: Vec<u8> = slice_to_vec(value.as_bytes());
        proof {
            assert(token_bytes.deep_view() =~= token_bytes@);
        }
        let spn_value: Option<Vec<u8>> = match &cluster.secret {
            Some(s) => match find_entry(&s.data, "SPN_SECRET") {
                Some(entry) => match &entry.value {
                    Some(v) => Some(slice_to_vec(v.as_slice())),
                    None => None,
                },
                None => None,
            },
            None => None,
        };
        proof {
            assert(spn_value.deep_view() == spec_stored_spn(old(cluster)@.secret));
        }
        let mut data: Vec<SecretEntry> = Vec::new();
        data.push(SecretEntry { key: String::from_str("AZP_TOKEN"), value: Some(token_bytes) });
        data.push(SecretEntry { key: String::from_str("SPN_SECRET"), value: spn_value });
        let new_secret = match &cluster.secret {
            Some(s) => Secret {
                name: s.name.clone(),
                namespace: s.namespace.clone(),
                app_label: s.app_label.clone(),
                data: data,
            },
            None => Secret {
                name: String::from_str(name),
                namespace: String::from_str(namespace),
                app_label: String::new(),
                data: data,
            },
        };
        cluster.secret = Some(new_secret);
        proof {
            assert(cluster@ =~= spec_set_azp_token(old(cluster)@, name@, namespace@, value@));
        }
        Ok(())
    }
}

/// Writing the token never deletes or overwrites the service-principal
/// value: the secret holds exactly the same value under that key after
/// the write as before it.
pub proof fn lemma_set_azp_token_preserves_spn(
    c: ClusterView,
    name: Seq<char>,
    ns: Seq<char>,
    value: Seq<char>,
)
    ensures
        spec_stored_spn(spec_set_azp_token(c, name, ns, value).secret) == spec_stored_spn(
            c.secret,
        ),
{
    reveal_strlit("AZP_TOKEN");
    reveal_strlit("SPN_SECRET");
    assert("AZP_TOKEN"@.len() == 9);
    assert("SPN_SECRET"@.len() == 10);
    assert("AZP_TOKEN"@ != "SPN_SECRET"@);
    match spec_set_azp_token(c, name, ns, value).secret {
        Some(sv) => {
            assert(sv.data.len() == 2);
            assert(sv.data[0].key != "SPN_SECRET"@);
            assert(lookup_value(sv.data, "SPN_SECRET"@) == lookup_value(
                sv.data.drop_first(),
                "SPN_SECRET"@,
            ));
            assert(sv.data.drop_first()[0] == sv.data[1]);
            assert(lookup_value(sv.data.drop_first(), "SPN_SECRET"@) == Some(sv.data[1].value));
            assert(lookup_value(sv.data, "SPN_SECRET"@) == Some(spec_stored_spn(c.secret)));
        },
        None => {
            assert(false);
        },
    }
}

/// Handler for the network-access policy object.
pub struct AgentPolicy {}

impl AgentPolicy {
    /// Constructs the policy for the given resource under the derived
    /// name handed in: egress to four fixed address blocks on TCP and UDP
    /// port 443, selecting the resource's pods by label.
    fn new(name: &str, namespace: &str, cr: &CDBootstrap) -> (r: NetworkPolicy)
        ensures
            r@ == agent_policy(name@, namespace@, cr@),
    {
        let mut egress_ports: Vec<PolicyPort> = Vec::new();
        egress_ports.push(PolicyPort { port: 443, protocol: String::from_str("TCP") });
        egress_ports.push(PolicyPort { port: 443, protocol: String::from_str("UDP") });
        let mut egress_cidrs: Vec<String> = Vec::new();
        egress_cidrs.push(String::from_str("13.107.6.0/24"));
        egress_cidrs.push(String::from_str("13.107.9.0/24"));
        egress_cidrs.push(String::from_str("13.107.42.0/24"));
        egress_cidrs.push(String::from_str("13.107.43.0/24"));
        let mut policy_types: Vec<String> = Vec::new();
        policy_types.push(String::from_str("Egress"));
        let r = NetworkPolicy {
            name: String::from_str(name),
            namespace: String::from_str(namespace),
            app_label: cr.name_any(),
            pod_selector_app: cr.name_any(),
            egress_ports: egress_ports,
            egress_cidrs: egress_cidrs,
            policy_types: policy_types,
        };
        proof {
            assert(r@.egress_ports =~= agent_policy(name@, namespace@, cr@).egress_ports);
            assert(r@.egress_cidrs =~= agent_policy(name@, namespace@, cr@).egress_cidrs);
            assert(r@.policy_types =~= agent_policy(name@, namespace@, cr@).policy_types);
            assert(r@ =~= agent_policy(name@, namespace@, cr@));
        }
        r
    }

    /// Creates or overwrites the policy for the resource, under its
    /// derived name.
    pub fn apply(cluster: &mut Cluster, name: &str, namespace: &str, cr: &CDBootstrap) -> (r:
        NetworkPolicy)
        ensures
            final(cluster)@ == spec_apply_policy(old(cluster)@, name@, namespace@, cr@),
            r@ == agent_policy(policy_name(name@), namespace@, cr@),
    {
        let precise_name: String = String::from_str("allow-egress-").concat(name);
        let r = AgentPolicy::new(precise_name.as_str(), namespace, cr);
        cluster.policy = Some(AgentPolicy::new(precise_name.as_str(), namespace, cr));
        proof {
            assert(cluster@ =~= spec_apply_policy(old(cluster)@, name@, namespace@, cr@));
        }
        r
    }

    /// Deletes the existing policy; a missing object surfaces as a
    /// platform error.
    pub fn delete(cluster: &mut Cluster, name: &str, namespace: &str) -> (r: Result<(), Error>)
        ensures
            old(cluster)@.policy is Some ==> r is Ok && final(cluster)@ == (ClusterView {
                policy: None,
                ..old(cluster)@
            }),
            old(cluster)@.policy is None ==> (r matches Err(Error::KubeError(_)))
                && final(cluster)@ == old(cluster)@,
    {
        match &cluster.policy {
            Some(_) => {
                cluster.policy = None;
                proof {
                    assert(cluster@ =~= (ClusterView { policy: None, ..old(cluster)@ }));
                }
                Ok(())
            },
            None => Err(Error::KubeError(String::from_str("network policy not found"))),
        }
    }
}

/// A workload as the early revision of the agent handler built it: the
/// agent image in a single container exposing one port, without the
/// environment wiring.
pub open spec fn simple_workload(
    name: Seq<char>,
    ns: Seq<char>,
    image: Seq<char>,
    replicas: i32,
) -> WorkloadView {
    WorkloadView {
        name: name,
        namespace: ns,
        app_label: name,
        replicas: Some(replicas),
        selector_app: name,
        template_app: name,
        container_name: name,
        image: image,
        container_port: Some(8080),
        env: Seq::<EnvVarView>::empty(),
    }
}

/// Builds the early-revision workload with the given image.
pub(crate) fn new_simple_workload(name: &str, namespace: &str, image: &str, replicas: i32) -> (r: Workload)
    ensures
        r@ == simple_workload(name@, namespace@, image@, replicas),
{
    let r = Workload {
        name: String::from_str(name),
        namespace: String::from_str(namespace),
        app_label: String::from_str(name),
        replicas: Some(replicas),
        selector_app: String::from_str(name),
        template_app: String::from_str(name),
        container_name: String::from_str(name),
        image: String::from_str(image),
        container_port: Some(8080),
        env: Vec::new(),
    };
    proof {
        assert(r@.env =~= simple_workload(name@, namespace@, image@, replicas).env);
        assert(r@ =~= simple_workload(name@, namespace@, image@, replicas));
    }
    r
}

/// The store after the early-revision apply: the workload slot holds the
/// simple agent workload.
pub open spec fn spec_apply_old(
    c: ClusterView,
    name: Seq<char>,
    ns: Seq<char>,
    cr: CDBootstrapView,
) -> ClusterView {
    ClusterView {
        workload: Some(
            simple_workload(name, ns, "ghcr.io/bartvanbenthem/azp-agent-alpine:latest"@, cr.spec.replicas),
        ),
        ..c
    }
}

/// Early revision of the agent handler's apply, kept for compatibility:
/// create-or-replace of the simple agent workload.
pub fn apply_old(cluster: &mut Cluster, name: &str, namespace: &str, cr: &CDBootstrap) -> (r:
    Workload)
    ensures
        final(cluster)@ == spec_apply_old(old(cluster)@, name@, namespace@, cr@),
        r@ == simple_workload(
            name@,
            namespace@,
            "ghcr.io/bartvanbenthem/azp-agent-alpine:latest"@,
            cr@.spec.replicas,
        ),
{
    let image = "ghcr.io/bartvanbenthem/azp-agent-alpine:latest";
    let r = new_simple_workload(name, namespace, image, cr.spec.replicas);
    cluster.workload = Some(new_simple_workload(name, namespace, image, cr.spec.replicas));
    proof {
        assert(cluster@ =~= spec_apply_old(old(cluster)@, name@, namespace@, cr@));
    }
    r
}

} // verus!
