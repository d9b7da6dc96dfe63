//! Models of the four dependent objects the controller owns.
//!
//! Each type carries exactly the fields the controller constructs or reads;
//! the unverified host binary translates them to and from the platform's
//! wire types. Each type has a ghost view so contracts can pin an object
//! down to a single abstract value.

use vstd::prelude::*;

verus! {

use vstd::string::StringExecFns;

/// One environment-variable wiring of the workload's container.
#[derive(Debug, Clone, PartialEq, Eq)]
pub struct EnvVar {
    pub name: String,
    /// True when the value comes from the config object, false when it
    /// comes from the secret.
    pub from_config: bool,
    pub source_name: String,
    pub key: String,
    pub optional: bool,
}

/// Abstract value of an [`EnvVar`].
#[verifier::ext_equal]
pub struct EnvVarView {
    pub name: Seq<char>,
    pub from_config: bool,
    pub source_name: Seq<char>,
    pub key: Seq<char>,
    pub optional: bool,
}

impl View for EnvVar {
    type V = EnvVarView;

    open spec fn view(&self) -> EnvVarView {
        EnvVarView {
            name: self.name@,
            from_config: self.from_config,
            source_name: self.source_name@,
            key: self.key@,
            optional: self.optional,
        }
    }
}

impl DeepView for EnvVar {
    type V = EnvVarView;

    open spec fn deep_view(&self) -> EnvVarView {
        self@
    }
}

/// The workload object: a deployment of agent pods.
///
/// A workload here always carries exactly one container, so the
/// container's fields sit directly on the workload.
#[derive(Debug, Clone, PartialEq, Eq)]
pub struct Workload {
    pub name: String,
    pub namespace: String,
    /// Value of the `app` label on the object's metadata.
    pub app_label: String,
    /// Desired replica count; observed objects may leave it unset.
    pub replicas: Option<i32>,
    /// Value of the `app` label the pod selector matches on.
    pub selector_app: String,
    /// Value of the `app` label on the pod template.
    pub template_app: String,
    pub container_name: String,
    pub image: String,
    pub container_port: Option<i32>,
    pub env: Vec<EnvVar>,
}

/// Abstract value of a [`Workload`].
#[verifier::ext_equal]
pub struct WorkloadView {
    pub name: Seq<char>,
    pub namespace: Seq<char>,
    pub app_label: Seq<char>,
    pub replicas: Option<i32>,
    pub selector_app: Seq<char>,
    pub template_app: Seq<char>,
    pub container_name: Seq<char>,
    pub image: Seq<char>,
    pub container_port: Option<i32>,
    pub env: Seq<EnvVarView>,
}

impl View for Workload {
    type V = WorkloadView;

    open spec fn view(&self) -> WorkloadView {
        WorkloadView {
            name: self.name@,
            namespace: self.namespace@,
            app_label: self.app_label@,
            replicas: self.replicas,
            selector_app: self.selector_app@,
            template_app: self.template_app@,
            container_name: self.container_name@,
            image: self.image@,
            container_port: self.container_port,
            env: self.env.deep_view(),
        }
    }
}

/// One key/value pair of the config object's data.
#[derive(Debug, Clone, PartialEq, Eq)]
pub struct ConfigEntry {
    pub key: String,
    pub value: String,
}

/// Abstract value of a [`ConfigEntry`].
#[verifier::ext_equal]
pub struct ConfigEntryView {
    pub key: Seq<char>,
    pub value: Seq<char>,
}

impl View for ConfigEntry {
    type V = ConfigEntryView;

    open spec fn view(&self) -> ConfigEntryView {
        ConfigEntryView { key: self.key@, value: self.value@ }
    }
}

impl DeepView for ConfigEntry {
    type V = ConfigEntryView;

    open spec fn deep_view(&self) -> ConfigEntryView {
        self@
    }
}

/// The config object: named string values consumed by the workload.
#[derive(Debug, Clone, PartialEq, Eq)]
pub struct ConfigMap {
    pub name: String,
    pub namespace: String,
    pub app_label: String,
    pub data: Vec<ConfigEntry>,
}

/// Abstract value of a [`ConfigMap`].
#[verifier::ext_equal]
pub struct ConfigMapView {
    pub name: Seq<char>,
    pub namespace: Seq<char>,
    pub app_label: Seq<char>,
    pub data: Seq<ConfigEntryView>,
}

impl View for ConfigMap {
    type V = ConfigMapView;

    open spec fn view(&self) -> ConfigMapView {
        ConfigMapView {
            name: self.name@,
            namespace: self.namespace@,
            app_label: self.app_label@,
            data: self.data.deep_view(),
        }
    }
}

/// One named value of the secret object. `None` stands for a key that is
/// declared but carries no value.
#[derive(Debug, Clone, PartialEq, Eq)]
pub struct SecretEntry {
    pub key: String,
    pub value: Option<Vec<u8>>,
}

/// Abstract value of a [`SecretEntry`].
#[verifier::ext_equal]
pub struct SecretEntryView {
    pub key: Seq<char>,
    pub value: Option<Seq<u8>>,
}

impl View for SecretEntry {
    type V = SecretEntryView;

    open spec fn view(&self) -> SecretEntryView {
        SecretEntryView { key: self.key@, value: self.value.deep_view() }
    }
}

impl DeepView for SecretEntry {
    type V = SecretEntryView;

    open spec fn deep_view(&self) -> SecretEntryView {
        self@
    }
}

/// The secret object: named opaque byte values.
#[derive(Debug, Clone, PartialEq, Eq)]
pub struct Secret {
    pub name: String,
    pub namespace: String,
    pub app_label: String,
    pub data: Vec<SecretEntry>,
}

/// Abstract value of a [`Secret`].
#[verifier::ext_equal]
pub struct SecretView {
    pub name: Seq<char>,
    pub namespace: Seq<char>,
    pub app_label: Seq<char>,
    pub data: Seq<SecretEntryView>,
}

impl View for Secret {
    type V = SecretView;

    open spec fn view(&self) -> SecretView {
        SecretView {
            name: self.name@,
            namespace: self.namespace@,
            app_label: self.app_label@,
            data: self.data.deep_view(),
        }
    }
}

/// One port the network policy permits egress on.
#[derive(Debug, Clone, PartialEq, Eq)]
pub struct PolicyPort {
    pub port: i32,
    pub protocol: String,
}

/// Abstract value of a [`PolicyPort`].
#[verifier::ext_equal]
pub struct PolicyPortView {
    pub port: i32,
    pub protocol: Seq<char>,
}

impl View for PolicyPort {
    type V = PolicyPortView;

    open spec fn view(&self) -> PolicyPortView {
        PolicyPortView { port: self.port, protocol: self.protocol@ }
    }
}

impl DeepView for PolicyPort {
    type V = PolicyPortView;

    open spec fn deep_view(&self) -> PolicyPortView {
        self@
    }
}

/// The network-access policy object: a static egress rule set.
#[derive(Debug, Clone, PartialEq, Eq)]
pub struct NetworkPolicy {
    pub name: String,
    pub namespace: String,
    pub app_label: String,
    /// Value of the `app` label the pod selector matches on.
    pub pod_selector_app: String,
    pub egress_ports: Vec<PolicyPort>,
    pub egress_cidrs: Vec<String>,
    pub policy_types: Vec<String>,
}

/// Abstract value of a [`NetworkPolicy`].
#[verifier::ext_equal]
pub struct NetworkPolicyView {
    pub name: Seq<char>,
    pub namespace: Seq<char>,
    pub app_label: Seq<char>,
    pub pod_selector_app: Seq<char>,
    pub egress_ports: Seq<PolicyPortView>,
    pub egress_cidrs: Seq<Seq<char>>,
    pub policy_types: Seq<Seq<char>>,
}

impl View for NetworkPolicy {
    type V = NetworkPolicyView;

    open spec fn view(&self) -> NetworkPolicyView {
        NetworkPolicyView {
            name: self.name@,
            namespace: self.namespace@,
            app_label: self.app_label@,
            pod_selector_app: self.pod_selector_app@,
            egress_ports: self.egress_ports.deep_view(),
            egress_cidrs: self.egress_cidrs.deep_view(),
            policy_types: self.policy_types.deep_view(),
        }
    }
}

impl DeepView for Workload {
    type V = WorkloadView;

    open spec fn deep_view(&self) -> WorkloadView {
        self@
    }
}

impl DeepView for ConfigMap {
    type V = ConfigMapView;

    open spec fn deep_view(&self) -> ConfigMapView {
        self@
    }
}

impl DeepView for Secret {
    type V = SecretView;

    open spec fn deep_view(&self) -> SecretView {
        self@
    }
}

impl DeepView for NetworkPolicy {
    type V = NetworkPolicyView;

    open spec fn deep_view(&self) -> NetworkPolicyView {
        self@
    }
}

/// The value stored under `key`, walking the entries front to back.
///
/// `None` means no entry carries the key; `Some(v)` hands back the entry's
/// value, which may itself be unset.
pub open spec fn lookup_value(entries: Seq<SecretEntryView>, key: Seq<char>) -> Option<
    Option<Seq<u8>>,
>
    decreases entries.len(),
{
    if entries.len() == 0 {
        None
    } else if entries[0].key == key {
        Some(entries[0].value)
    } else {
        lookup_value(entries.drop_first(), key)
    }
}

/// Looking a key up inspects only entries up to and including the first
/// match, so a search may discharge a prefix of non-matches.
proof fn lemma_lookup_skip(entries: Seq<SecretEntryView>, key: Seq<char>, i: int)
    requires
        0 <= i < entries.len(),
        entries[i].key != key,
    ensures
        lookup_value(entries.skip(i), key) == lookup_value(entries.skip(i + 1), key),
{
    assert(entries.skip(i)[0] == entries[i]);
    assert(entries.skip(i).drop_first() =~= entries.skip(i + 1));
}

/// Finds the first entry carrying `key`, if any.
pub fn find_entry<'a>(data: &'a Vec<SecretEntry>, key: &str) -> (r: Option<&'a SecretEntry>)
    ensures
        match r {
            Some(e) => lookup_value(data.deep_view(), key@) == Some(e@.value) && e@.key == key@,
            None => lookup_value(data.deep_view(), key@) is None,
        },
{
    let key_string: String = String::from_str(key);
    let ghost entries = data.deep_view();
    proof {
        assert(entries.skip(0) =~= entries);
    }
    let mut i: usize = 0;
    while i < data.len()
        invariant
            0 <= i <= data.len(),
            key_string@ == key@,
            entries == data.deep_view(),
            entries.len() == data.len(),
            lookup_value(entries, key@) == lookup_value(entries.skip(i as int), key@),
        decreases data.len() - i,
    {
        let e = &data[i];
        proof {
            assert(entries[i as int] == data@[i as int].deep_view());
            assert(entries.skip(i as int)[0] == entries[i as int]);
        }
        if e.key == key_string {
            return Some(e);
        }
        proof {
            lemma_lookup_skip(entries, key@, i as int);
        }
        i = i + 1;
    }
    proof {
        assert(entries.skip(i as int) =~= Seq::<SecretEntryView>::empty());
    }
    None
}

} // verus!
