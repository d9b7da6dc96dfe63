use cdbootstrap::cluster::Cluster;
use cdbootstrap::controller::Error;
use cdbootstrap::crd::{CDBootstrap, CDBootstrapSpec, ResourceMeta};
use cdbootstrap::objects::{Secret, SecretEntry};
use cdbootstrap::subresources::{apply_old, Agent, AgentConfig, AgentPolicy, AgentSecret};

fn resource(name: &str, namespace: &str, replicas: i32) -> CDBootstrap {
    CDBootstrap {
        metadata: ResourceMeta {
            name: Some(name.to_string()),
            namespace: Some(namespace.to_string()),
            deletion_timestamp: None,
            finalizers: Vec::new(),
        },
        spec: CDBootstrapSpec {
            replicas,
            url: "https://x".to_string(),
            pool: "p1".to_string(),
            keyvault: "https://kv.example".to_string(),
            spn: "spn-id".to_string(),
            tenant: "tenant-id".to_string(),
        },
        status: None,
    }
}

fn cluster_of(resource: CDBootstrap) -> Cluster {
    Cluster { resource, workload: None, config: None, secret: None, policy: None }
}

fn secret_with(entries: Vec<(&str, Option<&[u8]>)>) -> Secret {
    Secret {
        name: "demo".to_string(),
        namespace: "ns1".to_string(),
        app_label: "demo".to_string(),
        data: entries
            .into_iter()
            .map(|(k, v)| SecretEntry { key: k.to_string(), value: v.map(|b| b.to_vec()) })
            .collect(),
    }
}

#[test]
fn apply_is_idempotent_for_every_kind() {
    let cr = resource("demo", "ns1", 2);
    let mut cluster = cluster_of(resource("demo", "ns1", 2));

    let w1 = Agent::apply(&mut cluster, "demo", "ns1", &cr);
    let after_first = cluster.clone();
    let w2 = Agent::apply(&mut cluster, "demo", "ns1", &cr);
    assert_eq!(w1, w2);
    assert_eq!(cluster, after_first);

    let c1 = AgentConfig::apply(&mut cluster, "demo", "ns1", &cr);
    let after_first = cluster.clone();
    let c2 = AgentConfig::apply(&mut cluster, "demo", "ns1", &cr);
    assert_eq!(c1, c2);
    assert_eq!(cluster, after_first);

    let s1 = AgentSecret::apply(&mut cluster, "demo", "ns1", &cr);
    let after_first = cluster.clone();
    let s2 = AgentSecret::apply(&mut cluster, "demo", "ns1", &cr);
    assert_eq!(s1, s2);
    assert_eq!(cluster, after_first);

    let p1 = AgentPolicy::apply(&mut cluster, "demo", "ns1", &cr);
    let after_first = cluster.clone();
    let p2 = AgentPolicy::apply(&mut cluster, "demo", "ns1", &cr);
    assert_eq!(p1, p2);
    assert_eq!(cluster, after_first);
}

#[test]
fn workload_carries_the_agent_wiring() {
    let cr = resource("demo", "ns1", 2);
    let mut cluster = cluster_of(resource("demo", "ns1", 2));
    let w = Agent::apply(&mut cluster, "demo", "ns1", &cr);
    assert_eq!(w.name, "demo");
    assert_eq!(w.namespace, "ns1");
    assert_eq!(w.app_label, "demo");
    assert_eq!(w.replicas, Some(2));
    assert_eq!(w.selector_app, "example");
    assert_eq!(w.template_app, "example");
    assert_eq!(w.image, "ghcr.io/bartvanbenthem/azp-agent-alpine:latest");
    assert_eq!(w.container_port, None);
    assert_eq!(w.env.len(), 4);
    let names: Vec<&str> = w.env.iter().map(|e| e.name.as_str()).collect();
    assert_eq!(names, vec!["AZP_TOKEN", "SPN_SECRET", "AZP_URL", "AZP_POOL"]);
    for e in &w.env {
        assert_eq!(e.source_name, "demo");
        assert_eq!(e.key, e.name);
        assert!(e.optional);
    }
    assert!(!w.env[0].from_config);
    assert!(!w.env[1].from_config);
    assert!(w.env[2].from_config);
    assert!(w.env[3].from_config);
}

#[test]
fn policy_is_static_but_for_name_and_label() {
    let cr = resource("demo", "ns1", 2);
    let mut cluster = cluster_of(resource("demo", "ns1", 2));
    let p = AgentPolicy::apply(&mut cluster, "demo", "ns1", &cr);
    assert_eq!(p.name, "allow-egress-demo");
    assert_eq!(p.namespace, "ns1");
    assert_eq!(p.app_label, "demo");
    assert_eq!(p.pod_selector_app, "demo");
    assert_eq!(p.egress_ports.len(), 2);
    assert_eq!(p.egress_ports[0].port, 443);
    assert_eq!(p.egress_ports[0].protocol, "TCP");
    assert_eq!(p.egress_ports[1].port, 443);
    assert_eq!(p.egress_ports[1].protocol, "UDP");
    assert_eq!(
        p.egress_cidrs,
        vec![
            "13.107.6.0/24".to_string(),
            "13.107.9.0/24".to_string(),
            "13.107.42.0/24".to_string(),
            "13.107.43.0/24".to_string(),
        ]
    );
    assert_eq!(p.policy_types, vec!["Egress".to_string()]);
}

#[test]
fn value_is_set_distinguishes_every_unset_shape() {
    assert!(!AgentSecret::value_is_set(None, "AZP_TOKEN"));

    let missing_key = secret_with(vec![("SPN_SECRET", Some(b"x"))]);
    assert!(!AgentSecret::value_is_set(Some(&missing_key), "AZP_TOKEN"));

    let unset_value = secret_with(vec![("AZP_TOKEN", None)]);
    assert!(!AgentSecret::value_is_set(Some(&unset_value), "AZP_TOKEN"));

    let empty_value = secret_with(vec![("AZP_TOKEN", Some(b""))]);
    assert!(!AgentSecret::value_is_set(Some(&empty_value), "AZP_TOKEN"));

    let invalid_utf8 = secret_with(vec![("AZP_TOKEN", Some(&[0xff, 0xfe]))]);
    assert!(!AgentSecret::value_is_set(Some(&invalid_utf8), "AZP_TOKEN"));

    let set = secret_with(vec![("AZP_TOKEN", Some(b"tok"))]);
    assert!(AgentSecret::value_is_set(Some(&set), "AZP_TOKEN"));
}

#[test]
fn get_value_decodes_or_degrades_to_empty() {
    let s = secret_with(vec![("SPN_SECRET", Some(b"hello"))]);
    assert_eq!(AgentSecret::get_value(Some(&s), "SPN_SECRET"), "hello");
    assert_eq!(AgentSecret::get_value(Some(&s), "AZP_TOKEN"), "");
    assert_eq!(AgentSecret::get_value(None, "SPN_SECRET"), "");
    let invalid = secret_with(vec![("SPN_SECRET", Some(&[0xff]))]);
    assert_eq!(AgentSecret::get_value(Some(&invalid), "SPN_SECRET"), "");
}

#[test]
fn set_azp_token_writes_token_and_keeps_spn() {
    let mut cluster = cluster_of(resource("demo", "ns1", 2));
    cluster.secret = Some(secret_with(vec![("AZP_TOKEN", None), ("SPN_SECRET", Some(b"spn-v"))]));
    AgentSecret::set_azp_token(&mut cluster, "demo", "ns1", "fresh-token").unwrap();
    let s = cluster.secret.clone().unwrap();
    assert_eq!(s.name, "demo");
    assert_eq!(s.data.len(), 2);
    assert_eq!(s.data[0].key, "AZP_TOKEN");
    assert_eq!(s.data[0].value, Some(b"fresh-token".to_vec()));
    assert_eq!(s.data[1].key, "SPN_SECRET");
    assert_eq!(s.data[1].value, Some(b"spn-v".to_vec()));
}

#[test]
fn set_azp_token_creates_a_missing_secret() {
    let mut cluster = cluster_of(resource("demo", "ns1", 2));
    AgentSecret::set_azp_token(&mut cluster, "demo", "ns1", "tok").unwrap();
    let s = cluster.secret.clone().unwrap();
    assert_eq!(s.name, "demo");
    assert_eq!(s.namespace, "ns1");
    assert_eq!(s.data[0].value, Some(b"tok".to_vec()));
    assert_eq!(s.data[1].value, None);
}

#[test]
fn delete_surfaces_a_missing_object() {
    let mut cluster = cluster_of(resource("demo", "ns1", 2));
    assert!(matches!(
        Agent::delete(&mut cluster, "demo", "ns1"),
        Err(Error::KubeError(_))
    ));
    assert!(matches!(
        AgentConfig::delete(&mut cluster, "demo", "ns1"),
        Err(Error::KubeError(_))
    ));
    assert!(matches!(
        AgentSecret::delete(&mut cluster, "demo", "ns1"),
        Err(Error::KubeError(_))
    ));
    assert!(matches!(
        AgentPolicy::delete(&mut cluster, "demo", "ns1"),
        Err(Error::KubeError(_))
    ));
}

#[test]
fn delete_removes_an_existing_object() {
    let cr = resource("demo", "ns1", 2);
    let mut cluster = cluster_of(resource("demo", "ns1", 2));
    Agent::apply(&mut cluster, "demo", "ns1", &cr);
    Agent::delete(&mut cluster, "demo", "ns1").unwrap();
    assert!(cluster.workload.is_none());
}

#[test]
fn apply_old_builds_the_plain_agent_workload() {
    let cr = resource("demo", "ns1", 3);
    let mut cluster = cluster_of(resource("demo", "ns1", 3));
    let w = apply_old(&mut cluster, "demo", "ns1", &cr);
    assert_eq!(w.image, "ghcr.io/bartvanbenthem/azp-agent-alpine:latest");
    assert_eq!(w.replicas, Some(3));
    assert_eq!(w.container_port, Some(8080));
    assert_eq!(w.app_label, "demo");
    assert_eq!(w.selector_app, "demo");
    assert!(w.env.is_empty());
    assert_eq!(cluster.workload, Some(w));
}
