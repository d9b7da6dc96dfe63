use cdbootstrap::cluster::Cluster;
use cdbootstrap::controller::{determine_action, in_desired_state, on_error, reconcile,
    CDBootstrapAction, Error, Requeue, Step};
use cdbootstrap::crd::{CDBootstrap, CDBootstrapSpec, CDBootstrapStatus, ResourceMeta};
use cdbootstrap::objects::Workload;
use cdbootstrap::vault::VaultReply;

const FINALIZER: &str = "cdbootstraps.cnad.nl/finalizer";

fn resource(
    name: &str,
    namespace: Option<&str>,
    replicas: i32,
    deletion: bool,
    finalizers: Vec<String>,
) -> CDBootstrap {
    CDBootstrap {
        metadata: ResourceMeta {
            name: Some(name.to_string()),
            namespace: namespace.map(|s| s.to_string()),
            deletion_timestamp: if deletion {
                Some("2024-01-01T00:00:00Z".to_string())
            } else {
                None
            },
            finalizers,
        },
        spec: CDBootstrapSpec {
            replicas,
            url: "https://x".to_string(),
            pool: "p1".to_string(),
            keyvault: "https://kv.example".to_string(),
            spn: "spn-id".to_string(),
            tenant: "tenant-id".to_string(),
        },
        status: None,
    }
}

fn cluster_of(resource: CDBootstrap) -> Cluster {
    Cluster { resource, workload: None, config: None, secret: None, policy: None }
}

fn live_workload(replicas: Option<i32>) -> Workload {
    Workload {
        name: "demo".to_string(),
        namespace: "ns1".to_string(),
        app_label: "demo".to_string(),
        replicas,
        selector_app: "example".to_string(),
        template_app: "example".to_string(),
        container_name: "demo".to_string(),
        image: "ghcr.io/bartvanbenthem/azp-agent-alpine:latest".to_string(),
        container_port: None,
        env: Vec::new(),
    }
}

#[test]
fn action_precedence_delete_wins_over_create() {
    // Deletion timestamp set AND an empty finalizer list: Delete, never Create.
    let cr = resource("demo", Some("ns1"), 2, true, Vec::new());
    let action = determine_action(&cr, false);
    assert_eq!(action, CDBootstrapAction::Delete);
    let action = determine_action(&cr, true);
    assert_eq!(action, CDBootstrapAction::Delete);
}

#[test]
fn action_selection_table() {
    let fresh = resource("demo", Some("ns1"), 2, false, Vec::new());
    assert_eq!(determine_action(&fresh, false), CDBootstrapAction::Create);
    assert_eq!(determine_action(&fresh, true), CDBootstrapAction::Create);

    let claimed = resource("demo", Some("ns1"), 2, false, vec![FINALIZER.to_string()]);
    assert_eq!(determine_action(&claimed, false), CDBootstrapAction::Update);
    assert_eq!(determine_action(&claimed, true), CDBootstrapAction::NoOp);

    let deleting = resource("demo", Some("ns1"), 2, true, vec![FINALIZER.to_string()]);
    assert_eq!(determine_action(&deleting, false), CDBootstrapAction::Delete);
}

#[test]
fn comparator_matches_on_equal_replicas() {
    let cr = resource("demo", Some("ns1"), 3, false, Vec::new());
    assert!(in_desired_state(&cr, Some(&live_workload(Some(3)))));
}

#[test]
fn comparator_misses_on_missing_workload() {
    let cr = resource("demo", Some("ns1"), 3, false, Vec::new());
    assert!(!in_desired_state(&cr, None));
}

#[test]
fn comparator_defaults_unset_replicas_to_one() {
    let cr = resource("demo", Some("ns1"), 3, false, Vec::new());
    assert!(!in_desired_state(&cr, Some(&live_workload(None))));
    let cr_one = resource("demo", Some("ns1"), 1, false, Vec::new());
    assert!(in_desired_state(&cr_one, Some(&live_workload(None))));
}

#[test]
fn reconcile_without_namespace_is_fatal_and_mutates_nothing() {
    let mut cluster = cluster_of(resource("demo", None, 2, false, Vec::new()));
    let before = cluster.clone();
    let (outcome, steps) = reconcile(&mut cluster, &VaultReply::AuthFailed);
    assert!(matches!(outcome, Err(Error::UserInputError(_))));
    assert!(steps.is_empty());
    assert_eq!(cluster, before);
}

#[test]
fn end_to_end_create_update_delete() {
    // First pass: Create.
    let mut cluster = cluster_of(resource("demo", Some("ns1"), 2, false, Vec::new()));
    let (outcome, steps) = reconcile(&mut cluster, &VaultReply::AuthFailed);
    assert_eq!(outcome.unwrap(), Requeue::After(10));
    assert_eq!(
        steps,
        vec![
            Step::AddFinalizer,
            Step::ApplySecret,
            Step::ApplyConfig,
            Step::ApplyPolicy,
            Step::ApplyWorkload,
            Step::PatchStatus(true),
        ]
    );
    assert_eq!(cluster.resource.metadata.finalizers, vec![FINALIZER.to_string()]);
    assert_eq!(cluster.resource.status, Some(CDBootstrapStatus { succeeded: true }));

    let secret = cluster.secret.clone().unwrap();
    assert_eq!(secret.name, "demo");
    assert_eq!(secret.namespace, "ns1");
    assert_eq!(secret.data.len(), 2);
    assert_eq!(secret.data[0].key, "AZP_TOKEN");
    assert_eq!(secret.data[0].value, None);
    assert_eq!(secret.data[1].key, "SPN_SECRET");
    assert_eq!(secret.data[1].value, None);

    let config = cluster.config.clone().unwrap();
    assert_eq!(config.namespace, "ns1");
    assert_eq!(config.data.len(), 2);
    assert_eq!(config.data[0].key, "AZP_POOL");
    assert_eq!(config.data[0].value, "p1");
    assert_eq!(config.data[1].key, "AZP_URL");
    assert_eq!(config.data[1].value, "https://x");

    let policy = cluster.policy.clone().unwrap();
    assert_eq!(policy.name, "allow-egress-demo");
    assert_eq!(policy.namespace, "ns1");

    let workload = cluster.workload.clone().unwrap();
    assert_eq!(workload.replicas, Some(2));

    // Second pass: a spec edit to five replicas triggers Update and
    // leaves the secret untouched.
    cluster.resource.spec.replicas = 5;
    let secret_before = cluster.secret.clone();
    let (outcome, steps) = reconcile(&mut cluster, &VaultReply::AuthFailed);
    assert_eq!(outcome.unwrap(), Requeue::After(10));
    assert_eq!(
        steps,
        vec![Step::ApplyConfig, Step::ApplyPolicy, Step::ApplyWorkload, Step::PatchStatus(true)]
    );
    assert_eq!(cluster.secret, secret_before);
    assert_eq!(cluster.workload.clone().unwrap().replicas, Some(5));

    // Third pass: the deletion timestamp triggers Delete; all four
    // dependents and the finalizer go, and no requeue is scheduled.
    cluster.resource.metadata.deletion_timestamp = Some("2024-01-01T00:00:00Z".to_string());
    let (outcome, steps) = reconcile(&mut cluster, &VaultReply::AuthFailed);
    assert_eq!(outcome.unwrap(), Requeue::AwaitChange);
    assert_eq!(
        steps,
        vec![
            Step::DeletePolicy,
            Step::DeleteConfig,
            Step::DeleteSecret,
            Step::DeleteWorkload,
            Step::RemoveFinalizer,
        ]
    );
    assert!(cluster.workload.is_none());
    assert!(cluster.config.is_none());
    assert!(cluster.secret.is_none());
    assert!(cluster.policy.is_none());
    assert!(cluster.resource.metadata.finalizers.is_empty());
}

#[test]
fn teardown_aborts_on_failed_secret_delete() {
    // A teardown where the secret is already gone: the secret delete
    // fails, so the workload delete and the finalizer removal must not
    // happen.
    let mut cluster = cluster_of(resource(
        "demo",
        Some("ns1"),
        2,
        false,
        vec![FINALIZER.to_string()],
    ));
    let (outcome, _) = reconcile(&mut cluster, &VaultReply::AuthFailed);
    outcome.unwrap();
    cluster.secret = None;
    cluster.resource.metadata.deletion_timestamp = Some("2024-01-01T00:00:00Z".to_string());

    let workload_before = cluster.workload.clone();
    let (outcome, steps) = reconcile(&mut cluster, &VaultReply::AuthFailed);
    assert!(matches!(outcome, Err(Error::KubeError(_))));
    assert_eq!(steps, vec![Step::DeletePolicy, Step::DeleteConfig, Step::DeleteSecret]);
    assert!(cluster.policy.is_none());
    assert!(cluster.config.is_none());
    assert_eq!(cluster.workload, workload_before);
    assert_eq!(cluster.resource.metadata.finalizers, vec![FINALIZER.to_string()]);
}

#[test]
fn noop_pass_requeues_after_a_minute() {
    let mut cluster = cluster_of(resource("demo", Some("ns1"), 2, false, Vec::new()));
    let (outcome, _) = reconcile(&mut cluster, &VaultReply::AuthFailed);
    outcome.unwrap();
    // The store now matches the spec, so the next pass is a NoOp.
    let (outcome, steps) = reconcile(&mut cluster, &VaultReply::AuthFailed);
    assert_eq!(outcome.unwrap(), Requeue::After(60));
    assert_eq!(steps, vec![Step::RunCredentialPipeline]);
}

#[test]
fn on_error_records_failure_and_requeues_quickly() {
    let mut cluster = cluster_of(resource("demo", Some("ns1"), 2, false, Vec::new()));
    let requeue = on_error(&mut cluster);
    assert_eq!(requeue, Requeue::After(5));
    assert_eq!(cluster.resource.status, Some(CDBootstrapStatus { succeeded: false }));
}

#[test]
fn resource_accessors_default_sensibly() {
    let mut cr = resource("demo", Some("ns1"), 2, false, vec![FINALIZER.to_string()]);
    assert_eq!(cr.name_any(), "demo");
    assert_eq!(cr.namespace(), Some("ns1".to_string()));
    let copy = cr.snapshot();
    assert_eq!(copy, cr);
    cr.metadata.name = None;
    assert_eq!(cr.name_any(), "");
    cr.metadata.namespace = None;
    assert_eq!(cr.namespace(), None);
}

#[test]
fn error_messages_carry_their_text() {
    let err = Error::UserInputError("no namespace".to_string());
    assert_eq!(err.message(), "no namespace");
    let err = Error::KubeError("conflict".to_string());
    assert_eq!(err.message(), "conflict");
}
