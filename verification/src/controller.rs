//! Action selection and the reconciliation pass.

use vstd::prelude::*;

use crate::cluster::{Cluster, ClusterView};
use crate::crd::{spec_name_any, CDBootstrap, CDBootstrapView};
use crate::finalizer;
use crate::finalizer::spec_remove_finalizer;
use crate::status;
use crate::status::spec_patch_status;
use crate::objects::Workload;
use crate::subresources::{spec_apply_config, spec_apply_policy, spec_apply_secret,
    spec_apply_workload, spec_desired_state, Agent, AgentConfig, AgentPolicy, AgentSecret};
use crate::vault::{spec_run_pipeline, VaultReply};

verus! {

use vstd::string::StringExecFns;

/// Everything that can go wrong during a reconciliation pass.
#[derive(Debug, Clone, PartialEq, Eq)]
pub enum Error {
    /// The platform's object store refused or failed an operation.
    KubeError(String),
    /// The resource itself is unusable, typically a missing field.
    UserInputError(String),
}

impl Error {
    /// A short description of the error, for logging by the host binary.
    pub fn message(&self) -> (r: String)
        ensures
            match self {
                Error::KubeError(m) => r@ == m@,
                Error::UserInputError(m) => r@ == m@,
            },
    {
        match self {
            Error::KubeError(m) => m.clone(),
            Error::UserInputError(m) => m.clone(),
        }
    }
}

/// Action to be taken upon a [`CDBootstrap`] resource during reconciliation.
#[derive(PartialEq, Eq, Structural, Clone, Copy, Debug)]
pub enum CDBootstrapAction {
    /// Attach the finalizer and create all dependent objects.
    Create,
    /// Re-apply the dependent objects that drifted from the spec.
    Update,
    /// Tear the dependent objects down and release the finalizer.
    Delete,
    /// The resource is in its desired state; only observe and requeue.
    NoOp,
}

/// What the controller asks the platform to do with the work item once the
/// pass is over.
#[derive(PartialEq, Eq, Structural, Clone, Copy, Debug)]
pub enum Requeue {
    /// Run another pass after this many seconds.
    After(u64),
    /// Do not reschedule; wait for the next external change.
    AwaitChange,
}

/// One store-changing step of a reconciliation pass, in the order the pass
/// performed them.
#[derive(PartialEq, Eq, Structural, Clone, Copy, Debug)]
pub enum Step {
    AddFinalizer,
    ApplySecret,
    ApplyConfig,
    ApplyPolicy,
    ApplyWorkload,
    PatchStatus(bool),
    DeletePolicy,
    DeleteConfig,
    DeleteSecret,
    DeleteWorkload,
    RemoveFinalizer,
    RunCredentialPipeline,
}

/// True when the resource is marked for deletion.
pub open spec fn spec_marked_for_deletion(cr: CDBootstrapView) -> bool {
    cr.metadata.deletion_timestamp is Some
}

/// True when the controller's finalizer claim is on the resource.
pub open spec fn spec_has_finalizer(cr: CDBootstrapView) -> bool {
    cr.metadata.finalizers.len() > 0
}

/// The action a resource in the given state calls for.
///
/// Precedence, highest first: a deletion mark forces `Delete`; an absent
/// finalizer forces `Create`; drift from the desired state forces
/// `Update`; otherwise nothing is to be done.
pub open spec fn spec_determine_action(cr: CDBootstrapView, desired_state: bool) -> CDBootstrapAction {
    if spec_marked_for_deletion(cr) {
        CDBootstrapAction::Delete
    } else if !spec_has_finalizer(cr) {
        CDBootstrapAction::Create
    } else if !desired_state {
        CDBootstrapAction::Update
    } else {
        CDBootstrapAction::NoOp
    }
}

/// Resources arrive in the reconciliation queue in a certain state. This
/// function looks at the state of the given resource and decides which
/// action needs to be performed next.
pub fn determine_action(cr: &CDBootstrap, desired_state: bool) -> (r: CDBootstrapAction)
    ensures
        r == spec_determine_action(cr@, desired_state),
{
    if cr.metadata.deletion_timestamp.is_some() {
        CDBootstrapAction::Delete
    } else if cr.metadata.finalizers.is_empty() {
        CDBootstrapAction::Create
    } else if !desired_state {
        CDBootstrapAction::Update
    } else {
        CDBootstrapAction::NoOp
    }
}

/// A deletion mark always wins: even a resource that never got its
/// finalizer attached is torn down, never created anew.
pub proof fn lemma_delete_preempts_create(cr: CDBootstrapView, desired_state: bool)
    requires
        spec_marked_for_deletion(cr),
    ensures
        spec_determine_action(cr, desired_state) == CDBootstrapAction::Delete,
{
}

/// Checks whether all objects are in the desired state. For now only the
/// workload's replica count is checked; the check runs twice and every
/// run must agree.
pub fn in_desired_state(cr: &CDBootstrap, workload: Option<&Workload>) -> (r: bool)
    ensures
        r == spec_desired_state(cr@, workload.deep_view()),
{
    let first = Agent::desired_state(cr, workload);
    let second = Agent::desired_state(cr, workload);
    first && second
}

/// The store after a full create pass: the finalizer is attached first,
/// then every dependent object is applied from the snapshot the pass
/// started from, and the status records the success.
pub open spec fn spec_create_pass(c: ClusterView, name: Seq<char>, ns: Seq<char>) -> ClusterView {
    let cr = c.resource;
    let c1 = ClusterView { resource: finalizer::spec_add_finalizer(c.resource), ..c };
    let c2 = spec_apply_secret(c1, name, ns, cr);
    let c3 = spec_apply_config(c2, name, ns, cr);
    let c4 = spec_apply_policy(c3, name, ns, cr);
    let c5 = spec_apply_workload(c4, name, ns, cr);
    ClusterView { resource: spec_patch_status(c5.resource, true), ..c5 }
}

/// The store after an update pass: config, policy and workload are
/// re-applied, the secret is left alone, and the status records the
/// success.
pub open spec fn spec_update_pass(c: ClusterView, name: Seq<char>, ns: Seq<char>) -> ClusterView {
    let cr = c.resource;
    let c1 = spec_apply_config(c, name, ns, cr);
    let c2 = spec_apply_policy(c1, name, ns, cr);
    let c3 = spec_apply_workload(c2, name, ns, cr);
    ClusterView { resource: spec_patch_status(c3.resource, true), ..c3 }
}

/// The steps of a create pass, in order.
pub open spec fn spec_create_steps() -> Seq<Step> {
    seq![
        Step::AddFinalizer,
        Step::ApplySecret,
        Step::ApplyConfig,
        Step::ApplyPolicy,
        Step::ApplyWorkload,
        Step::PatchStatus(true),
    ]
}

/// The steps of an update pass, in order.
pub open spec fn spec_update_steps() -> Seq<Step> {
    seq![Step::ApplyConfig, Step::ApplyPolicy, Step::ApplyWorkload, Step::PatchStatus(true)]
}

/// A create or update pass reaches the desired state: the workload it
/// leaves behind carries exactly the spec's replica count, so the next
/// pass over an unchanged resource that is not marked for deletion
/// decides that nothing is to be done.
pub proof fn lemma_pass_reaches_desired_state(c: ClusterView, name: Seq<char>, ns: Seq<char>)
    requires
        !spec_marked_for_deletion(c.resource),
    ensures
        ({
            let after = spec_create_pass(c, name, ns);
            spec_desired_state(after.resource, after.workload) && spec_determine_action(
                after.resource,
                spec_desired_state(after.resource, after.workload),
            ) == CDBootstrapAction::NoOp
        }),
        spec_has_finalizer(c.resource) ==> ({
            let after = spec_update_pass(c, name, ns);
            spec_desired_state(after.resource, after.workload) && spec_determine_action(
                after.resource,
                spec_desired_state(after.resource, after.workload),
            ) == CDBootstrapAction::NoOp
        }),
{
}

/// True when a teardown can run to completion: every dependent object is
/// still there to be deleted.
pub open spec fn spec_teardown_ok(c: ClusterView) -> bool {
    c.policy is Some && c.config is Some && c.secret is Some && c.workload is Some
}

/// The store after a teardown pass. Deletes run in reverse-dependency
/// order — policy, config, secret, workload — and the first failure
/// aborts the pass, so everything after the failed delete keeps its
/// state. The finalizer comes off only once all four deletes succeeded.
pub open spec fn spec_teardown_store(c: ClusterView) -> ClusterView {
    if c.policy is None {
        c
    } else if c.config is None {
        ClusterView { policy: None, ..c }
    } else if c.secret is None {
        ClusterView { policy: None, config: None, ..c }
    } else if c.workload is None {
        ClusterView { policy: None, config: None, secret: None, ..c }
    } else {
        ClusterView {
            policy: None,
            config: None,
            secret: None,
            workload: None,
            resource: spec_remove_finalizer(c.resource),
        }
    }
}

/// The steps a teardown pass attempts, in order, up to and including the
/// first failing delete.
pub open spec fn spec_teardown_steps(c: ClusterView) -> Seq<Step> {
    if c.policy is None {
        seq![Step::DeletePolicy]
    } else if c.config is None {
        seq![Step::DeletePolicy, Step::DeleteConfig]
    } else if c.secret is None {
        seq![Step::DeletePolicy, Step::DeleteConfig, Step::DeleteSecret]
    } else if c.workload is None {
        seq![Step::DeletePolicy, Step::DeleteConfig, Step::DeleteSecret, Step::DeleteWorkload]
    } else {
        seq![
            Step::DeletePolicy,
            Step::DeleteConfig,
            Step::DeleteSecret,
            Step::DeleteWorkload,
            Step::RemoveFinalizer,
        ]
    }
}

/// Deletion ordering, spelled out. A complete teardown records its
/// deletes as policy, config, secret, workload, with the finalizer
/// removal after all of them; and when the secret delete fails, neither
/// the workload delete nor the finalizer removal takes place.
pub proof fn lemma_teardown_ordering(c: ClusterView)
    ensures
        spec_teardown_ok(c) ==> spec_teardown_steps(c) == seq![
            Step::DeletePolicy,
            Step::DeleteConfig,
            Step::DeleteSecret,
            Step::DeleteWorkload,
            Step::RemoveFinalizer,
        ],
        c.policy is Some && c.config is Some && c.secret is None ==> spec_teardown_steps(c)
            == seq![Step::DeletePolicy, Step::DeleteConfig, Step::DeleteSecret]
            && spec_teardown_store(c).workload == c.workload && spec_teardown_store(c).resource
            == c.resource,
{
}

/// Tears the dependent objects down in reverse-dependency order and,
/// only if every delete succeeded, removes the finalizer. The attempted
/// steps are appended to `steps`.
fn teardown(cluster: &mut Cluster, steps: &mut Vec<Step>, name: &str, namespace: &str) -> (r:
    Result<(), Error>)
    ensures
        final(cluster)@ == spec_teardown_store(old(cluster)@),
        final(steps)@ == old(steps)@ + spec_teardown_steps(old(cluster)@),
        r is Ok <==> spec_teardown_ok(old(cluster)@),
        !spec_teardown_ok(old(cluster)@) ==> r matches Err(Error::KubeError(_)),
{
    steps.push(Step::DeletePolicy);
    match AgentPolicy::delete(cluster, name, namespace) {
        Ok(_) => {},
        Err(e) => {
            proof {
                assert(steps@ =~= old(steps)@ + spec_teardown_steps(old(cluster)@));
            }
            return Err(e);
        },
    }
    steps.push(Step::DeleteConfig);
    match AgentConfig::delete(cluster, name, namespace) {
        Ok(_) => {},
        Err(e) => {
            proof {
                assert(cluster@ =~= spec_teardown_store(old(cluster)@));
                assert(steps@ =~= old(steps)@ + spec_teardown_steps(old(cluster)@));
            }
            return Err(e);
        },
    }
    steps.push(Step::DeleteSecret);
    match AgentSecret::delete(cluster, name, namespace) {
        Ok(_) => {},
        Err(e) => {
            proof {
                assert(cluster@ =~= spec_teardown_store(old(cluster)@));
                assert(steps@ =~= old(steps)@ + spec_teardown_steps(old(cluster)@));
            }
            return Err(e);
        },
    }
    steps.push(Step::DeleteWorkload);
    match Agent::delete(cluster, name, namespace) {
        Ok(_) => {},
        Err(e) => {
            proof {
                assert(cluster@ =~= spec_teardown_store(old(cluster)@));
                assert(steps@ =~= old(steps)@ + spec_teardown_steps(old(cluster)@));
            }
            return Err(e);
        },
    }
    steps.push(Step::RemoveFinalizer);
    finalizer::delete(&mut cluster.resource);
    proof {
        assert(cluster@ =~= spec_teardown_store(old(cluster)@));
        assert(steps@ =~= old(steps)@ + spec_teardown_steps(old(cluster)@));
    }
    Ok(())
}

/// One reconciliation pass over the store, decided against a snapshot of
/// the resource: a missing namespace is a fatal input error before
/// anything is touched; otherwise the pass performs exactly the action
/// [`spec_determine_action`] selects and reports the requeue the
/// platform is asked for, along with the steps taken.
pub fn reconcile(cluster: &mut Cluster, reply: &VaultReply) -> (r: (Result<Requeue, Error>, Vec<
    Step,
>))
    ensures
        ({
            let c = old(cluster)@;
            let cr = c.resource;
            match cr.metadata.namespace {
                None => final(cluster)@ == c && (r.0 matches Err(Error::UserInputError(_)))
                    && r.1@ == Seq::<Step>::empty(),
                Some(ns) => {
                    let name = spec_name_any(cr.metadata);
                    let action = spec_determine_action(cr, spec_desired_state(cr, c.workload));
                    &&& action == CDBootstrapAction::Create ==> final(cluster)@
                        == spec_create_pass(c, name, ns) && r.0 == Ok::<Requeue, Error>(
                        Requeue::After(10),
                    ) && r.1@ == spec_create_steps()
                    &&& action == CDBootstrapAction::Update ==> final(cluster)@
                        == spec_update_pass(c, name, ns) && r.0 == Ok::<Requeue, Error>(
                        Requeue::After(10),
                    ) && r.1@ == spec_update_steps()
                    &&& action == CDBootstrapAction::Delete ==> final(cluster)@
                        == spec_teardown_store(c) && r.1@ == spec_teardown_steps(c)
                        && (spec_teardown_ok(c) ==> r.0 == Ok::<Requeue, Error>(
                        Requeue::AwaitChange,
                    )) && (!spec_teardown_ok(c) ==> (r.0 matches Err(Error::KubeError(_))))
                    &&& action == CDBootstrapAction::NoOp ==> final(cluster)@
                        == spec_run_pipeline(c, name, ns, reply@) && r.0 == Ok::<Requeue, Error>(
                        Requeue::After(60),
                    ) && r.1@ == seq![Step::RunCredentialPipeline]
                },
            }
        }),
{
    let cr = cluster.resource.snapshot();
    let namespace: String = match cr.namespace() {
        None => {
            // With no namespace to deploy to, the pass ends with an input
            // error before any mutation.
            return (
                (
                    Err(
                        Error::UserInputError(
                            String::from_str(
                                "Expected CDBootstrap resource to be namespaced. Can't deploy to an unknown namespace.",
                            ),
                        ),
                    ),
                    Vec::new(),
                )
            );
        },
        Some(namespace) => namespace,
    };
    let name = cr.name_any();
    let desired = in_desired_state(&cr, cluster.workload.as_ref());
    let mut steps: Vec<Step> = Vec::new();
    match determine_action(&cr, desired) {
        CDBootstrapAction::Create => {
            // The finalizer comes first: a pass that dies mid-create must
            // leave a future teardown pass behind, never a leak.
            finalizer::add(&mut cluster.resource);
            steps.push(Step::AddFinalizer);
            let _ = AgentSecret::apply(cluster, name.as_str(), namespace.as_str(), &cr);
            steps.push(Step::ApplySecret);
            let _ = AgentConfig::apply(cluster, name.as_str(), namespace.as_str(), &cr);
            steps.push(Step::ApplyConfig);
            let _ = AgentPolicy::apply(cluster, name.as_str(), namespace.as_str(), &cr);
            steps.push(Step::ApplyPolicy);
            let _ = Agent::apply(cluster, name.as_str(), namespace.as_str(), &cr);
            steps.push(Step::ApplyWorkload);
            status::patch(&mut cluster.resource, true);
            steps.push(Step::PatchStatus(true));
            proof {
                assert(cluster@ =~= spec_create_pass(
                    old(cluster)@,
                    name@,
                    namespace@,
                ));
                assert(steps@ =~= spec_create_steps());
            }
            (Ok(Requeue::After(10)), steps)
        },
        CDBootstrapAction::Update => {
            let _ = AgentConfig::apply(cluster, name.as_str(), namespace.as_str(), &cr);
            steps.push(Step::ApplyConfig);
            let _ = AgentPolicy::apply(cluster, name.as_str(), namespace.as_str(), &cr);
            steps.push(Step::ApplyPolicy);
            let _ = Agent::apply(cluster, name.as_str(), namespace.as_str(), &cr);
            steps.push(Step::ApplyWorkload);
            status::patch(&mut cluster.resource, true);
            steps.push(Step::PatchStatus(true));
            proof {
                assert(cluster@ =~= spec_update_pass(
                    old(cluster)@,
                    name@,
                    namespace@,
                ));
                assert(steps@ =~= spec_update_steps());
            }
            (Ok(Requeue::After(10)), steps)
        },
        CDBootstrapAction::Delete => {
            // Only once every dependent object is gone may the finalizer
            // come off and the platform collect the resource. Terminal:
            // no requeue is scheduled.
            match teardown(cluster, &mut steps, name.as_str(), namespace.as_str()) {
                Ok(_) => (Ok(Requeue::AwaitChange), steps),
                Err(e) => (Err(e), steps),
            }
        },
        CDBootstrapAction::NoOp => {
            let _ = status::print(&cluster.resource);
            let _ = crate::vault::run(cluster, name.as_str(), namespace.as_str(), reply);
            steps.push(Step::RunCredentialPipeline);
            proof {
                assert(steps@ =~= seq![Step::RunCredentialPipeline]);
            }
            (Ok(Requeue::After(60)), steps)
        },
    }
}

/// Recovery from a failed pass: the status records the failure and the
/// work item comes back after the short error delay.
pub fn on_error(cluster: &mut Cluster) -> (r: Requeue)
    ensures
        final(cluster)@ == (ClusterView {
            resource: spec_patch_status(old(cluster)@.resource, false),
            ..old(cluster)@
        }),
        r == Requeue::After(5),
{
    status::patch(&mut cluster.resource, false);
    proof {
        assert(cluster@ =~= (ClusterView {
            resource: spec_patch_status(old(cluster)@.resource, false),
            ..old(cluster)@
        }));
    }
    Requeue::After(5)
}

} // verus!
