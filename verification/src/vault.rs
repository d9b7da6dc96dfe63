//! The credential bootstrap pipeline.
//!
//! The pipeline is a pure decision table over which of the secret's two
//! named values are set. The vault itself is an external collaborator:
//! the host binary authenticates and fetches, and hands the outcome back
//! as a [`VaultReply`]. The verified pipeline decides whether the vault
//! is consulted at all and what the secret holds afterwards, for every
//! possible outcome.

use vstd::prelude::*;

use crate::cluster::{Cluster, ClusterView};
use crate::subresources::{lemma_set_azp_token_preserves_spn, spec_set_azp_token, spec_stored_spn,
    spec_value_is_set, AgentSecret};

verus! {

use vstd::string::StringExecFns;

/// Connection parameters of the external vault, as the resource's spec
/// declares them.
#[derive(Debug, Clone, PartialEq, Eq)]
pub struct AzureVault {
    pub tenant: String,
    pub url: String,
    pub spn: String,
}

/// Abstract value of an [`AzureVault`].
#[verifier::ext_equal]
pub struct AzureVaultView {
    pub tenant: Seq<char>,
    pub url: Seq<char>,
    pub spn: Seq<char>,
}

impl View for AzureVault {
    type V = AzureVaultView;

    open spec fn view(&self) -> AzureVaultView {
        AzureVaultView { tenant: self.tenant@, url: self.url@, spn: self.spn@ }
    }
}

impl AzureVault {
    /// Bundles the vault coordinates.
    pub fn new(tenant: &str, keyvault_url: &str, spn: &str) -> (r: AzureVault)
        ensures
            r@ == (AzureVaultView { tenant: tenant@, url: keyvault_url@, spn: spn@ }),
    {
        AzureVault {
            tenant: String::from_str(tenant),
            url: String::from_str(keyvault_url),
            spn: String::from_str(spn),
        }
    }
}

/// What the pipeline decides to do, given which credential values are set.
#[derive(PartialEq, Eq, Structural, Clone, Copy, Debug)]
pub enum CredentialAction {
    /// Neither value is set: nothing to do until the operator injects one.
    AwaitCredentials,
    /// The service-principal secret is set and no token is: exchange it
    /// at the vault for a token.
    FetchToken,
    /// The token is already set: no further action.
    TokenReady,
}

/// The decision table over (token set, service-principal secret set).
pub open spec fn spec_credential_action(token_set: bool, spn_set: bool) -> CredentialAction {
    if token_set {
        CredentialAction::TokenReady
    } else if spn_set {
        CredentialAction::FetchToken
    } else {
        CredentialAction::AwaitCredentials
    }
}

/// The decision table over (token set, service-principal secret set).
pub fn credential_action(token_set: bool, spn_set: bool) -> (r: CredentialAction)
    ensures
        r == spec_credential_action(token_set, spn_set),
{
    if token_set {
        CredentialAction::TokenReady
    } else if spn_set {
        CredentialAction::FetchToken
    } else {
        CredentialAction::AwaitCredentials
    }
}

/// The outcome of one consultation of the external vault, as the host
/// binary observed it.
#[derive(Debug, Clone, PartialEq, Eq)]
pub enum VaultReply {
    /// Authentication failed or the connection test did not pass.
    AuthFailed,
    /// Authentication passed and the named secret came back.
    Fetched(String),
    /// Authentication passed but fetching the value failed.
    FetchFailed,
}

/// Abstract value of a [`VaultReply`].
pub enum VaultReplyView {
    AuthFailed,
    Fetched(Seq<char>),
    FetchFailed,
}

impl View for VaultReply {
    type V = VaultReplyView;

    open spec fn view(&self) -> VaultReplyView {
        match self {
            VaultReply::AuthFailed => VaultReplyView::AuthFailed,
            VaultReply::Fetched(s) => VaultReplyView::Fetched(s@),
            VaultReply::FetchFailed => VaultReplyView::FetchFailed,
        }
    }
}

/// The store after one pipeline pass: the token field holds the fetched
/// value when the decision was to fetch and the vault handed one back;
/// every failure — authentication or fetch — leaves the secret unchanged,
/// as does every state in which the vault is not consulted at all.
pub open spec fn spec_run_pipeline(
    c: ClusterView,
    name: Seq<char>,
    ns: Seq<char>,
    reply: VaultReplyView,
) -> ClusterView {
    let token_set = spec_value_is_set(c.secret, "AZP_TOKEN"@);
    let spn_set = spec_value_is_set(c.secret, "SPN_SECRET"@);
    if spec_credential_action(token_set, spn_set) == CredentialAction::FetchToken {
        match reply {
            VaultReplyView::AuthFailed => c,
            VaultReplyView::Fetched(v) => spec_set_azp_token(c, name, ns, v),
            VaultReplyView::FetchFailed => c,
        }
    } else {
        c
    }
}

/// The pipeline never deletes or overwrites the service-principal value:
/// whatever the vault replied, the secret holds the same value under that
/// key after a pass as before it.
pub proof fn lemma_pipeline_preserves_spn(
    c: ClusterView,
    name: Seq<char>,
    ns: Seq<char>,
    reply: VaultReplyView,
)
    ensures
        spec_stored_spn(spec_run_pipeline(c, name, ns, reply).secret) == spec_stored_spn(c.secret),
{
    match reply {
        VaultReplyView::AuthFailed => {},
        VaultReplyView::Fetched(v) => {
            lemma_set_azp_token_preserves_spn(c, name, ns, v);
        },
        VaultReplyView::FetchFailed => {},
    }
}

/// A pass that decides anything but a fetch leaves the whole store
/// untouched: in particular, a state with the token already set, or with
/// neither value set, is never changed.
pub proof fn lemma_pipeline_idle_unless_fetching(
    c: ClusterView,
    name: Seq<char>,
    ns: Seq<char>,
    reply: VaultReplyView,
)
    ensures
        spec_credential_action(
            spec_value_is_set(c.secret, "AZP_TOKEN"@),
            spec_value_is_set(c.secret, "SPN_SECRET"@),
        ) != CredentialAction::FetchToken ==> spec_run_pipeline(c, name, ns, reply) == c,
{
}

/// One pass of the credential bootstrap pipeline.
///
/// Returns whether the vault was consulted: exactly when the
/// service-principal secret is set and the token is not. The store
/// changes only when the vault handed a token back; both failure
/// outcomes, and every state that consults no vault, leave it unchanged.
pub fn run(cluster: &mut Cluster, name: &str, namespace: &str, reply: &VaultReply) -> (consulted:
    bool)
    ensures
        final(cluster)@ == spec_run_pipeline(old(cluster)@, name@, namespace@, reply@),
        consulted == (spec_credential_action(
            spec_value_is_set(old(cluster)@.secret, "AZP_TOKEN"@),
            spec_value_is_set(old(cluster)@.secret, "SPN_SECRET"@),
        ) == CredentialAction::FetchToken),
{
    let sps = AgentSecret::value_is_set(cluster.secret.as_ref(), "SPN_SECRET");
    let azp = AgentSecret::value_is_set(cluster.secret.as_ref(), "AZP_TOKEN");
    if azp == false && sps == false {
        // Neither value is present; the operator has to inject one.
        return false;
    }
    if sps == true && azp == false {
        match reply {
            VaultReply::AuthFailed => {},
            VaultReply::Fetched(v) => {
                let _ = AgentSecret::set_azp_token(cluster, name, namespace, v.as_str());
            },
            VaultReply::FetchFailed => {
                // A fetch failure after successful authentication leaves
                // the secret untouched; the host binary logs the warning.
            },
        }
        return true;
    }
    false
}

} // verus!
