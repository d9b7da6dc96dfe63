//! The finalizer protocol: the controller's claim on the resource.
//!
//! Both operations model idempotent merge patches of the resource's
//! metadata. `add` must complete before any dependent object is created,
//! so a crash mid-creation still leaves a future teardown pass to run;
//! `delete` may only run once every dependent object is gone.

use vstd::prelude::*;

use crate::crd::{CDBootstrap, CDBootstrapView, ResourceMetaView};

verus! {

use vstd::string::StringExecFns;

/// The fixed string identifying this controller's claim on a resource.
pub open spec fn spec_finalizer_sentinel() -> Seq<char> {
    "cdbootstraps.cnad.nl/finalizer"@
}

/// The fixed string identifying this controller's claim on a resource.
pub fn finalizer_sentinel() -> (r: String)
    ensures
        r@ == spec_finalizer_sentinel(),
{
    String::from_str("cdbootstraps.cnad.nl/finalizer")
}

/// The resource after the finalizer patch: the finalizer list holds
/// exactly the sentinel, whatever it held before.
pub open spec fn spec_add_finalizer(cr: CDBootstrapView) -> CDBootstrapView {
    CDBootstrapView {
        metadata: ResourceMetaView {
            finalizers: seq![spec_finalizer_sentinel()],
            ..cr.metadata
        },
        ..cr
    }
}

/// The resource after the removal patch: the finalizer list is empty.
pub open spec fn spec_remove_finalizer(cr: CDBootstrapView) -> CDBootstrapView {
    CDBootstrapView {
        metadata: ResourceMetaView { finalizers: Seq::<Seq<char>>::empty(), ..cr.metadata },
        ..cr
    }
}

/// Adds the finalizer record to the resource. If the finalizer already
/// exists, this action has no effect.
pub fn add(cr: &mut CDBootstrap)
    ensures
        final(cr)@ == spec_add_finalizer(old(cr)@),
{
    let mut finalizers: Vec<String> = Vec::new();
    finalizers.push(finalizer_sentinel());
    cr.metadata.finalizers = finalizers;
    proof {
        assert(cr@ =~= spec_add_finalizer(old(cr)@));
    }
}

/// Removes all finalizers from the resource. If there are none already,
/// this action has no effect.
pub fn delete(cr: &mut CDBootstrap)
    ensures
        final(cr)@ == spec_remove_finalizer(old(cr)@),
{
    cr.metadata.finalizers = Vec::new();
    proof {
        assert(cr@ =~= spec_remove_finalizer(old(cr)@));
    }
}

/// Adding the finalizer twice leaves exactly one entry, the same
/// resource a single add produces.
pub proof fn lemma_add_finalizer_idempotent(cr: CDBootstrapView)
    ensures
        spec_add_finalizer(spec_add_finalizer(cr)) == spec_add_finalizer(cr),
        spec_add_finalizer(cr).metadata.finalizers.len() == 1,
{
    assert(spec_add_finalizer(spec_add_finalizer(cr)) =~= spec_add_finalizer(cr));
}

/// Removing finalizers from a resource that has none is a no-op.
pub proof fn lemma_remove_finalizer_on_empty_noop(cr: CDBootstrapView)
    requires
        cr.metadata.finalizers.len() == 0,
    ensures
        spec_remove_finalizer(cr) == cr,
{
    assert(spec_remove_finalizer(cr) =~= cr);
}

} // verus!
