//! The status reporter: a single boolean flag on the resource's status
//! subresource, overwritten wholesale on every reconciliation pass.

use vstd::prelude::*;

use crate::crd::{CDBootstrap, CDBootstrapStatus, CDBootstrapView};

verus! {

/// The resource after a status write: the whole status holds just the
/// given flag.
pub open spec fn spec_patch_status(cr: CDBootstrapView, success: bool) -> CDBootstrapView {
    CDBootstrapView { status: Some(CDBootstrapStatus { succeeded: success }), ..cr }
}

/// The flag the resource's status carries; an absent status reads as a
/// failure.
pub open spec fn spec_succeeded(cr: CDBootstrapView) -> bool {
    match cr.status {
        Some(s) => s.succeeded,
        None => false,
    }
}

/// Overwrites the resource's status with the given outcome flag.
pub fn patch(cr: &mut CDBootstrap, success: bool)
    ensures
        final(cr)@ == spec_patch_status(old(cr)@, success),
{
    cr.status = Some(CDBootstrapStatus { succeeded: success });
    proof {
        assert(cr@ =~= spec_patch_status(old(cr)@, success));
    }
}

/// Replaces the resource's status wholesale; the effect on the resource
/// equals that of [`patch`].
pub fn replace(cr: &mut CDBootstrap, success: bool)
    ensures
        final(cr)@ == spec_patch_status(old(cr)@, success),
{
    cr.status = Some(CDBootstrapStatus { succeeded: success });
    proof {
        assert(cr@ =~= spec_patch_status(old(cr)@, success));
    }
}

/// Reads the status flag back, defaulting an absent status to a failure;
/// the host binary logs the returned value.
pub fn print(cr: &CDBootstrap) -> (r: bool)
    ensures
        r == spec_succeeded(cr@),
{
    match &cr.status {
        Some(s) => s.succeeded,
        None => false,
    }
}

} // verus!
