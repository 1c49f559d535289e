//! Capability gate: decides whether the host may capture the screen at all.
//!
//! The platform answers three questions — is capture supported, is permission
//! already held, and (if asked) was a permission request granted.  The
//! embedding layer obtains those answers from the platform and hands them to
//! [`gate_decision`], which makes the fatal/proceed decision.

use vstd::prelude::*;

verus! {

/// Reason the process must terminate before any capture is attempted.
#[derive(Clone, Copy, Debug, PartialEq, Eq, Structural)]
pub enum FatalReason {
    /// The host platform cannot perform screen capture at all.
    Unsupported,
    /// Capture is supported, but the permission request was refused.
    PermissionDenied,
}

/// Capture is refused on an unsupported host; otherwise it proceeds when
/// permission is already held or was granted on request, and is fatal when
/// the request was refused.
pub open spec fn gate_spec(supported: bool, permitted: bool, granted: bool) -> Result<
    (),
    FatalReason,
> {
    if !supported {
        Err(FatalReason::Unsupported)
    } else if permitted || granted {
        Ok(())
    } else {
        Err(FatalReason::PermissionDenied)
    }
}

/// Decide whether capture may proceed.
///
/// `supported` and `permitted` are the platform's answers to "can this host
/// capture" and "is permission already granted"; `granted` is the outcome of
/// the one synchronous permission request, made only when permission was not
/// already held (its value is irrelevant otherwise, and irrelevant on an
/// unsupported host).
pub fn gate_decision(supported: bool, permitted: bool, granted: bool) -> (r: Result<
    (),
    FatalReason,
>)
    ensures
        r == gate_spec(supported, permitted, granted),
{
    if !supported {
        Err(FatalReason::Unsupported)
    } else if permitted {
        Ok(())
    } else if granted {
        Ok(())
    } else {
        Err(FatalReason::PermissionDenied)
    }
}

} // verus!
