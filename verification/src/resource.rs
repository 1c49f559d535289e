//! Capture-resource lifecycle: a process-wide, lazily created, build-once
//! slot for the one capture resource.
//!
//! The resource is constructed at most once per process; the constructed
//! instance, or the construction failure, is cached for the process lifetime,
//! and later calls — with any configuration — return the cached outcome.  A
//! build failure is terminal for capture: no retry is attempted implicitly.
//!
//! The slot carries a ghost model of the cell's contents, [`SharedCaptureResource::cached`]:
//! `None` while nothing has been built, `Some(outcome)` from the first
//! accessor call on.  The contracts state the whole lifecycle over it: the
//! first call fixes the outcome, later calls return it unchanged.

use vstd::prelude::*;
use once_cell::sync::OnceCell;
use crate::config::CaptureConfig;

verus! {

/// What the host reported when the platform capture handle was constructed
/// from the configuration: ready for use, or failed with a platform cause
/// (for instance, the requested backend or output encoding is not supported
/// on this host).
#[derive(Clone, Debug, PartialEq, Eq)]
pub enum HostBuild {
    Ready,
    Failed(String),
}

/// Capture-resource construction failure, carrying the platform-reported
/// cause.  Terminal for screen capture for the rest of the process.
#[derive(Clone, Debug, PartialEq, Eq)]
pub struct BuildError {
    pub cause: String,
}

/// The capture resource: bound to the one configuration it was built with,
/// immutable from then on, and reused across capture attempts.
#[derive(Clone, Debug, PartialEq)]
pub struct CaptureResource {
    pub config: CaptureConfig,
}

/// What building the resource yields for a given configuration and host
/// report: a resource bound to exactly that configuration when the host was
/// ready, else the failure with the host's cause.
pub open spec fn build_outcome_spec(config: CaptureConfig, host: HostBuild) -> Result<
    CaptureResource,
    BuildError,
> {
    match host {
        HostBuild::Ready => Ok(CaptureResource { config }),
        HostBuild::Failed(cause) => Err(BuildError { cause }),
    }
}

/// Build the capture resource from a configuration and the host's
/// construction report.
pub fn build_resource(config: CaptureConfig, host: HostBuild) -> (r: Result<
    CaptureResource,
    BuildError,
>)
    ensures
        r == build_outcome_spec(config, host),
{
    match host {
        HostBuild::Ready => Ok(CaptureResource { config }),
        HostBuild::Failed(cause) => Err(BuildError { cause }),
    }
}

#[verifier::external_type_specification]
#[verifier::external_body]
#[verifier::reject_recursive_types(T)]
pub struct ExOnceCell<T>(OnceCell<T>);

/// The process-wide slot for the one capture resource: lazily initialised,
/// initialised at most once, its outcome shared with every caller.  `model`
/// is the ghost mirror of the cell's contents that the contracts speak of;
/// the trusted accessors below keep the two in step.
pub struct SharedCaptureResource {
    cell: OnceCell<Result<CaptureResource, BuildError>>,
    model: Ghost<Option<Result<CaptureResource, BuildError>>>,
}

/// Relies on once_cell::sync::OnceCell::new: creates an empty cell, holding
/// no value until the first initialisation.
#[verifier::external_body]
fn cell_new() -> (c: OnceCell<Result<CaptureResource, BuildError>>) {
    OnceCell::new()
}

/// Relies on once_cell::sync::OnceCell::get: returns the stored value, and
/// nothing while the cell is empty.  (A value mid-initialisation cannot be
/// observed here: this shared borrow cannot coexist with the exclusive
/// borrow that the initialising accessor holds.)  The cell only ever stores
/// what `build_resource` returned, and the clone of an outcome copies its
/// fields, so the result is exactly the modelled contents.
#[verifier::external_body]
fn slot_cached(slot: &SharedCaptureResource) -> (r: Option<Result<CaptureResource, BuildError>>)
    ensures
        r == slot.model@,
{
    slot.cell.get().cloned()
}

/// Relies on once_cell::sync::OnceCell::get_or_init: the first call stores
/// its closure's result, at most one closure ever runs even under concurrent
/// first calls, and every call returns a reference to the single stored
/// value.  The closure here only calls the library's verified
/// `build_resource`, so an empty cell is filled with exactly
/// `build_outcome_spec(config, host)`, a filled cell is left as it was, and
/// the returned clone copies the stored outcome's fields.  The ghost model
/// follows the contents.
#[verifier::external_body]
fn slot_get_or_build(
    slot: &mut SharedCaptureResource,
    config: CaptureConfig,
    host: HostBuild,
) -> (r: Result<CaptureResource, BuildError>)
    ensures
        old(slot).model@ is None ==> final(slot).model@ == Some(
            build_outcome_spec(config, host),
        ),
        old(slot).model@ matches Some(cached) ==> final(slot).model@ == Some(cached),
        Some(r) == final(slot).model@,
{
    slot.cell.get_or_init(|| build_resource(config, host)).clone()
}

impl SharedCaptureResource {
    /// The build outcome this slot has cached: `None` while no build has
    /// been attempted, and from the first accessor call on, `Some` of the
    /// one outcome every caller observes.
    pub closed spec fn cached(&self) -> Option<Result<CaptureResource, BuildError>> {
        self.model@
    }

    /// An empty slot: no build has been attempted yet.
    pub fn new() -> (s: Self)
        ensures
            s.cached() is None,
    {
        SharedCaptureResource { cell: cell_new(), model: Ghost(None) }
    }

    /// The cached build outcome, without attempting a build.
    pub fn cached_outcome(&self) -> (r: Option<Result<CaptureResource, BuildError>>)
        ensures
            r == self.cached(),
    {
        slot_cached(self)
    }

    /// Build-once accessor.  The first call builds the resource from
    /// `config` and the host's report and caches the outcome — instance or
    /// failure — for the slot's lifetime; every later call returns the
    /// cached outcome and ignores its arguments.  So the configuration is
    /// fixed at the first call, a failed build is never implicitly retried,
    /// and all callers observe the same outcome.
    pub fn get_or_init(&mut self, config: CaptureConfig, host: HostBuild) -> (r: Result<
        CaptureResource,
        BuildError,
    >)
        ensures
            old(self).cached() is None ==> final(self).cached() == Some(
                build_outcome_spec(config, host),
            ),
            old(self).cached() matches Some(cached) ==> final(self).cached() == Some(cached),
            Some(r) == final(self).cached(),
    {
        slot_get_or_build(self, config, host)
    }
}

} // verus!
