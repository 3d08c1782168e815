//! Run-once guard.
//!
//! The adapter may be mounted at several nesting levels of a composed
//! pipeline (a sub-application nested inside a parent application). The
//! guard marks the request's context the first time the adapter runs;
//! every deeper mount sees the marker and passes the request through
//! untouched, so the envelope is decoded and re-encoded exactly once.

use vstd::prelude::*;

verus! {

/// The opaque tag attached to a request's context the first time the
/// adapter runs. Created unset, marked on the first pass, read-only
/// afterward, discarded with the request.
#[derive(Debug)]
pub struct RunOnceMarker {
    run: bool,
}

impl RunOnceMarker {
    /// Whether the adapter has already run for this request.
    pub closed spec fn spec_has_run(self) -> bool {
        self.run
    }

    /// A fresh request context carries no marker.
    pub fn new() -> (r: Self)
        ensures
            !r.spec_has_run(),
    {
        RunOnceMarker { run: false }
    }

    /// Whether the marker is present. Presence is the sole decision input
    /// for the guard.
    pub fn has_run(&self) -> (r: bool)
        ensures
            r == self.spec_has_run(),
    {
        self.run
    }

    /// Attach the marker. Idempotent: marking an already marked request
    /// changes nothing.
    pub fn mark_run(&mut self)
        ensures
            final(self).spec_has_run(),
    {
        self.run = true;
    }

    /// The guard's decision on entry to the adapter: proceed exactly when
    /// the marker was absent, and leave the marker set either way.
    pub fn enter_once(&mut self) -> (proceed: bool)
        ensures
            proceed == !old(self).spec_has_run(),
            final(self).spec_has_run(),
    {
        if self.run {
            false
        } else {
            self.run = true;
            true
        }
    }
}

/// How many of `mounts` nested adapter passes transform the request, when
/// the marker reads `marked` before the outermost of them. Each pass that
/// proceeds sets the marker for every deeper pass.
pub open spec fn transform_count(mounts: nat, marked: bool) -> int
    decreases mounts,
{
    if mounts == 0 {
        0
    } else {
        (if !marked {
            1int
        } else {
            0int
        }) + transform_count((mounts - 1) as nat, true)
    }
}

/// Law (run-once idempotence): however many times the adapter is mounted
/// in a composed pipeline, a request that arrives unmarked is transformed
/// exactly once — one envelope wrapping, one log trail — and a request
/// already marked is never transformed again.
pub proof fn lemma_run_once(mounts: nat)
    ensures
        mounts > 0 ==> transform_count(mounts, false) == 1,
        transform_count(mounts, true) == 0,
    decreases mounts,
{
    if mounts > 0 {
        lemma_run_once((mounts - 1) as nat);
    }
}

} // verus!
