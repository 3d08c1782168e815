//! Per-invocation ordered log sink.
//!
//! A collector is created once per request by the envelope decoder, shared
//! with the downstream pipeline for the duration of the request, and drained
//! exactly once by the envelope encoder. Draining requires sole ownership:
//! an outstanding shared handle is a logic bug, reported as an
//! [`OwnershipViolation`] rather than silently losing log lines.

use vstd::prelude::*;

use crate::strutil::{chars_string, push_chars, str_chars};

verus! {

/// A log line as it is stored: the invocation id, one space, then the line.
pub open spec fn prefixed_line(id: Seq<char>, line: Seq<char>) -> Seq<char> {
    id + seq![' '] + line
}

/// The log trail after one append: the previous trail extended with the
/// prefixed line.
pub open spec fn logged(lines: Seq<Seq<char>>, id: Seq<char>, line: Seq<char>) -> Seq<Seq<char>> {
    lines.push(prefixed_line(id, line))
}

/// Returned by [`AzureFnLoggerInner::try_finalize`] when the collector is
/// still shared. This signals a handle retained beyond the request's
/// lifetime — a latent bug, not a recoverable condition.
#[derive(Debug, PartialEq, Eq, Structural)]
pub struct OwnershipViolation;

/// The per-invocation log collector: an invocation id and the ordered
/// sequence of log lines appended so far, together with a count of the
/// shared handles currently outstanding.
#[derive(Debug)]
pub struct AzureFnLoggerInner {
    invocation_id: String,
    logs: Vec<String>,
    shared_handles: u64,
}

/// Appending through a shared handle to the per-invocation collector.
pub trait AzureFnLoggerExt {
    /// The invocation id the collector was created with.
    spec fn id(&self) -> Seq<char>;

    /// The ordered log trail collected so far.
    spec fn lines(&self) -> Seq<Seq<char>>;

    /// How many shared handles are outstanding.
    spec fn handles(&self) -> nat;

    /// Append a line to the trail, prefixed with the invocation id.
    fn log(&mut self, log_line: String)
        ensures
            final(self).lines() == logged(old(self).lines(), old(self).id(), log_line@),
            final(self).id() == old(self).id(),
            final(self).handles() == old(self).handles(),
    ;
}

impl AzureFnLoggerExt for AzureFnLoggerInner {
    closed spec fn id(&self) -> Seq<char> {
        self.invocation_id@
    }

    closed spec fn lines(&self) -> Seq<Seq<char>> {
        self.logs@.map_values(|s: String| s@)
    }

    closed spec fn handles(&self) -> nat {
        self.shared_handles as nat
    }

    fn log(&mut self, log_line: String) {
        let mut line: Vec<char> = Vec::new();
        push_chars(&mut line, self.invocation_id.as_str());
        line.push(' ');
        push_chars(&mut line, log_line.as_str());
        let line = chars_string(&line);
        assert(line@ == prefixed_line(self.id(), log_line@));
        let ghost before = self.logs@;
        self.logs.push(line);
        assert(self.logs@.map_values(|s: String| s@) =~= logged(
            before.map_values(|s: String| s@),
            self.id(),
            log_line@,
        ));
    }
}

impl AzureFnLoggerInner {
    /// Create a collector for one invocation, with an empty trail and no
    /// shared handles.
    pub fn new(invocation_id: String) -> (r: Self)
        ensures
            r.id() == invocation_id@,
            r.lines() == Seq::<Seq<char>>::empty(),
            r.handles() == 0,
    {
        let r = AzureFnLoggerInner { invocation_id, logs: Vec::new(), shared_handles: 0 };
        assert(r.lines() =~= Seq::<Seq<char>>::empty());
        r
    }

    /// Record that one more shared handle to this collector exists.
    pub fn clone_handle(&mut self)
        requires
            old(self).handles() < u64::MAX,
        ensures
            final(self).handles() == old(self).handles() + 1,
            final(self).id() == old(self).id(),
            final(self).lines() == old(self).lines(),
    {
        self.shared_handles = self.shared_handles + 1;
    }

    /// Record that one shared handle has been dropped.
    pub fn release_handle(&mut self)
        requires
            old(self).handles() > 0,
        ensures
            final(self).handles() == old(self).handles() - 1,
            final(self).id() == old(self).id(),
            final(self).lines() == old(self).lines(),
    {
        self.shared_handles = self.shared_handles - 1;
    }

    /// Drain the collector. Succeeds, returning the ordered trail, exactly
    /// when no shared handle is outstanding; consuming `self` makes a second
    /// drain impossible. An outstanding handle yields the fatal
    /// [`OwnershipViolation`] instead.
    pub fn try_finalize(self) -> (r: Result<Vec<String>, OwnershipViolation>)
        ensures
            r is Ok <==> self.handles() == 0,
            r matches Ok(v) ==> v@.map_values(|s: String| s@) == self.lines(),
    {
        if self.shared_handles != 0 {
            Err(OwnershipViolation)
        } else {
            Ok(self.logs)
        }
    }
}

/// One event in the life of a collector's shared handles.
pub enum HandleEvent {
    /// A component cloned the handle.
    Cloned,
    /// A component dropped its clone.
    Released,
}

/// How many events in the trail are `Cloned`.
pub open spec fn clone_count(events: Seq<HandleEvent>) -> int
    decreases events.len(),
{
    if events.len() == 0 {
        0
    } else {
        clone_count(events.drop_last()) + if events.last() is Cloned {
            1int
        } else {
            0int
        }
    }
}

/// How many events in the trail are `Released`.
pub open spec fn release_count(events: Seq<HandleEvent>) -> int
    decreases events.len(),
{
    if events.len() == 0 {
        0
    } else {
        release_count(events.drop_last()) + if events.last() is Released {
            1int
        } else {
            0int
        }
    }
}

/// The number of handles outstanding after the events: clones minus
/// releases, which is how [`AzureFnLoggerInner::clone_handle`] and
/// [`AzureFnLoggerInner::release_handle`] move the handle count.
pub open spec fn outstanding(events: Seq<HandleEvent>) -> int
    decreases events.len(),
{
    if events.len() == 0 {
        0
    } else {
        outstanding(events.drop_last()) + if events.last() is Cloned {
            1int
        } else {
            -1int
        }
    }
}

/// Law (unique ownership): the handles outstanding after any trail of
/// clone and release events are the clones not yet released, so the
/// collector is back to a sole owner — and `try_finalize` succeeds —
/// exactly when every clone was matched by a release. A component that
/// clones the handle and does not release it leaves `outstanding`
/// positive, and `try_finalize` (which succeeds precisely on a zero
/// handle count) fails fatally. Consuming `self` in `try_finalize` rules
/// out a second drain by construction.
pub proof fn lemma_unique_ownership(events: Seq<HandleEvent>)
    ensures
        outstanding(events) == clone_count(events) - release_count(events),
        outstanding(events) == 0 <==> clone_count(events) == release_count(events),
    decreases events.len(),
{
    if events.len() > 0 {
        lemma_unique_ownership(events.drop_last());
    }
}

/// Law (log ordering): three appends issued in order extend the trail by
/// exactly those three lines, in that order, each prefixed with the
/// invocation id. This is the trail `try_finalize` hands back once the
/// collector has a sole owner.
pub proof fn lemma_log_ordering(
    lines0: Seq<Seq<char>>,
    id: Seq<char>,
    l1: Seq<char>,
    l2: Seq<char>,
    l3: Seq<char>,
)
    ensures
        logged(logged(logged(lines0, id, l1), id, l2), id, l3) =~= lines0 + seq![
            prefixed_line(id, l1),
            prefixed_line(id, l2),
            prefixed_line(id, l3),
        ],
{
}

} // verus!
