use vstd::prelude::*;
use crate::error::{Error, Result};

verus! {

/// The process-wide count of live sessions, which decides when the engine's
/// global initialisation and cleanup run. One value of it is shared by all
/// sessions, behind one lock.
pub struct LibraryLifecycle {
    live: usize,
}

/// A change to the lifecycle: a session that starts or one that ends.
pub enum LifecycleOp {
    Acquire,
    Release,
}

/// The count, the number of global initialisations and the number of
/// global cleanups.
pub struct LifecycleTally {
    pub live: nat,
    pub inits: nat,
    pub cleanups: nat,
}

/// What a sequence of operations does from no live session: an acquire from
/// zero initialises, a release down to zero cleans up. A release at zero is
/// not allowed and does nothing.
pub open spec fn tally(ops: Seq<LifecycleOp>) -> LifecycleTally
    decreases ops.len(),
{
    if ops.len() == 0 {
        LifecycleTally { live: 0, inits: 0, cleanups: 0 }
    } else {
        let t = tally(ops.drop_last());
        match ops.last() {
            LifecycleOp::Acquire => LifecycleTally {
                live: t.live + 1,
                inits: if t.live == 0 { t.inits + 1 } else { t.inits },
                cleanups: t.cleanups,
            },
            LifecycleOp::Release => if t.live == 0 {
                t
            } else {
                LifecycleTally {
                    live: (t.live - 1) as nat,
                    inits: t.inits,
                    cleanups: if t.live == 1 { t.cleanups + 1 } else { t.cleanups },
                }
            },
        }
    }
}

/// The number of acquires in `ops`.
pub open spec fn acquires(ops: Seq<LifecycleOp>) -> nat
    decreases ops.len(),
{
    if ops.len() == 0 {
        0
    } else {
        acquires(ops.drop_last()) + if ops.last() is Acquire { 1nat } else { 0nat }
    }
}

/// The number of releases in `ops`.
pub open spec fn releases(ops: Seq<LifecycleOp>) -> nat
    decreases ops.len(),
{
    if ops.len() == 0 {
        0
    } else {
        releases(ops.drop_last()) + if ops.last() is Release { 1nat } else { 0nat }
    }
}

/// Every release in `ops` ends a session that an earlier acquire started.
pub open spec fn well_ordered(ops: Seq<LifecycleOp>) -> bool {
    forall|i: int| 0 <= i <= ops.len() ==> #[trigger] releases(ops.take(i)) <= acquires(ops.take(i))
}

impl LibraryLifecycle {
    /// The number of live sessions.
    pub closed spec fn spec_live(&self) -> nat {
        self.live as nat
    }

    /// No live session.
    pub fn new() -> (r: Self)
        ensures
            r.spec_live() == 0,
    {
        LibraryLifecycle { live: 0 }
    }

    /// Counts a new session. Returns whether the engine's global
    /// initialisation must now run, which is when there was no live session.
    pub fn acquire(&mut self) -> (init: bool)
        requires
            old(self).spec_live() < usize::MAX,
        ensures
            final(self).spec_live() == old(self).spec_live() + 1,
            init == (old(self).spec_live() == 0),
    {
        let init = self.live == 0;
        self.live = self.live + 1;
        init
    }

    /// Takes the outcome of the engine's global initialisation after an
    /// acquire that asked for it. On a failure the acquire is undone and
    /// `EngineUnavailable` is returned.
    pub fn initialised(&mut self, status: i32) -> (r: Result<()>)
        requires
            old(self).spec_live() > 0,
        ensures
            r is Ok <==> status == 0,
            status == 0 ==> final(self).spec_live() == old(self).spec_live(),
            status != 0 ==> (final(self).spec_live() == old(self).spec_live() - 1 && r matches Err(
                Error::EngineUnavailable,
            )),
    {
        if status == 0 {
            Ok(())
        } else {
            self.live = self.live - 1;
            Err(Error::EngineUnavailable)
        }
    }

    /// Counts a session that ended. Returns whether the engine's global
    /// cleanup must now run, which is when no live session is left.
    pub fn release(&mut self) -> (cleanup: bool)
        requires
            old(self).spec_live() > 0,
        ensures
            final(self).spec_live() == old(self).spec_live() - 1,
            cleanup == (final(self).spec_live() == 0),
    {
        self.live = self.live - 1;
        self.live == 0
    }

    /// The number of live sessions.
    pub fn live(&self) -> (r: usize)
        ensures
            r == self.spec_live(),
    {
        self.live
    }
}

/// No moment between the first and the last operation of `ops` leaves the
/// count at zero: all the sessions overlap.
pub open spec fn overlapping(ops: Seq<LifecycleOp>) -> bool {
    forall|i: int| 0 < i < ops.len() ==> #[trigger] releases(ops.take(i)) < acquires(ops.take(i))
}

proof fn lemma_well_ordered_prefix(ops: Seq<LifecycleOp>)
    requires
        ops.len() > 0,
        well_ordered(ops),
    ensures
        well_ordered(ops.drop_last()),
{
    let p = ops.drop_last();
    assert forall|i: int| 0 <= i <= p.len() implies #[trigger] releases(p.take(i)) <= acquires(p.take(i)) by {
        assert(p.take(i) =~= ops.take(i));
        assert(releases(ops.take(i)) <= acquires(ops.take(i)));
    }
}

proof fn lemma_tally_counts(ops: Seq<LifecycleOp>)
    requires
        well_ordered(ops),
    ensures
        tally(ops).live + releases(ops) == acquires(ops),
        tally(ops).inits == tally(ops).cleanups + if tally(ops).live > 0 { 1nat } else { 0nat },
    decreases ops.len(),
{
    if ops.len() > 0 {
        let p = ops.drop_last();
        lemma_well_ordered_prefix(ops);
        lemma_tally_counts(p);
        assert(ops.take(ops.len() as int) =~= ops);
        assert(releases(ops.take(ops.len() as int)) <= acquires(ops.take(ops.len() as int)));
    }
}

proof fn lemma_overlapping_inits(ops: Seq<LifecycleOp>)
    requires
        well_ordered(ops),
        overlapping(ops),
    ensures
        ops.len() == 0 ==> tally(ops).inits == 0,
        ops.len() > 0 ==> tally(ops).inits == 1,
    decreases ops.len(),
{
    if ops.len() > 0 {
        let p = ops.drop_last();
        lemma_well_ordered_prefix(ops);
        assert forall|i: int| 0 < i < p.len() implies #[trigger] releases(p.take(i)) < acquires(p.take(i)) by {
            assert(p.take(i) =~= ops.take(i));
            assert(releases(ops.take(i)) < acquires(ops.take(i)));
        }
        lemma_overlapping_inits(p);
        lemma_tally_counts(p);
        if p.len() > 0 {
            assert(ops.take(p.len() as int) =~= p);
            assert(releases(ops.take(p.len() as int)) < acquires(ops.take(p.len() as int)));
        } else {
            assert(ops.take(ops.len() as int) =~= ops);
            assert(releases(ops.take(ops.len() as int)) <= acquires(ops.take(ops.len() as int)));
        }
    }
}

/// When every session that was acquired has been released, in any order in
/// which no release comes before its acquire, the count is back at zero and
/// the global cleanup has run as often as the global initialisation. Where
/// the sessions overlap, that is exactly once for any number of sessions.
pub proof fn lemma_refcount_balanced(ops: Seq<LifecycleOp>)
    requires
        well_ordered(ops),
        acquires(ops) == releases(ops),
    ensures
        tally(ops).live == 0,
        tally(ops).inits == tally(ops).cleanups,
        overlapping(ops) && acquires(ops) > 0 ==> tally(ops).cleanups == 1,
{
    lemma_tally_counts(ops);
    if overlapping(ops) && acquires(ops) > 0 {
        lemma_overlapping_inits(ops);
        assert(ops.len() > 0);
    }
}

} // verus!
