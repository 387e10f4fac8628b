use vstd::prelude::*;

use crate::error::{clone_failure, ErrorKind, OsError, Platform};

verus! {

/// What a whole-file clone asks its caller to do next.
#[derive(Debug, Clone, Copy, PartialEq, Eq)]
pub enum CloneStep {
    /// Open the source for reading.
    OpenSource,
    /// Create the destination; fail if the path is taken.
    CreateDestination,
    /// Clone the source's contents into the destination.
    CloneContents,
    /// Keep the destination: the clone is complete.
    KeepDestination,
    /// Remove the destination that this clone created.
    RemoveDestination,
    /// Report this result; there is nothing more to do.
    Finish(Result<(), OsError>),
}

/// Where a whole-file clone stands.
#[derive(Debug, Clone, Copy, PartialEq, Eq)]
pub enum ClonePhase {
    OpeningSource,
    CreatingDestination,
    Cloning,
    /// The clone succeeded; the destination is to be kept.
    Keeping,
    /// The clone failed with this error; the destination is to be removed.
    Removing(OsError),
    Finished(Result<(), OsError>),
}

/// The step that a clone in this phase asks for.
pub open spec fn step_of(p: ClonePhase) -> CloneStep {
    match p {
        ClonePhase::OpeningSource => CloneStep::OpenSource,
        ClonePhase::CreatingDestination => CloneStep::CreateDestination,
        ClonePhase::Cloning => CloneStep::CloneContents,
        ClonePhase::Keeping => CloneStep::KeepDestination,
        ClonePhase::Removing(_) => CloneStep::RemoveDestination,
        ClonePhase::Finished(r) => CloneStep::Finish(r),
    }
}

/// The phase after the step of phase `p` had outcome `o`. The first
/// failure ends the clone with its error; a destination that the clone
/// created is removed first, and a failure to remove it is not reported,
/// as the error that led there is the one that matters.
pub open spec fn next_phase(p: ClonePhase, o: Result<(), OsError>) -> ClonePhase {
    match p {
        ClonePhase::OpeningSource => match o {
            Ok(_) => ClonePhase::CreatingDestination,
            Err(e) => ClonePhase::Finished(Err(e)),
        },
        ClonePhase::CreatingDestination => match o {
            Ok(_) => ClonePhase::Cloning,
            Err(e) => ClonePhase::Finished(Err(e)),
        },
        ClonePhase::Cloning => match o {
            Ok(_) => ClonePhase::Keeping,
            Err(e) => ClonePhase::Removing(e),
        },
        ClonePhase::Keeping => ClonePhase::Finished(Ok(())),
        ClonePhase::Removing(e) => ClonePhase::Finished(Err(e)),
        ClonePhase::Finished(r) => ClonePhase::Finished(r),
    }
}

/// The phases a clone from phase `p` passes through when its steps have
/// the outcomes `outs`, one after the other: `p` first.
pub open spec fn phases_from(p: ClonePhase, outs: Seq<Result<(), OsError>>) -> Seq<ClonePhase>
    decreases outs.len(),
{
    if outs.len() == 0 {
        seq![p]
    } else {
        seq![p] + phases_from(next_phase(p, outs[0]), outs.drop_first())
    }
}

/// The decisions of a whole-file clone by way of an open destination. The
/// caller performs each step that [`CloneSession::step`] names and hands
/// its outcome to [`CloneSession::advance`], until the step is `Finish`.
#[derive(Debug)]
pub struct CloneSession {
    phase: ClonePhase,
}

impl View for CloneSession {
    type V = ClonePhase;

    closed spec fn view(&self) -> ClonePhase {
        self.phase
    }
}

impl CloneSession {
    /// A clone that has done nothing yet.
    pub fn new() -> (r: CloneSession)
        ensures
            r@ == ClonePhase::OpeningSource,
    {
        CloneSession { phase: ClonePhase::OpeningSource }
    }

    /// The step to perform next.
    pub fn step(&self) -> (r: CloneStep)
        ensures
            r == step_of(self@),
    {
        match self.phase {
            ClonePhase::OpeningSource => CloneStep::OpenSource,
            ClonePhase::CreatingDestination => CloneStep::CreateDestination,
            ClonePhase::Cloning => CloneStep::CloneContents,
            ClonePhase::Keeping => CloneStep::KeepDestination,
            ClonePhase::Removing(_) => CloneStep::RemoveDestination,
            ClonePhase::Finished(r) => CloneStep::Finish(r),
        }
    }

    /// Takes the outcome of the step last named.
    pub fn advance(&mut self, outcome: Result<(), OsError>)
        ensures
            final(self)@ == next_phase(old(self)@, outcome),
    {
        let next = match self.phase {
            ClonePhase::OpeningSource => match outcome {
                Ok(_) => ClonePhase::CreatingDestination,
                Err(e) => ClonePhase::Finished(Err(e)),
            },
            ClonePhase::CreatingDestination => match outcome {
                Ok(_) => ClonePhase::Cloning,
                Err(e) => ClonePhase::Finished(Err(e)),
            },
            ClonePhase::Cloning => match outcome {
                Ok(_) => ClonePhase::Keeping,
                Err(e) => ClonePhase::Removing(e),
            },
            ClonePhase::Keeping => ClonePhase::Finished(Ok(())),
            ClonePhase::Removing(e) => ClonePhase::Finished(Err(e)),
            ClonePhase::Finished(r) => ClonePhase::Finished(r),
        };
        self.phase = next;
    }
}

proof fn lemma_finished_stays(r: Result<(), OsError>, outs: Seq<Result<(), OsError>>)
    ensures
        phases_from(ClonePhase::Finished(r), outs).len() == outs.len() + 1,
        forall|i: int|
            0 <= i < outs.len() + 1 ==> #[trigger] phases_from(ClonePhase::Finished(r), outs)[i]
                == ClonePhase::Finished(r),
    decreases outs.len(),
{
    if outs.len() > 0 {
        lemma_finished_stays(r, outs.drop_first());
    }
}

/// A clone whose source cannot be opened fails with that error at once:
/// it never creates, writes or removes the destination.
pub proof fn lemma_unopened_source_leaves_destination(outs: Seq<Result<(), OsError>>, e: OsError)
    requires
        outs.len() > 0,
        outs[0] == Err::<(), OsError>(e),
    ensures
        phases_from(ClonePhase::OpeningSource, outs).last() == ClonePhase::Finished(Err(e)),
        forall|i: int|
            0 <= i < outs.len() + 1 ==> {
                let s = step_of(#[trigger] phases_from(ClonePhase::OpeningSource, outs)[i]);
                s == CloneStep::OpenSource || s == CloneStep::Finish(Err(e))
            },
{
    let rest = outs.drop_first();
    lemma_finished_stays(Err(e), rest);
    let ps = phases_from(ClonePhase::OpeningSource, outs);
    assert forall|i: int| 1 <= i < outs.len() + 1 implies #[trigger] ps[i] == ClonePhase::Finished(
        Err(e),
    ) by {
        assert(ps[i] == phases_from(ClonePhase::Finished(Err(e)), rest)[i - 1]);
    }
}

/// A clone of a regular file onto a path that is already taken fails as
/// the creation did, with an error of kind `AlreadyExists`: it never
/// writes or removes what stands at that path.
pub proof fn lemma_taken_destination_untouched(
    outs: Seq<Result<(), OsError>>,
    e: OsError,
    platform: Platform,
)
    requires
        outs.len() > 1,
        outs[0] is Ok,
        outs[1] == Err::<(), OsError>(e),
        e.kind == ErrorKind::AlreadyExists,
    ensures
        clone_failure(platform, e, true).spec_kind() == ErrorKind::AlreadyExists,
        phases_from(ClonePhase::OpeningSource, outs).last() == ClonePhase::Finished(Err(e)),
        forall|i: int|
            0 <= i < outs.len() + 1 ==> {
                let s = step_of(#[trigger] phases_from(ClonePhase::OpeningSource, outs)[i]);
                &&& s != CloneStep::CloneContents
                &&& s != CloneStep::KeepDestination
                &&& s != CloneStep::RemoveDestination
            },
{
    let rest = outs.drop_first().drop_first();
    lemma_finished_stays(Err(e), rest);
    let ps = phases_from(ClonePhase::OpeningSource, outs);
    let ps1 = phases_from(ClonePhase::CreatingDestination, outs.drop_first());
    assert(outs.drop_first()[0] == outs[1]);
    assert forall|i: int| 2 <= i < outs.len() + 1 implies #[trigger] ps[i] == ClonePhase::Finished(
        Err(e),
    ) by {
        assert(ps[i] == ps1[i - 1]);
        assert(ps1[i - 1] == phases_from(ClonePhase::Finished(Err(e)), rest)[i - 2]);
    }
    assert(ps[1] == ClonePhase::CreatingDestination);
}

/// Whether the clone in phase `ps[i]` asks to keep the destination.
pub open spec fn keeps(ps: Seq<ClonePhase>, i: int) -> bool {
    step_of(ps[i]) == CloneStep::KeepDestination
}

/// Whether the clone in phase `ps[i]` asks to remove the destination.
pub open spec fn removes(ps: Seq<ClonePhase>, i: int) -> bool {
    step_of(ps[i]) == CloneStep::RemoveDestination
}

/// Whether a clone that went through the phases `ps` created its
/// destination.
pub open spec fn created_destination(ps: Seq<ClonePhase>) -> bool {
    exists|i: int| 0 <= i < ps.len() && ps[i] == ClonePhase::Cloning
}

/// Every clone ends once its steps have had four outcomes. A clone that
/// created its destination then either kept it, if it succeeded, or
/// removed it, if it failed, and did exactly one of the two exactly once;
/// a clone that created nothing did neither.
pub proof fn lemma_destination_kept_or_removed(outs: Seq<Result<(), OsError>>)
    requires
        outs.len() >= 4,
    ensures
        ({
            let ps = phases_from(ClonePhase::OpeningSource, outs);
            &&& ps.last() is Finished
            &&& created_destination(ps) ==> {
                &&& ps.last() == ClonePhase::Finished(Ok(())) ==> {
                    &&& exists|i: int| 0 <= i < ps.len() && #[trigger] keeps(ps, i)
                    &&& forall|i: int, j: int|
                        0 <= i < ps.len() && 0 <= j < ps.len() && keeps(ps, i) && keeps(ps, j) ==> i == j
                    &&& forall|i: int| 0 <= i < ps.len() ==> !#[trigger] removes(ps, i)
                }
                &&& ps.last() != ClonePhase::Finished(Ok(())) ==> {
                    &&& exists|i: int| 0 <= i < ps.len() && #[trigger] removes(ps, i)
                    &&& forall|i: int, j: int|
                        0 <= i < ps.len() && 0 <= j < ps.len() && removes(ps, i) && removes(ps, j) ==> i
                            == j
                    &&& forall|i: int| 0 <= i < ps.len() ==> !#[trigger] keeps(ps, i)
                }
            }
            &&& !created_destination(ps) ==> {
                &&& ps.last() != ClonePhase::Finished(Ok(()))
                &&& forall|i: int| 0 <= i < ps.len() ==> !#[trigger] keeps(ps, i) && !#[trigger] removes(ps, i)
            }
        }),
{
    let ps = phases_from(ClonePhase::OpeningSource, outs);
    let p1 = next_phase(ClonePhase::OpeningSource, outs[0]);
    let p2 = next_phase(p1, outs[1]);
    let p3 = next_phase(p2, outs[2]);
    let p4 = next_phase(p3, outs[3]);
    lemma_trace_shape(outs);
    assert(ps.last() == p4);
    if created_destination(ps) {
        let i = choose|i: int| 0 <= i < ps.len() && ps[i] == ClonePhase::Cloning;
        assert(i == 2);
        if p4 == ClonePhase::Finished(Ok(())) {
            assert(keeps(ps, 3));
        } else {
            assert(removes(ps, 3));
        }
    } else {
        assert(ps[2] != ClonePhase::Cloning);
    }
}

proof fn lemma_trace_shape(outs: Seq<Result<(), OsError>>)
    requires
        outs.len() >= 4,
    ensures
        ({
            let ps = phases_from(ClonePhase::OpeningSource, outs);
            let p1 = next_phase(ClonePhase::OpeningSource, outs[0]);
            let p2 = next_phase(p1, outs[1]);
            let p3 = next_phase(p2, outs[2]);
            let p4 = next_phase(p3, outs[3]);
            &&& p4 is Finished
            &&& ps.len() == outs.len() + 1
            &&& ps[0] == ClonePhase::OpeningSource
            &&& ps[1] == p1
            &&& ps[2] == p2
            &&& ps[3] == p3
            &&& forall|i: int| 4 <= i < ps.len() ==> #[trigger] ps[i] == p4
        }),
{
    let ps = phases_from(ClonePhase::OpeningSource, outs);
    let o1 = outs.drop_first();
    let o2 = o1.drop_first();
    let o3 = o2.drop_first();
    let o4 = o3.drop_first();
    assert(o1[0] == outs[1] && o2[0] == outs[2] && o3[0] == outs[3]);
    let p1 = next_phase(ClonePhase::OpeningSource, outs[0]);
    let p2 = next_phase(p1, o1[0]);
    let p3 = next_phase(p2, o2[0]);
    let p4 = next_phase(p3, o3[0]);
    let t4 = phases_from(p4, o4);
    lemma_finished_stays(p4->Finished_0, o4);
    let q3 = phases_from(p3, o3);
    let q2 = phases_from(p2, o2);
    let q1 = phases_from(p1, o1);
    assert(q3 == seq![p3] + t4);
    assert(q2 == seq![p2] + q3);
    assert(q1 == seq![p1] + q2);
    assert(ps == seq![ClonePhase::OpeningSource] + q1);
    assert(ps =~= seq![ClonePhase::OpeningSource, p1, p2, p3] + t4);
    assert forall|i: int| 4 <= i < ps.len() implies #[trigger] ps[i] == p4 by {
        assert(ps[i] == t4[i - 4]);
    }
}

} // verus!
