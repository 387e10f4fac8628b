use vstd::prelude::*;

use crate::error::{blocks_fallback, Error, OsError};

verus! {

/// What a clone with a copy to fall back on asks its caller to do next.
#[derive(Debug, Clone, Copy, PartialEq, Eq)]
pub enum FallbackStep {
    /// Clone the source into the destination.
    Clone,
    /// Copy the source's bytes into the destination.
    Copy,
    /// Tell whether the source, following symbolic links, is a regular
    /// file.
    InspectSource,
    /// Report this result: `None` for a clone, `Some(n)` for a copy of
    /// `n` bytes.
    Finish(Result<Option<u64>, Error>),
}

/// The outcome of a step.
#[derive(Debug, Clone, Copy, PartialEq, Eq)]
pub enum FallbackEvent {
    Cloned(Result<(), OsError>),
    Copied(Result<u64, OsError>),
    Inspected(bool),
}

/// Where a clone with a copy to fall back on stands.
#[derive(Debug, Clone, Copy, PartialEq, Eq)]
pub enum FallbackPhase {
    Cloning,
    Copying,
    /// The copy failed with this error.
    Inspecting(OsError),
    Finished(Result<Option<u64>, Error>),
}

/// The step that phase `p` asks for.
pub open spec fn fallback_step_of(p: FallbackPhase) -> FallbackStep {
    match p {
        FallbackPhase::Cloning => FallbackStep::Clone,
        FallbackPhase::Copying => FallbackStep::Copy,
        FallbackPhase::Inspecting(_) => FallbackStep::InspectSource,
        FallbackPhase::Finished(r) => FallbackStep::Finish(r),
    }
}

/// The phase after event `ev` in phase `p`. A clone that fails in a way a
/// copy cannot mend ends with that error; any other failure falls back to
/// the copy. A failed copy reports its error, as invalid input where the
/// source is not a regular file. An event that does not answer the step
/// asked for changes nothing.
pub open spec fn next_fallback_phase(p: FallbackPhase, ev: FallbackEvent) -> FallbackPhase {
    match (p, ev) {
        (FallbackPhase::Cloning, FallbackEvent::Cloned(Ok(_))) => FallbackPhase::Finished(Ok(None)),
        (FallbackPhase::Cloning, FallbackEvent::Cloned(Err(e))) => if blocks_fallback(e.kind) {
            FallbackPhase::Finished(Err(Error::Os(e)))
        } else {
            FallbackPhase::Copying
        },
        (FallbackPhase::Copying, FallbackEvent::Copied(Ok(n))) => FallbackPhase::Finished(
            Ok(Some(n)),
        ),
        (FallbackPhase::Copying, FallbackEvent::Copied(Err(e))) => FallbackPhase::Inspecting(e),
        (FallbackPhase::Inspecting(e), FallbackEvent::Inspected(is_file)) => if is_file {
            FallbackPhase::Finished(Err(Error::Os(e)))
        } else {
            FallbackPhase::Finished(Err(Error::SourceNotRegular(e)))
        },
        _ => p,
    }
}

/// The phase reached from `p` after the events `evs`, one after the other.
pub open spec fn fallback_run(p: FallbackPhase, evs: Seq<FallbackEvent>) -> FallbackPhase
    decreases evs.len(),
{
    if evs.len() == 0 {
        p
    } else {
        fallback_run(next_fallback_phase(p, evs[0]), evs.drop_first())
    }
}

/// The decisions of a clone that falls back to a plain copy. The caller
/// performs each step that [`FallbackSession::step`] names and hands its
/// outcome to [`FallbackSession::advance`], until the step is `Finish`.
#[derive(Debug)]
pub struct FallbackSession {
    phase: FallbackPhase,
}

impl View for FallbackSession {
    type V = FallbackPhase;

    closed spec fn view(&self) -> FallbackPhase {
        self.phase
    }
}

impl FallbackSession {
    /// A session that has done nothing yet.
    pub fn new() -> (r: FallbackSession)
        ensures
            r@ == FallbackPhase::Cloning,
    {
        FallbackSession { phase: FallbackPhase::Cloning }
    }

    /// The step to perform next.
    pub fn step(&self) -> (r: FallbackStep)
        ensures
            r == fallback_step_of(self@),
    {
        match self.phase {
            FallbackPhase::Cloning => FallbackStep::Clone,
            FallbackPhase::Copying => FallbackStep::Copy,
            FallbackPhase::Inspecting(_) => FallbackStep::InspectSource,
            FallbackPhase::Finished(r) => FallbackStep::Finish(r),
        }
    }

    /// Takes the outcome of the step last named.
    pub fn advance(&mut self, ev: FallbackEvent)
        ensures
            final(self)@ == next_fallback_phase(old(self)@, ev),
    {
        let next = match (self.phase, ev) {
            (FallbackPhase::Cloning, FallbackEvent::Cloned(Ok(_))) => FallbackPhase::Finished(
                Ok(None),
            ),
            (FallbackPhase::Cloning, FallbackEvent::Cloned(Err(e))) => {
                if crate::error::falls_back(e.kind) {
                    FallbackPhase::Copying
                } else {
                    FallbackPhase::Finished(Err(Error::Os(e)))
                }
            },
            (FallbackPhase::Copying, FallbackEvent::Copied(Ok(n))) => FallbackPhase::Finished(
                Ok(Some(n)),
            ),
            (FallbackPhase::Copying, FallbackEvent::Copied(Err(e))) => FallbackPhase::Inspecting(e),
            (FallbackPhase::Inspecting(e), FallbackEvent::Inspected(is_file)) => {
                if is_file {
                    FallbackPhase::Finished(Err(Error::Os(e)))
                } else {
                    FallbackPhase::Finished(Err(Error::SourceNotRegular(e)))
                }
            },
            (p, _) => p,
        };
        self.phase = next;
    }
}

/// A clone that falls back to a copy always ends, after the answers to its
/// clone, its copy and its inspection of the source, in one of three ways:
/// with `None` where the clone succeeded; with `Some(n)` where the clone
/// failed in a way that allows the fallback and the copy wrote `n` bytes;
/// or with an error, the clone's where it forbids the fallback, else the
/// copy's. The copy is made only where the clone failed in a way that
/// allows it.
pub proof fn lemma_fallback_outcomes(
    cloned: Result<(), OsError>,
    copied: Result<u64, OsError>,
    source_is_file: bool,
)
    ensures
        ({
            let evs = seq![
                FallbackEvent::Cloned(cloned),
                FallbackEvent::Copied(copied),
                FallbackEvent::Inspected(source_is_file),
            ];
            let after_clone = next_fallback_phase(FallbackPhase::Cloning, evs[0]);
            let end = fallback_run(FallbackPhase::Cloning, evs);
            &&& end is Finished
            &&& (after_clone == FallbackPhase::Copying) <==> (cloned is Err && !blocks_fallback(cloned->Err_0.kind))
            &&& cloned is Ok ==> end == FallbackPhase::Finished(Ok(None))
            &&& cloned is Err && blocks_fallback(cloned->Err_0.kind) ==> end
                == FallbackPhase::Finished(Err(Error::Os(cloned->Err_0)))
            &&& cloned is Err && !blocks_fallback(cloned->Err_0.kind) ==> {
                &&& copied is Ok ==> end == FallbackPhase::Finished(Ok(Some(copied->Ok_0)))
                &&& copied is Err ==> end == FallbackPhase::Finished(
                    Err(
                        if source_is_file {
                            Error::Os(copied->Err_0)
                        } else {
                            Error::SourceNotRegular(copied->Err_0)
                        },
                    ),
                )
            }
        }),
{
    let evs = seq![
        FallbackEvent::Cloned(cloned),
        FallbackEvent::Copied(copied),
        FallbackEvent::Inspected(source_is_file),
    ];
    let e1 = evs.drop_first();
    let e2 = e1.drop_first();
    let e3 = e2.drop_first();
    assert(e1[0] == FallbackEvent::Copied(copied));
    assert(e2[0] == FallbackEvent::Inspected(source_is_file));
    assert(e3.len() == 0);
    let f1 = next_fallback_phase(FallbackPhase::Cloning, evs[0]);
    let f2 = next_fallback_phase(f1, e1[0]);
    let f3 = next_fallback_phase(f2, e2[0]);
    assert(fallback_run(f3, e3) == f3);
    assert(fallback_run(f2, e2) == f3);
    assert(fallback_run(f1, e1) == f3);
    assert(fallback_run(FallbackPhase::Cloning, evs) == f3);
}

} // verus!
