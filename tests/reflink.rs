use reflink_copy::error::describe_clone_failure;
use reflink_copy::fallback::{FallbackEvent, FallbackSession, FallbackStep};
use reflink_copy::session::{CloneSession, CloneStep};
use reflink_copy::{Error, ErrorKind, OsError, Platform};

fn os(kind: ErrorKind, code: i32) -> OsError {
    OsError { kind, code: Some(code) }
}

/// Drives a whole-file clone with the given outcomes, in order, and
/// returns the steps it asked for, its last one included.
fn run_clone(outcomes: &[Result<(), OsError>]) -> Vec<CloneStep> {
    let mut session = CloneSession::new();
    let mut steps = Vec::new();
    let mut next = outcomes.iter();
    loop {
        let step = session.step();
        steps.push(step);
        if let CloneStep::Finish(_) = step {
            return steps;
        }
        let outcome = match step {
            CloneStep::KeepDestination | CloneStep::RemoveDestination => Ok(()),
            _ => *next.next().expect("an outcome for each step"),
        };
        session.advance(outcome);
    }
}

fn finish(steps: &[CloneStep]) -> Result<(), OsError> {
    match steps.last() {
        Some(CloneStep::Finish(r)) => *r,
        _ => panic!("the clone did not finish"),
    }
}

/// Drives a clone with a copy to fall back on.
fn run_fallback(
    cloned: Result<(), OsError>,
    copied: Result<u64, OsError>,
    is_file: bool,
) -> (Vec<FallbackStep>, Result<Option<u64>, Error>) {
    let mut session = FallbackSession::new();
    let mut steps = Vec::new();
    loop {
        let step = session.step();
        steps.push(step);
        let ev = match step {
            FallbackStep::Clone => FallbackEvent::Cloned(cloned),
            FallbackStep::Copy => FallbackEvent::Copied(copied),
            FallbackStep::InspectSource => FallbackEvent::Inspected(is_file),
            FallbackStep::Finish(r) => return (steps, r),
        };
        session.advance(ev);
    }
}

#[test]
fn reflink_file_does_not_exist() {
    let missing = os(ErrorKind::NotFound, 2);
    let steps = run_clone(&[Err(missing)]);
    assert_eq!(steps, vec![CloneStep::OpenSource, CloneStep::Finish(Err(missing))]);
    let err = describe_clone_failure(Platform::Linux, missing, false);
    assert_eq!(err, Error::SourceNotRegular(missing));
    assert_eq!(err.kind(), ErrorKind::InvalidInput);
}

#[test]
fn reflink_src_does_not_exist() {
    let missing = os(ErrorKind::NotFound, 2);
    let steps = run_clone(&[Err(missing), Ok(()), Ok(())]);
    assert!(!steps.contains(&CloneStep::CreateDestination));
    assert!(!steps.contains(&CloneStep::RemoveDestination));
    assert!(finish(&steps).is_err());
}

#[test]
fn reflink_dest_is_dir() {
    let exists = os(ErrorKind::AlreadyExists, 17);
    let steps = run_clone(&[Ok(()), Err(exists)]);
    let err = describe_clone_failure(Platform::Linux, finish(&steps).unwrap_err(), true);
    assert_eq!(err.kind(), ErrorKind::AlreadyExists);
    assert!(!steps.contains(&CloneStep::RemoveDestination));
}

#[test]
fn reflink_src_is_dir() {
    let invalid = os(ErrorKind::Other, 21);
    let steps = run_clone(&[Ok(()), Ok(()), Err(invalid)]);
    assert_eq!(
        steps,
        vec![
            CloneStep::OpenSource,
            CloneStep::CreateDestination,
            CloneStep::CloneContents,
            CloneStep::RemoveDestination,
            CloneStep::Finish(Err(invalid)),
        ]
    );
    let err = describe_clone_failure(Platform::Linux, invalid, false);
    assert_eq!(err.kind(), ErrorKind::InvalidInput);
    let err = describe_clone_failure(Platform::Apple, invalid, false);
    assert_eq!(err, Error::Os(invalid));
}

#[test]
fn reflink_existing_dest_results_in_error() {
    let exists = os(ErrorKind::AlreadyExists, 17);
    let steps = run_clone(&[Ok(()), Err(exists)]);
    assert_eq!(
        steps,
        vec![CloneStep::OpenSource, CloneStep::CreateDestination, CloneStep::Finish(Err(exists))]
    );
    let err = describe_clone_failure(Platform::Linux, exists, true);
    assert_eq!(err.kind(), ErrorKind::AlreadyExists);
}

#[test]
fn reflink_ok() {
    let steps = run_clone(&[Ok(()), Ok(()), Ok(())]);
    assert_eq!(
        steps,
        vec![
            CloneStep::OpenSource,
            CloneStep::CreateDestination,
            CloneStep::CloneContents,
            CloneStep::KeepDestination,
            CloneStep::Finish(Ok(())),
        ]
    );
}

#[test]
fn reflink_or_copy_ok() {
    let unsupported = os(ErrorKind::Unsupported, 95);
    let (steps, r) = run_fallback(Err(unsupported), Ok(5), true);
    assert_eq!(r, Ok(Some(5)));
    assert!(steps.contains(&FallbackStep::Copy));
    let (steps, r) = run_fallback(Ok(()), Ok(5), true);
    assert_eq!(r, Ok(None));
    assert!(!steps.contains(&FallbackStep::Copy));
}

#[test]
fn clone_file_ten_thousand_times() {
    let mut errors = 0;
    for _ in 0..10_000 {
        let steps = run_clone(&[Ok(()), Ok(()), Ok(())]);
        if finish(&steps).is_err() || !steps.contains(&CloneStep::KeepDestination) {
            errors += 1;
        }
    }
    assert_eq!(errors, 0);
}

#[test]
fn clone_twice_to_same_destination() {
    let first = run_clone(&[Ok(()), Ok(()), Ok(())]);
    assert_eq!(finish(&first), Ok(()));
    let exists = os(ErrorKind::AlreadyExists, 17);
    let second = run_clone(&[Ok(()), Err(exists), Ok(())]);
    assert_eq!(finish(&second), Err(exists));
    assert!(!second.contains(&CloneStep::CloneContents));
    assert!(!second.contains(&CloneStep::RemoveDestination));
    assert_eq!(describe_clone_failure(Platform::Linux, exists, true).kind(), ErrorKind::AlreadyExists);
}

#[test]
fn failed_removal_keeps_clone_error() {
    let mut session = CloneSession::new();
    session.advance(Ok(()));
    session.advance(Ok(()));
    let failed = os(ErrorKind::Other, 22);
    session.advance(Err(failed));
    assert_eq!(session.step(), CloneStep::RemoveDestination);
    session.advance(Err(os(ErrorKind::PermissionDenied, 13)));
    assert_eq!(session.step(), CloneStep::Finish(Err(failed)));
    session.advance(Ok(()));
    assert_eq!(session.step(), CloneStep::Finish(Err(failed)));
}

#[test]
fn fallback_stops_on_errors_a_copy_cannot_mend() {
    for kind in [ErrorKind::NotFound, ErrorKind::PermissionDenied, ErrorKind::AlreadyExists] {
        let e = os(kind, 1);
        let (steps, r) = run_fallback(Err(e), Ok(5), true);
        assert_eq!(r, Err(Error::Os(e)));
        assert_eq!(steps, vec![FallbackStep::Clone, FallbackStep::Finish(Err(Error::Os(e)))]);
    }
}

#[test]
fn fallback_copy_failure_reports_source_kind() {
    let clone_err = os(ErrorKind::Other, 18);
    let copy_err = os(ErrorKind::Other, 21);
    let (steps, r) = run_fallback(Err(clone_err), Err(copy_err), false);
    assert_eq!(r, Err(Error::SourceNotRegular(copy_err)));
    assert_eq!(r.unwrap_err().kind(), ErrorKind::InvalidInput);
    assert!(steps.contains(&FallbackStep::InspectSource));
    let (_, r) = run_fallback(Err(clone_err), Err(copy_err), true);
    assert_eq!(r, Err(Error::Os(copy_err)));
}

#[test]
fn fallback_ignores_answers_out_of_turn() {
    let mut session = FallbackSession::new();
    session.advance(FallbackEvent::Copied(Ok(3)));
    assert_eq!(session.step(), FallbackStep::Clone);
    session.advance(FallbackEvent::Cloned(Ok(())));
    assert_eq!(session.step(), FallbackStep::Finish(Ok(None)));
    session.advance(FallbackEvent::Inspected(false));
    assert_eq!(session.step(), FallbackStep::Finish(Ok(None)));
}
