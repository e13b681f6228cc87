use repoconf::merge::MergeError;
use repoconf::propagate::PropagatePhase;
use repoconf::propagate::PropagateRun;

fn repos(entries: &[&str]) -> Vec<String> {
    entries.iter().map(|s| s.to_string()).collect()
}

fn outcome(run: &PropagateRun) -> &Result<(), repoconf::propagate::PropagateError> {
    match &run.phase {
        PropagatePhase::Done { result } => result,
        other => panic!("batch still running: {:?}", other),
    }
}

#[test]
fn an_empty_discovery_succeeds_at_once() {
    let run = PropagateRun::new(Vec::new());
    assert!(run.is_done());
    assert!(outcome(&run).is_ok());
    assert!(run.pending_repo().is_none());
}

#[test]
fn all_repositories_are_visited_in_order_on_success() {
    let mut run = PropagateRun::new(repos(&["a", "a/nested", "b"]));
    let mut visited: Vec<String> = Vec::new();
    while let Some(repo) = run.pending_repo() {
        visited.push(repo);
        run = run.step(Ok(()));
    }
    assert_eq!(visited, repos(&["a", "a/nested", "b"]));
    assert!(outcome(&run).is_ok());
}

#[test]
fn scenario_second_of_three_repositories_fails() {
    // Three nested repositories; the second one's merge fails: the first is
    // fully processed, the failure is reported for the second, and the
    // third is never visited.
    let mut run = PropagateRun::new(repos(&["r1", "r2", "r3"]));

    assert_eq!(run.pending_repo().unwrap(), "r1");
    run = run.step(Ok(()));

    assert_eq!(run.pending_repo().unwrap(), "r2");
    run = run.step(Err(MergeError::RepositoryNotClean));

    assert!(run.is_done());
    assert!(run.pending_repo().is_none());
    match outcome(&run) {
        Err(e) => {
            assert_eq!(e.repo, "r2");
            assert!(matches!(e.source, MergeError::RepositoryNotClean));
        }
        Ok(_) => panic!("the batch should have failed"),
    }
}

#[test]
fn a_first_repository_failure_visits_nothing_else() {
    let mut run = PropagateRun::new(repos(&["r1", "r2"]));
    run = run.step(Err(MergeError::PushFailed));
    assert!(run.is_done());
    match outcome(&run) {
        Err(e) => {
            assert_eq!(e.repo, "r1");
            assert!(matches!(e.source, MergeError::PushFailed));
        }
        Ok(_) => panic!("the batch should have failed"),
    }
}

#[test]
fn a_single_repository_batch_finishes_after_it() {
    let mut run = PropagateRun::new(repos(&["only"]));
    assert_eq!(run.pending_repo().unwrap(), "only");
    run = run.step(Ok(()));
    assert!(run.is_done());
    assert!(outcome(&run).is_ok());
}
