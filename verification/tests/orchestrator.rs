use repoconf::branch::BranchNameStrategy;
use repoconf::merge::MergeAction;
use repoconf::merge::MergeCommand;
use repoconf::merge::MergeError;
use repoconf::merge::MergeEvent;
use repoconf::merge::MergeOrchestrator;
use repoconf::merge::MergePhase;
use repoconf::merge::is_clean_status;

fn names(entries: &[&str]) -> Vec<String> {
    entries.iter().map(|s| s.to_string()).collect()
}

fn cmd_auto() -> MergeCommand {
    MergeCommand {
        dir: None,
        allow_dirty: false,
        allow_unrelated_histories: false,
        local_branch_strategy: BranchNameStrategy::Auto,
        remote_branch_strategy: BranchNameStrategy::Auto,
    }
}

#[test]
fn the_default_run_detects_branches_and_allows_nothing() {
    let cmd = MergeCommand::default();
    assert!(cmd.dir.is_none());
    assert!(!cmd.allow_dirty);
    assert!(!cmd.allow_unrelated_histories);
    assert!(matches!(cmd.local_branch_strategy, BranchNameStrategy::Auto));
    assert!(matches!(cmd.remote_branch_strategy, BranchNameStrategy::Auto));
    assert!(matches!(BranchNameStrategy::default(), BranchNameStrategy::Auto));
}

fn outcome(orch: &MergeOrchestrator) -> &Result<(), MergeError> {
    match &orch.phase {
        MergePhase::Done { result } => result,
        other => panic!("orchestrator still running: {:?}", other),
    }
}

#[test]
fn scenario_full_merge_of_one_managed_remote() {
    // Remotes repoconf-foo and origin, clean tree, local main, remote ref
    // repoconf-foo/main: check out main, update repoconf-foo, merge
    // repoconf-foo/main, push.
    let mut orch = MergeOrchestrator::new(cmd_auto());

    assert!(matches!(orch.pending_action(), Some(MergeAction::ListRemotes)));
    orch = orch.step(MergeEvent::Remotes { names: names(&["repoconf-foo", "origin"]) });

    assert!(matches!(orch.pending_action(), Some(MergeAction::CheckCleanliness)));
    orch = orch.step(MergeEvent::Cleanliness { clean: is_clean_status("") });

    assert!(matches!(orch.pending_action(), Some(MergeAction::ReadRefs)));
    orch = orch.step(MergeEvent::Refs {
        refs: names(&["refs/heads/main", "refs/remotes/repoconf-foo/main"]),
    });

    match orch.pending_action() {
        Some(MergeAction::CheckLocalBranch { branch }) => assert_eq!(branch, "main"),
        other => panic!("expected a local-branch check, got {:?}", other),
    }
    orch = orch.step(MergeEvent::BranchExists { exists: true });

    match orch.pending_action() {
        Some(MergeAction::Checkout { branch }) => assert_eq!(branch, "main"),
        other => panic!("expected a checkout, got {:?}", other),
    }
    orch = orch.step(MergeEvent::Succeeded);

    match orch.pending_action() {
        Some(MergeAction::UpdateRemotes { remotes }) => {
            assert_eq!(remotes, names(&["repoconf-foo"]));
        }
        other => panic!("expected a remote update, got {:?}", other),
    }
    orch = orch.step(MergeEvent::Succeeded);

    match orch.pending_action() {
        Some(MergeAction::Merge { remote, branch, allow_unrelated_histories }) => {
            assert_eq!(remote, "repoconf-foo");
            assert_eq!(branch, "main");
            assert!(!allow_unrelated_histories);
        }
        other => panic!("expected a merge, got {:?}", other),
    }
    orch = orch.step(MergeEvent::Succeeded);

    assert!(matches!(orch.pending_action(), Some(MergeAction::Push)));
    orch = orch.step(MergeEvent::Succeeded);

    assert!(orch.is_done());
    assert!(outcome(&orch).is_ok());
}

#[test]
fn scenario_no_managed_remotes_is_an_immediate_success() {
    let mut orch = MergeOrchestrator::new(cmd_auto());
    assert!(matches!(orch.pending_action(), Some(MergeAction::ListRemotes)));
    orch = orch.step(MergeEvent::Remotes { names: names(&["origin", "upstream"]) });
    assert!(orch.is_done());
    assert!(outcome(&orch).is_ok());
    assert!(orch.pending_action().is_none());
}

#[test]
fn scenario_dirty_tree_aborts_before_any_mutation() {
    let mut orch = MergeOrchestrator::new(cmd_auto());
    orch = orch.step(MergeEvent::Remotes { names: names(&["repoconf-foo"]) });
    assert!(matches!(orch.pending_action(), Some(MergeAction::CheckCleanliness)));
    orch = orch.step(MergeEvent::Cleanliness { clean: is_clean_status(" M src/lib.rs\n") });
    assert!(orch.is_done());
    assert!(matches!(
        outcome(&orch),
        Err(MergeError::RepositoryNotClean)
    ));
}

#[test]
fn allow_dirty_overrides_the_cleanliness_gate() {
    let mut cmd = cmd_auto();
    cmd.allow_dirty = true;
    let mut orch = MergeOrchestrator::new(cmd);
    orch = orch.step(MergeEvent::Remotes { names: names(&["repoconf-foo"]) });
    orch = orch.step(MergeEvent::Cleanliness { clean: false });
    assert!(matches!(orch.pending_action(), Some(MergeAction::ReadRefs)));
}

#[test]
fn a_failing_merge_aborts_with_no_second_merge_and_no_push() {
    let mut orch = MergeOrchestrator::new(cmd_auto());
    orch = orch.step(MergeEvent::Remotes { names: names(&["repoconf-a", "repoconf-b"]) });
    orch = orch.step(MergeEvent::Cleanliness { clean: true });
    orch = orch.step(MergeEvent::Refs {
        refs: names(&[
            "refs/heads/main",
            "refs/remotes/repoconf-a/main",
            "refs/remotes/repoconf-b/main",
        ]),
    });
    orch = orch.step(MergeEvent::BranchExists { exists: true });
    orch = orch.step(MergeEvent::Succeeded); // checkout
    orch = orch.step(MergeEvent::Succeeded); // remote update
    match orch.pending_action() {
        Some(MergeAction::Merge { remote, .. }) => assert_eq!(remote, "repoconf-a"),
        other => panic!("expected the first merge, got {:?}", other),
    }
    orch = orch.step(MergeEvent::Failed);
    assert!(orch.is_done());
    assert!(orch.pending_action().is_none());
    match outcome(&orch) {
        Err(MergeError::MergeFailed { remote, branch }) => {
            assert_eq!(remote, "repoconf-a");
            assert_eq!(branch, "main");
        }
        other => panic!("expected a merge failure, got {:?}", other),
    }
}

#[test]
fn push_happens_only_after_every_merge_succeeded() {
    let mut orch = MergeOrchestrator::new(cmd_auto());
    orch = orch.step(MergeEvent::Remotes { names: names(&["repoconf-a", "repoconf-b"]) });
    orch = orch.step(MergeEvent::Cleanliness { clean: true });
    orch = orch.step(MergeEvent::Refs {
        refs: names(&[
            "refs/heads/main",
            "refs/remotes/repoconf-a/main",
            "refs/remotes/repoconf-b/master",
        ]),
    });
    orch = orch.step(MergeEvent::BranchExists { exists: true });
    orch = orch.step(MergeEvent::Succeeded); // checkout
    orch = orch.step(MergeEvent::Succeeded); // remote update
    match orch.pending_action() {
        Some(MergeAction::Merge { remote, branch, .. }) => {
            assert_eq!(remote, "repoconf-a");
            assert_eq!(branch, "main");
        }
        other => panic!("expected the first merge, got {:?}", other),
    }
    orch = orch.step(MergeEvent::Succeeded);
    match orch.pending_action() {
        Some(MergeAction::Merge { remote, branch, .. }) => {
            assert_eq!(remote, "repoconf-b");
            assert_eq!(branch, "master");
        }
        other => panic!("expected the second merge, got {:?}", other),
    }
    orch = orch.step(MergeEvent::Succeeded);
    // Only now, with both merges applied, is the push requested.
    assert!(matches!(orch.pending_action(), Some(MergeAction::Push)));
    orch = orch.step(MergeEvent::Succeeded);
    assert!(outcome(&orch).is_ok());
}

#[test]
fn a_second_remote_without_candidate_branch_aborts_after_the_first_merge() {
    let mut orch = MergeOrchestrator::new(cmd_auto());
    orch = orch.step(MergeEvent::Remotes { names: names(&["repoconf-a", "repoconf-b"]) });
    orch = orch.step(MergeEvent::Cleanliness { clean: true });
    orch = orch.step(MergeEvent::Refs {
        refs: names(&["refs/heads/main", "refs/remotes/repoconf-a/main"]),
    });
    orch = orch.step(MergeEvent::BranchExists { exists: true });
    orch = orch.step(MergeEvent::Succeeded); // checkout
    orch = orch.step(MergeEvent::Succeeded); // remote update
    orch = orch.step(MergeEvent::Succeeded); // merge of repoconf-a
    assert!(orch.is_done());
    match outcome(&orch) {
        Err(MergeError::RemoteBranchNotResolved { remote, prefix }) => {
            assert_eq!(remote, "repoconf-b");
            assert_eq!(prefix, "refs/remotes/repoconf-b");
        }
        other => panic!("expected a remote-resolution failure, got {:?}", other),
    }
}

#[test]
fn unresolvable_local_branch_aborts_naming_the_prefix() {
    let mut orch = MergeOrchestrator::new(cmd_auto());
    orch = orch.step(MergeEvent::Remotes { names: names(&["repoconf-a"]) });
    orch = orch.step(MergeEvent::Cleanliness { clean: true });
    orch = orch.step(MergeEvent::Refs { refs: names(&["refs/heads/trunk"]) });
    assert!(orch.is_done());
    match outcome(&orch) {
        Err(MergeError::LocalBranchNotResolved { prefix }) => {
            assert_eq!(prefix, "refs/heads");
        }
        other => panic!("expected a local-resolution failure, got {:?}", other),
    }
}

#[test]
fn missing_local_branch_aborts_before_checkout() {
    let mut orch = MergeOrchestrator::new(cmd_auto());
    orch = orch.step(MergeEvent::Remotes { names: names(&["repoconf-a"]) });
    orch = orch.step(MergeEvent::Cleanliness { clean: true });
    orch = orch.step(MergeEvent::Refs { refs: names(&["refs/heads/main"]) });
    orch = orch.step(MergeEvent::BranchExists { exists: false });
    assert!(orch.is_done());
    match outcome(&orch) {
        Err(MergeError::LocalBranchDoesNotExist { branch }) => assert_eq!(branch, "main"),
        other => panic!("expected a missing-branch failure, got {:?}", other),
    }
}

#[test]
fn exact_strategies_skip_auto_detection() {
    let cmd = MergeCommand {
        dir: Some(".".to_string()),
        allow_dirty: false,
        allow_unrelated_histories: true,
        local_branch_strategy: BranchNameStrategy::Exact("develop".to_string()),
        remote_branch_strategy: BranchNameStrategy::Exact("template".to_string()),
    };
    let mut orch = MergeOrchestrator::new(cmd);
    orch = orch.step(MergeEvent::Remotes { names: names(&["repoconf-a"]) });
    orch = orch.step(MergeEvent::Cleanliness { clean: true });
    // No candidate refs at all: exact strategies do not consult them.
    orch = orch.step(MergeEvent::Refs { refs: Vec::new() });
    match orch.pending_action() {
        Some(MergeAction::CheckLocalBranch { branch }) => assert_eq!(branch, "develop"),
        other => panic!("expected a local-branch check, got {:?}", other),
    }
    orch = orch.step(MergeEvent::BranchExists { exists: true });
    orch = orch.step(MergeEvent::Succeeded); // checkout
    orch = orch.step(MergeEvent::Succeeded); // remote update
    match orch.pending_action() {
        Some(MergeAction::Merge { remote, branch, allow_unrelated_histories }) => {
            assert_eq!(remote, "repoconf-a");
            assert_eq!(branch, "template");
            assert!(allow_unrelated_histories);
        }
        other => panic!("expected a merge, got {:?}", other),
    }
}

#[test]
fn failed_remote_listing_aborts() {
    let mut orch = MergeOrchestrator::new(cmd_auto());
    orch = orch.step(MergeEvent::Failed);
    assert!(orch.is_done());
    assert!(matches!(outcome(&orch), Err(MergeError::RemoteListingFailed)));
}

#[test]
fn failed_cleanliness_check_is_reported() {
    let mut orch = MergeOrchestrator::new(cmd_auto());
    orch = orch.step(MergeEvent::Remotes { names: names(&["repoconf-a"]) });
    orch = orch.step(MergeEvent::Failed);
    assert!(matches!(outcome(&orch), Err(MergeError::CleanlinessCheckFailed)));
}

#[test]
fn failed_ref_listing_is_reported() {
    let mut orch = MergeOrchestrator::new(cmd_auto());
    orch = orch.step(MergeEvent::Remotes { names: names(&["repoconf-a"]) });
    orch = orch.step(MergeEvent::Cleanliness { clean: true });
    orch = orch.step(MergeEvent::Failed);
    assert!(matches!(outcome(&orch), Err(MergeError::RefListingFailed)));
}

#[test]
fn failed_branch_check_is_reported_with_the_branch() {
    let mut orch = MergeOrchestrator::new(cmd_auto());
    orch = orch.step(MergeEvent::Remotes { names: names(&["repoconf-a"]) });
    orch = orch.step(MergeEvent::Cleanliness { clean: true });
    orch = orch.step(MergeEvent::Refs { refs: names(&["refs/heads/main"]) });
    orch = orch.step(MergeEvent::Failed);
    match outcome(&orch) {
        Err(MergeError::LocalBranchCheckFailed { branch }) => assert_eq!(branch, "main"),
        other => panic!("expected a branch-check failure, got {:?}", other),
    }
}

#[test]
fn failed_checkout_is_reported_with_the_branch() {
    let mut orch = MergeOrchestrator::new(cmd_auto());
    orch = orch.step(MergeEvent::Remotes { names: names(&["repoconf-a"]) });
    orch = orch.step(MergeEvent::Cleanliness { clean: true });
    orch = orch.step(MergeEvent::Refs { refs: names(&["refs/heads/main"]) });
    orch = orch.step(MergeEvent::BranchExists { exists: true });
    orch = orch.step(MergeEvent::Failed);
    match outcome(&orch) {
        Err(MergeError::CheckoutFailed { branch }) => assert_eq!(branch, "main"),
        other => panic!("expected a checkout failure, got {:?}", other),
    }
}

#[test]
fn failed_remote_update_is_reported() {
    let mut orch = MergeOrchestrator::new(cmd_auto());
    orch = orch.step(MergeEvent::Remotes { names: names(&["repoconf-a"]) });
    orch = orch.step(MergeEvent::Cleanliness { clean: true });
    orch = orch.step(MergeEvent::Refs { refs: names(&["refs/heads/main"]) });
    orch = orch.step(MergeEvent::BranchExists { exists: true });
    orch = orch.step(MergeEvent::Succeeded); // checkout
    orch = orch.step(MergeEvent::Failed); // remote update
    assert!(matches!(outcome(&orch), Err(MergeError::RemoteUpdateFailed)));
}

#[test]
fn failed_push_is_reported() {
    let mut orch = MergeOrchestrator::new(cmd_auto());
    orch = orch.step(MergeEvent::Remotes { names: names(&["repoconf-a"]) });
    orch = orch.step(MergeEvent::Cleanliness { clean: true });
    orch = orch.step(MergeEvent::Refs {
        refs: names(&["refs/heads/main", "refs/remotes/repoconf-a/main"]),
    });
    orch = orch.step(MergeEvent::BranchExists { exists: true });
    orch = orch.step(MergeEvent::Succeeded); // checkout
    orch = orch.step(MergeEvent::Succeeded); // remote update
    orch = orch.step(MergeEvent::Succeeded); // merge
    orch = orch.step(MergeEvent::Failed); // push
    assert!(matches!(outcome(&orch), Err(MergeError::PushFailed)));
}
