//! The merge-orchestration protocol: applying all pending template updates
//! from managed remotes into the current branch of one repository, as a
//! single sequential operation with hard abort points.
//!
//! The orchestrator is a state machine. Each non-final phase asks for one
//! git operation (its pending [`MergeAction`]); the front end performs it
//! and feeds the result back as a [`MergeEvent`], which moves the machine
//! to the next phase. Every decision — filtering managed remotes, the
//! cleanliness gate, branch resolution from the ref snapshot, fail-fast
//! across remotes, pushing only on full success — is taken here and
//! verified against the specification-level transition function
//! [`spec_step`].

use vstd::prelude::*;
use vstd::string::StringExecFns;
use crate::branch::BranchNameStrategy;
use crate::branch::BranchNameStrategyView;
use crate::branch::spec_resolve;
use crate::remote::managed_remotes;
use crate::remote::spec_managed;

verus! {

/// Configuration of one merge run over one repository.
#[derive(Clone, Debug)]
pub struct MergeCommand {
    /// Child repository directory; the current directory when absent.
    pub dir: Option<String>,
    /// Run even if the repository has uncommitted changes.
    pub allow_dirty: bool,
    /// Merge with `--allow-unrelated-histories --no-commit`.
    pub allow_unrelated_histories: bool,
    /// How the local branch to merge onto is chosen.
    pub local_branch_strategy: BranchNameStrategy,
    /// How each remote's branch to merge from is chosen.
    pub remote_branch_strategy: BranchNameStrategy,
}

#[verifier::ext_equal]
pub struct MergeCommandView {
    pub dir: Option<Seq<char>>,
    pub allow_dirty: bool,
    pub allow_unrelated_histories: bool,
    pub local_branch_strategy: BranchNameStrategyView,
    pub remote_branch_strategy: BranchNameStrategyView,
}

impl View for MergeCommand {
    type V = MergeCommandView;

    open spec fn view(&self) -> MergeCommandView {
        MergeCommandView {
            dir: self.dir.deep_view(),
            allow_dirty: self.allow_dirty,
            allow_unrelated_histories: self.allow_unrelated_histories,
            local_branch_strategy: self.local_branch_strategy@,
            remote_branch_strategy: self.remote_branch_strategy@,
        }
    }
}

impl Default for MergeCommand {
    /// A run over the current directory with no overrides and automatic
    /// branch detection on both sides.
    fn default() -> (r: Self)
        ensures
            r@.dir is None,
            !r@.allow_dirty,
            !r@.allow_unrelated_histories,
            r@.local_branch_strategy == BranchNameStrategyView::Auto,
            r@.remote_branch_strategy == BranchNameStrategyView::Auto,
    {
        MergeCommand {
            dir: None,
            allow_dirty: false,
            allow_unrelated_histories: false,
            local_branch_strategy: BranchNameStrategy::Auto,
            remote_branch_strategy: BranchNameStrategy::Auto,
        }
    }
}

/// Why a merge run aborted.
#[derive(Clone, Debug)]
pub enum MergeError {
    /// Listing the configured remotes failed.
    RemoteListingFailed,
    /// Reading the working-tree status failed.
    CleanlinessCheckFailed,
    /// The working tree has uncommitted changes and the override is not set.
    RepositoryNotClean,
    /// Reading the ref set failed.
    RefListingFailed,
    /// Automatic local-branch resolution found no candidate under `prefix`.
    LocalBranchNotResolved { prefix: String },
    /// Checking whether the local branch exists failed.
    LocalBranchCheckFailed { branch: String },
    /// The resolved local branch does not exist as a real local branch.
    LocalBranchDoesNotExist { branch: String },
    /// Checking out the resolved local branch failed.
    CheckoutFailed { branch: String },
    /// The batched update of the managed remotes failed.
    RemoteUpdateFailed,
    /// Automatic remote-branch resolution found no candidate under `prefix`.
    RemoteBranchNotResolved { remote: String, prefix: String },
    /// Merging `remote/branch` failed; later remotes are not attempted.
    MergeFailed { remote: String, branch: String },
    /// Pushing the fully-merged branch failed.
    PushFailed,
}

#[verifier::ext_equal]
pub enum MergeErrorView {
    RemoteListingFailed,
    CleanlinessCheckFailed,
    RepositoryNotClean,
    RefListingFailed,
    LocalBranchNotResolved { prefix: Seq<char> },
    LocalBranchCheckFailed { branch: Seq<char> },
    LocalBranchDoesNotExist { branch: Seq<char> },
    CheckoutFailed { branch: Seq<char> },
    RemoteUpdateFailed,
    RemoteBranchNotResolved { remote: Seq<char>, prefix: Seq<char> },
    MergeFailed { remote: Seq<char>, branch: Seq<char> },
    PushFailed,
}

impl View for MergeError {
    type V = MergeErrorView;

    open spec fn view(&self) -> MergeErrorView {
        match self {
            MergeError::RemoteListingFailed => MergeErrorView::RemoteListingFailed,
            MergeError::CleanlinessCheckFailed => MergeErrorView::CleanlinessCheckFailed,
            MergeError::RepositoryNotClean => MergeErrorView::RepositoryNotClean,
            MergeError::RefListingFailed => MergeErrorView::RefListingFailed,
            MergeError::LocalBranchNotResolved { prefix } => MergeErrorView::LocalBranchNotResolved {
                prefix: prefix@,
            },
            MergeError::LocalBranchCheckFailed { branch } => MergeErrorView::LocalBranchCheckFailed {
                branch: branch@,
            },
            MergeError::LocalBranchDoesNotExist { branch } => MergeErrorView::LocalBranchDoesNotExist {
                branch: branch@,
            },
            MergeError::CheckoutFailed { branch } => MergeErrorView::CheckoutFailed {
                branch: branch@,
            },
            MergeError::RemoteUpdateFailed => MergeErrorView::RemoteUpdateFailed,
            MergeError::RemoteBranchNotResolved { remote, prefix } => MergeErrorView::RemoteBranchNotResolved {
                remote: remote@,
                prefix: prefix@,
            },
            MergeError::MergeFailed { remote, branch } => MergeErrorView::MergeFailed {
                remote: remote@,
                branch: branch@,
            },
            MergeError::PushFailed => MergeErrorView::PushFailed,
        }
    }
}

/// One git operation the orchestrator asks the front end to perform.
#[derive(Clone, Debug)]
pub enum MergeAction {
    /// List the configured remote names (`git remote`).
    ListRemotes,
    /// Report whether the working tree is clean (`git status --porcelain`).
    CheckCleanliness,
    /// Read the full ref set (`git for-each-ref`).
    ReadRefs,
    /// Report whether this local branch exists (`git show-ref --verify`).
    CheckLocalBranch { branch: String },
    /// Check out this local branch.
    Checkout { branch: String },
    /// Update all managed remotes in one batched call.
    UpdateRemotes { remotes: Vec<String> },
    /// Merge `remote/branch` into the current branch.
    Merge { remote: String, branch: String, allow_unrelated_histories: bool },
    /// Push the current branch to its default push target.
    Push,
}

#[verifier::ext_equal]
pub enum MergeActionView {
    ListRemotes,
    CheckCleanliness,
    ReadRefs,
    CheckLocalBranch { branch: Seq<char> },
    Checkout { branch: Seq<char> },
    UpdateRemotes { remotes: Seq<Seq<char>> },
    Merge { remote: Seq<char>, branch: Seq<char>, allow_unrelated_histories: bool },
    Push,
}

impl View for MergeAction {
    type V = MergeActionView;

    open spec fn view(&self) -> MergeActionView {
        match self {
            MergeAction::ListRemotes => MergeActionView::ListRemotes,
            MergeAction::CheckCleanliness => MergeActionView::CheckCleanliness,
            MergeAction::ReadRefs => MergeActionView::ReadRefs,
            MergeAction::CheckLocalBranch { branch } => MergeActionView::CheckLocalBranch {
                branch: branch@,
            },
            MergeAction::Checkout { branch } => MergeActionView::Checkout { branch: branch@ },
            MergeAction::UpdateRemotes { remotes } => MergeActionView::UpdateRemotes {
                remotes: remotes.deep_view(),
            },
            MergeAction::Merge { remote, branch, allow_unrelated_histories } => MergeActionView::Merge {
                remote: remote@,
                branch: branch@,
                allow_unrelated_histories: *allow_unrelated_histories,
            },
            MergeAction::Push => MergeActionView::Push,
        }
    }
}

/// The result of the operation the orchestrator last asked for.
#[derive(Clone, Debug)]
pub enum MergeEvent {
    /// The configured remote names, as listed (unfiltered).
    Remotes { names: Vec<String> },
    /// Whether the working tree is clean.
    Cleanliness { clean: bool },
    /// The full ref set, one fully-qualified ref per entry.
    Refs { refs: Vec<String> },
    /// Whether the asked-about local branch exists.
    BranchExists { exists: bool },
    /// The asked-for command succeeded.
    Succeeded,
    /// The asked-for command failed.
    Failed,
}

#[verifier::ext_equal]
pub enum MergeEventView {
    Remotes { names: Seq<Seq<char>> },
    Cleanliness { clean: bool },
    Refs { refs: Seq<Seq<char>> },
    BranchExists { exists: bool },
    Succeeded,
    Failed,
}

impl View for MergeEvent {
    type V = MergeEventView;

    open spec fn view(&self) -> MergeEventView {
        match self {
            MergeEvent::Remotes { names } => MergeEventView::Remotes { names: names.deep_view() },
            MergeEvent::Cleanliness { clean } => MergeEventView::Cleanliness { clean: *clean },
            MergeEvent::Refs { refs } => MergeEventView::Refs { refs: refs.deep_view() },
            MergeEvent::BranchExists { exists } => MergeEventView::BranchExists { exists: *exists },
            MergeEvent::Succeeded => MergeEventView::Succeeded,
            MergeEvent::Failed => MergeEventView::Failed,
        }
    }
}

/// Where the orchestrator stands in the protocol. Non-final phases carry
/// the data later steps need: the managed remotes, and the ref-set snapshot
/// read once before any mutation, so every resolution uses one consistent
/// snapshot.
#[derive(Debug)]
pub enum MergePhase {
    ListingRemotes,
    CheckingCleanliness { remotes: Vec<String> },
    ReadingRefs { remotes: Vec<String> },
    CheckingLocalBranch { remotes: Vec<String>, refs: Vec<String>, branch: String },
    CheckingOut { remotes: Vec<String>, refs: Vec<String>, branch: String },
    UpdatingRemotes { remotes: Vec<String>, refs: Vec<String> },
    /// About to merge `remotes[next]`, whose branch resolved to `branch`.
    Merging { remotes: Vec<String>, refs: Vec<String>, next: usize, branch: String },
    Pushing { remotes: Vec<String> },
    Done { result: Result<(), MergeError> },
}

#[verifier::ext_equal]
pub enum MergePhaseView {
    ListingRemotes,
    CheckingCleanliness { remotes: Seq<Seq<char>> },
    ReadingRefs { remotes: Seq<Seq<char>> },
    CheckingLocalBranch { remotes: Seq<Seq<char>>, refs: Seq<Seq<char>>, branch: Seq<char> },
    CheckingOut { remotes: Seq<Seq<char>>, refs: Seq<Seq<char>>, branch: Seq<char> },
    UpdatingRemotes { remotes: Seq<Seq<char>>, refs: Seq<Seq<char>> },
    Merging { remotes: Seq<Seq<char>>, refs: Seq<Seq<char>>, next: int, branch: Seq<char> },
    Pushing { remotes: Seq<Seq<char>> },
    Done { result: Result<(), MergeErrorView> },
}

impl View for MergePhase {
    type V = MergePhaseView;

    open spec fn view(&self) -> MergePhaseView {
        match self {
            MergePhase::ListingRemotes => MergePhaseView::ListingRemotes,
            MergePhase::CheckingCleanliness { remotes } => MergePhaseView::CheckingCleanliness {
                remotes: remotes.deep_view(),
            },
            MergePhase::ReadingRefs { remotes } => MergePhaseView::ReadingRefs {
                remotes: remotes.deep_view(),
            },
            MergePhase::CheckingLocalBranch { remotes, refs, branch } => MergePhaseView::CheckingLocalBranch {
                remotes: remotes.deep_view(),
                refs: refs.deep_view(),
                branch: branch@,
            },
            MergePhase::CheckingOut { remotes, refs, branch } => MergePhaseView::CheckingOut {
                remotes: remotes.deep_view(),
                refs: refs.deep_view(),
                branch: branch@,
            },
            MergePhase::UpdatingRemotes { remotes, refs } => MergePhaseView::UpdatingRemotes {
                remotes: remotes.deep_view(),
                refs: refs.deep_view(),
            },
            MergePhase::Merging { remotes, refs, next, branch } => MergePhaseView::Merging {
                remotes: remotes.deep_view(),
                refs: refs.deep_view(),
                next: *next as int,
                branch: branch@,
            },
            MergePhase::Pushing { remotes } => MergePhaseView::Pushing {
                remotes: remotes.deep_view(),
            },
            MergePhase::Done { result } => MergePhaseView::Done {
                result: match result {
                    Ok(_) => Ok(()),
                    Err(e) => Err(e@),
                },
            },
        }
    }
}

/// The ref namespace of local branches.
pub open spec fn heads_prefix() -> Seq<char> {
    "refs/heads"@
}

/// The ref namespace of one remote's branches.
pub open spec fn remotes_prefix(remote: Seq<char>) -> Seq<char> {
    "refs/remotes/"@ + remote
}

/// A `Merging` phase always points at a real remote.
pub open spec fn phase_wf(phase: MergePhaseView) -> bool {
    match phase {
        MergePhaseView::Merging { remotes, next, .. } => 0 <= next < remotes.len(),
        _ => true,
    }
}

/// The phase entered when the merges of remotes `next..` remain: resolve
/// the next remote's branch against the ref snapshot and merge it, push
/// once none remain, abort when resolution fails.
pub open spec fn spec_enter_merge(
    cmd: MergeCommandView,
    remotes: Seq<Seq<char>>,
    refs: Seq<Seq<char>>,
    next: int,
) -> MergePhaseView {
    if next >= remotes.len() {
        MergePhaseView::Pushing { remotes }
    } else {
        match spec_resolve(cmd.remote_branch_strategy, remotes_prefix(remotes[next]), refs) {
            Some(branch) => MergePhaseView::Merging { remotes, refs, next, branch },
            None => MergePhaseView::Done {
                result: Err(
                    MergeErrorView::RemoteBranchNotResolved {
                        remote: remotes[next],
                        prefix: remotes_prefix(remotes[next]),
                    },
                ),
            },
        }
    }
}

/// Whether an event is an answer to the question the phase asks. The final
/// phase takes no event.
pub open spec fn event_fits(phase: MergePhaseView, event: MergeEventView) -> bool {
    match phase {
        MergePhaseView::ListingRemotes => event is Remotes || event is Failed,
        MergePhaseView::CheckingCleanliness { .. } => event is Cleanliness || event is Failed,
        MergePhaseView::ReadingRefs { .. } => event is Refs || event is Failed,
        MergePhaseView::CheckingLocalBranch { .. } => event is BranchExists || event is Failed,
        MergePhaseView::CheckingOut { .. } => event is Succeeded || event is Failed,
        MergePhaseView::UpdatingRemotes { .. } => event is Succeeded || event is Failed,
        MergePhaseView::Merging { .. } => event is Succeeded || event is Failed,
        MergePhaseView::Pushing { .. } => event is Succeeded || event is Failed,
        MergePhaseView::Done { .. } => false,
    }
}

/// The transition function of the protocol. An event that answers a
/// question the phase did not ask leaves the phase unchanged; the final
/// phase absorbs every event.
pub open spec fn spec_step(
    cmd: MergeCommandView,
    phase: MergePhaseView,
    event: MergeEventView,
) -> MergePhaseView {
    match (phase, event) {
        (MergePhaseView::ListingRemotes, MergeEventView::Remotes { names }) => {
            let managed = spec_managed(names);
            if managed.len() == 0 {
                MergePhaseView::Done { result: Ok(()) }
            } else {
                MergePhaseView::CheckingCleanliness { remotes: managed }
            }
        },
        (MergePhaseView::ListingRemotes, MergeEventView::Failed) => MergePhaseView::Done {
            result: Err(MergeErrorView::RemoteListingFailed),
        },
        (
            MergePhaseView::CheckingCleanliness { remotes },
            MergeEventView::Cleanliness { clean },
        ) => if clean || cmd.allow_dirty {
            MergePhaseView::ReadingRefs { remotes }
        } else {
            MergePhaseView::Done { result: Err(MergeErrorView::RepositoryNotClean) }
        },
        (MergePhaseView::CheckingCleanliness { .. }, MergeEventView::Failed) => MergePhaseView::Done {
            result: Err(MergeErrorView::CleanlinessCheckFailed),
        },
        (MergePhaseView::ReadingRefs { remotes }, MergeEventView::Refs { refs }) => match spec_resolve(
            cmd.local_branch_strategy,
            heads_prefix(),
            refs,
        ) {
            Some(branch) => MergePhaseView::CheckingLocalBranch { remotes, refs, branch },
            None => MergePhaseView::Done {
                result: Err(MergeErrorView::LocalBranchNotResolved { prefix: heads_prefix() }),
            },
        },
        (MergePhaseView::ReadingRefs { .. }, MergeEventView::Failed) => MergePhaseView::Done {
            result: Err(MergeErrorView::RefListingFailed),
        },
        (
            MergePhaseView::CheckingLocalBranch { remotes, refs, branch },
            MergeEventView::BranchExists { exists },
        ) => if exists {
            MergePhaseView::CheckingOut { remotes, refs, branch }
        } else {
            MergePhaseView::Done {
                result: Err(MergeErrorView::LocalBranchDoesNotExist { branch }),
            }
        },
        (
            MergePhaseView::CheckingLocalBranch { branch, .. },
            MergeEventView::Failed,
        ) => MergePhaseView::Done {
            result: Err(MergeErrorView::LocalBranchCheckFailed { branch }),
        },
        (
            MergePhaseView::CheckingOut { remotes, refs, .. },
            MergeEventView::Succeeded,
        ) => MergePhaseView::UpdatingRemotes { remotes, refs },
        (MergePhaseView::CheckingOut { branch, .. }, MergeEventView::Failed) => MergePhaseView::Done {
            result: Err(MergeErrorView::CheckoutFailed { branch }),
        },
        (
            MergePhaseView::UpdatingRemotes { remotes, refs },
            MergeEventView::Succeeded,
        ) => spec_enter_merge(cmd, remotes, refs, 0),
        (MergePhaseView::UpdatingRemotes { .. }, MergeEventView::Failed) => MergePhaseView::Done {
            result: Err(MergeErrorView::RemoteUpdateFailed),
        },
        (
            MergePhaseView::Merging { remotes, refs, next, .. },
            MergeEventView::Succeeded,
        ) => spec_enter_merge(cmd, remotes, refs, next + 1),
        (
            MergePhaseView::Merging { remotes, next, branch, .. },
            MergeEventView::Failed,
        ) => MergePhaseView::Done {
            result: Err(MergeErrorView::MergeFailed { remote: remotes[next], branch }),
        },
        (MergePhaseView::Pushing { .. }, MergeEventView::Succeeded) => MergePhaseView::Done {
            result: Ok(()),
        },
        (MergePhaseView::Pushing { .. }, MergeEventView::Failed) => MergePhaseView::Done {
            result: Err(MergeErrorView::PushFailed),
        },
        (other, _) => other,
    }
}

/// The operation a phase asks for; the final phase asks for none.
pub open spec fn spec_pending_action(cmd: MergeCommandView, phase: MergePhaseView) -> Option<
    MergeActionView,
> {
    match phase {
        MergePhaseView::ListingRemotes => Some(MergeActionView::ListRemotes),
        MergePhaseView::CheckingCleanliness { .. } => Some(MergeActionView::CheckCleanliness),
        MergePhaseView::ReadingRefs { .. } => Some(MergeActionView::ReadRefs),
        MergePhaseView::CheckingLocalBranch { branch, .. } => Some(
            MergeActionView::CheckLocalBranch { branch },
        ),
        MergePhaseView::CheckingOut { branch, .. } => Some(MergeActionView::Checkout { branch }),
        MergePhaseView::UpdatingRemotes { remotes, .. } => Some(
            MergeActionView::UpdateRemotes { remotes },
        ),
        MergePhaseView::Merging { remotes, next, branch, .. } => Some(
            MergeActionView::Merge {
                remote: remotes[next],
                branch,
                allow_unrelated_histories: cmd.allow_unrelated_histories,
            },
        ),
        MergePhaseView::Pushing { .. } => Some(MergeActionView::Push),
        MergePhaseView::Done { .. } => None,
    }
}

fn clone_string_vec(v: &Vec<String>) -> (r: Vec<String>)
    ensures
        r.deep_view() == v.deep_view(),
{
    let mut r: Vec<String> = Vec::new();
    let mut i: usize = 0;
    while i < v.len()
        invariant
            i <= v.len(),
            r.deep_view() =~~= v.deep_view().take(i as int),
        decreases v.len() - i,
    {
        let ghost prev = r.deep_view();
        r.push(v[i].clone());
        i = i + 1;
        proof {
            assert(r.deep_view() =~~= prev.push(v.deep_view()[i - 1]));
            assert(r.deep_view() =~~= v.deep_view().take(i as int));
        }
    }
    proof {
        assert(v.deep_view().take(v@.len() as int) =~~= v.deep_view());
    }
    r
}

fn enter_merge(cmd: &MergeCommand, remotes: Vec<String>, refs: Vec<String>, next: usize) -> (r:
    MergePhase)
    requires
        next <= remotes@.len(),
    ensures
        r@ == spec_enter_merge(cmd@, remotes.deep_view(), refs.deep_view(), next as int),
        phase_wf(r@),
{
    if next >= remotes.len() {
        MergePhase::Pushing { remotes }
    } else {
        let prefix = String::from_str("refs/remotes/").concat(remotes[next].as_str());
        proof {
            assert(prefix@ =~= remotes_prefix(remotes.deep_view()[next as int]));
        }
        match cmd.remote_branch_strategy.to_branch_name(prefix.as_str(), &refs) {
            Ok(branch) => MergePhase::Merging { remotes, refs, next, branch },
            Err(e) => {
                let remote = remotes[next].clone();
                MergePhase::Done {
                    result: Err(
                        MergeError::RemoteBranchNotResolved { remote, prefix: e.prefix },
                    ),
                }
            },
        }
    }
}

/// The merge orchestrator over one repository: a state machine whose
/// pending action the front end performs, feeding the result back through
/// [`MergeOrchestrator::step`] until the `Done` phase.
#[derive(Debug)]
pub struct MergeOrchestrator {
    pub cmd: MergeCommand,
    pub phase: MergePhase,
}

impl MergeOrchestrator {
    /// Starts a run: the first thing asked for is the remote listing.
    pub fn new(cmd: MergeCommand) -> (r: Self)
        ensures
            r.cmd@ == cmd@,
            r.phase@ == MergePhaseView::ListingRemotes,
            phase_wf(r.phase@),
    {
        MergeOrchestrator { cmd, phase: MergePhase::ListingRemotes }
    }

    /// The operation the current phase asks for, or nothing once done.
    pub fn pending_action(&self) -> (a: Option<MergeAction>)
        requires
            phase_wf(self.phase@),
        ensures
            match a {
                Some(act) => spec_pending_action(self.cmd@, self.phase@) == Some(act@),
                None => spec_pending_action(self.cmd@, self.phase@) is None,
            },
    {
        match &self.phase {
            MergePhase::ListingRemotes => Some(MergeAction::ListRemotes),
            MergePhase::CheckingCleanliness { .. } => Some(MergeAction::CheckCleanliness),
            MergePhase::ReadingRefs { .. } => Some(MergeAction::ReadRefs),
            MergePhase::CheckingLocalBranch { branch, .. } => Some(
                MergeAction::CheckLocalBranch { branch: branch.clone() },
            ),
            MergePhase::CheckingOut { branch, .. } => Some(
                MergeAction::Checkout { branch: branch.clone() },
            ),
            MergePhase::UpdatingRemotes { remotes, .. } => Some(
                MergeAction::UpdateRemotes { remotes: clone_string_vec(remotes) },
            ),
            MergePhase::Merging { remotes, next, branch, .. } => Some(
                MergeAction::Merge {
                    remote: remotes[*next].clone(),
                    branch: branch.clone(),
                    allow_unrelated_histories: self.cmd.allow_unrelated_histories,
                },
            ),
            MergePhase::Pushing { .. } => Some(MergeAction::Push),
            MergePhase::Done { .. } => None,
        }
    }

    /// Whether the run has finished; its result then stands in the phase.
    pub fn is_done(&self) -> (b: bool)
        ensures
            b == (self.phase@ is Done),
    {
        match &self.phase {
            MergePhase::Done { .. } => true,
            _ => false,
        }
    }

    /// Feeds the result of the asked-for operation into the machine,
    /// advancing it exactly as the specification-level transition does.
    pub fn step(self, event: MergeEvent) -> (next: Self)
        requires
            event_fits(self.phase@, event@),
            phase_wf(self.phase@),
        ensures
            next.cmd@ == self.cmd@,
            next.phase@ == spec_step(self.cmd@, self.phase@, event@),
            phase_wf(next.phase@),
    {
        let MergeOrchestrator { cmd, phase } = self;
        let next_phase = match (phase, event) {
            (MergePhase::ListingRemotes, MergeEvent::Remotes { names }) => {
                let managed = managed_remotes(names);
                if managed.len() == 0 {
                    MergePhase::Done { result: Ok(()) }
                } else {
                    MergePhase::CheckingCleanliness { remotes: managed }
                }
            },
            (MergePhase::ListingRemotes, MergeEvent::Failed) => MergePhase::Done {
                result: Err(MergeError::RemoteListingFailed),
            },
            (
                MergePhase::CheckingCleanliness { remotes },
                MergeEvent::Cleanliness { clean },
            ) => if clean || cmd.allow_dirty {
                MergePhase::ReadingRefs { remotes }
            } else {
                MergePhase::Done { result: Err(MergeError::RepositoryNotClean) }
            },
            (MergePhase::CheckingCleanliness { .. }, MergeEvent::Failed) => MergePhase::Done {
                result: Err(MergeError::CleanlinessCheckFailed),
            },
            (MergePhase::ReadingRefs { remotes }, MergeEvent::Refs { refs }) => {
                match cmd.local_branch_strategy.to_branch_name("refs/heads", &refs) {
                    Ok(branch) => MergePhase::CheckingLocalBranch { remotes, refs, branch },
                    Err(e) => MergePhase::Done {
                        result: Err(MergeError::LocalBranchNotResolved { prefix: e.prefix }),
                    },
                }
            },
            (MergePhase::ReadingRefs { .. }, MergeEvent::Failed) => MergePhase::Done {
                result: Err(MergeError::RefListingFailed),
            },
            (
                MergePhase::CheckingLocalBranch { remotes, refs, branch },
                MergeEvent::BranchExists { exists },
            ) => if exists {
                MergePhase::CheckingOut { remotes, refs, branch }
            } else {
                MergePhase::Done { result: Err(MergeError::LocalBranchDoesNotExist { branch }) }
            },
            (
                MergePhase::CheckingLocalBranch { branch, .. },
                MergeEvent::Failed,
            ) => MergePhase::Done {
                result: Err(MergeError::LocalBranchCheckFailed { branch }),
            },
            (
                MergePhase::CheckingOut { remotes, refs, .. },
                MergeEvent::Succeeded,
            ) => MergePhase::UpdatingRemotes { remotes, refs },
            (MergePhase::CheckingOut { branch, .. }, MergeEvent::Failed) => MergePhase::Done {
                result: Err(MergeError::CheckoutFailed { branch }),
            },
            (
                MergePhase::UpdatingRemotes { remotes, refs },
                MergeEvent::Succeeded,
            ) => enter_merge(&cmd, remotes, refs, 0),
            (MergePhase::UpdatingRemotes { .. }, MergeEvent::Failed) => MergePhase::Done {
                result: Err(MergeError::RemoteUpdateFailed),
            },
            (
                MergePhase::Merging { remotes, refs, next, .. },
                MergeEvent::Succeeded,
            ) => {
                let n = remotes.len();
                assert(next < n);
                enter_merge(&cmd, remotes, refs, next + 1)
            },
            (
                MergePhase::Merging { remotes, next, branch, .. },
                MergeEvent::Failed,
            ) => {
                let remote = remotes[next].clone();
                MergePhase::Done { result: Err(MergeError::MergeFailed { remote, branch }) }
            },
            (MergePhase::Pushing { .. }, MergeEvent::Succeeded) => MergePhase::Done {
                result: Ok(()),
            },
            (MergePhase::Pushing { .. }, MergeEvent::Failed) => MergePhase::Done {
                result: Err(MergeError::PushFailed),
            },
            (other, _) => other,
        };
        MergeOrchestrator { cmd, phase: next_phase }
    }
}

/// Whether the status output of a clean working tree was produced: any
/// non-empty status output means the repository is not clean.
pub fn is_clean_status(output: &str) -> (b: bool)
    ensures
        b == (output@.len() == 0),
{
    output.unicode_len() == 0
}

/// The phase reached after feeding a sequence of events, one per step; the
/// final phase absorbs any surplus events.
pub open spec fn run_from(
    cmd: MergeCommandView,
    phase: MergePhaseView,
    events: Seq<MergeEventView>,
) -> MergePhaseView
    decreases events.len(),
{
    if events.len() == 0 {
        phase
    } else {
        run_from(cmd, spec_step(cmd, phase, events[0]), events.drop_first())
    }
}

/// Every operation requested along a run: the pending action of each phase
/// visited, in order. The final phase requests nothing.
pub open spec fn run_actions(
    cmd: MergeCommandView,
    phase: MergePhaseView,
    events: Seq<MergeEventView>,
) -> Seq<MergeActionView>
    decreases events.len(),
{
    let head = match spec_pending_action(cmd, phase) {
        Some(a) => seq![a],
        None => Seq::<MergeActionView>::empty(),
    };
    if events.len() == 0 {
        head
    } else {
        head + run_actions(cmd, spec_step(cmd, phase, events[0]), events.drop_first())
    }
}

/// Once the orchestrator is done it stays done, with the same result, and
/// requests no further operation, whatever events arrive.
pub proof fn lemma_done_absorbs(
    cmd: MergeCommandView,
    result: Result<(), MergeErrorView>,
    events: Seq<MergeEventView>,
)
    ensures
        run_from(cmd, MergePhaseView::Done { result }, events) == (MergePhaseView::Done {
            result,
        }),
        run_actions(cmd, MergePhaseView::Done { result }, events) =~= Seq::<MergeActionView>::empty(),
    decreases events.len(),
{
    if events.len() > 0 {
        lemma_done_absorbs(cmd, result, events.drop_first());
    }
}

proof fn lemma_contains_concat(a: Seq<MergeActionView>, b: Seq<MergeActionView>, x: MergeActionView)
    ensures
        (a + b).contains(x) <==> (a.contains(x) || b.contains(x)),
{
    if a.contains(x) {
        let i = choose|i: int| 0 <= i < a.len() && a[i] == x;
        assert((a + b)[i] == x);
    }
    if b.contains(x) {
        let i = choose|i: int| 0 <= i < b.len() && b[i] == x;
        assert((a + b)[a.len() + i] == x);
    }
    if (a + b).contains(x) {
        let i = choose|i: int| 0 <= i < (a + b).len() && (a + b)[i] == x;
        if i < a.len() {
            assert(a[i] == x);
        } else {
            assert(b[i - a.len()] == x);
        }
    }
}

/// A repository with no managed remotes is a successful no-op: after the
/// remote listing the orchestrator finishes at once, and the listing is the
/// only operation ever requested — no checkout, fetch, merge or push —
/// whatever events follow.
pub proof fn lemma_no_managed_remotes_is_noop(
    cmd: MergeCommandView,
    names: Seq<Seq<char>>,
    events: Seq<MergeEventView>,
)
    requires
        spec_managed(names).len() == 0,
    ensures
        run_from(
            cmd,
            MergePhaseView::ListingRemotes,
            seq![MergeEventView::Remotes { names }] + events,
        ) == (MergePhaseView::Done { result: Ok::<(), MergeErrorView>(()) }),
        run_actions(
            cmd,
            MergePhaseView::ListingRemotes,
            seq![MergeEventView::Remotes { names }] + events,
        ) =~= seq![MergeActionView::ListRemotes],
{
    let evs = seq![MergeEventView::Remotes { names }] + events;
    assert(evs[0] == MergeEventView::Remotes { names });
    assert(evs.drop_first() =~= events);
    lemma_done_absorbs(cmd, Ok(()), events);
}

/// With a dirty working tree and no dirty override, the orchestrator
/// aborts with `RepositoryNotClean` straight after the cleanliness check:
/// the only operations ever requested are the remote listing and the check
/// itself — no checkout or merge is attempted — whatever events follow.
pub proof fn lemma_dirty_tree_aborts(
    cmd: MergeCommandView,
    names: Seq<Seq<char>>,
    events: Seq<MergeEventView>,
)
    requires
        !cmd.allow_dirty,
        spec_managed(names).len() > 0,
    ensures
        run_from(
            cmd,
            MergePhaseView::ListingRemotes,
            seq![
                MergeEventView::Remotes { names },
                MergeEventView::Cleanliness { clean: false },
            ] + events,
        ) == (MergePhaseView::Done { result: Err::<(), MergeErrorView>(MergeErrorView::RepositoryNotClean) }),
        run_actions(
            cmd,
            MergePhaseView::ListingRemotes,
            seq![
                MergeEventView::Remotes { names },
                MergeEventView::Cleanliness { clean: false },
            ] + events,
        ) =~= seq![MergeActionView::ListRemotes, MergeActionView::CheckCleanliness],
{
    let evs = seq![
        MergeEventView::Remotes { names },
        MergeEventView::Cleanliness { clean: false },
    ] + events;
    assert(evs[0] == (MergeEventView::Remotes { names }));
    let evs1 = evs.drop_first();
    assert(evs1[0] == (MergeEventView::Cleanliness { clean: false }));
    assert(evs1.drop_first() =~= events);
    let phase1 = spec_step(cmd, MergePhaseView::ListingRemotes, evs[0]);
    assert(phase1 == (MergePhaseView::CheckingCleanliness { remotes: spec_managed(names) }));
    let done = MergePhaseView::Done {
        result: Err::<(), MergeErrorView>(MergeErrorView::RepositoryNotClean),
    };
    let phase2 = spec_step(cmd, phase1, evs1[0]);
    assert(phase2 == done);
    assert(run_from(cmd, MergePhaseView::ListingRemotes, evs) == run_from(cmd, phase1, evs1));
    assert(run_from(cmd, phase1, evs1) == run_from(cmd, phase2, events));
    lemma_done_absorbs(cmd, Err(MergeErrorView::RepositoryNotClean), events);
    assert(run_actions(cmd, MergePhaseView::ListingRemotes, evs) =~= seq![
        MergeActionView::ListRemotes,
    ] + run_actions(cmd, phase1, evs1));
    assert(run_actions(cmd, phase1, evs1) =~= seq![MergeActionView::CheckCleanliness]
        + run_actions(cmd, phase2, events));
}

/// A failing merge aborts the whole operation at once: from the phase
/// about to merge one remote, a failure event finishes the run with
/// `MergeFailed` for that remote, and the only operation requested from
/// there on is that one merge — later remotes are never attempted and no
/// push ever happens, whatever events follow.
pub proof fn lemma_merge_failure_is_fail_fast(
    cmd: MergeCommandView,
    remotes: Seq<Seq<char>>,
    refs: Seq<Seq<char>>,
    next: int,
    branch: Seq<char>,
    events: Seq<MergeEventView>,
)
    requires
        0 <= next < remotes.len(),
        events.len() > 0,
        events[0] is Failed,
    ensures
        run_from(
            cmd,
            MergePhaseView::Merging { remotes, refs, next, branch },
            events,
        ) == (MergePhaseView::Done {
            result: Err::<(), MergeErrorView>(
                MergeErrorView::MergeFailed { remote: remotes[next], branch },
            ),
        }),
        run_actions(cmd, MergePhaseView::Merging { remotes, refs, next, branch }, events)
            =~= seq![
            MergeActionView::Merge {
                remote: remotes[next],
                branch,
                allow_unrelated_histories: cmd.allow_unrelated_histories,
            },
        ],
{
    lemma_done_absorbs(
        cmd,
        Err(MergeErrorView::MergeFailed { remote: remotes[next], branch }),
        events.drop_first(),
    );
}

/// The protocol runs in its fixed order. With managed remotes among the
/// listed names, a clean working tree, a local branch that resolves and
/// exists, and a successful checkout and batched remote update, the
/// operations requested up to the merge sequence are exactly: list the
/// remotes, check cleanliness, read the refs once, check the resolved
/// branch, check it out, update the managed remotes — in that order, each
/// once, and the refs snapshot read before the checkout is the one every
/// later resolution uses. The run then stands at the start of the merge
/// sequence, whose actions `lemma_push_iff_all_merges_succeed` describes.
pub proof fn lemma_protocol_order_to_merges(
    cmd: MergeCommandView,
    names: Seq<Seq<char>>,
    refs: Seq<Seq<char>>,
    branch: Seq<char>,
    rest: Seq<MergeEventView>,
)
    requires
        spec_managed(names).len() > 0,
        spec_resolve(cmd.local_branch_strategy, heads_prefix(), refs) == Some(branch),
    ensures
        run_from(
            cmd,
            MergePhaseView::ListingRemotes,
            seq![
                MergeEventView::Remotes { names },
                MergeEventView::Cleanliness { clean: true },
                MergeEventView::Refs { refs },
                MergeEventView::BranchExists { exists: true },
                MergeEventView::Succeeded,
                MergeEventView::Succeeded,
            ] + rest,
        ) == run_from(cmd, spec_enter_merge(cmd, spec_managed(names), refs, 0), rest),
        run_actions(
            cmd,
            MergePhaseView::ListingRemotes,
            seq![
                MergeEventView::Remotes { names },
                MergeEventView::Cleanliness { clean: true },
                MergeEventView::Refs { refs },
                MergeEventView::BranchExists { exists: true },
                MergeEventView::Succeeded,
                MergeEventView::Succeeded,
            ] + rest,
        ) =~= seq![
            MergeActionView::ListRemotes,
            MergeActionView::CheckCleanliness,
            MergeActionView::ReadRefs,
            MergeActionView::CheckLocalBranch { branch },
            MergeActionView::Checkout { branch },
            MergeActionView::UpdateRemotes { remotes: spec_managed(names) },
        ] + run_actions(cmd, spec_enter_merge(cmd, spec_managed(names), refs, 0), rest),
{
    let managed = spec_managed(names);
    let evs = seq![
        MergeEventView::Remotes { names },
        MergeEventView::Cleanliness { clean: true },
        MergeEventView::Refs { refs },
        MergeEventView::BranchExists { exists: true },
        MergeEventView::Succeeded,
        MergeEventView::Succeeded,
    ] + rest;
    let evs1 = evs.drop_first();
    let evs2 = evs1.drop_first();
    let evs3 = evs2.drop_first();
    let evs4 = evs3.drop_first();
    let evs5 = evs4.drop_first();
    assert(evs[0] == (MergeEventView::Remotes { names }));
    assert(evs1[0] == (MergeEventView::Cleanliness { clean: true }));
    assert(evs2[0] == (MergeEventView::Refs { refs }));
    assert(evs3[0] == (MergeEventView::BranchExists { exists: true }));
    assert(evs4[0] == MergeEventView::Succeeded);
    assert(evs5[0] == MergeEventView::Succeeded);
    assert(evs5.drop_first() =~= rest);
    let p0 = MergePhaseView::ListingRemotes;
    let p1 = spec_step(cmd, p0, evs[0]);
    assert(p1 == (MergePhaseView::CheckingCleanliness { remotes: managed }));
    let p2 = spec_step(cmd, p1, evs1[0]);
    assert(p2 == (MergePhaseView::ReadingRefs { remotes: managed }));
    let p3 = spec_step(cmd, p2, evs2[0]);
    assert(p3 == (MergePhaseView::CheckingLocalBranch { remotes: managed, refs, branch }));
    let p4 = spec_step(cmd, p3, evs3[0]);
    assert(p4 == (MergePhaseView::CheckingOut { remotes: managed, refs, branch }));
    let p5 = spec_step(cmd, p4, evs4[0]);
    assert(p5 == (MergePhaseView::UpdatingRemotes { remotes: managed, refs }));
    let p6 = spec_step(cmd, p5, evs5[0]);
    assert(p6 == spec_enter_merge(cmd, managed, refs, 0));
    assert(run_from(cmd, p0, evs) == run_from(cmd, p1, evs1));
    assert(run_from(cmd, p1, evs1) == run_from(cmd, p2, evs2));
    assert(run_from(cmd, p2, evs2) == run_from(cmd, p3, evs3));
    assert(run_from(cmd, p3, evs3) == run_from(cmd, p4, evs4));
    assert(run_from(cmd, p4, evs4) == run_from(cmd, p5, evs5));
    assert(run_from(cmd, p5, evs5) == run_from(cmd, p6, rest));
    assert(run_actions(cmd, p0, evs) =~= seq![MergeActionView::ListRemotes] + run_actions(
        cmd,
        p1,
        evs1,
    ));
    assert(run_actions(cmd, p1, evs1) =~= seq![MergeActionView::CheckCleanliness] + run_actions(
        cmd,
        p2,
        evs2,
    ));
    assert(run_actions(cmd, p2, evs2) =~= seq![MergeActionView::ReadRefs] + run_actions(
        cmd,
        p3,
        evs3,
    ));
    assert(run_actions(cmd, p3, evs3) =~= seq![
        MergeActionView::CheckLocalBranch { branch },
    ] + run_actions(cmd, p4, evs4));
    assert(run_actions(cmd, p4, evs4) =~= seq![MergeActionView::Checkout { branch }] + run_actions(
        cmd,
        p5,
        evs5,
    ));
    assert(run_actions(cmd, p5, evs5) =~= seq![
        MergeActionView::UpdateRemotes { remotes: managed },
    ] + run_actions(cmd, p6, rest));
}

/// Every remote from position `from` onward has a branch that resolves
/// against the ref snapshot.
pub open spec fn all_remote_branches_resolved(
    cmd: MergeCommandView,
    remotes: Seq<Seq<char>>,
    refs: Seq<Seq<char>>,
    from: int,
) -> bool {
    forall|j: int|
        from <= j < remotes.len() ==> spec_resolve(
            cmd.remote_branch_strategy,
            remotes_prefix(#[trigger] remotes[j]),
            refs,
        ) is Some
}

/// Events that only report success or failure of the asked-for command —
/// the only events the merge and push phases can receive.
pub open spec fn all_success_or_failure(events: Seq<MergeEventView>) -> bool {
    forall|j: int|
        0 <= j < events.len() ==> ((#[trigger] events[j]) is Succeeded || events[j] is Failed)
}

/// Push happens exactly on full success: entering the merge sequence with
/// remotes `from..` left to merge, a push is requested if and only if every
/// remaining remote's branch resolves and every one of those merges
/// succeeds. A single resolution failure or merge failure means no push.
pub proof fn lemma_push_iff_all_merges_succeed(
    cmd: MergeCommandView,
    remotes: Seq<Seq<char>>,
    refs: Seq<Seq<char>>,
    from: int,
    events: Seq<MergeEventView>,
)
    requires
        0 <= from <= remotes.len(),
        all_success_or_failure(events),
    ensures
        run_actions(cmd, spec_enter_merge(cmd, remotes, refs, from), events).contains(
            MergeActionView::Push,
        ) <==> (all_remote_branches_resolved(cmd, remotes, refs, from) && events.len()
            >= remotes.len() - from && (forall|j: int|
            0 <= j < remotes.len() - from ==> (#[trigger] events[j]) is Succeeded)),
    decreases remotes.len() - from,
{
    let phase = spec_enter_merge(cmd, remotes, refs, from);
    let acts = run_actions(cmd, phase, events);
    if from == remotes.len() {
        assert(acts[0] == MergeActionView::Push);
        assert(acts.contains(MergeActionView::Push));
    } else {
        let needed = remotes.len() - from;
        match spec_resolve(cmd.remote_branch_strategy, remotes_prefix(remotes[from]), refs) {
            None => {
                lemma_done_absorbs(
                    cmd,
                    Err(
                        MergeErrorView::RemoteBranchNotResolved {
                            remote: remotes[from],
                            prefix: remotes_prefix(remotes[from]),
                        },
                    ),
                    events,
                );
                assert(!all_remote_branches_resolved(cmd, remotes, refs, from));
                assert(!acts.contains(MergeActionView::Push));
            },
            Some(branch) => {
                let head = seq![
                    MergeActionView::Merge {
                        remote: remotes[from],
                        branch,
                        allow_unrelated_histories: cmd.allow_unrelated_histories,
                    },
                ];
                assert(!head.contains(MergeActionView::Push)) by {
                    assert(forall|i: int| 0 <= i < head.len() ==> head[i] != MergeActionView::Push);
                }
                if events.len() == 0 {
                    assert(acts =~= head);
                    assert(!acts.contains(MergeActionView::Push));
                    assert(events.len() < needed);
                } else {
                    let ev0 = events[0];
                    let dropped = events.drop_first();
                    assert(ev0 is Succeeded || ev0 is Failed);
                    if ev0 is Succeeded {
                        let next_phase = spec_enter_merge(cmd, remotes, refs, from + 1);
                        assert(spec_step(cmd, phase, ev0) == next_phase);
                        let rec = run_actions(cmd, next_phase, dropped);
                        assert(acts =~= head + rec);
                        assert(all_success_or_failure(dropped)) by {
                            assert(forall|j: int|
                                0 <= j < dropped.len() ==> dropped[j] == events[j + 1]);
                        }
                        lemma_push_iff_all_merges_succeed(cmd, remotes, refs, from + 1, dropped);
                        lemma_contains_concat(head, rec, MergeActionView::Push);
                        let rhs_rec = all_remote_branches_resolved(cmd, remotes, refs, from + 1)
                            && dropped.len() >= remotes.len() - (from + 1) && (forall|j: int|
                            0 <= j < remotes.len() - (from + 1) ==> (#[trigger] dropped[j])
                                is Succeeded);
                        if rhs_rec {
                            assert(all_remote_branches_resolved(cmd, remotes, refs, from));
                            assert(events.len() >= needed);
                            assert forall|j: int| 0 <= j < needed implies (#[trigger] events[j])
                                is Succeeded by {
                                if j > 0 {
                                    assert(events[j] == dropped[j - 1]);
                                }
                            }
                        }
                        if all_remote_branches_resolved(cmd, remotes, refs, from) && events.len()
                            >= needed && (forall|j: int|
                            0 <= j < needed ==> (#[trigger] events[j]) is Succeeded) {
                            assert(all_remote_branches_resolved(cmd, remotes, refs, from + 1));
                            assert(dropped.len() >= remotes.len() - (from + 1));
                            assert forall|j: int|
                                0 <= j < remotes.len() - (from + 1) implies (#[trigger] dropped[j])
                                is Succeeded by {
                                assert(dropped[j] == events[j + 1]);
                            }
                        }
                    } else {
                        assert(spec_step(cmd, phase, ev0) == (MergePhaseView::Done {
                            result: Err::<(), MergeErrorView>(
                                MergeErrorView::MergeFailed { remote: remotes[from], branch },
                            ),
                        }));
                        lemma_done_absorbs(
                            cmd,
                            Err(MergeErrorView::MergeFailed { remote: remotes[from], branch }),
                            dropped,
                        );
                        assert(acts =~= head);
                        assert(!acts.contains(MergeActionView::Push));
                        assert(!(events[0] is Succeeded));
                    }
                }
            },
        }
    }
}

} // verus!
