//! Bulk propagation: applying the merge operation to every repository
//! found under a directory tree, strictly sequentially and in a stable
//! order, aborting the whole batch at the first repository whose merge
//! fails. A repository without managed remotes counts as a success, by the
//! orchestrator's own no-op early exit.

use vstd::prelude::*;
use crate::branch::BranchNameStrategy;
use crate::branch::BranchNameStrategyView;
use crate::merge::MergeError;
use crate::merge::MergeErrorView;

verus! {

/// Configuration of one bulk propagation over a directory tree.
#[derive(Clone, Debug)]
pub struct PropagateCommand {
    /// How the local branch is chosen, shared by every repository.
    pub local_branch_name: BranchNameStrategy,
    /// How each remote's branch is chosen, shared by every repository.
    pub remote_branch_name: BranchNameStrategy,
    /// Directory to search in, recursively.
    pub dir: String,
}

#[verifier::ext_equal]
pub struct PropagateCommandView {
    pub local_branch_name: BranchNameStrategyView,
    pub remote_branch_name: BranchNameStrategyView,
    pub dir: Seq<char>,
}

impl View for PropagateCommand {
    type V = PropagateCommandView;

    open spec fn view(&self) -> PropagateCommandView {
        PropagateCommandView {
            local_branch_name: self.local_branch_name@,
            remote_branch_name: self.remote_branch_name@,
            dir: self.dir@,
        }
    }
}

/// One repository's merge failed, aborting the whole batch.
#[derive(Debug)]
pub struct PropagateError {
    /// The repository whose merge failed.
    pub repo: String,
    /// Why its merge failed.
    pub source: MergeError,
}

#[verifier::ext_equal]
pub struct PropagateErrorView {
    pub repo: Seq<char>,
    pub source: MergeErrorView,
}

impl View for PropagateError {
    type V = PropagateErrorView;

    open spec fn view(&self) -> PropagateErrorView {
        PropagateErrorView { repo: self.repo@, source: self.source@ }
    }
}

/// Where a bulk propagation stands: either about to process one discovered
/// repository, or finished.
#[derive(Debug)]
pub enum PropagatePhase {
    /// About to process `repos[next]`.
    Visiting { repos: Vec<String>, next: usize },
    Done { result: Result<(), PropagateError> },
}

#[verifier::ext_equal]
pub enum PropagatePhaseView {
    Visiting { repos: Seq<Seq<char>>, next: int },
    Done { result: Result<(), PropagateErrorView> },
}

impl View for PropagatePhase {
    type V = PropagatePhaseView;

    open spec fn view(&self) -> PropagatePhaseView {
        match self {
            PropagatePhase::Visiting { repos, next } => PropagatePhaseView::Visiting {
                repos: repos.deep_view(),
                next: *next as int,
            },
            PropagatePhase::Done { result } => PropagatePhaseView::Done {
                result: match result {
                    Ok(_) => Ok(()),
                    Err(e) => Err(e@),
                },
            },
        }
    }
}

/// A `Visiting` phase always points at a real repository.
pub open spec fn propagate_wf(phase: PropagatePhaseView) -> bool {
    match phase {
        PropagatePhaseView::Visiting { repos, next } => 0 <= next < repos.len(),
        _ => true,
    }
}

/// The phase a batch starts in: an empty discovery finishes successfully
/// at once.
pub open spec fn spec_propagate_start(repos: Seq<Seq<char>>) -> PropagatePhaseView {
    if repos.len() == 0 {
        PropagatePhaseView::Done { result: Ok(()) }
    } else {
        PropagatePhaseView::Visiting { repos, next: 0 }
    }
}

/// The repository the phase is about to process, if any.
pub open spec fn spec_pending_repo(phase: PropagatePhaseView) -> Option<Seq<char>> {
    match phase {
        PropagatePhaseView::Visiting { repos, next } => Some(repos[next]),
        PropagatePhaseView::Done { .. } => None,
    }
}

/// The transition of the batch on one repository's outcome: on success
/// move to the next repository or finish, on failure abort the batch
/// naming the failing repository. The final phase absorbs every outcome.
pub open spec fn spec_propagate_step(
    phase: PropagatePhaseView,
    outcome: Result<(), MergeErrorView>,
) -> PropagatePhaseView {
    match phase {
        PropagatePhaseView::Visiting { repos, next } => match outcome {
            Ok(_) => if next + 1 < repos.len() {
                PropagatePhaseView::Visiting { repos, next: next + 1 }
            } else {
                PropagatePhaseView::Done { result: Ok(()) }
            },
            Err(e) => PropagatePhaseView::Done {
                result: Err(PropagateErrorView { repo: repos[next], source: e }),
            },
        },
        PropagatePhaseView::Done { .. } => phase,
    }
}

/// The driver of one bulk propagation: the front end processes the pending
/// repository (a progress notice, then the full merge operation) and feeds
/// the outcome back through [`PropagateRun::step`] until the `Done` phase.
#[derive(Debug)]
pub struct PropagateRun {
    pub phase: PropagatePhase,
}

impl PropagateRun {
    /// Starts a batch over the discovered repositories, in discovery order.
    pub fn new(repos: Vec<String>) -> (r: Self)
        ensures
            r.phase@ == spec_propagate_start(repos.deep_view()),
            propagate_wf(r.phase@),
    {
        if repos.len() == 0 {
            PropagateRun { phase: PropagatePhase::Done { result: Ok(()) } }
        } else {
            PropagateRun { phase: PropagatePhase::Visiting { repos, next: 0 } }
        }
    }

    /// The repository to process now, or nothing once the batch is done.
    pub fn pending_repo(&self) -> (r: Option<String>)
        requires
            propagate_wf(self.phase@),
        ensures
            match r {
                Some(repo) => spec_pending_repo(self.phase@) == Some(repo@),
                None => spec_pending_repo(self.phase@) is None,
            },
    {
        match &self.phase {
            PropagatePhase::Visiting { repos, next } => Some(repos[*next].clone()),
            PropagatePhase::Done { .. } => None,
        }
    }

    /// Whether the batch has finished; its result then stands in the phase.
    pub fn is_done(&self) -> (b: bool)
        ensures
            b == (self.phase@ is Done),
    {
        match &self.phase {
            PropagatePhase::Done { .. } => true,
            _ => false,
        }
    }

    /// Feeds one repository's outcome into the batch, advancing it exactly
    /// as the specification-level transition does.
    pub fn step(self, outcome: Result<(), MergeError>) -> (r: Self)
        requires
            self.phase@ is Visiting,
            propagate_wf(self.phase@),
        ensures
            r.phase@ == spec_propagate_step(
                self.phase@,
                match outcome {
                    Ok(_) => Ok(()),
                    Err(e) => Err(e@),
                },
            ),
            propagate_wf(r.phase@),
    {
        let PropagateRun { phase } = self;
        let next_phase = match (phase, outcome) {
            (PropagatePhase::Visiting { repos, next }, Ok(_)) => {
                let n = repos.len();
                assert(next < n);
                if next + 1 < n {
                    PropagatePhase::Visiting { repos, next: next + 1 }
                } else {
                    PropagatePhase::Done { result: Ok(()) }
                }
            },
            (PropagatePhase::Visiting { repos, next }, Err(e)) => {
                let repo = repos[next].clone();
                PropagatePhase::Done {
                    result: Err(PropagateError { repo, source: e }),
                }
            },
            (other, _) => other,
        };
        PropagateRun { phase: next_phase }
    }
}

/// The phase a batch reaches after a sequence of per-repository outcomes;
/// the final phase absorbs any surplus.
pub open spec fn propagate_run_from(
    phase: PropagatePhaseView,
    outcomes: Seq<Result<(), MergeErrorView>>,
) -> PropagatePhaseView
    decreases outcomes.len(),
{
    if outcomes.len() == 0 {
        phase
    } else {
        propagate_run_from(spec_propagate_step(phase, outcomes[0]), outcomes.drop_first())
    }
}

/// Every repository entered along a batch, in order.
pub open spec fn propagate_run_entered(
    phase: PropagatePhaseView,
    outcomes: Seq<Result<(), MergeErrorView>>,
) -> Seq<Seq<char>>
    decreases outcomes.len(),
{
    let head = match spec_pending_repo(phase) {
        Some(repo) => seq![repo],
        None => Seq::<Seq<char>>::empty(),
    };
    if outcomes.len() == 0 {
        head
    } else {
        head + propagate_run_entered(spec_propagate_step(phase, outcomes[0]), outcomes.drop_first())
    }
}

/// Once the batch is done it stays done, with the same result, and no
/// further repository is entered, whatever outcomes arrive.
pub proof fn lemma_propagate_done_absorbs(
    result: Result<(), PropagateErrorView>,
    outcomes: Seq<Result<(), MergeErrorView>>,
)
    ensures
        propagate_run_from(PropagatePhaseView::Done { result }, outcomes)
            == (PropagatePhaseView::Done { result }),
        propagate_run_entered(PropagatePhaseView::Done { result }, outcomes) =~= Seq::<
            Seq<char>,
        >::empty(),
    decreases outcomes.len(),
{
    if outcomes.len() > 0 {
        lemma_propagate_done_absorbs(result, outcomes.drop_first());
    }
}

/// When every repository's merge succeeds, the batch succeeds and enters
/// every repository from `next` on, each exactly once and in order.
pub proof fn lemma_propagate_all_success(
    repos: Seq<Seq<char>>,
    next: int,
    outcomes: Seq<Result<(), MergeErrorView>>,
)
    requires
        0 <= next < repos.len(),
        outcomes.len() >= repos.len() - next,
        forall|j: int| 0 <= j < repos.len() - next ==> (#[trigger] outcomes[j]) is Ok,
    ensures
        propagate_run_from(PropagatePhaseView::Visiting { repos, next }, outcomes)
            == (PropagatePhaseView::Done { result: Ok::<(), PropagateErrorView>(()) }),
        propagate_run_entered(PropagatePhaseView::Visiting { repos, next }, outcomes)
            =~= repos.skip(next),
    decreases repos.len() - next,
{
    let phase = PropagatePhaseView::Visiting { repos, next };
    let dropped = outcomes.drop_first();
    assert(outcomes[0] is Ok);
    let stepped = spec_propagate_step(phase, outcomes[0]);
    if next + 1 < repos.len() {
        assert(stepped == (PropagatePhaseView::Visiting { repos, next: next + 1 }));
        assert forall|j: int| 0 <= j < repos.len() - (next + 1) implies (#[trigger] dropped[j])
            is Ok by {
            assert(dropped[j] == outcomes[j + 1]);
        }
        lemma_propagate_all_success(repos, next + 1, dropped);
        assert(propagate_run_entered(phase, outcomes) =~= seq![repos[next]]
            + propagate_run_entered(stepped, dropped));
        assert(repos.skip(next) =~= seq![repos[next]] + repos.skip(next + 1));
    } else {
        assert(stepped == (PropagatePhaseView::Done { result: Ok::<(), PropagateErrorView>(()) }));
        lemma_propagate_done_absorbs(Ok(()), dropped);
        assert(repos.skip(next) =~= seq![repos[next]]);
    }
}

/// The first failing repository aborts the whole batch: the batch fails
/// naming that repository and its merge error, and no repository after it
/// is ever entered, whatever outcomes follow.
pub proof fn lemma_propagate_fail_fast(
    repos: Seq<Seq<char>>,
    next: int,
    e: MergeErrorView,
    outcomes: Seq<Result<(), MergeErrorView>>,
)
    requires
        0 <= next < repos.len(),
        outcomes.len() > 0,
        outcomes[0] == Err::<(), MergeErrorView>(e),
    ensures
        propagate_run_from(PropagatePhaseView::Visiting { repos, next }, outcomes)
            == (PropagatePhaseView::Done {
            result: Err::<(), PropagateErrorView>(
                PropagateErrorView { repo: repos[next], source: e },
            ),
        }),
        propagate_run_entered(PropagatePhaseView::Visiting { repos, next }, outcomes)
            =~= seq![repos[next]],
{
    lemma_propagate_done_absorbs(
        Err(PropagateErrorView { repo: repos[next], source: e }),
        outcomes.drop_first(),
    );
}

} // verus!
