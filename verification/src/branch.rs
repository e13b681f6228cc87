//! Branch-name resolution: a branch is either pinned to an exact name or
//! detected automatically from the repository's refs, trying `main` first
//! and then `master` against a fixed ref-namespace prefix.

use vstd::prelude::*;
use vstd::string::StringExecFns;

verus! {

/// How a branch name is chosen: `Auto` detects it from the refs, `Exact`
/// pins a literal name.
#[derive(Clone, Debug)]
pub enum BranchNameStrategy {
    Auto,
    Exact(String),
}

pub enum BranchNameStrategyView {
    Auto,
    Exact(Seq<char>),
}

impl View for BranchNameStrategy {
    type V = BranchNameStrategyView;

    open spec fn view(&self) -> BranchNameStrategyView {
        match self {
            BranchNameStrategy::Auto => BranchNameStrategyView::Auto,
            BranchNameStrategy::Exact(name) => BranchNameStrategyView::Exact(name@),
        }
    }
}

impl Default for BranchNameStrategy {
    /// Unless asked otherwise, the branch name is detected automatically.
    fn default() -> (r: Self)
        ensures
            r@ == BranchNameStrategyView::Auto,
    {
        BranchNameStrategy::Auto
    }
}

/// Automatic resolution failed: no candidate ref exists under `prefix`.
#[derive(Clone, Debug)]
pub struct BranchNameNotFoundError {
    pub prefix: String,
}

/// The first candidate branch name tried by automatic resolution.
pub open spec fn main_name() -> Seq<char> {
    "main"@
}

/// The second candidate branch name tried by automatic resolution.
pub open spec fn master_name() -> Seq<char> {
    "master"@
}

/// The fully-qualified ref for branch `name` under the namespace `prefix`.
pub open spec fn candidate_ref(prefix: Seq<char>, name: Seq<char>) -> Seq<char> {
    prefix + "/"@ + name
}

/// Membership of a string in a ref set.
pub open spec fn contains_string(refs: Seq<Seq<char>>, s: Seq<char>) -> bool {
    exists|i: int| 0 <= i < refs.len() && refs[i] == s
}

/// The branch name a strategy resolves to against a ref-set snapshot, or
/// `None` when automatic detection finds neither candidate. `Exact` never
/// consults the refs.
pub open spec fn spec_resolve(
    strategy: BranchNameStrategyView,
    prefix: Seq<char>,
    refs: Seq<Seq<char>>,
) -> Option<Seq<char>> {
    match strategy {
        BranchNameStrategyView::Exact(name) => Some(name),
        BranchNameStrategyView::Auto => if contains_string(
            refs,
            candidate_ref(prefix, main_name()),
        ) {
            Some(main_name())
        } else if contains_string(refs, candidate_ref(prefix, master_name())) {
            Some(master_name())
        } else {
            None
        },
    }
}

fn make_candidate(prefix: &str, name: &str) -> (r: String)
    ensures
        r@ == candidate_ref(prefix@, name@),
{
    let r = String::from_str(prefix).concat("/").concat(name);
    proof {
        assert(r@ =~= candidate_ref(prefix@, name@));
    }
    r
}

fn vec_contains(refs: &Vec<String>, s: &String) -> (b: bool)
    ensures
        b == contains_string(refs.deep_view(), s@),
{
    let mut i: usize = 0;
    while i < refs.len()
        invariant
            i <= refs.len(),
            forall|j: int| 0 <= j < i ==> refs.deep_view()[j] != s@,
        decreases refs.len() - i,
    {
        if s.eq(&refs[i]) {
            assert(refs.deep_view()[i as int] == s@);
            return true;
        }
        assert(refs.deep_view()[i as int] != s@);
        i = i + 1;
    }
    false
}

impl BranchNameStrategy {
    /// Resolves a branch name against a snapshot of the repository's refs:
    /// an exact strategy returns its name verbatim, the automatic strategy
    /// returns the first of `main`, `master` whose ref `prefix/<name>` is in
    /// the snapshot, and fails naming the searched prefix when neither is.
    pub fn to_branch_name(&self, prefix: &str, refs: &Vec<String>) -> (r: Result<
        String,
        BranchNameNotFoundError,
    >)
        ensures
            match r {
                Ok(name) => spec_resolve(self@, prefix@, refs.deep_view()) == Some(name@),
                Err(e) => spec_resolve(self@, prefix@, refs.deep_view()) is None && e.prefix@
                    == prefix@,
            },
    {
        match self {
            BranchNameStrategy::Exact(name) => Ok(name.clone()),
            BranchNameStrategy::Auto => {
                let cand_main = make_candidate(prefix, "main");
                if vec_contains(refs, &cand_main) {
                    Ok(String::from_str("main"))
                } else {
                    let cand_master = make_candidate(prefix, "master");
                    if vec_contains(refs, &cand_master) {
                        Ok(String::from_str("master"))
                    } else {
                        Err(BranchNameNotFoundError { prefix: String::from_str(prefix) })
                    }
                }
            },
        }
    }
}

/// Parses a CLI branch argument: `-` selects automatic detection, any other
/// value pins that exact branch name.
#[derive(Clone, Debug)]
pub struct BranchNameStrategyValueParser;

impl BranchNameStrategyValueParser {
    pub fn parse_ref(&self, value: &str) -> (r: BranchNameStrategy)
        ensures
            value@ == "-"@ ==> r@ == BranchNameStrategyView::Auto,
            value@ != "-"@ ==> r@ == BranchNameStrategyView::Exact(value@),
    {
        if String::from_str(value).eq(&String::from_str("-")) {
            BranchNameStrategy::Auto
        } else {
            BranchNameStrategy::Exact(value.to_owned())
        }
    }
}

/// For any ref set holding both `<prefix>/main` and `<prefix>/master`,
/// automatic resolution deterministically returns `main`: candidates are
/// tried in a fixed priority order and the first match wins.
pub proof fn lemma_auto_resolution_prefers_main(prefix: Seq<char>, refs: Seq<Seq<char>>)
    requires
        contains_string(refs, candidate_ref(prefix, main_name())),
        contains_string(refs, candidate_ref(prefix, master_name())),
    ensures
        spec_resolve(BranchNameStrategyView::Auto, prefix, refs) == Some(main_name()),
{
}

/// For a ref set holding neither `<prefix>/main` nor `<prefix>/master`,
/// automatic resolution fails.
pub proof fn lemma_auto_resolution_fails(prefix: Seq<char>, refs: Seq<Seq<char>>)
    requires
        !contains_string(refs, candidate_ref(prefix, main_name())),
        !contains_string(refs, candidate_ref(prefix, master_name())),
    ensures
        spec_resolve(BranchNameStrategyView::Auto, prefix, refs) is None,
{
}

/// An exact strategy resolves to its own name, independent of the prefix
/// and of the ref-set contents.
pub proof fn lemma_exact_passthrough(name: Seq<char>, prefix: Seq<char>, refs: Seq<Seq<char>>)
    ensures
        spec_resolve(BranchNameStrategyView::Exact(name), prefix, refs) == Some(name),
{
}

} // verus!
