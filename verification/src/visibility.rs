//! Visibility of a remote repository, and its command-line form.

use vstd::prelude::*;
use vstd::string::StringExecFns;

verus! {

/// Visibility of a remote repository.
#[derive(PartialEq, Eq, Structural, Clone, Copy, Debug, Hash)]
pub enum Visibility {
    Public,
    Private,
}

impl Visibility {
    /// The flag form this visibility takes on a repository-creation
    /// command line.
    pub open spec fn spec_as_arg(self) -> Seq<char> {
        match self {
            Visibility::Public => "--public"@,
            Visibility::Private => "--private"@,
        }
    }

    pub fn as_arg(&self) -> (r: String)
        ensures
            r@ == self.spec_as_arg(),
    {
        match self {
            Visibility::Public => String::from_str("--public"),
            Visibility::Private => String::from_str("--private"),
        }
    }
}

impl Default for Visibility {
    /// A repository is private unless asked otherwise.
    fn default() -> (r: Self)
        ensures
            r == Visibility::Private,
    {
        Visibility::Private
    }
}

} // verus!
