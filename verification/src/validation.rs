//! Validation wrappers: a value of type `WithEmptyFirstCommit<T>` records
//! that the repository it stands for was checked to begin with an empty
//! first commit. The check itself reads git history, so the caller
//! performs it and hands its result in; the wrapper then carries the
//! validated value through.

use vstd::prelude::*;

verus! {

/// Reduces a wrapped value to its underlying form.
pub trait Strip {
    type Output;

    fn strip(self) -> Self::Output;
}

impl Strip for String {
    type Output = String;

    fn strip(self) -> Self::Output {
        self
    }
}

/// A repository value whose history begins with an empty first commit.
#[derive(Debug)]
pub struct WithEmptyFirstCommit<T> {
    value: T,
}

/// A repository value whose history does not begin with an empty first
/// commit; the evidence a failed validation hands back.
#[derive(Debug)]
pub struct WithoutEmptyFirstCommit<T> {
    value: T,
}

/// Anything that can stand for a validated repository value.
pub trait WithEmptyFirstCommitLike<T> {
    fn to_own(self) -> WithEmptyFirstCommit<T>;

    fn to_ref(&self) -> &WithEmptyFirstCommit<T>;
}

impl<T> WithEmptyFirstCommit<T> {
    /// The wrapped value.
    pub closed spec fn spec_value(self) -> T {
        self.value
    }

    /// Wraps a value for which the empty-first-commit check was made,
    /// succeeding exactly when the check held and carrying the value
    /// through either way.
    pub fn new(value: T, has_empty_first_commit: bool) -> (r: Result<
        WithEmptyFirstCommit<T>,
        WithoutEmptyFirstCommit<T>,
    >)
        ensures
            match r {
                Ok(w) => has_empty_first_commit && w.spec_value() == value,
                Err(w) => !has_empty_first_commit && w.spec_value() == value,
            },
    {
        if has_empty_first_commit {
            Ok(WithEmptyFirstCommit { value })
        } else {
            Err(WithoutEmptyFirstCommit { value })
        }
    }

    pub fn value(&self) -> (r: &T)
        ensures
            *r == self.spec_value(),
    {
        &self.value
    }
}

impl<T> WithoutEmptyFirstCommit<T> {
    /// The wrapped value.
    pub closed spec fn spec_value(self) -> T {
        self.value
    }

    pub fn value(&self) -> (r: &T)
        ensures
            *r == self.spec_value(),
    {
        &self.value
    }
}

impl<T> WithEmptyFirstCommitLike<T> for WithEmptyFirstCommit<T> {
    fn to_own(self) -> WithEmptyFirstCommit<T> {
        self
    }

    fn to_ref(&self) -> &WithEmptyFirstCommit<T> {
        self
    }
}

impl<T: Strip> Strip for WithEmptyFirstCommit<T> {
    type Output = <T as Strip>::Output;

    fn strip(self) -> Self::Output {
        self.value.strip()
    }
}

} // verus!
