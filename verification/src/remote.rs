//! Git remotes: parsing `name<whitespace>url` records, and discovery of the
//! remotes this tool manages — those whose name carries the recognized
//! `repoconf` prefix, marking them as template-tracking remotes.

use vstd::prelude::*;
use vstd::string::StringExecFns;
use vstd::string::StrSliceExecFns;
use crate::text::spec_starts_with;
use crate::text::str_starts_with;

verus! {

/// A configured git remote: a non-empty name and a non-empty URL.
#[derive(Clone, Debug)]
pub struct GitRemote {
    pub name: String,
    pub url: String,
}

pub struct GitRemoteView {
    pub name: Seq<char>,
    pub url: Seq<char>,
}

impl View for GitRemote {
    type V = GitRemoteView;

    open spec fn view(&self) -> GitRemoteView {
        GitRemoteView { name: self.name@, url: self.url@ }
    }
}

/// A remote record could not be parsed: a field is missing.
#[derive(PartialEq, Eq, Clone, Copy, Debug)]
pub enum TryFromStrForGitRemoteError {
    NameNotFound,
    UrlNotFound,
}

/// The whitespace characters that delimit fields of a remote record.
pub open spec fn is_ws(c: char) -> bool {
    c == ' ' || c == '\t' || c == '\n' || c == '\r'
}

/// Index of the first non-whitespace character at or after `i`, or the
/// length of `s`.
pub open spec fn skip_ws_from(s: Seq<char>, i: int) -> int
    decreases s.len() - i,
{
    if !(0 <= i < s.len()) {
        s.len() as int
    } else if is_ws(s[i]) {
        skip_ws_from(s, i + 1)
    } else {
        i
    }
}

/// Index of the first whitespace character at or after `i`, or the length
/// of `s`.
pub open spec fn token_end_from(s: Seq<char>, i: int) -> int
    decreases s.len() - i,
{
    if !(0 <= i < s.len()) {
        s.len() as int
    } else if is_ws(s[i]) {
        i
    } else {
        token_end_from(s, i + 1)
    }
}

pub proof fn lemma_skip_ws_from(s: Seq<char>, i: int)
    requires
        0 <= i <= s.len(),
    ensures
        i <= skip_ws_from(s, i) <= s.len(),
        skip_ws_from(s, i) < s.len() ==> !is_ws(s[skip_ws_from(s, i)]),
        forall|j: int| i <= j < skip_ws_from(s, i) ==> is_ws(s[j]),
    decreases s.len() - i,
{
    if i < s.len() && is_ws(s[i]) {
        lemma_skip_ws_from(s, i + 1);
    }
}

pub proof fn lemma_token_end_from(s: Seq<char>, i: int)
    requires
        0 <= i <= s.len(),
    ensures
        i <= token_end_from(s, i) <= s.len(),
        token_end_from(s, i) < s.len() ==> is_ws(s[token_end_from(s, i)]),
        forall|j: int| i <= j < token_end_from(s, i) ==> !is_ws(s[j]),
        i < s.len() && !is_ws(s[i]) ==> token_end_from(s, i) > i,
    decreases s.len() - i,
{
    if i < s.len() && !is_ws(s[i]) {
        lemma_token_end_from(s, i + 1);
    }
}

/// The result of parsing a remote record: the first two whitespace-delimited
/// fields of `s` as name and URL, or the error naming the missing field.
pub open spec fn spec_parse_remote(s: Seq<char>) -> Result<
    GitRemoteView,
    TryFromStrForGitRemoteError,
> {
    let a = skip_ws_from(s, 0);
    if a >= s.len() {
        Err(TryFromStrForGitRemoteError::NameNotFound)
    } else {
        let b = token_end_from(s, a);
        let c = skip_ws_from(s, b);
        if c >= s.len() {
            Err(TryFromStrForGitRemoteError::UrlNotFound)
        } else {
            let d = token_end_from(s, c);
            Ok(GitRemoteView { name: s.subrange(a, b), url: s.subrange(c, d) })
        }
    }
}

fn exec_is_ws(c: char) -> (b: bool)
    ensures
        b == is_ws(c),
{
    c == ' ' || c == '\t' || c == '\n' || c == '\r'
}

fn exec_skip_ws(s: &str, from: usize) -> (r: usize)
    requires
        from <= s@.len(),
    ensures
        r == skip_ws_from(s@, from as int),
        from <= r <= s@.len(),
{
    let n = s.unicode_len();
    let mut j = from;
    while j < n
        invariant
            from <= j <= n,
            n == s@.len(),
            skip_ws_from(s@, from as int) == skip_ws_from(s@, j as int),
        decreases n - j,
    {
        if !exec_is_ws(s.get_char(j)) {
            return j;
        }
        j = j + 1;
    }
    j
}

fn exec_token_end(s: &str, from: usize) -> (r: usize)
    requires
        from <= s@.len(),
    ensures
        r == token_end_from(s@, from as int),
        from <= r <= s@.len(),
{
    let n = s.unicode_len();
    let mut j = from;
    while j < n
        invariant
            from <= j <= n,
            n == s@.len(),
            token_end_from(s@, from as int) == token_end_from(s@, j as int),
        decreases n - j,
    {
        if exec_is_ws(s.get_char(j)) {
            return j;
        }
        j = j + 1;
    }
    j
}

impl GitRemote {
    /// Parses one record of `git remote -v` output: the name and the URL are
    /// the first two whitespace-delimited fields, both necessarily
    /// non-empty; a record missing either field is a parse failure naming
    /// the missing field.
    pub fn parse(value: &str) -> (r: Result<GitRemote, TryFromStrForGitRemoteError>)
        ensures
            match r {
                Ok(remote) => spec_parse_remote(value@) == Ok::<
                    GitRemoteView,
                    TryFromStrForGitRemoteError,
                >(remote@) && remote.name@.len() > 0 && remote.url@.len() > 0,
                Err(e) => spec_parse_remote(value@) == Err::<
                    GitRemoteView,
                    TryFromStrForGitRemoteError,
                >(e),
            },
    {
        let n = s_len(value);
        let a = exec_skip_ws(value, 0);
        if a >= n {
            return Err(TryFromStrForGitRemoteError::NameNotFound);
        }
        let b = exec_token_end(value, a);
        proof {
            lemma_skip_ws_from(value@, 0);
            lemma_token_end_from(value@, a as int);
        }
        let name = value.substring_char(a, b).to_owned();
        let c = exec_skip_ws(value, b);
        if c >= n {
            return Err(TryFromStrForGitRemoteError::UrlNotFound);
        }
        let d = exec_token_end(value, c);
        proof {
            lemma_skip_ws_from(value@, b as int);
            lemma_token_end_from(value@, c as int);
        }
        let url = value.substring_char(c, d).to_owned();
        Ok(GitRemote { name, url })
    }
}

fn s_len(s: &str) -> (n: usize)
    ensures
        n == s@.len(),
{
    s.unicode_len()
}

/// The naming prefix that marks a remote as managed by this tool.
pub open spec fn managed_prefix() -> Seq<char> {
    "repoconf"@
}

/// A remote name carries the recognized prefix, so the tool manages it.
pub open spec fn spec_is_managed(name: Seq<char>) -> bool {
    spec_starts_with(name, managed_prefix())
}

/// The managed subset of a list of remote names, in the order listed.
pub open spec fn spec_managed(names: Seq<Seq<char>>) -> Seq<Seq<char>>
    decreases names.len(),
{
    if names.len() == 0 {
        names
    } else {
        let rest = spec_managed(names.drop_last());
        if spec_is_managed(names.last()) {
            rest.push(names.last())
        } else {
            rest
        }
    }
}

/// Whether this remote name is one the tool manages.
pub fn is_managed_remote_name(name: &str) -> (b: bool)
    ensures
        b == spec_is_managed(name@),
{
    str_starts_with(name, "repoconf")
}

/// Retains the managed remotes of a list of remote names, keeping their
/// order; unmanaged remotes (`origin`, fork remotes) are never included.
pub fn managed_remotes(names: Vec<String>) -> (r: Vec<String>)
    ensures
        r.deep_view() == spec_managed(names.deep_view()),
{
    let mut r: Vec<String> = Vec::new();
    let mut i: usize = 0;
    while i < names.len()
        invariant
            i <= names.len(),
            r.deep_view() == spec_managed(names.deep_view().take(i as int)),
        decreases names.len() - i,
    {
        let ghost prev = r.deep_view();
        let ghost taken = names.deep_view().take(i as int);
        if is_managed_remote_name(names[i].as_str()) {
            let name = names[i].clone();
            r.push(name);
            proof {
                assert(r.deep_view() =~~= prev.push(names.deep_view()[i as int]));
            }
        }
        i = i + 1;
        proof {
            let taken_next = names.deep_view().take(i as int);
            assert(taken_next.drop_last() =~~= taken);
            assert(taken_next.last() == names.deep_view()[i - 1]);
        }
    }
    proof {
        assert(names.deep_view().take(names@.len() as int) =~~= names.deep_view());
    }
    r
}

/// Whether any remote in the list is managed by this tool.
pub fn has_repoconf_remotes(names: &Vec<String>) -> (b: bool)
    ensures
        b == (spec_managed(names.deep_view()).len() > 0),
{
    let mut i: usize = 0;
    while i < names.len()
        invariant
            i <= names.len(),
            spec_managed(names.deep_view().take(i as int)).len() == 0,
        decreases names.len() - i,
    {
        let ghost taken = names.deep_view().take(i as int);
        if is_managed_remote_name(names[i].as_str()) {
            proof {
                lemma_managed_grows(names.deep_view(), i as int);
            }
            return true;
        }
        i = i + 1;
        proof {
            let taken_next = names.deep_view().take(i as int);
            assert(taken_next.drop_last() =~~= taken);
            assert(taken_next.last() == names.deep_view()[i - 1]);
        }
    }
    proof {
        assert(names.deep_view().take(names@.len() as int) =~~= names.deep_view());
    }
    false
}

proof fn lemma_managed_grows(names: Seq<Seq<char>>, i: int)
    requires
        0 <= i < names.len(),
        spec_is_managed(names[i]),
    ensures
        spec_managed(names).len() > 0,
    decreases names.len(),
{
    if i == names.len() - 1 {
    } else {
        lemma_managed_grows(names.drop_last(), i);
    }
}

/// Discovery never includes unmanaged remotes: every name the managed
/// filter keeps carries the recognized prefix and was among the listed
/// names.
pub proof fn lemma_managed_names_are_managed(names: Seq<Seq<char>>)
    ensures
        forall|i: int|
            0 <= i < spec_managed(names).len() ==> spec_is_managed(
                #[trigger] spec_managed(names)[i],
            ) && names.contains(spec_managed(names)[i]),
    decreases names.len(),
{
    if names.len() > 0 {
        lemma_managed_names_are_managed(names.drop_last());
        assert forall|i: int| 0 <= i < spec_managed(names).len() implies spec_is_managed(
            #[trigger] spec_managed(names)[i],
        ) && names.contains(spec_managed(names)[i]) by {
            let rest = spec_managed(names.drop_last());
            if i < rest.len() {
                assert(spec_managed(names)[i] == rest[i]);
                let j = choose|j: int|
                    0 <= j < names.drop_last().len() && names.drop_last()[j] == rest[i];
                assert(names[j] == rest[i]);
            } else {
                assert(spec_managed(names)[i] == names.last());
            }
        }
    }
}

/// The name this tool gives a template-tracking remote: the recognized
/// prefix, a dash, and the template's own name.
pub fn managed_remote_name(template_name: &str) -> (r: String)
    ensures
        r@ == managed_prefix() + "-"@ + template_name@,
{
    let r = String::from_str("repoconf").concat("-").concat(template_name);
    proof {
        assert(r@ =~= managed_prefix() + "-"@ + template_name@);
    }
    r
}

/// A remote named by `managed_remote_name` is always recognized as managed:
/// remotes this tool adds are the ones its discovery finds again.
pub proof fn lemma_managed_remote_name_is_managed(template_name: Seq<char>)
    ensures
        spec_is_managed(managed_prefix() + "-"@ + template_name),
{
    let name = managed_prefix() + "-"@ + template_name;
    assert(name.subrange(0, managed_prefix().len() as int) =~= managed_prefix());
}

/// Whether any of the configured remotes already points at `url`.
pub fn any_remote_has_url(remotes: &Vec<GitRemote>, url: &str) -> (b: bool)
    ensures
        b == exists|i: int| 0 <= i < remotes@.len() && remotes@[i].url@ == url@,
{
    let url_owned = url.to_owned();
    let mut i: usize = 0;
    while i < remotes.len()
        invariant
            i <= remotes.len(),
            url_owned@ == url@,
            forall|j: int| 0 <= j < i ==> remotes@[j].url@ != url@,
        decreases remotes.len() - i,
    {
        if remotes[i].url.eq(&url_owned) {
            assert(remotes@[i as int].url@ == url@);
            return true;
        }
        i = i + 1;
    }
    false
}

} // verus!
