//! The watched repository: a `host/author/name` identifier and a branch turned
//! into the commit-lookup endpoint of the hosting API and a clone address.

use vstd::prelude::*;
use vstd::string::{StrSliceExecFns, StringExecFns};
use crate::text::{contains_char, lemma_split_join, lemma_split_without_sep, same_text, split, split_on, views};

verus! {

/// Why a repository identifier was rejected.
#[derive(Debug, Clone, Copy, PartialEq, Eq, Structural)]
pub enum RepositoryError {
    /// Not exactly three `/`-separated pieces, or an empty author or name.
    InvalidRepositoryUrl,
    /// The host is not the supported hosting service.
    InvalidRepositoryDomain,
    /// The branch is empty.
    MissingBranch,
}

/// A validated repository reference.
pub struct RepositoryInfo<'a> {
    /// The commit-lookup endpoint of the hosting API for the watched branch.
    pub url: String,
    pub author: &'a str,
    pub name: &'a str,
}

/// The one hosting service that is supported.
pub open spec fn expected_host() -> Seq<char> {
    "github.com"@
}

/// The commit-lookup endpoint for `author/name` at `branch` on `host`.
pub open spec fn api_url(host: Seq<char>, author: Seq<char>, name: Seq<char>, branch: Seq<char>) -> Seq<char> {
    "https://api."@ + host + "/repos/"@ + author + "/"@ + name + "/commits/"@ + branch
}

/// What a repository identifier and a branch stand for: the endpoint, the
/// author and the name, or the reason they are rejected.
pub open spec fn reference(repo: Seq<char>, branch: Seq<char>) -> Result<
    (Seq<char>, Seq<char>, Seq<char>),
    RepositoryError,
> {
    let parts = split(repo, '/');
    if parts.len() != 3 {
        Err(RepositoryError::InvalidRepositoryUrl)
    } else if parts[0] != expected_host() {
        Err(RepositoryError::InvalidRepositoryDomain)
    } else if parts[1].len() == 0 || parts[2].len() == 0 {
        Err(RepositoryError::InvalidRepositoryUrl)
    } else if branch.len() == 0 {
        Err(RepositoryError::MissingBranch)
    } else {
        Ok((api_url(parts[0], parts[1], parts[2], branch), parts[1], parts[2]))
    }
}

/// The identifier `host/author/name`.
pub open spec fn identifier(host: Seq<char>, author: Seq<char>, name: Seq<char>) -> Seq<char> {
    host + seq!['/'] + author + seq!['/'] + name
}

/// Turns `github.com/author/name` and a branch into the repository's
/// commit-lookup endpoint, keeping the author and name.
pub fn url_fmt<'a>(url: &'a str, branch: &'a str) -> (r: Result<RepositoryInfo<'a>, RepositoryError>)
    ensures
        match r {
            Ok(info) => reference(url@, branch@) == Ok::<
                (Seq<char>, Seq<char>, Seq<char>),
                RepositoryError,
            >((info.url@, info.author@, info.name@)),
            Err(e) => reference(url@, branch@) == Err::<
                (Seq<char>, Seq<char>, Seq<char>),
                RepositoryError,
            >(e),
        },
{
    let list = split_on(url, '/');
    if list.len() != 3 {
        return Err(RepositoryError::InvalidRepositoryUrl);
    }
    let domain = list[0];
    let author = list[1];
    let repository = list[2];
    assert(views(list@)[0] == domain@ && views(list@)[1] == author@ && views(list@)[2] == repository@);
    if !same_text(domain, "github.com") {
        return Err(RepositoryError::InvalidRepositoryDomain);
    }
    if author.unicode_len() == 0 || repository.unicode_len() == 0 {
        return Err(RepositoryError::InvalidRepositoryUrl);
    }
    if branch.unicode_len() == 0 {
        return Err(RepositoryError::MissingBranch);
    }
    let mut api = String::from_str("https://api.");
    api.append(domain);
    api.append("/repos/");
    api.append(author);
    api.append("/");
    api.append(repository);
    api.append("/commits/");
    api.append(branch);
    Ok(RepositoryInfo { url: api, author, name: repository })
}

impl<'a> RepositoryInfo<'a> {
    /// The address the repository is cloned from.
    pub open spec fn clone_url_spec(&self) -> Seq<char> {
        "https://"@ + expected_host() + "/"@ + self.author@ + "/"@ + self.name@ + ".git"@
    }

    /// Returns `https://github.com/<author>/<name>.git`.
    pub fn clone_url(&self) -> (r: String)
        ensures
            r@ == self.clone_url_spec(),
    {
        let mut u = String::from_str("https://");
        u.append("github.com");
        u.append("/");
        u.append(self.author);
        u.append("/");
        u.append(self.name);
        u.append(".git");
        u
    }
}

/// For every author and name without `/` and every branch, all non-empty,
/// the identifier `github.com/author/name` is accepted, and the endpoint is
/// `https://api.github.com/repos/<author>/<name>/commits/<branch>`.
pub proof fn law_valid_reference(author: Seq<char>, name: Seq<char>, branch: Seq<char>)
    requires
        author.len() > 0,
        name.len() > 0,
        branch.len() > 0,
        !contains_char(author, '/'),
        !contains_char(name, '/'),
    ensures
        reference(identifier(expected_host(), author, name), branch) == Ok::<
            (Seq<char>, Seq<char>, Seq<char>),
            RepositoryError,
        >((api_url(expected_host(), author, name, branch), author, name)),
{
    let host = expected_host();
    reveal_strlit("github.com");
    assert(!contains_char(host, '/')) by {
        if contains_char(host, '/') {
            let i = choose|i: int| 0 <= i < host.len() && host[i] == '/';
            assert(host[i] == '/');
        }
    }
    lemma_split_without_sep(host, '/');
    lemma_split_join(host, author, '/');
    lemma_split_join(host + seq!['/'] + author, name, '/');
    assert(split(identifier(host, author, name), '/') =~= seq![host, author, name]);
}

/// Every rejection comes with its reason, and nothing is built: a piece count
/// other than three or an empty author or name is an invalid identifier, a
/// host other than `github.com` an invalid domain, an empty branch a missing
/// branch.
pub proof fn law_rejected_reference(repo: Seq<char>, branch: Seq<char>)
    ensures
        split(repo, '/').len() != 3 ==> reference(repo, branch) == Err::<
            (Seq<char>, Seq<char>, Seq<char>),
            RepositoryError,
        >(RepositoryError::InvalidRepositoryUrl),
        split(repo, '/').len() == 3 && split(repo, '/')[0] != expected_host() ==> reference(repo, branch)
            == Err::<(Seq<char>, Seq<char>, Seq<char>), RepositoryError>(
            RepositoryError::InvalidRepositoryDomain,
        ),
        split(repo, '/').len() == 3 && split(repo, '/')[0] == expected_host() && (split(repo, '/')[1].len()
            == 0 || split(repo, '/')[2].len() == 0) ==> reference(repo, branch) == Err::<
            (Seq<char>, Seq<char>, Seq<char>),
            RepositoryError,
        >(RepositoryError::InvalidRepositoryUrl),
        split(repo, '/').len() == 3 && split(repo, '/')[0] == expected_host() && split(repo, '/')[1].len() > 0
            && split(repo, '/')[2].len() > 0 && branch.len() == 0 ==> reference(repo, branch) == Err::<
            (Seq<char>, Seq<char>, Seq<char>),
            RepositoryError,
        >(RepositoryError::MissingBranch),
{
}

} // verus!
