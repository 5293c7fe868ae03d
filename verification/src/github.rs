//! The GitHub side: repositories, request URLs, the error type of API calls
//! and the records that the API hands back.
use vstd::prelude::*;
use crate::call::{ApiCall, CallPhase};
use crate::text::{decimal, push_decimal, str_equal, u64_to_decimal};

verus! {

/// A GitHub repository, named by its owner and its name.
#[derive(Debug, Clone)]
pub struct Repository {
    pub owner: String,
    pub name: String,
}

impl Default for Repository {
    /// The repository that the tracker watches unless told otherwise:
    /// `nixos/nixpkgs`.
    fn default() -> (repo: Self)
        ensures
            repo.owner@ == "nixos"@,
            repo.name@ == "nixpkgs"@,
    {
        Repository { owner: String::from_str("nixos"), name: String::from_str("nixpkgs") }
    }
}

/// The repository a call speaks of: the one given, else `nixos/nixpkgs`.
pub open spec fn repo_owner(repo: Option<&Repository>) -> Seq<char> {
    match repo {
        Some(r) => r.owner@,
        None => "nixos"@,
    }
}

/// The name of the repository a call speaks of.
pub open spec fn repo_name(repo: Option<&Repository>) -> Seq<char> {
    match repo {
        Some(r) => r.name@,
        None => "nixpkgs"@,
    }
}

/// `https://api.github.com/repos/{owner}/{name}`
pub open spec fn repo_api_base(repo: Option<&Repository>) -> Seq<char> {
    "https://api.github.com/repos/"@ + repo_owner(repo) + "/"@ + repo_name(repo)
}

/// The address of a pull request in the GitHub API.
pub open spec fn pr_url_spec(pr: u64, repo: Option<&Repository>) -> Seq<char> {
    repo_api_base(repo) + "/pulls/"@ + decimal(pr as nat)
}

/// The address of the comparison of `branch` with `commit_hash`.
pub open spec fn compare_url_spec(branch: Seq<char>, commit_hash: Seq<char>, repo: Option<&Repository>) -> Seq<char> {
    repo_api_base(repo) + "/compare/"@ + branch + "..."@ + commit_hash
}

fn api_base(repo: Option<&Repository>) -> (url: String)
    ensures
        url@ == repo_api_base(repo),
{
    let default_repo = Repository::default();
    let repo = match repo {
        Some(r) => r,
        None => &default_repo,
    };
    let mut url = String::from_str("https://api.github.com/repos/");
    url.append(repo.owner.as_str());
    url.append("/");
    url.append(repo.name.as_str());
    url
}

/// The API address of pull request `pr` of `repo` (of `nixos/nixpkgs` when no
/// repository is given).
pub fn pr_url(pr: u64, repo: Option<&Repository>) -> (url: String)
    ensures
        url@ == pr_url_spec(pr, repo),
{
    let mut url = api_base(repo);
    url.append("/pulls/");
    push_decimal(&mut url, pr);
    url
}

/// The API address that compares `branch` with `commit_hash` in `repo` (in
/// `nixos/nixpkgs` when no repository is given).
pub fn compare_url(branch: &str, commit_hash: &str, repo: Option<&Repository>) -> (url: String)
    ensures
        url@ == compare_url_spec(branch@, commit_hash@, repo),
{
    let mut url = api_base(repo);
    url.append("/compare/");
    url.append(branch);
    url.append("...");
    url.append(commit_hash);
    url
}

/// The address that reports the caller's remaining API quota.
pub fn rate_limit_url() -> (url: String)
    ensures
        url@ == "https://api.github.com/rate_limit"@,
{
    String::from_str("https://api.github.com/rate_limit")
}

/// The `Authorization` header value for an API key: present only when the
/// key is set and not empty.
pub open spec fn authorization_spec(api_key: Option<Seq<char>>) -> Option<Seq<char>> {
    match api_key {
        Some(k) => if k.len() > 0 { Some("Bearer "@ + k) } else { None },
        None => None,
    }
}

/// The `Authorization` header that a request carries, given the API key that
/// the environment holds, if any.
pub fn authorization_value(api_key: Option<&str>) -> (header: Option<String>)
    ensures
        match header {
            Some(h) => authorization_spec(opt_str_view(api_key)) == Some(h@),
            None => authorization_spec(opt_str_view(api_key)) is None,
        },
{
    match api_key {
        Some(k) => {
            if k.unicode_len() > 0 {
                let mut h = String::from_str("Bearer ");
                h.append(k);
                Some(h)
            } else {
                None
            }
        },
        None => None,
    }
}

/// The characters of an optional string.
pub open spec fn opt_str_view(s: Option<&str>) -> Option<Seq<char>> {
    match s {
        Some(v) => Some(v@),
        None => None,
    }
}

/// The characters of an optional owned string.
pub open spec fn opt_string_view(s: Option<String>) -> Option<Seq<char>> {
    match s {
        Some(v) => Some(v@),
        None => None,
    }
}


/// Why a GitHub API call failed.
#[derive(Debug)]
pub enum GithubError {
    /// The request could not be sent, or its answer could not be read or
    /// decoded; the transport's own description of the failure.
    RequestFailed(String),
    /// GitHub refused the request for the caller's quota (403 or 429).
    RateLimitExceeded,
    /// GitHub answered with another status than 200, and this body.
    ApiError { status: u16, message: String },
    /// A record could not be serialized; the serializer's description.
    SerializationError(String),
}

/// The reason phrase that `http` (re-exported by reqwest as `StatusCode`)
/// registers for a status code, such as `Not Found` for 404; `None` for a
/// code that it has no phrase for or does not accept as a status.
pub uninterp spec fn status_canonical_reason(code: u16) -> Option<Seq<char>>;

/// Calls `reqwest::StatusCode::from_u16` and then `canonical_reason` on the
/// status. The phrase is believed to be `status_canonical_reason(code)`, and
/// `None` where `from_u16` rejects the code.
#[verifier::external_body]
fn canonical_reason(code: u16) -> (reason: Option<String>)
    ensures
        opt_string_view(reason) == status_canonical_reason(code),
{
    match reqwest::StatusCode::from_u16(code) {
        Ok(status) => match status.canonical_reason() {
            Some(phrase) => Some(phrase.to_string()),
            None => None,
        },
        Err(_) => None,
    }
}

/// A status line: the code's number, a space, and the reason phrase, or
/// `<unknown status code>` when there is none.
pub open spec fn status_line_spec(code: u16, reason: Option<Seq<char>>) -> Seq<char> {
    decimal(code as nat) + " "@ + match reason {
        Some(r) => r,
        None => "<unknown status code>"@,
    }
}

/// How a status code is displayed: `404 Not Found`, with the phrase that
/// `http` registers for the code.
pub open spec fn status_text(code: u16) -> Seq<char> {
    status_line_spec(code, status_canonical_reason(code))
}

/// The human-readable description of an error.
pub open spec fn error_text(e: GithubError) -> Seq<char> {
    match e {
        GithubError::RequestFailed(m) => "API request failed: "@ + m@,
        GithubError::RateLimitExceeded => "Rate limit exceeded"@,
        GithubError::ApiError { status, message } => "API returned error: "@ + status_text(status)
            + " - "@ + message@,
        GithubError::SerializationError(m) => "Serialization error: "@ + m@,
    }
}

/// Writes the status line of `code` with the reason phrase `reason`.
pub fn status_line(code: u16, reason: Option<&str>) -> (s: String)
    ensures
        s@ == status_line_spec(code, opt_str_view(reason)),
{
    let mut s = u64_to_decimal(code as u64);
    s.append(" ");
    match reason {
        Some(r) => s.append(r),
        None => s.append("<unknown status code>"),
    }
    s
}

/// The displayed form of a status code.
pub fn status_display(code: u16) -> (s: String)
    ensures
        s@ == status_text(code),
{
    let reason = canonical_reason(code);
    match reason {
        Some(r) => status_line(code, Some(r.as_str())),
        None => status_line(code, None),
    }
}

impl GithubError {
    /// The description of the error, as it is shown to users.
    pub fn to_string(&self) -> (s: String)
        ensures
            s@ == error_text(*self),
    {
        match self {
            GithubError::RequestFailed(m) => {
                let mut s = String::from_str("API request failed: ");
                s.append(m.as_str());
                s
            },
            GithubError::RateLimitExceeded => String::from_str("Rate limit exceeded"),
            GithubError::ApiError { status, message } => {
                let mut s = String::from_str("API returned error: ");
                let st = status_display(*status);
                s.append(st.as_str());
                s.append(" - ");
                s.append(message.as_str());
                s
            },
            GithubError::SerializationError(m) => {
                let mut s = String::from_str("Serialization error: ");
                s.append(m.as_str());
                s
            },
        }
    }

    /// The underlying failure's description, for the variants that wrap one.
    pub fn source(&self) -> (src: Option<&String>)
        ensures
            match *self {
                GithubError::RequestFailed(m) => src == Some(&m),
                GithubError::SerializationError(m) => src == Some(&m),
                _ => src is None,
            },
    {
        match self {
            GithubError::RequestFailed(m) => Some(m),
            GithubError::SerializationError(m) => Some(m),
            _ => None,
        }
    }
}

/// A pull request as the API describes it.
#[derive(Debug)]
pub struct PrInfo {
    pub title: String,
    pub id: u64,
    pub state: String,
    pub merged: bool,
    pub merge_commit_sha: Option<String>,
}

/// The outcome of comparing a branch with a commit.
#[derive(Debug)]
pub struct PrCompare {
    pub status: String,
}

/// A comparison status under which the commit is part of the branch: the
/// commit is behind the branch head, or is the head itself.
pub open spec fn status_means_included(status: Seq<char>) -> bool {
    status == "behind"@ || status == "identical"@
}

/// Whether the compared commit has reached the branch.
pub fn commit_in_branch(compare: &PrCompare) -> (included: bool)
    ensures
        included == status_means_included(compare.status@),
{
    str_equal(compare.status.as_str(), "behind") || str_equal(compare.status.as_str(), "identical")
}

/// The call that fetches pull request `pr` of `repo` (of `nixos/nixpkgs`
/// when no repository is given), made with the environment's API key if one
/// is set. The caller runs it, decoding its body as a `PrInfo`.
pub fn get_pr_info(pr: u64, repo: Option<&Repository>, api_key: Option<String>) -> (call: ApiCall)
    ensures
        call.url@ == pr_url_spec(pr, repo),
        call.api_key == api_key,
        call.phase == CallPhase::Start,
{
    ApiCall::new(pr_url(pr, repo), api_key)
}

/// The call that compares `branch` with `commit_hash` in `repo` (in
/// `nixos/nixpkgs` when no repository is given). The caller runs it, decoding
/// its body as a `PrCompare`, and reads the outcome with `branch_contains`.
pub fn compare_branches_api(
    branch: &str,
    commit_hash: &str,
    repo: Option<&Repository>,
    api_key: Option<String>,
) -> (call: ApiCall)
    ensures
        call.url@ == compare_url_spec(branch@, commit_hash@, repo),
        call.api_key == api_key,
        call.phase == CallPhase::Start,
{
    ApiCall::new(compare_url(branch, commit_hash, repo), api_key)
}

/// Whether a branch holds the commit, from the outcome of their comparison:
/// the failure of the comparison, or whether its status means inclusion.
pub fn branch_contains(outcome: Result<PrCompare, GithubError>) -> (r: Result<bool, GithubError>)
    ensures
        match outcome {
            Ok(c) => r == Ok::<bool, GithubError>(status_means_included(c.status@)),
            Err(e) => r == Err::<bool, GithubError>(e),
        },
{
    match outcome {
        Ok(c) => Ok(commit_in_branch(&c)),
        Err(e) => Err(e),
    }
}

} // verus!
