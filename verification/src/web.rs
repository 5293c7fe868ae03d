//! What the pull request page shows: the decisions of the web handler, from
//! the pull request's record and the branch checks to the page's content.
use vstd::prelude::*;
use crate::github::{error_text, GithubError, PrInfo, Repository};
use crate::text::str_equal;

verus! {

/// The content of the pull request page.
#[derive(Debug)]
pub struct PullRequest {
    pub pr_title: String,
    pub error: String,
    pub failed: bool,
    pub closed: bool,
    pub branches: Vec<String>,
    pub merged_into: Vec<bool>,
}

/// The page's content as plain values.
pub struct PageView {
    pub pr_title: Seq<char>,
    pub error: Seq<char>,
    pub failed: bool,
    pub closed: bool,
    pub branches: Seq<Seq<char>>,
    pub merged_into: Seq<bool>,
}

/// The characters of each string of a sequence.
pub open spec fn strings_view(v: Seq<String>) -> Seq<Seq<char>> {
    v.map_values(|s: String| s@)
}

impl View for PullRequest {
    type V = PageView;

    open spec fn view(&self) -> PageView {
        PageView {
            pr_title: self.pr_title@,
            error: self.error@,
            failed: self.failed,
            closed: self.closed,
            branches: strings_view(self.branches@),
            merged_into: self.merged_into@,
        }
    }
}

/// The page that reports a failure: its title and message, and no branches.
pub open spec fn error_page_view(title: Seq<char>, message: Seq<char>) -> PageView {
    PageView {
        pr_title: title,
        error: message,
        failed: true,
        closed: false,
        branches: Seq::empty(),
        merged_into: Seq::empty(),
    }
}

/// The page of a pull request that was closed without being merged.
pub open spec fn closed_page_view(title: Seq<char>) -> PageView {
    PageView {
        pr_title: title,
        error: Seq::empty(),
        failed: false,
        closed: true,
        branches: Seq::empty(),
        merged_into: Seq::empty(),
    }
}

/// The page that lists, for each branch, whether the pull request has
/// reached it.
pub open spec fn branches_page_view(title: Seq<char>, branches: Seq<Seq<char>>, merged_into: Seq<bool>) -> PageView {
    PageView {
        pr_title: title,
        error: Seq::empty(),
        failed: false,
        closed: false,
        branches,
        merged_into,
    }
}

/// The branches that a merged pull request is looked for in, in the order
/// the page lists them.
pub open spec fn default_branch_names() -> Seq<Seq<char>> {
    seq![
        "master"@,
        "nixpkgs-unstable"@,
        "nixos-unstable-small"@,
        "nixos-unstable"@,
        "nixos-24.11-small"@,
        "nixos-24.11"@,
    ]
}

/// The branches to check, in order.
pub fn default_branches() -> (branches: Vec<String>)
    ensures
        strings_view(branches@) == default_branch_names(),
{
    let mut branches: Vec<String> = Vec::new();
    branches.push(String::from_str("master"));
    branches.push(String::from_str("nixpkgs-unstable"));
    branches.push(String::from_str("nixos-unstable-small"));
    branches.push(String::from_str("nixos-unstable"));
    branches.push(String::from_str("nixos-24.11-small"));
    branches.push(String::from_str("nixos-24.11"));
    assert(strings_view(branches@) =~= default_branch_names());
    branches
}

/// The page that reports a failure under `title`.
pub fn error_page(title: &str, message: &str) -> (page: PullRequest)
    ensures
        page@ == error_page_view(title@, message@),
{
    let page = PullRequest {
        pr_title: String::from_str(title),
        failed: true,
        closed: false,
        error: String::from_str(message),
        branches: Vec::new(),
        merged_into: Vec::new(),
    };
    assert(strings_view(page.branches@) =~= Seq::<Seq<char>>::empty());
    page
}

/// What the handler does once the pull request's record is in: show a page
/// at once, or check the listed branches for the merge commit first.
#[derive(Debug)]
pub enum PrDecision {
    Show(PullRequest),
    CheckBranches { pr_title: String, merge_commit_sha: String, branches: Vec<String>, repo: Repository },
}

/// Whether `repo` is `nixos/nixpkgs`, the repository that the page tracks.
pub open spec fn is_nixpkgs(repo: Repository) -> bool {
    repo.owner@ == "nixos"@ && repo.name@ == "nixpkgs"@
}

/// The repository whose pull requests the page looks up, and in which it
/// checks the branches: `nixos/nixpkgs`.
pub fn page_repository() -> (repo: Repository)
    ensures
        is_nixpkgs(repo),
{
    Repository::default()
}

/// The handler's decision on the outcome of fetching the pull request:
/// an error page when the fetch failed; the closed page when the pull request
/// was closed unmerged; an error page when no merge commit is known; else the
/// check of the default branches of `nixos/nixpkgs` for the merge commit.
pub open spec fn pr_decision_spec(info: Result<PrInfo, GithubError>, d: PrDecision) -> bool {
    match info {
        Err(e) => d matches PrDecision::Show(p) && p@ == error_page_view("Error Retrieving PR"@, error_text(e)),
        Ok(pr) => if !pr.merged && pr.state@ == "closed"@ {
            d matches PrDecision::Show(p) && p@ == closed_page_view(pr.title@)
        } else {
            match pr.merge_commit_sha {
                None => d matches PrDecision::Show(p) && p@ == error_page_view(
                    "Invalid PR Data"@,
                    "PR is marked as merged but has no merge commit SHA"@,
                ),
                Some(sha) => {
                    &&& d matches PrDecision::CheckBranches { pr_title, merge_commit_sha, branches, repo }
                    &&& pr_title@ == pr.title@
                    &&& merge_commit_sha@ == sha@
                    &&& strings_view(branches@) == default_branch_names()
                    &&& is_nixpkgs(repo)
                },
            }
        },
    }
}

/// Decides what follows the fetch of a pull request.
pub fn decide_on_pr_info(info: Result<PrInfo, GithubError>) -> (d: PrDecision)
    ensures
        pr_decision_spec(info, d),
{
    match info {
        Err(e) => {
            let message = e.to_string();
            PrDecision::Show(error_page("Error Retrieving PR", message.as_str()))
        },
        Ok(pr) => {
            if !pr.merged && str_equal(pr.state.as_str(), "closed") {
                let page = PullRequest {
                    pr_title: pr.title,
                    failed: false,
                    closed: true,
                    error: String::new(),
                    branches: Vec::new(),
                    merged_into: Vec::new(),
                };
                assert(strings_view(page.branches@) =~= Seq::<Seq<char>>::empty());
                PrDecision::Show(page)
            } else {
                match pr.merge_commit_sha {
                    None => PrDecision::Show(error_page(
                        "Invalid PR Data",
                        "PR is marked as merged but has no merge commit SHA",
                    )),
                    Some(sha) => PrDecision::CheckBranches {
                        pr_title: pr.title,
                        merge_commit_sha: sha,
                        branches: default_branches(),
                        repo: page_repository(),
                    },
                }
            }
        },
    }
}

/// Whether every branch check succeeded.
pub open spec fn all_checks_ok(results: Seq<Result<bool, GithubError>>) -> bool {
    forall|j: int| 0 <= j < results.len() ==> #[trigger] results[j] is Ok
}

/// Whether check `i` is the first that failed.
pub open spec fn first_failed_check(results: Seq<Result<bool, GithubError>>, i: int) -> bool {
    &&& 0 <= i < results.len()
    &&& results[i] is Err
    &&& forall|j: int| 0 <= j < i ==> #[trigger] results[j] is Ok
}

/// The answer of each branch check, in order.
pub open spec fn check_answers(results: Seq<Result<bool, GithubError>>) -> Seq<bool> {
    results.map_values(|r: Result<bool, GithubError>| match r {
        Ok(b) => b,
        Err(_) => false,
    })
}

/// The page once the branch checks are in: when a check failed, the error
/// page for the first failure; else the branches with the answer of each
/// check.
pub open spec fn branch_page_spec(
    title: Seq<char>,
    branches: Seq<Seq<char>>,
    results: Seq<Result<bool, GithubError>>,
    page: PageView,
) -> bool {
    if all_checks_ok(results) {
        page == branches_page_view(title, branches, check_answers(results))
    } else {
        exists|i: int| #[trigger] first_failed_check(results, i) && {
            &&& results[i] matches Err(e)
            &&& page == error_page_view("Branch Check Failed"@, error_text(e))
        }
    }
}

/// Builds the page from the outcome of each branch check, given in the order
/// of `branches`.
pub fn page_from_branch_checks(
    pr_title: String,
    branches: Vec<String>,
    results: Vec<Result<bool, GithubError>>,
) -> (page: PullRequest)
    ensures
        branch_page_spec(pr_title@, strings_view(branches@), results@, page@),
{
    let mut merged_into: Vec<bool> = Vec::new();
    let mut i: usize = 0;
    while i < results.len()
        invariant
            i <= results.len(),
            merged_into@ == check_answers(results@).take(i as int),
            forall|j: int| 0 <= j < i ==> #[trigger] results@[j] is Ok,
        decreases results.len() - i,
    {
        match &results[i] {
            Ok(b) => {
                merged_into.push(*b);
                assert(check_answers(results@).take(i + 1) =~= check_answers(results@).take(i as int).push(*b));
            },
            Err(e) => {
                let message = e.to_string();
                let page = error_page("Branch Check Failed", message.as_str());
                assert(first_failed_check(results@, i as int));
                return page;
            },
        }
        i = i + 1;
    }
    assert(check_answers(results@).take(i as int) =~= check_answers(results@));
    PullRequest {
        pr_title,
        failed: false,
        closed: false,
        error: String::new(),
        branches,
        merged_into,
    }
}

/// The page after the branch checks reports a failure exactly when some
/// check failed, then lists no branch; it never shows the closed state; and
/// when every check succeeded, one per branch, it gives each branch one
/// answer.
pub proof fn lemma_branch_page_shape(
    title: Seq<char>,
    branches: Seq<Seq<char>>,
    results: Seq<Result<bool, GithubError>>,
    page: PageView,
)
    requires
        branch_page_spec(title, branches, results, page),
    ensures
        page.failed == !all_checks_ok(results),
        !page.closed,
        page.failed ==> page.branches.len() == 0 && page.merged_into.len() == 0,
        all_checks_ok(results) && results.len() == branches.len() ==> page.merged_into.len() == page.branches.len(),
{
}

} // verus!
