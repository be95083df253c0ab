//! The first generation's backend task: the repository and pull request that
//! an OCR comment was made on.

use vstd::prelude::*;

verus! {

/// A task for the validation backend.
#[allow(non_snake_case)]
pub struct Task {
    pub RepoName: String,
    pub PR: u64,
}

/// The task for an OCR comment `s` on pull request `pr_number` of `repo` by
/// `member`; it records the repository and the pull request, and is always
/// built.
pub fn get_backend_task_from_str(s: &str, repo: &str, pr_number: u64, member: String) -> (r:
    Result<Task, ()>)
    ensures
        r matches Ok(t) && t.RepoName@ == repo@ && t.PR == pr_number,
{
    Ok(Task { RepoName: repo.to_string(), PR: pr_number })
}

} // verus!
