//! The check that a Codex turn really pushed the commit it reports: the
//! repository is a Git worktree on the target branch, the commit exists, the
//! branch head is the one on `origin`, and the commit is reachable from it.
//! The Git commands are run by the caller, one at a time, in the order asked.

use crate::middleware::{extract_reported_commit_sha, first_commit_sha_from, ModuleRecord};
use crate::text::{char_is_space, chars_of, is_blank_str, is_space, str_equals, trim, trim_start, trim_start_index};
use vstd::prelude::*;

verus! {

/// The check that waits for the next Git answer.
#[derive(Debug, Clone, Copy, PartialEq, Eq, Structural)]
pub enum GitCheck {
    WorkTree,
    Branch,
    Commit,
    LocalHead,
    Origin,
    RemoteHead,
    Ancestry,
}

#[derive(Debug, Clone)]
pub struct CommitVerification {
    pub commit_sha: String,
    pub target_branch: String,
    pub local_head: String,
    pub stage: GitCheck,
}

pub struct CommitVerificationView {
    pub commit_sha: Seq<char>,
    pub target_branch: Seq<char>,
    pub local_head: Seq<char>,
    pub stage: GitCheck,
}

pub open spec fn verification_view(v: CommitVerification) -> CommitVerificationView {
    CommitVerificationView {
        commit_sha: v.commit_sha@,
        target_branch: v.target_branch@,
        local_head: v.local_head@,
        stage: v.stage,
    }
}

/// The next thing to do.
#[derive(Debug, Clone, PartialEq, Eq)]
pub enum VerificationStep {
    /// Run `git -C <repository>` with these arguments. For a status check only
    /// whether it succeeds matters; otherwise its trimmed output, or its
    /// trimmed error output when it fails, is the answer.
    Run { args: Vec<String>, status_only: bool },
    /// The commit is pushed.
    Verified(String),
    Failed(String),
}

pub enum VerificationStepView {
    Run(Seq<Seq<char>>, bool),
    Verified(Seq<char>),
    Failed(Seq<char>),
}

pub open spec fn args_view(args: Vec<String>) -> Seq<Seq<char>> {
    args@.map_values(|a: String| a@)
}

pub open spec fn step_view(s: VerificationStep) -> VerificationStepView {
    match s {
        VerificationStep::Run { args, status_only } => VerificationStepView::Run(args_view(args), status_only),
        VerificationStep::Verified(sha) => VerificationStepView::Verified(sha@),
        VerificationStep::Failed(e) => VerificationStepView::Failed(e@),
    }
}

/// Where the first whitespace-separated word of `s` that starts at `i` ends.
pub open spec fn token_end(s: Seq<char>, i: int) -> int
    decreases s.len() - i,
{
    if i < 0 || i >= s.len() || is_space(s[i]) {
        i
    } else {
        token_end(s, i + 1)
    }
}

/// The first whitespace-separated word of `s`, if any.
pub open spec fn first_token(s: Seq<char>) -> Option<Seq<char>> {
    let t = trim_start(s);
    if t.len() == 0 {
        None
    } else {
        Some(t.subrange(0, token_end(t, 0)))
    }
}

proof fn lemma_token_end_bounds(s: Seq<char>, i: int)
    requires
        0 <= i <= s.len(),
    ensures
        i <= token_end(s, i) <= s.len(),
    decreases s.len() - i,
{
    if i < s.len() && !is_space(s[i]) {
        lemma_token_end_bounds(s, i + 1);
    }
}

pub fn first_word(s: &str) -> (r: Option<&str>)
    ensures
        match r {
            Some(w) => first_token(s@) == Some(w@),
            None => first_token(s@) is None,
        },
{
    let v = chars_of(s);
    let lo = trim_start_index(&v, 0, v.len());
    assert(v@.subrange(0, v@.len() as int) =~= v@);
    if lo == v.len() {
        return None;
    }
    let ghost t = v@.subrange(lo as int, v@.len() as int);
    let mut k = lo;
    while k < v.len() && !char_is_space(v[k])
        invariant
            lo <= k <= v@.len(),
            t == v@.subrange(lo as int, v@.len() as int),
            token_end(t, 0) == token_end(t, k - lo),
        decreases v@.len() - k,
    {
        k = k + 1;
    }
    proof {
        lemma_token_end_bounds(t, 0);
        assert(t.subrange(0, token_end(t, 0)) =~= v@.subrange(lo as int, k as int));
    }
    Some(s.substring_char(lo, k))
}

pub open spec fn run(args: Seq<Seq<char>>) -> VerificationStepView {
    VerificationStepView::Run(args, false)
}

/// The check's protocol for an answer with output. Any Git failure ends the
/// check with Git's error output.
pub open spec fn output_step(v: CommitVerificationView, output: Result<Seq<char>, Seq<char>>) -> (CommitVerificationView, VerificationStepView) {
    match output {
        Err(e) => (v, VerificationStepView::Failed(e)),
        Ok(o) => match v.stage {
            GitCheck::WorkTree => if o != "true"@ {
                (v, VerificationStepView::Failed("selected repository is not a Git worktree"@))
            } else {
                (
                    CommitVerificationView { stage: GitCheck::Branch, ..v },
                    run(seq!["branch"@, "--show-current"@]),
                )
            },
            GitCheck::Branch => if o != v.target_branch {
                (
                    v,
                    VerificationStepView::Failed(
                        "Codex finished on branch `"@ + o + "`, expected `"@ + v.target_branch + "`"@,
                    ),
                )
            } else {
                (
                    CommitVerificationView { stage: GitCheck::Commit, ..v },
                    run(seq!["rev-parse"@, "--verify"@, v.commit_sha + "^{commit}"@]),
                )
            },
            GitCheck::Commit => (
                CommitVerificationView { stage: GitCheck::LocalHead, ..v },
                run(seq!["rev-parse"@, v.target_branch]),
            ),
            GitCheck::LocalHead => (
                CommitVerificationView { stage: GitCheck::Origin, local_head: o, ..v },
                run(seq!["remote"@, "get-url"@, "origin"@]),
            ),
            GitCheck::Origin => if trim(o).len() == 0 {
                (v, VerificationStepView::Failed("target repository has no origin remote"@))
            } else {
                (
                    CommitVerificationView { stage: GitCheck::RemoteHead, ..v },
                    run(seq!["ls-remote"@, "--exit-code"@, "origin"@, "refs/heads/"@ + v.target_branch]),
                )
            },
            GitCheck::RemoteHead => match first_token(o) {
                None => (
                    v,
                    VerificationStepView::Failed(
                        "origin does not expose branch `"@ + v.target_branch + "`"@,
                    ),
                ),
                Some(remote_head) => if v.local_head != remote_head {
                    (
                        v,
                        VerificationStepView::Failed(
                            "local `"@ + v.target_branch + "` ("@ + v.local_head
                                + ") does not match origin ("@ + remote_head + ")"@,
                        ),
                    )
                } else {
                    (
                        CommitVerificationView { stage: GitCheck::Ancestry, ..v },
                        VerificationStepView::Run(
                            seq!["merge-base"@, "--is-ancestor"@, v.commit_sha, v.target_branch],
                            true,
                        ),
                    )
                },
            },
            GitCheck::Ancestry => (v, VerificationStepView::Failed("the ancestry check has no output"@)),
        },
    }
}

/// The last answer: whether the commit is an ancestor of the target branch.
pub open spec fn ancestry_step(v: CommitVerificationView, answer: Result<bool, Seq<char>>) -> VerificationStepView {
    match answer {
        Err(e) => VerificationStepView::Failed("could not inspect commit ancestry: "@ + e),
        Ok(false) => VerificationStepView::Failed(
            "reported commit "@ + v.commit_sha + " is not reachable from `"@ + v.target_branch + "`"@,
        ),
        Ok(true) => VerificationStepView::Verified(v.commit_sha),
    }
}

pub open spec fn text_result(r: Result<&str, &str>) -> Result<Seq<char>, Seq<char>> {
    match r {
        Ok(o) => Ok(o@),
        Err(e) => Err(e@),
    }
}

fn strings(parts: &[&str]) -> (v: Vec<String>)
    ensures
        v@.len() == parts@.len(),
        forall|i: int| 0 <= i < parts@.len() ==> (#[trigger] v@[i])@ == parts@[i]@,
{
    let mut v: Vec<String> = Vec::new();
    let mut i: usize = 0;
    while i < parts.len()
        invariant
            i <= parts@.len(),
            v@.len() == i,
            forall|k: int| 0 <= k < i ==> (#[trigger] v@[k])@ == parts@[k]@,
        decreases parts@.len() - i,
    {
        v.push(String::from_str(parts[i]));
        i = i + 1;
    }
    v
}

fn run_step(parts: &[&str], status_only: bool) -> (s: VerificationStep)
    ensures
        step_view(s) == VerificationStepView::Run(parts@.map_values(|p: &str| p@), status_only),
{
    let args = strings(parts);
    assert(args_view(args) =~= parts@.map_values(|p: &str| p@));
    VerificationStep::Run { args, status_only }
}

impl CommitVerification {
    /// Starts the check for the commit a turn's `summary` reports.
    pub fn begin(module: &ModuleRecord, summary: &str) -> (r: (Option<CommitVerification>, VerificationStep))
        ensures
            match first_commit_sha_from(summary@, 0) {
                None => r.0 is None && step_view(r.1) == VerificationStepView::Failed(
                    "Codex final summary did not report a commit SHA"@,
                ),
                Some(sha) => r.0 matches Some(v) && verification_view(v) == (CommitVerificationView {
                    commit_sha: sha,
                    target_branch: module.target_branch@,
                    local_head: Seq::empty(),
                    stage: GitCheck::WorkTree,
                }) && step_view(r.1) == run(seq!["rev-parse"@, "--is-inside-work-tree"@]),
            },
    {
        match extract_reported_commit_sha(summary) {
            None => (
                None,
                VerificationStep::Failed(String::from_str("Codex final summary did not report a commit SHA")),
            ),
            Some(sha) => {
                let v = CommitVerification {
                    commit_sha: sha,
                    target_branch: module.target_branch.clone(),
                    local_head: String::new(),
                    stage: GitCheck::WorkTree,
                };
                let step = run_step(&["rev-parse", "--is-inside-work-tree"], false);
                proof {
                    assert(seq!["rev-parse", "--is-inside-work-tree"].map_values(|p: &str| p@)
                        =~= seq!["rev-parse"@, "--is-inside-work-tree"@]);
                }
                (Some(v), step)
            },
        }
    }

    /// Takes the answer of a Git command with output (trimmed stdout, or
    /// trimmed stderr when it failed).
    pub fn take_output(&mut self, output: Result<&str, &str>) -> (s: VerificationStep)
        requires
            old(self).stage != GitCheck::Ancestry,
        ensures
            (verification_view(*final(self)), step_view(s)) == output_step(
                verification_view(*old(self)),
                text_result(output),
            ),
    {
        let o = match output {
            Err(e) => {
                return VerificationStep::Failed(String::from_str(e));
            },
            Ok(o) => o,
        };
        match self.stage {
            GitCheck::WorkTree => {
                if !str_equals(o, "true") {
                    return VerificationStep::Failed(String::from_str("selected repository is not a Git worktree"));
                }
                self.stage = GitCheck::Branch;
                let s = run_step(&["branch", "--show-current"], false);
                assert(seq!["branch", "--show-current"].map_values(|p: &str| p@) =~= seq!["branch"@, "--show-current"@]);
                s
            },
            GitCheck::Branch => {
                if !str_equals(o, self.target_branch.as_str()) {
                    let e = String::from_str("Codex finished on branch `").concat(o).concat("`, expected `").concat(
                        self.target_branch.as_str(),
                    ).concat("`");
                    return VerificationStep::Failed(e);
                }
                self.stage = GitCheck::Commit;
                let mut args: Vec<String> = Vec::new();
                args.push(String::from_str("rev-parse"));
                args.push(String::from_str("--verify"));
                args.push(self.commit_sha.clone().concat("^{commit}"));
                assert(args_view(args) =~= seq!["rev-parse"@, "--verify"@, self.commit_sha@ + "^{commit}"@]);
                VerificationStep::Run { args, status_only: false }
            },
            GitCheck::Commit => {
                self.stage = GitCheck::LocalHead;
                let mut args: Vec<String> = Vec::new();
                args.push(String::from_str("rev-parse"));
                args.push(self.target_branch.clone());
                assert(args_view(args) =~= seq!["rev-parse"@, self.target_branch@]);
                VerificationStep::Run { args, status_only: false }
            },
            GitCheck::LocalHead => {
                self.stage = GitCheck::Origin;
                self.local_head = String::from_str(o);
                let s = run_step(&["remote", "get-url", "origin"], false);
                assert(seq!["remote", "get-url", "origin"].map_values(|p: &str| p@) =~= seq!["remote"@, "get-url"@, "origin"@]);
                s
            },
            GitCheck::Origin => {
                if is_blank_str(o) {
                    return VerificationStep::Failed(String::from_str("target repository has no origin remote"));
                }
                self.stage = GitCheck::RemoteHead;
                let mut args: Vec<String> = Vec::new();
                args.push(String::from_str("ls-remote"));
                args.push(String::from_str("--exit-code"));
                args.push(String::from_str("origin"));
                args.push(String::from_str("refs/heads/").concat(self.target_branch.as_str()));
                assert(args_view(args) =~= seq!["ls-remote"@, "--exit-code"@, "origin"@, "refs/heads/"@ + self.target_branch@]);
                VerificationStep::Run { args, status_only: false }
            },
            GitCheck::RemoteHead => {
                match first_word(o) {
                    None => {
                        let e = String::from_str("origin does not expose branch `").concat(self.target_branch.as_str()).concat("`");
                        VerificationStep::Failed(e)
                    },
                    Some(remote_head) => {
                        if !str_equals(self.local_head.as_str(), remote_head) {
                            let e = String::from_str("local `").concat(self.target_branch.as_str()).concat("` (").concat(
                                self.local_head.as_str(),
                            ).concat(") does not match origin (").concat(remote_head).concat(")");
                            return VerificationStep::Failed(e);
                        }
                        self.stage = GitCheck::Ancestry;
                        let mut args: Vec<String> = Vec::new();
                        args.push(String::from_str("merge-base"));
                        args.push(String::from_str("--is-ancestor"));
                        args.push(self.commit_sha.clone());
                        args.push(self.target_branch.clone());
                        assert(args_view(args) =~= seq!["merge-base"@, "--is-ancestor"@, self.commit_sha@, self.target_branch@]);
                        VerificationStep::Run { args, status_only: true }
                    },
                }
            },
            GitCheck::Ancestry => VerificationStep::Failed(String::from_str("the ancestry check has no output")),
        }
    }

    /// Takes the answer of the ancestry check: whether it succeeded, or why it
    /// could not run.
    pub fn take_ancestry(&self, answer: Result<bool, &str>) -> (s: VerificationStep)
        requires
            self.stage == GitCheck::Ancestry,
        ensures
            step_view(s) == ancestry_step(
                verification_view(*self),
                match answer {
                    Ok(b) => Ok(b),
                    Err(e) => Err(e@),
                },
            ),
    {
        match answer {
            Err(e) => VerificationStep::Failed(String::from_str("could not inspect commit ancestry: ").concat(e)),
            Ok(false) => {
                let e = String::from_str("reported commit ").concat(self.commit_sha.as_str()).concat(
                    " is not reachable from `",
                ).concat(self.target_branch.as_str()).concat("`");
                VerificationStep::Failed(e)
            },
            Ok(true) => VerificationStep::Verified(self.commit_sha.clone()),
        }
    }
}

} // verus!
