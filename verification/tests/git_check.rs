use chatgpt_codex_bridge::git_check::{first_word, CommitVerification, GitCheck, VerificationStep};
use chatgpt_codex_bridge::middleware::{Budget, ModuleRecord};

fn module() -> ModuleRecord {
    ModuleRecord {
        id: "module-1".into(),
        name: "Test".into(),
        repository_path: "/repo".into(),
        target_branch: "main".into(),
        chatgpt_tab_id: 42,
        status: "INACTIVE".into(),
        budget: Budget { max_rounds: 6, module_timeout_minutes: 120, global_timeout_minutes: 240 },
        created_at: "t".into(),
        updated_at: "t".into(),
    }
}

fn run(args: &[&str], status_only: bool) -> VerificationStep {
    VerificationStep::Run { args: args.iter().map(|a| a.to_string()).collect(), status_only }
}

#[test]
fn a_pushed_commit_passes_every_check() {
    let (check, step) = CommitVerification::begin(&module(), "pushed commit abcdef1234567");
    let mut check = check.expect("sha");
    assert_eq!(step, run(&["rev-parse", "--is-inside-work-tree"], false));
    assert_eq!(check.take_output(Ok("true")), run(&["branch", "--show-current"], false));
    assert_eq!(check.take_output(Ok("main")), run(&["rev-parse", "--verify", "abcdef1234567^{commit}"], false));
    assert_eq!(check.take_output(Ok("abcdef1234567")), run(&["rev-parse", "main"], false));
    assert_eq!(check.take_output(Ok("fedcba")), run(&["remote", "get-url", "origin"], false));
    assert_eq!(
        check.take_output(Ok("git@example.com:repo.git")),
        run(&["ls-remote", "--exit-code", "origin", "refs/heads/main"], false)
    );
    assert_eq!(
        check.take_output(Ok("fedcba\trefs/heads/main")),
        run(&["merge-base", "--is-ancestor", "abcdef1234567", "main"], true)
    );
    assert_eq!(check.stage, GitCheck::Ancestry);
    assert_eq!(check.take_ancestry(Ok(true)), VerificationStep::Verified("abcdef1234567".into()));
    assert_eq!(
        check.take_ancestry(Ok(false)),
        VerificationStep::Failed("reported commit abcdef1234567 is not reachable from `main`".into())
    );
}

#[test]
fn each_failed_check_has_its_reason() {
    let (none, step) = CommitVerification::begin(&module(), "no sha here");
    assert!(none.is_none());
    assert_eq!(step, VerificationStep::Failed("Codex final summary did not report a commit SHA".into()));

    let (check, _) = CommitVerification::begin(&module(), "abcdef1234567");
    let mut check = check.expect("sha");
    assert_eq!(check.clone().take_output(Ok("false")), VerificationStep::Failed("selected repository is not a Git worktree".into()));
    assert_eq!(check.clone().take_output(Err("fatal: not a git repository")), VerificationStep::Failed("fatal: not a git repository".into()));
    check.take_output(Ok("true"));
    assert_eq!(
        check.clone().take_output(Ok("dev")),
        VerificationStep::Failed("Codex finished on branch `dev`, expected `main`".into())
    );
    check.take_output(Ok("main"));
    check.take_output(Ok("abcdef1234567"));
    check.take_output(Ok("aaa"));
    assert_eq!(check.clone().take_output(Ok("  ")), VerificationStep::Failed("target repository has no origin remote".into()));
    check.take_output(Ok("origin-url"));
    assert_eq!(check.clone().take_output(Ok("")), VerificationStep::Failed("origin does not expose branch `main`".into()));
    assert_eq!(
        check.clone().take_output(Ok("bbb refs/heads/main")),
        VerificationStep::Failed("local `main` (aaa) does not match origin (bbb)".into())
    );
}

#[test]
fn the_first_word_skips_leading_whitespace() {
    assert_eq!(first_word("  abc def"), Some("abc"));
    assert_eq!(first_word("abc\tdef"), Some("abc"));
    assert_eq!(first_word("   "), None);
}
