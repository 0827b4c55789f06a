//! The single-module middleware: module records, their validation, the
//! messages sent to ChatGPT and Codex, and the budget that pauses a module.

use crate::orchestration::{
    Action, ActionView, Phase, Runtime, approve_step, completed_step, continue_step, deferred_pause_step,
    in_phase, module_done_step, next_task_phase_error, next_task_prompt_error, next_task_step,
    stop_step, waits_for_chatgpt,
};
use crate::protocol::{ProtocolEnvelope, ProtocolState};
use crate::text::{
    chars_of, decimal, decimal_string, is_blank_str, signed_decimal, signed_decimal_string,
    str_equals, trim, trim_str,
};
use vstd::prelude::*;

verus! {

#[derive(Debug, Clone)]
pub struct InactiveModuleInput {
    pub name: String,
    pub repository_path: String,
    pub target_branch: String,
    pub chatgpt_tab_id: i64,
    pub max_rounds: i64,
    pub module_timeout_minutes: i64,
    pub global_timeout_minutes: i64,
}

#[derive(Debug, Clone)]
pub struct Budget {
    pub max_rounds: i64,
    pub module_timeout_minutes: i64,
    pub global_timeout_minutes: i64,
}

#[derive(Debug, Clone)]
pub struct ModuleRecord {
    pub id: String,
    pub name: String,
    pub repository_path: String,
    pub target_branch: String,
    pub chatgpt_tab_id: i64,
    pub status: String,
    pub budget: Budget,
    pub created_at: String,
    pub updated_at: String,
}

pub open spec fn required_fields_error() -> Seq<char> {
    "module name, repository path, and target branch are required"@
}

pub open spec fn positive_budget_error() -> Seq<char> {
    "ChatGPT tab ID and all budgets must be positive"@
}

/// Why a module input is refused, if it is.
pub open spec fn input_error(input: InactiveModuleInput) -> Option<Seq<char>> {
    if trim(input.name@).len() == 0 || trim(input.repository_path@).len() == 0 || trim(
        input.target_branch@,
    ).len() == 0 {
        Some(required_fields_error())
    } else if input.chatgpt_tab_id <= 0 || input.max_rounds <= 0 || input.module_timeout_minutes
        <= 0 || input.global_timeout_minutes <= 0 {
        Some(positive_budget_error())
    } else {
        None
    }
}

pub open spec fn unit_result(r: Result<(), String>) -> Option<Seq<char>> {
    match r {
        Ok(()) => None,
        Err(e) => Some(e@),
    }
}

/// A module needs a name, a repository, a branch, a tab and positive budgets.
pub fn validate(input: &InactiveModuleInput) -> (r: Result<(), String>)
    ensures
        unit_result(r) == input_error(*input),
{
    if is_blank_str(input.name.as_str()) || is_blank_str(input.repository_path.as_str())
        || is_blank_str(input.target_branch.as_str()) {
        return Err(
            String::from_str("module name, repository path, and target branch are required"),
        );
    }
    if input.chatgpt_tab_id <= 0 || input.max_rounds <= 0 || input.module_timeout_minutes <= 0
        || input.global_timeout_minutes <= 0 {
        return Err(String::from_str("ChatGPT tab ID and all budgets must be positive"));
    }
    Ok(())
}

/// The name a phase is stored under.
pub open spec fn phase_name(phase: Phase) -> Seq<char> {
    match phase {
        Phase::WaitingForChatGptPlan => "WAITING_FOR_CHATGPT_PLAN"@,
        Phase::StartingCodexTurn => "STARTING_CODEX_TURN"@,
        Phase::CodexRunning => "CODEX_RUNNING"@,
        Phase::WaitingForChatGptReview => "WAITING_FOR_CHATGPT_REVIEW"@,
        Phase::PausedForAcceptance => "PAUSED_FOR_ACCEPTANCE"@,
        Phase::Blocked => "BLOCKED"@,
        Phase::Completed => "COMPLETED"@,
        Phase::Stopped => "STOPPED"@,
    }
}

pub fn orchestration_phase_name(phase: Phase) -> (r: &'static str)
    ensures
        r@ == phase_name(phase),
{
    match phase {
        Phase::WaitingForChatGptPlan => "WAITING_FOR_CHATGPT_PLAN",
        Phase::StartingCodexTurn => "STARTING_CODEX_TURN",
        Phase::CodexRunning => "CODEX_RUNNING",
        Phase::WaitingForChatGptReview => "WAITING_FOR_CHATGPT_REVIEW",
        Phase::PausedForAcceptance => "PAUSED_FOR_ACCEPTANCE",
        Phase::Blocked => "BLOCKED",
        Phase::Completed => "COMPLETED",
        Phase::Stopped => "STOPPED",
    }
}

pub open spec fn unknown_phase_error(name: Seq<char>) -> Seq<char> {
    "unknown persisted orchestration phase: "@ + name
}

/// The phase stored under `phase`, or an error naming the unknown text.
pub fn orchestration_phase_from_name(phase: &str) -> (r: Result<Phase, String>)
    ensures
        match r {
            Ok(p) => phase_name(p) == phase@,
            Err(e) => (forall|p: Phase| phase_name(p) != phase@) && e@ == unknown_phase_error(
                phase@,
            ),
        },
{
    if str_equals(phase, "WAITING_FOR_CHATGPT_PLAN") {
        Ok(Phase::WaitingForChatGptPlan)
    } else if str_equals(phase, "STARTING_CODEX_TURN") {
        Ok(Phase::StartingCodexTurn)
    } else if str_equals(phase, "CODEX_RUNNING") {
        Ok(Phase::CodexRunning)
    } else if str_equals(phase, "WAITING_FOR_CHATGPT_REVIEW") {
        Ok(Phase::WaitingForChatGptReview)
    } else if str_equals(phase, "PAUSED_FOR_ACCEPTANCE") {
        Ok(Phase::PausedForAcceptance)
    } else if str_equals(phase, "BLOCKED") {
        Ok(Phase::Blocked)
    } else if str_equals(phase, "COMPLETED") {
        Ok(Phase::Completed)
    } else if str_equals(phase, "STOPPED") {
        Ok(Phase::Stopped)
    } else {
        assert forall|p: Phase| phase_name(p) != phase@ by {
            match p {
                Phase::WaitingForChatGptPlan => {},
                Phase::StartingCodexTurn => {},
                Phase::CodexRunning => {},
                Phase::WaitingForChatGptReview => {},
                Phase::PausedForAcceptance => {},
                Phase::Blocked => {},
                Phase::Completed => {},
                Phase::Stopped => {},
            }
        }
        Err(String::from_str("unknown persisted orchestration phase: ").concat(phase))
    }
}

/// Every phase is stored under its own name, so a stored phase reads back as itself.
pub proof fn lemma_phase_names_round_trip(p: Phase, q: Phase)
    ensures
        phase_name(p) == phase_name(q) ==> p == q,
{
    reveal_strlit("WAITING_FOR_CHATGPT_PLAN");
    reveal_strlit("STARTING_CODEX_TURN");
    reveal_strlit("CODEX_RUNNING");
    reveal_strlit("WAITING_FOR_CHATGPT_REVIEW");
    reveal_strlit("PAUSED_FOR_ACCEPTANCE");
    reveal_strlit("BLOCKED");
    reveal_strlit("COMPLETED");
    reveal_strlit("STOPPED");
    if phase_name(p) == phase_name(q) && p != q {
        let a = phase_name(p);
        let b = phase_name(q);
        assert(a.len() == b.len());
        assert(a[0] == b[0]);
        assert(a[1] == b[1]);
        assert(a[2] == b[2]);
    }
}

/// An ASCII hexadecimal digit.
pub open spec fn is_hex_digit(c: char) -> bool {
    let u = c as u32;
    (0x30 <= u <= 0x39) || (0x41 <= u <= 0x46) || (0x61 <= u <= 0x66)
}

pub fn char_is_hex_digit(c: char) -> (b: bool)
    ensures
        b == is_hex_digit(c),
{
    let u = c as u32;
    (0x30 <= u && u <= 0x39) || (0x41 <= u && u <= 0x46) || (0x61 <= u && u <= 0x66)
}

/// The end of the run of hex digits that starts at `i`.
pub open spec fn hex_run_end(s: Seq<char>, i: int) -> int
    decreases s.len() - i,
{
    if i < 0 || i >= s.len() {
        s.len() as int
    } else if is_hex_digit(s[i]) {
        hex_run_end(s, i + 1)
    } else {
        i
    }
}

/// The run of hex digits that starts at `i` ends within `s`, holds only hex
/// digits, and stops at a non-hex character or at the end.
pub proof fn lemma_hex_run_end_bounds(s: Seq<char>, i: int)
    requires
        0 <= i <= s.len(),
    ensures
        i <= hex_run_end(s, i) <= s.len(),
        forall|j: int| i <= j < hex_run_end(s, i) ==> is_hex_digit(s[j]),
        hex_run_end(s, i) < s.len() ==> !is_hex_digit(s[hex_run_end(s, i)]),
    decreases s.len() - i,
{
    if i < s.len() && is_hex_digit(s[i]) {
        lemma_hex_run_end_bounds(s, i + 1);
    }
}

/// The first piece of `s[i..]`, split at every non-hex character, whose length
/// is that of a Git object name (7 to 64 digits).
pub open spec fn first_commit_sha_from(s: Seq<char>, i: int) -> Option<Seq<char>>
    decreases s.len() - i,
{
    if i < 0 || i > s.len() {
        None
    } else {
        let k = hex_run_end(s, i);
        proof {
            lemma_hex_run_end_bounds(s, i);
        }
        if 7 <= k - i <= 64 {
            Some(s.subrange(i, k))
        } else if k >= s.len() {
            None
        } else {
            first_commit_sha_from(s, k + 1)
        }
    }
}

/// `s[p..p + len]` is a whole run of hex digits: hex throughout, with no hex
/// digit right before or right after it.
pub open spec fn whole_hex_run(s: Seq<char>, p: int, len: int) -> bool {
    &&& 0 <= p
    &&& 0 < len
    &&& p + len <= s.len()
    &&& forall|j: int| p <= j < p + len ==> is_hex_digit(#[trigger] s[j])
    &&& (p == 0 || !is_hex_digit(s[p - 1]))
    &&& (p + len == s.len() || !is_hex_digit(s[p + len]))
}

/// A whole hex run as long as a Git object name (7 to 64 digits).
pub open spec fn sha_run(s: Seq<char>, p: int, len: int) -> bool {
    whole_hex_run(s, p, len) && 7 <= len <= 64
}

/// `first_commit_sha_from(s, i)` is the first SHA run at or after `i`.
spec fn first_sha_found_from(s: Seq<char>, i: int) -> bool {
    match first_commit_sha_from(s, i) {
        Some(r) => exists|p: int|
            #![trigger sha_run(s, p, r.len() as int)]
            i <= p && sha_run(s, p, r.len() as int) && r == s.subrange(p, p + r.len()) && forall|
                q: int,
                l: int,
            | i <= q < p ==> !sha_run(s, q, l),
        None => forall|q: int, l: int| i <= q ==> !sha_run(s, q, l),
    }
}

proof fn lemma_first_sha_from(s: Seq<char>, i: int)
    requires
        0 <= i <= s.len(),
        i == 0 || !is_hex_digit(s[i - 1]),
    ensures
        first_sha_found_from(s, i),
    decreases s.len() - i,
{
    lemma_hex_run_end_bounds(s, i);
    let k = hex_run_end(s, i);
    // The whole runs that start at or after `i`: the one at `i` (of length `k - i`),
    // and those at or after `k + 1`.
    assert forall|q: int, l: int| i <= q && whole_hex_run(s, q, l) implies (q == i && l == k - i)
        || (k < s.len() && k + 1 <= q) by {
        if q == i {
            if k < q + l {
                assert(is_hex_digit(s[k]));
            }
            if k > q + l {
                assert(is_hex_digit(s[q + l]));
            }
        } else if q <= k {
            if q < k {
                assert(is_hex_digit(s[q - 1]));
            } else {
                assert(is_hex_digit(s[q]));
            }
        }
    }
    if 7 <= k - i <= 64 {
        let r = s.subrange(i, k);
        assert(first_commit_sha_from(s, i) == Some(r));
        assert(whole_hex_run(s, i, k - i));
        assert(sha_run(s, i, r.len() as int));
        assert(r == s.subrange(i, i + r.len()));
        assert(forall|q: int, l: int| i <= q < i ==> !sha_run(s, q, l));
        let found = first_commit_sha_from(s, i);
        assert(found is Some);
        assert(found->Some_0 == r);
        assert(exists|p: int|
            #![trigger sha_run(s, p, found->Some_0.len() as int)]
            i <= p && sha_run(s, p, found->Some_0.len() as int) && found->Some_0 == s.subrange(
                p,
                p + found->Some_0.len(),
            ) && forall|q: int, l: int| i <= q < p ==> !sha_run(s, q, l));
        assert(first_sha_found_from(s, i));
    } else if k >= s.len() {
        assert(first_commit_sha_from(s, i) is None);
        assert forall|q: int, l: int| i <= q implies !sha_run(s, q, l) by {
            if sha_run(s, q, l) {
                assert(whole_hex_run(s, q, l));
            }
        }
    } else {
        assert(first_commit_sha_from(s, i) == first_commit_sha_from(s, k + 1));
        assert(!is_hex_digit(s[k]));
        lemma_first_sha_from(s, k + 1);
        assert forall|q: int, l: int| i <= q < k + 1 implies !sha_run(s, q, l) by {
            if sha_run(s, q, l) {
                assert(whole_hex_run(s, q, l));
            }
        }
        match first_commit_sha_from(s, k + 1) {
            Some(r) => {
                let p = choose|p: int|
                    #![trigger sha_run(s, p, r.len() as int)]
                    k + 1 <= p && sha_run(s, p, r.len() as int) && r == s.subrange(p, p + r.len())
                        && forall|q: int, l: int| k + 1 <= q < p ==> !sha_run(s, q, l);
                assert forall|q: int, l: int| i <= q < p implies !sha_run(s, q, l) by {
                    if q < k + 1 {
                    }
                }
                assert(i <= p && sha_run(s, p, r.len() as int) && r == s.subrange(p, p + r.len()));
                assert(first_sha_found_from(s, i));
            },
            None => {
                assert forall|q: int, l: int| i <= q implies !sha_run(s, q, l) by {
                    if q < k + 1 {
                    }
                }
            },
        }
    }
}

/// The commit SHA found in a summary is its first whole run of 7 to 64 hex
/// digits: the result is such a run, taken verbatim, and no such run starts
/// before it; when nothing is found, the summary holds no such run.
pub proof fn lemma_reported_sha_is_the_first_sha_run(s: Seq<char>)
    ensures
        match first_commit_sha_from(s, 0) {
            Some(r) => exists|p: int|
                #![trigger sha_run(s, p, r.len() as int)]
                sha_run(s, p, r.len() as int) && r == s.subrange(p, p + r.len()) && forall|
                    q: int,
                    l: int,
                | q < p ==> !sha_run(s, q, l),
            None => forall|q: int, l: int| !sha_run(s, q, l),
        },
{
    lemma_first_sha_from(s, 0);
}

pub open spec fn string_option_view(o: Option<String>) -> Option<Seq<char>> {
    match o {
        Some(s) => Some(s@),
        None => None,
    }
}

/// The commit SHA a Codex summary reports: the first run of 7 to 64 hex digits
/// between non-hex characters.
pub fn extract_reported_commit_sha(summary: &str) -> (r: Option<String>)
    ensures
        string_option_view(r) == first_commit_sha_from(summary@, 0),
{
    let v = chars_of(summary);
    let mut i: usize = 0;
    loop
        invariant
            i <= v@.len(),
            v@ == summary@,
            first_commit_sha_from(v@, i as int) == first_commit_sha_from(v@, 0),
        decreases v@.len() - i,
    {
        let mut k = i;
        while k < v.len() && char_is_hex_digit(v[k])
            invariant
                i <= k <= v@.len(),
                hex_run_end(v@, k as int) == hex_run_end(v@, i as int),
            decreases v@.len() - k,
        {
            k = k + 1;
        }
        proof {
            lemma_hex_run_end_bounds(v@, i as int);
        }
        if 7 <= k - i && k - i <= 64 {
            return Some(String::from_str(summary.substring_char(i, k)));
        }
        if k >= v.len() {
            return None;
        }
        i = k + 1;
    }
}

/// The message that asks ChatGPT for the next task after the user continues or
/// asks for a new plan.
pub open spec fn continue_message(name: Seq<char>, replan_request: Option<Seq<char>>) -> Seq<char> {
    match replan_request {
        Some(request) => "用户要求重新规划“"@ + name + "”模块。补充说明："@ + trim(request)
            + "。请检查仓库后只返回一个 NEXT_TASK 协议包；必须包含完整 codex_prompt 和至少一条 acceptance_criteria。"@,
        None => "用户已确认继续“"@ + name
            + "”模块。请检查仓库后只返回一个 NEXT_TASK 协议包；必须包含完整 codex_prompt 和至少一条 acceptance_criteria。"@,
    }
}

pub open spec fn str_option_view(o: Option<&str>) -> Option<Seq<char>> {
    match o {
        Some(s) => Some(s@),
        None => None,
    }
}

pub fn user_continue_message(module: &ModuleRecord, replan_request: Option<&str>) -> (m: String)
    ensures
        m@ == continue_message(module.name@, str_option_view(replan_request)),
{
    match replan_request {
        Some(request) => {
            let m = String::from_str("用户要求重新规划“").concat(module.name.as_str()).concat(
                "”模块。补充说明：",
            ).concat(trim_str(request)).concat(
                "。请检查仓库后只返回一个 NEXT_TASK 协议包；必须包含完整 codex_prompt 和至少一条 acceptance_criteria。",
            );
            assert(m@ =~= continue_message(module.name@, str_option_view(replan_request)));
            m
        },
        None => {
            let m = String::from_str("用户已确认继续“").concat(module.name.as_str()).concat(
                "”模块。请检查仓库后只返回一个 NEXT_TASK 协议包；必须包含完整 codex_prompt 和至少一条 acceptance_criteria。",
            );
            assert(m@ =~= continue_message(module.name@, str_option_view(replan_request)));
            m
        },
    }
}

/// The first message of a run: ChatGPT is asked to plan the module.
pub open spec fn planning_message(m: ModuleRecord) -> Seq<char> {
    "你是“"@ + m.name@ + "”模块的规划与 Review 决策者。模块仓库："@ + m.repository_path@ + "；目标分支："@
        + m.target_branch@
        + "。现在开始自动编排。请先规划并只返回一个 NEXT_TASK 协议包：必须包含完整 codex_prompt、至少一条 acceptance_criteria；JSON 代码块必须是回复最后且唯一的代码块。"@
}

pub fn module_planning_message(module: &ModuleRecord) -> (m: String)
    ensures
        m@ == planning_message(*module),
{
    let m = String::from_str("你是“").concat(module.name.as_str()).concat(
        "”模块的规划与 Review 决策者。模块仓库：",
    ).concat(module.repository_path.as_str()).concat("；目标分支：").concat(
        module.target_branch.as_str(),
    ).concat(
        "。现在开始自动编排。请先规划并只返回一个 NEXT_TASK 协议包：必须包含完整 codex_prompt、至少一条 acceptance_criteria；JSON 代码块必须是回复最后且唯一的代码块。",
    );
    assert(m@ =~= planning_message(*module));
    m
}

pub open spec fn task_preamble() -> Seq<char> {
    "You are executing one controlled middleware turn.\nRepository: "@
}

pub open spec fn task_rules() -> Seq<char> {
    rules_head() + rules_tail()
}

pub open spec fn rules_head() -> Seq<char> {
    "\n\nRequired completion behavior:\n1. Work only within the selected repository and do not change branches.\n2. If you modify code, run relevant tests or builds, inspect the changed scope, create a clear git commit, and push it to the target branch.\n3. If this "@
}

pub open spec fn rules_tail() -> Seq<char> {
    "task explicitly forbids changes, do not run commands, inspect files, modify files, commit, or push.\n4. End with a concise text summary: completed work, changed files, tests, commit SHA, push result, and residual risks.\n5. If any required action cannot be safely completed, stop and state the blocking reason; do not expand the task."@
}

/// The controlled turn Codex is given: repository, branch, the trimmed task and
/// the rules every turn follows.
pub open spec fn wrapped_task(m: ModuleRecord, task: Seq<char>) -> Seq<char> {
    task_preamble() + m.repository_path@ + "\nTarget branch: "@ + m.target_branch@ + "\n\nTask:\n"@
        + trim(task) + task_rules()
}

pub fn wrap_codex_task(module: &ModuleRecord, task: &str) -> (m: String)
    ensures
        m@ == wrapped_task(*module, task@),
{
    let m = String::from_str("You are executing one controlled middleware turn.\nRepository: ").concat(
        module.repository_path.as_str(),
    ).concat("\nTarget branch: ").concat(module.target_branch.as_str()).concat(
        "\n\nTask:\n",
    ).concat(trim_str(task)).concat(
        "\n\nRequired completion behavior:\n1. Work only within the selected repository and do not change branches.\n2. If you modify code, run relevant tests or builds, inspect the changed scope, create a clear git commit, and push it to the target branch.\n3. If this ",
    ).concat(
        "task explicitly forbids changes, do not run commands, inspect files, modify files, commit, or push.\n4. End with a concise text summary: completed work, changed files, tests, commit SHA, push result, and residual risks.\n5. If any required action cannot be safely completed, stop and state the blocking reason; do not expand the task.",
    );
    assert(m@ =~= wrapped_task(*module, task@));
    m
}

/// The request for ChatGPT's review of a verified Codex round.
pub open spec fn review_request(m: ModuleRecord, round: u32, commit_sha: Seq<char>, summary: Seq<char>) -> Seq<char> {
    "“"@ + m.name@ + "”模块第 "@ + decimal(round as nat) + " 轮 Codex 已结束。分支："@ + m.target_branch@
        + "；已验证 commit："@ + commit_sha + "。Codex 最终摘要：\n"@ + trim(summary)
        + "\n\n请检查仓库后仅返回一个协议包：如需继续则 NEXT_TASK；如模块完成则 MODULE_DONE；如需要用户处理则 PAUSE 或 BLOCKED。"@
}

pub fn review_message(module: &ModuleRecord, round: u32, commit_sha: &str, summary: &str) -> (m: String)
    ensures
        m@ == review_request(*module, round, commit_sha@, summary@),
{
    let m = String::from_str("“").concat(module.name.as_str()).concat("”模块第 ").concat(
        decimal_string(round as u64).as_str(),
    ).concat(" 轮 Codex 已结束。分支：").concat(module.target_branch.as_str()).concat(
        "；已验证 commit：",
    ).concat(commit_sha).concat("。Codex 最终摘要：\n").concat(trim_str(summary)).concat(
        "\n\n请检查仓库后仅返回一个协议包：如需继续则 NEXT_TASK；如模块完成则 MODULE_DONE；如需要用户处理则 PAUSE 或 BLOCKED。",
    );
    assert(m@ =~= review_request(*module, round, commit_sha@, summary@));
    m
}

/// The App Server launcher: `codex.cmd` on Windows, `codex` elsewhere.
pub open spec fn codex_launcher(windows: bool) -> Seq<char> {
    if windows {
        "codex.cmd"@
    } else {
        "codex"@
    }
}

pub fn codex_command_for(windows: bool) -> (c: &'static str)
    ensures
        c@ == codex_launcher(windows),
{
    if windows {
        "codex.cmd"
    } else {
        "codex"
    }
}

/// The platform's path separator; `\` exactly on Windows targets.
#[verifier::external_body]
fn main_separator() -> char {
    std::path::MAIN_SEPARATOR
}

/// The default App Server launcher of the platform this library was built for.
pub fn default_codex_command() -> (c: &'static str)
    ensures
        c@ == codex_launcher(true) || c@ == codex_launcher(false),
{
    codex_command_for(main_separator() == '\\')
}

/// `m` minutes is a span `chrono` can represent (it panics otherwise).
pub open spec fn minutes_representable(m: i64) -> bool {
    -9223372036854776 <= m * 60 <= 9223372036854775
}

pub open spec fn deferred_budget_reason() -> Seq<char> {
    "模块或全局时间预算已在当前 Codex 回合期间到达。"@
}

/// Why a module must pause before (or after) a Codex turn, if it must: a
/// deferred pause, the round budget, the module's time budget, the global one.
/// Elapsed times are whole milliseconds, rounded down.
pub open spec fn budget_reason(r: Runtime, b: Budget, module_elapsed_ms: i64, global_elapsed_ms: i64) -> Option<Seq<char>> {
    if r.pause_after_current_turn {
        Some(deferred_budget_reason())
    } else if r.completed_rounds >= b.max_rounds {
        Some("已达到最大任务轮次 "@ + signed_decimal(b.max_rounds as int) + "。"@)
    } else if module_elapsed_ms >= b.module_timeout_minutes * 60000 {
        Some(
            "已达到模块最长运行时间 "@ + signed_decimal(b.module_timeout_minutes as int) + " 分钟。"@,
        )
    } else if global_elapsed_ms >= b.global_timeout_minutes * 60000 {
        Some(
            "已达到全局最长运行时间 "@ + signed_decimal(b.global_timeout_minutes as int) + " 分钟。"@,
        )
    } else {
        None
    }
}

/// The budgets that `budget_reason` would compare are representable spans.
pub open spec fn budget_checkable(r: Runtime, b: Budget, module_elapsed_ms: i64) -> bool {
    !r.pause_after_current_turn && r.completed_rounds < b.max_rounds ==> minutes_representable(
        b.module_timeout_minutes,
    ) && (module_elapsed_ms < b.module_timeout_minutes * 60000 ==> minutes_representable(
        b.global_timeout_minutes,
    ))
}

fn minutes_are_representable(m: i64) -> (b: bool)
    ensures
        b == minutes_representable(m),
{
    let seconds: i128 = m as i128 * 60;
    -9223372036854776i128 <= seconds && seconds <= 9223372036854775i128
}

/// Whether `budget_pause_reason` can compare the budget at `module_elapsed_ms`
/// (see `budget_checkable`).
pub fn budget_is_checkable(runtime: &Runtime, budget: &Budget, module_elapsed_ms: i64) -> (b: bool)
    ensures
        b == budget_checkable(*runtime, *budget, module_elapsed_ms),
{
    if runtime.pause_after_current_turn || runtime.completed_rounds as i64 >= budget.max_rounds {
        return true;
    }
    if !minutes_are_representable(budget.module_timeout_minutes) {
        return false;
    }
    if (module_elapsed_ms as i128) < budget.module_timeout_minutes as i128 * 60000 {
        minutes_are_representable(budget.global_timeout_minutes)
    } else {
        true
    }
}

pub fn budget_pause_reason(runtime: &Runtime, budget: &Budget, module_elapsed_ms: i64, global_elapsed_ms: i64) -> (r: Option<String>)
    requires
        budget_checkable(*runtime, *budget, module_elapsed_ms),
    ensures
        string_option_view(r) == budget_reason(*runtime, *budget, module_elapsed_ms, global_elapsed_ms),
{
    if runtime.pause_after_current_turn {
        return Some(String::from_str("模块或全局时间预算已在当前 Codex 回合期间到达。"));
    }
    if runtime.completed_rounds as i64 >= budget.max_rounds {
        let m = String::from_str("已达到最大任务轮次 ").concat(
            signed_decimal_string(budget.max_rounds).as_str(),
        ).concat("。");
        return Some(m);
    }
    if module_elapsed_ms as i128 >= budget.module_timeout_minutes as i128 * 60000 {
        let m = String::from_str("已达到模块最长运行时间 ").concat(
            signed_decimal_string(budget.module_timeout_minutes).as_str(),
        ).concat(" 分钟。");
        return Some(m);
    }
    if global_elapsed_ms as i128 >= budget.global_timeout_minutes as i128 * 60000 {
        let m = String::from_str("已达到全局最长运行时间 ").concat(
            signed_decimal_string(budget.global_timeout_minutes).as_str(),
        ).concat(" 分钟。");
        return Some(m);
    }
    None
}

/// What the runtime does with a validated envelope from ChatGPT, and the
/// message recorded with it.
pub open spec fn envelope_step(r: Runtime, e: ProtocolEnvelope) -> (Runtime, Result<(Action, Seq<char>), Seq<char>>) {
    match e.state {
        ProtocolState::NextTask => {
            match e.codex_prompt {
                Some(prompt) => {
                    let (r1, a) = next_task_step(r, prompt);
                    (r1, match a {
                        Ok(action) => Ok((action, "已接收 ChatGPT NEXT_TASK，正在交给 Codex。"@)),
                        Err(m) => Err(m),
                    })
                },
                None => if !waits_for_chatgpt(r.phase) {
                    (r, Err(next_task_phase_error()))
                } else {
                    (r, Err(next_task_prompt_error()))
                },
            }
        },
        ProtocolState::ModuleDone => {
            let (r1, a) = module_done_step(r, e.reason);
            (r1, match a {
                Ok(action) => Ok((action, "ChatGPT 已报告 MODULE_DONE，等待用户验收。"@)),
                Err(m) => Err(m),
            })
        },
        ProtocolState::Pause => (
            in_phase(r, Phase::PausedForAcceptance),
            Ok((Action::PauseForAcceptance { reason: e.reason }, "ChatGPT 请求暂停，等待用户处理。"@)),
        ),
        ProtocolState::Blocked => (
            in_phase(r, Phase::Blocked),
            Ok((Action::Block { reason: e.reason }, "ChatGPT 报告阻塞，自动编排已停止。"@)),
        ),
    }
}

pub open spec fn step_result(r: Result<(Action, &'static str), String>) -> Result<(Action, Seq<char>), Seq<char>> {
    match r {
        Ok((a, m)) => Ok((a, m@)),
        Err(e) => Err(e@),
    }
}

/// Applies a validated protocol envelope from ChatGPT to the running module.
pub fn apply_protocol_envelope(runtime: &mut Runtime, envelope: ProtocolEnvelope) -> (r: Result<(Action, &'static str), String>)
    requires
        envelope.state == ProtocolState::NextTask && waits_for_chatgpt(old(runtime).phase)
            ==> old(runtime).completed_rounds < u32::MAX,
    ensures
        (*final(runtime), step_result(r)) == envelope_step(*old(runtime), envelope),
{
    match envelope.state {
        ProtocolState::NextTask => {
            let prompt = match envelope.codex_prompt {
                Some(p) => p,
                None => String::new(),
            };
            proof {
                reveal_strlit("");
            }
            let action = runtime.receive_next_task(prompt)?;
            Ok((action, "已接收 ChatGPT NEXT_TASK，正在交给 Codex。"))
        },
        ProtocolState::ModuleDone => {
            let action = runtime.receive_module_done(envelope.reason)?;
            Ok((action, "ChatGPT 已报告 MODULE_DONE，等待用户验收。"))
        },
        ProtocolState::Pause => {
            let action = runtime.receive_pause(envelope.reason);
            Ok((action, "ChatGPT 请求暂停，等待用户处理。"))
        },
        ProtocolState::Blocked => {
            let action = runtime.block(envelope.reason);
            Ok((action, "ChatGPT 报告阻塞，自动编排已停止。"))
        },
    }
}

/// The user's decision at an acceptance pause.
#[derive(Debug, Clone, Copy, PartialEq, Eq, Structural)]
pub enum AcceptanceAction {
    Approve,
    Continue,
    Stop,
    Replan,
}

/// What follows a user's acceptance decision: the recorded message, the message
/// for ChatGPT if any, and whether the module leaves the orchestrator.
#[derive(Debug, Clone)]
pub struct AcceptanceOutcome {
    pub message: &'static str,
    pub message_to_chatgpt: Option<String>,
    pub release_module: bool,
}

pub open spec fn other_module_active_error() -> Seq<char> {
    "another module is active; its acceptance decision must be resolved first"@
}

pub open spec fn replan_request_error() -> Seq<char> {
    "replan requires a short user instruction"@
}

/// The view of an acceptance outcome: message, ChatGPT message, release.
pub open spec fn outcome_view(o: AcceptanceOutcome) -> (Seq<char>, Option<Seq<char>>, bool) {
    (o.message@, string_option_view(o.message_to_chatgpt), o.release_module)
}

/// What the user's acceptance decision does to the active runtime of `module`.
pub open spec fn acceptance_step(
    r: Runtime,
    module: ModuleRecord,
    requested_module_id: Seq<char>,
    action: AcceptanceAction,
    replan_request: Option<Seq<char>>,
) -> (Runtime, Result<(Seq<char>, Option<Seq<char>>, bool), Seq<char>>) {
    if module.id@ != requested_module_id {
        (r, Err(other_module_active_error()))
    } else {
        match action {
            AcceptanceAction::Approve => {
                let (r1, s) = approve_step(r);
                (r1, match s {
                    Ok(_) => Ok(("用户已验收通过，模块已完成。"@, None, true)),
                    Err(e) => Err(e),
                })
            },
            AcceptanceAction::Continue => {
                let (r1, s) = continue_step(r);
                (r1, match s {
                    Ok(_) => Ok(
                        (
                            "用户确认继续，正在等待 ChatGPT 下一任务。"@,
                            Some(continue_message(module.name@, None)),
                            false,
                        ),
                    ),
                    Err(e) => Err(e),
                })
            },
            AcceptanceAction::Stop => {
                let (r1, s) = stop_step(r);
                (r1, match s {
                    Ok(_) => Ok(("用户已终止模块。"@, None, true)),
                    Err(e) => Err(e),
                })
            },
            AcceptanceAction::Replan => match replan_request {
                Some(request) => if trim(request).len() == 0 {
                    (r, Err(replan_request_error()))
                } else {
                    let (r1, s) = continue_step(r);
                    (r1, match s {
                        Ok(_) => Ok(
                            (
                                "用户要求重新规划，正在等待 ChatGPT。"@,
                                Some(continue_message(module.name@, Some(request))),
                                false,
                            ),
                        ),
                        Err(e) => Err(e),
                    })
                },
                None => (r, Err(replan_request_error())),
            },
        }
    }
}

/// What a message that asks ChatGPT for the next task ends with.
pub open spec fn next_task_request() -> Seq<char> {
    "。请检查仓库后只返回一个 NEXT_TASK 协议包；必须包含完整 codex_prompt 和至少一条 acceptance_criteria。"@
}

/// An acceptance decision that sends the module back to planning (continue or
/// replan) always asks ChatGPT for the next task: its message names the module
/// and ends with the NEXT_TASK request; a decision that finishes the module
/// (approve or stop) asks ChatGPT nothing and releases the module.
pub proof fn lemma_back_to_planning_asks_for_the_next_task(
    r: Runtime,
    module: ModuleRecord,
    requested_module_id: Seq<char>,
    action: AcceptanceAction,
    replan_request: Option<Seq<char>>,
)
    ensures
        ({
            let (after, outcome) = acceptance_step(r, module, requested_module_id, action, replan_request);
            &&& outcome is Ok && after.phase == Phase::WaitingForChatGptPlan ==> {
                &&& outcome->Ok_0.1 is Some
                &&& crate::text::contains(outcome->Ok_0.1->Some_0, module.name@)
                &&& crate::text::ends_with(outcome->Ok_0.1->Some_0, next_task_request())
                &&& !outcome->Ok_0.2
            }
            &&& outcome is Ok && (after.phase == Phase::Completed || after.phase == Phase::Stopped)
                ==> outcome->Ok_0.1 is None && outcome->Ok_0.2
        }),
{
    let (after, outcome) = acceptance_step(r, module, requested_module_id, action, replan_request);
    if outcome is Ok && after.phase == Phase::WaitingForChatGptPlan {
        reveal_strlit("”模块。请检查仓库后只返回一个 NEXT_TASK 协议包；必须包含完整 codex_prompt 和至少一条 acceptance_criteria。");
        reveal_strlit("。请检查仓库后只返回一个 NEXT_TASK 协议包；必须包含完整 codex_prompt 和至少一条 acceptance_criteria。");
        reveal_strlit("”模块");
        let m = outcome->Ok_0.1->Some_0;
        let name = module.name@;
        let tail = next_task_request();
        let head = match action {
            AcceptanceAction::Replan => "用户要求重新规划“"@,
            _ => "用户已确认继续“"@,
        };
        let middle = match action {
            AcceptanceAction::Replan => "”模块。补充说明："@ + trim(replan_request->Some_0),
            _ => "”模块"@,
        };
        assert(m =~= head + name + middle + tail);
        assert(m.subrange(head.len() as int, head.len() + name.len() as int) =~= name);
        assert(crate::text::matches_at(m, name, head.len() as int));
        assert(m.subrange(m.len() - tail.len(), m.len() as int) =~= tail);
    }
}

pub open spec fn outcome_result(r: Result<AcceptanceOutcome, String>) -> Result<(Seq<char>, Option<Seq<char>>, bool), Seq<char>> {
    match r {
        Ok(o) => Ok(outcome_view(o)),
        Err(e) => Err(e@),
    }
}

/// Applies the user's acceptance decision to the active module's runtime.
pub fn apply_acceptance_action(
    runtime: &mut Runtime,
    module: &ModuleRecord,
    requested_module_id: &str,
    action: AcceptanceAction,
    replan_request: Option<&str>,
) -> (r: Result<AcceptanceOutcome, String>)
    ensures
        (*final(runtime), outcome_result(r)) == acceptance_step(
            *old(runtime),
            *module,
            requested_module_id@,
            action,
            str_option_view(replan_request),
        ),
{
    if !str_equals(module.id.as_str(), requested_module_id) {
        return Err(
            String::from_str(
                "another module is active; its acceptance decision must be resolved first",
            ),
        );
    }
    match action {
        AcceptanceAction::Approve => {
            runtime.approve()?;
            Ok(
                AcceptanceOutcome {
                    message: "用户已验收通过，模块已完成。",
                    message_to_chatgpt: None,
                    release_module: true,
                },
            )
        },
        AcceptanceAction::Continue => {
            runtime.continue_after_pause()?;
            Ok(
                AcceptanceOutcome {
                    message: "用户确认继续，正在等待 ChatGPT 下一任务。",
                    message_to_chatgpt: Some(user_continue_message(module, None)),
                    release_module: false,
                },
            )
        },
        AcceptanceAction::Stop => {
            runtime.stop()?;
            Ok(
                AcceptanceOutcome {
                    message: "用户已终止模块。",
                    message_to_chatgpt: None,
                    release_module: true,
                },
            )
        },
        AcceptanceAction::Replan => {
            let request = match replan_request {
                Some(request) => {
                    if is_blank_str(request) {
                        return Err(String::from_str("replan requires a short user instruction"));
                    }
                    request
                },
                None => {
                    return Err(String::from_str("replan requires a short user instruction"));
                },
            };
            runtime.continue_after_pause()?;
            Ok(
                AcceptanceOutcome {
                    message: "用户要求重新规划，正在等待 ChatGPT。",
                    message_to_chatgpt: Some(user_continue_message(module, Some(request))),
                    release_module: false,
                },
            )
        },
    }
}

/// Why a module cannot start a new run, if it cannot: a paused or active
/// runtime of its own, no bound ChatGPT tab, or another active module.
pub open spec fn start_refusal(previous_phase: Option<Seq<char>>, tab_bound: bool, another_active: bool) -> Option<Seq<char>> {
    match previous_phase {
        Some(p) if p != "COMPLETED"@ && p != "STOPPED"@ => Some(
            "this module already has a paused or active runtime; use its acceptance controls instead of starting a new run"@,
        ),
        _ => if !tab_bound {
            Some("bind the dedicated ChatGPT tab before starting a module"@)
        } else if another_active {
            Some("another module is already active; pause or stop it before starting a new module"@)
        } else {
            None
        },
    }
}

/// Whether a module may start a new run.
pub fn check_module_start(previous_phase: Option<&str>, tab_bound: bool, another_active: bool) -> (r: Result<(), String>)
    ensures
        unit_result(r) == start_refusal(str_option_view(previous_phase), tab_bound, another_active),
{
    if let Some(phase) = previous_phase {
        if !str_equals(phase, "COMPLETED") && !str_equals(phase, "STOPPED") {
            return Err(
                String::from_str(
                    "this module already has a paused or active runtime; use its acceptance controls instead of starting a new run",
                ),
            );
        }
    }
    if !tab_bound {
        return Err(String::from_str("bind the dedicated ChatGPT tab before starting a module"));
    }
    if another_active {
        return Err(
            String::from_str(
                "another module is already active; pause or stop it before starting a new module",
            ),
        );
    }
    Ok(())
}

/// How a Codex turn begins: the budget pauses the module first, or Codex starts.
#[derive(Debug, Clone)]
pub enum TurnStart {
    Paused(String),
    Started,
}

/// What beginning a Codex turn does: a budget reason pauses the module,
/// otherwise the handed-out turn is marked as running.
pub open spec fn begin_turn_step(r: Runtime, b: Budget, module_elapsed_ms: i64, global_elapsed_ms: i64) -> (Runtime, Result<Option<Seq<char>>, Seq<char>>) {
    match budget_reason(r, b, module_elapsed_ms, global_elapsed_ms) {
        Some(reason) => (in_phase(r, Phase::PausedForAcceptance), Ok(Some(reason))),
        None => {
            let (r1, s) = crate::orchestration::started_step(r);
            (r1, match s {
                Ok(_) => Ok(None),
                Err(e) => Err(e),
            })
        },
    }
}

pub open spec fn turn_start_result(r: Result<TurnStart, String>) -> Result<Option<Seq<char>>, Seq<char>> {
    match r {
        Ok(TurnStart::Paused(reason)) => Ok(Some(reason@)),
        Ok(TurnStart::Started) => Ok(None),
        Err(e) => Err(e@),
    }
}

/// Checks the budget before a Codex turn starts, pausing the module when it is spent.
pub fn begin_codex_turn(runtime: &mut Runtime, budget: &Budget, module_elapsed_ms: i64, global_elapsed_ms: i64) -> (r: Result<TurnStart, String>)
    requires
        budget_checkable(*old(runtime), *budget, module_elapsed_ms),
    ensures
        (*final(runtime), turn_start_result(r)) == begin_turn_step(
            *old(runtime),
            *budget,
            module_elapsed_ms,
            global_elapsed_ms,
        ),
{
    match budget_pause_reason(runtime, budget, module_elapsed_ms, global_elapsed_ms) {
        Some(reason) => {
            runtime.pause(reason.clone());
            Ok(TurnStart::Paused(reason))
        },
        None => {
            runtime.codex_started()?;
            Ok(TurnStart::Started)
        },
    }
}

/// The runtime once a finished turn has been recorded, before the second
/// budget check: a spent budget first defers a pause, then the turn completes.
pub open spec fn recorded_turn(r: Runtime, summary: String, b: Budget, m1: i64, g1: i64) -> (Runtime, bool) {
    let deferred = budget_reason(r, b, m1, g1) is Some;
    if deferred && deferred_pause_step(r).1 is Err {
        (r, false)
    } else {
        let r1 = if deferred {
            deferred_pause_step(r).0
        } else {
            r
        };
        let (r2, a) = completed_step(r1, summary);
        (r2, a is Ok)
    }
}

/// What finishing a verified Codex turn does: `None` when the runtime could not
/// take the result, else the review request, or an acceptance pause when the
/// budget is spent. The budget is checked twice, at the two given times.
pub open spec fn finish_turn_step(r: Runtime, summary: String, b: Budget, m1: i64, g1: i64, m2: i64, g2: i64) -> (Runtime, Option<ActionView>) {
    let (r2, completed) = recorded_turn(r, summary, b, m1, g1);
    if !completed {
        (r2, None)
    } else {
        match budget_reason(r2, b, m2, g2) {
            Some(reason) => (
                in_phase(r2, Phase::PausedForAcceptance),
                Some(ActionView::PauseForAcceptance { reason }),
            ),
            None => (
                r2,
                Some(
                    ActionView::SendReviewRequest {
                        round: r2.completed_rounds,
                        codex_summary: summary@,
                    },
                ),
            ),
        }
    }
}

pub open spec fn action_option_view(a: Option<Action>) -> Option<ActionView> {
    match a {
        Some(x) => Some(x@),
        None => None,
    }
}

/// Records a verified Codex turn in the runtime and decides what follows it.
pub fn finish_codex_turn(
    runtime: &mut Runtime,
    summary: String,
    budget: &Budget,
    module_elapsed_ms: i64,
    global_elapsed_ms: i64,
    module_elapsed_ms_after: i64,
    global_elapsed_ms_after: i64,
) -> (r: Option<Action>)
    requires
        old(runtime).phase == Phase::CodexRunning ==> old(runtime).completed_rounds < u32::MAX,
        budget_checkable(*old(runtime), *budget, module_elapsed_ms),
        recorded_turn(*old(runtime), summary, *budget, module_elapsed_ms, global_elapsed_ms).1
            ==> budget_checkable(
            recorded_turn(*old(runtime), summary, *budget, module_elapsed_ms, global_elapsed_ms).0,
            *budget,
            module_elapsed_ms_after,
        ),
    ensures
        (*final(runtime), action_option_view(r)) == finish_turn_step(
            *old(runtime),
            summary,
            *budget,
            module_elapsed_ms,
            global_elapsed_ms,
            module_elapsed_ms_after,
            global_elapsed_ms_after,
        ),
{
    let ghost summary_view = summary@;
    if budget_pause_reason(runtime, budget, module_elapsed_ms, global_elapsed_ms).is_some() {
        if runtime.request_pause_after_current_turn().is_err() {
            return None;
        }
    }
    let action = match runtime.codex_completed(summary) {
        Ok(action) => action,
        Err(_) => {
            return None;
        },
    };
    match budget_pause_reason(runtime, budget, module_elapsed_ms_after, global_elapsed_ms_after) {
        Some(reason) => Some(runtime.pause(reason)),
        None => Some(action),
    }
}

/// Whether `finish_codex_turn` can compare the budget at both of its times:
/// before the turn is recorded at `module_elapsed_ms`, and after it at
/// `module_elapsed_ms_after` when the turn is recorded.
pub fn finish_budget_checkable(
    runtime: &Runtime,
    summary: &String,
    budget: &Budget,
    module_elapsed_ms: i64,
    global_elapsed_ms: i64,
    module_elapsed_ms_after: i64,
) -> (b: bool)
    requires
        runtime.phase == Phase::CodexRunning ==> runtime.completed_rounds < u32::MAX,
    ensures
        b == (budget_checkable(*runtime, *budget, module_elapsed_ms) && (recorded_turn(
            *runtime,
            *summary,
            *budget,
            module_elapsed_ms,
            global_elapsed_ms,
        ).1 ==> budget_checkable(
            recorded_turn(*runtime, *summary, *budget, module_elapsed_ms, global_elapsed_ms).0,
            *budget,
            module_elapsed_ms_after,
        ))),
{
    if !budget_is_checkable(runtime, budget, module_elapsed_ms) {
        return false;
    }
    let mut r = Runtime {
        phase: runtime.phase,
        completed_rounds: runtime.completed_rounds,
        pause_after_current_turn: runtime.pause_after_current_turn,
    };
    if budget_pause_reason(&r, budget, module_elapsed_ms, global_elapsed_ms).is_some() {
        if r.request_pause_after_current_turn().is_err() {
            return true;
        }
    }
    match r.codex_completed(summary.clone()) {
        Ok(_) => budget_is_checkable(&r, budget, module_elapsed_ms_after),
        Err(_) => true,
    }
}

/// After a finished turn the module pauses exactly when a budget reason holds
/// for the runtime that recorded the turn, and the pause gives that reason: a
/// review is requested only within budget, and then for the round just
/// completed.
pub proof fn lemma_finished_turn_pauses_exactly_when_budget_is_spent(
    r: Runtime,
    summary: String,
    b: Budget,
    m1: i64,
    g1: i64,
    m2: i64,
    g2: i64,
)
    ensures
        ({
            let (after, action) = finish_turn_step(r, summary, b, m1, g1, m2, g2);
            &&& action matches Some(ActionView::SendReviewRequest { round, codex_summary }) ==> {
                &&& budget_reason(after, b, m2, g2) is None
                &&& after.phase == Phase::WaitingForChatGptReview
                &&& round == after.completed_rounds
                &&& codex_summary == summary@
            }
            &&& action matches Some(ActionView::PauseForAcceptance { reason }) ==> {
                &&& after.phase == Phase::PausedForAcceptance
                &&& budget_reason(after, b, m2, g2) == Some(reason)
            }
        }),
{
}

/// A turn that uses up the round budget is counted and then pauses the module
/// for acceptance; it never asks ChatGPT for a review.
pub proof fn lemma_last_round_pauses_after_the_turn(
    r: Runtime,
    summary: String,
    b: Budget,
    m1: i64,
    g1: i64,
    m2: i64,
    g2: i64,
)
    requires
        r.phase == Phase::CodexRunning,
        r.completed_rounds < u32::MAX,
        r.completed_rounds + 1 >= b.max_rounds,
    ensures
        finish_turn_step(r, summary, b, m1, g1, m2, g2).0.phase == Phase::PausedForAcceptance,
        finish_turn_step(r, summary, b, m1, g1, m2, g2).0.completed_rounds == r.completed_rounds + 1,
        finish_turn_step(r, summary, b, m1, g1, m2, g2).1 matches Some(
            ActionView::PauseForAcceptance { .. },
        ),
{
}

/// A spent budget is never bypassed: no Codex turn starts, the module pauses
/// for acceptance.
pub proof fn lemma_spent_budget_starts_no_turn(r: Runtime, b: Budget, module_elapsed_ms: i64, global_elapsed_ms: i64)
    requires
        budget_reason(r, b, module_elapsed_ms, global_elapsed_ms) is Some,
    ensures
        begin_turn_step(r, b, module_elapsed_ms, global_elapsed_ms).0.phase
            == Phase::PausedForAcceptance,
        begin_turn_step(r, b, module_elapsed_ms, global_elapsed_ms).1 is Ok,
        begin_turn_step(r, b, module_elapsed_ms, global_elapsed_ms).1->Ok_0 is Some,
{
}

/// A budget reached while Codex runs lets the turn finish and count, and then
/// pauses the module for acceptance instead of asking ChatGPT for a review.
pub proof fn lemma_budget_reached_during_turn_pauses_after_it(
    r: Runtime,
    summary: String,
    b: Budget,
    m1: i64,
    g1: i64,
    m2: i64,
    g2: i64,
)
    requires
        r.phase == Phase::CodexRunning,
        r.completed_rounds < u32::MAX,
        budget_reason(r, b, m1, g1) is Some,
    ensures
        finish_turn_step(r, summary, b, m1, g1, m2, g2).1 == Some(
            ActionView::PauseForAcceptance { reason: deferred_budget_reason() },
        ),
        finish_turn_step(r, summary, b, m1, g1, m2, g2).0.phase == Phase::PausedForAcceptance,
        finish_turn_step(r, summary, b, m1, g1, m2, g2).0.completed_rounds == r.completed_rounds
            + 1,
{
}

} // verus!
